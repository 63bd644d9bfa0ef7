//! The JPEG encoder session: its configuration record, its error taxonomy,
//! and the hardware protocol of one encode as a state machine.
use vstd::prelude::*;

use crate::errno::{errno_name, errno_name_of, EACCES, EFAULT};
use crate::m4u::{self, error_of, M4u, Mva, Port};

verus! {

pub const JPEG_ENC_IOCTL_INIT: usize = 0x780b;

pub const JPEG_ENC_IOCTL_DEINIT: usize = 0x780e;

pub const JPEG_ENC_IOCTL_START: usize = 0x780f;

pub const JPEG_ENC_IOCTL_WAIT: usize = 0xc020780d;

pub const JPEG_ENC_IOCTL_CONFIG: usize = 0x4040780c;

/// How long the WAIT call lets the hardware run, in the driver's units.
pub const WAIT_TIMEOUT: u64 = 1000;

/// Pixel formats that the encoder reads.
#[derive(Debug, Clone, Copy, PartialEq, Eq, Structural)]
pub enum Format {
    Yuy2,
    Yvyu,
    Nv12,
    Nv21,
    Yuv444,
    Yuv422,
    Yuv411,
    Yuv420,
    Grayscale,
}

impl Format {
    /// The code of this format in the kernel ABI.
    pub open spec fn spec_raw(&self) -> u32 {
        match self {
            Format::Yuy2 => 0,
            Format::Yvyu => 1,
            Format::Nv12 => 2,
            Format::Nv21 => 3,
            Format::Yuv444 => 444,
            Format::Yuv422 => 422,
            Format::Yuv411 => 411,
            Format::Yuv420 => 420,
            Format::Grayscale => 400,
        }
    }

    pub fn raw(&self) -> (r: u32)
        ensures
            r == self.spec_raw(),
    {
        match self {
            Format::Yuy2 => 0,
            Format::Yvyu => 1,
            Format::Nv12 => 2,
            Format::Nv21 => 3,
            Format::Yuv444 => 444,
            Format::Yuv422 => 422,
            Format::Yuv411 => 411,
            Format::Yuv420 => 420,
            Format::Grayscale => 400,
        }
    }
}

/// Quality presets of the encoder.
#[derive(Debug, Clone, Copy, PartialEq, Eq, Structural)]
pub enum Quality {
    Q60,
    Q80,
    Q90,
    Q95,
    Q39,
    Q68,
    Q84,
    Q92,
    Q48,
    Q74,
    Q87,
    Q34,
    Q64,
    Q82,
    QAll,
}

impl Quality {
    /// The code of this preset in the kernel ABI.
    pub open spec fn spec_raw(&self) -> u32 {
        match self {
            Quality::Q60 => 0x0,
            Quality::Q80 => 0x1,
            Quality::Q90 => 0x2,
            Quality::Q95 => 0x3,
            Quality::Q39 => 0x4,
            Quality::Q68 => 0x5,
            Quality::Q84 => 0x6,
            Quality::Q92 => 0x7,
            Quality::Q48 => 0x9,
            Quality::Q74 => 0xA,
            Quality::Q87 => 0xB,
            Quality::Q34 => 0xD,
            Quality::Q64 => 0xE,
            Quality::Q82 => 0xF,
            Quality::QAll => 0x10,
        }
    }

    pub fn raw(&self) -> (r: u32)
        ensures
            r == self.spec_raw(),
    {
        match self {
            Quality::Q60 => 0x0,
            Quality::Q80 => 0x1,
            Quality::Q90 => 0x2,
            Quality::Q95 => 0x3,
            Quality::Q39 => 0x4,
            Quality::Q68 => 0x5,
            Quality::Q84 => 0x6,
            Quality::Q92 => 0x7,
            Quality::Q48 => 0x9,
            Quality::Q74 => 0xA,
            Quality::Q87 => 0xB,
            Quality::Q34 => 0xD,
            Quality::Q64 => 0xE,
            Quality::Q82 => 0xF,
            Quality::QAll => 0x10,
        }
    }
}

/// `x` rounded up to the next multiple of 16.
pub open spec fn ceil16(x: nat) -> nat {
    ((x + 15) / 16) * 16
}

/// The number of encode data units of a `w` by `h` NV12 image, counted from
/// zero: six per 16x16 block.
pub open spec fn total_du(w: nat, h: nat) -> int {
    (ceil16(w) / 16) * (ceil16(h) / 16) * 6 - 1
}

/// Dimensions whose strides and data-unit count fit the ABI's 32-bit fields.
pub open spec fn dims_ok(w: u32, h: u32) -> bool {
    1 <= w <= u32::MAX - 15 && 1 <= h <= u32::MAX - 15 && total_du(w as nat, h as nat)
        <= u32::MAX
}

proof fn lemma_mask16(x: u32)
    requires
        x <= u32::MAX - 15,
    ensures
        ((x + 15) as u32) & !15u32 == (((x + 15) as u32) / 16) * 16,
{
    let y: u32 = (x + 15) as u32;
    assert(y & !15u32 == (y / 16) * 16) by (bit_vector);
}

/// Rounds `x` up to a multiple of 16 by masking: `(x + 15) & !15`.
pub fn stepceil16(x: u32) -> (r: u32)
    requires
        x <= u32::MAX - 15,
    ensures
        r == ceil16(x as nat),
{
    proof {
        lemma_mask16(x);
    }
    (x + 15) & !15u32
}

/// Rounding to a multiple of 16 leaves a multiple of 16 unchanged, and
/// rounding twice is rounding once.
pub proof fn lemma_ceil16_idempotent(x: nat)
    ensures
        x % 16 == 0 ==> ceil16(x) == x,
        ceil16(ceil16(x)) == ceil16(x),
        ceil16(x) % 16 == 0,
        x <= ceil16(x) < x + 16,
{
}

/// The data-unit count is six per started 16x16 block, minus one.
pub proof fn lemma_total_du_formula(w: nat, h: nat)
    ensures
        total_du(w, h) == ((w + 15) / 16) * ((h + 15) / 16) * 6 - 1,
{
    assert(((w + 15) / 16) * 16 / 16 == (w + 15) / 16) by (nonlinear_arith);
    assert(((h + 15) / 16) * 16 / 16 == (h + 15) / 16) by (nonlinear_arith);
}

/// Whether `w` by `h` can be described to the encoder.
pub fn dims_fit(w: u32, h: u32) -> (r: bool)
    ensures
        r == dims_ok(w, h),
{
    if w == 0 || h == 0 || w > u32::MAX - 15 || h > u32::MAX - 15 {
        return false;
    }
    let bw: u64 = (stepceil16(w) / 16) as u64;
    let bh: u64 = (stepceil16(h) / 16) as u64;
    assert(bw * bh <= 0x1000_0000 * 0x1000_0000) by (nonlinear_arith)
        requires bw <= 0x1000_0000, bh <= 0x1000_0000;
    let blocks: u64 = bw * bh;
    proof {
        assert(bw >= 1 && bh >= 1);
        assert(blocks >= 1) by (nonlinear_arith) requires bw >= 1, bh >= 1, blocks == bw * bh;
    }
    blocks <= 0x2aaa_aaaa
}

/// Number of 16x16 encode data units, counted from zero.
pub fn total_enc_du(w: u32, h: u32) -> (r: u32)
    requires
        dims_ok(w, h),
    ensures
        r == total_du(w as nat, h as nat),
{
    let bw: u32 = stepceil16(w) / 16;
    let bh: u32 = stepceil16(h) / 16;
    assert(bw >= 1 && bh >= 1);
    assert(bw * bh * 6 - 1 <= u32::MAX);
    assert(bw * bh >= 1) by (nonlinear_arith) requires bw >= 1, bh >= 1;
    bw * bh * 6 - 1
}

/// Driver-level failures of the encoder session.
#[derive(Debug, Clone, Copy)]
pub enum Error {
    PermissionDenied,
    SyscallError(i32),
    /// An ioctl failed: the operation's name and the kernel's name for the error.
    IoctlError(&'static str, &'static str),
    M4uError(m4u::Error),
}

/// Outcomes of an encode other than success.
#[derive(Debug, Clone, Copy)]
pub enum EncodeError {
    OutputBufferTooSmall,
    Timeout,
    Unknown,
    IoError(Error),
    M4uError(m4u::Error),
}

/// The name under which an ioctl failure with `code` is reported.
pub open spec fn name_of(code: i32) -> Seq<char> {
    match errno_name_of(code) {
        Some(n) => n,
        None => "no name"@,
    }
}

/// `e` reports a failure of the ioctl `op` with platform error `code`.
pub open spec fn is_ioctl_error(e: Error, op: Seq<char>, code: i32) -> bool {
    e matches Error::IoctlError(o, n) && o@ == op && n@ == name_of(code)
}

/// The error that a failed system call with `code` stands for.
pub open spec fn syscall_error_of(code: i32) -> Error {
    if code == EACCES {
        Error::PermissionDenied
    } else {
        Error::SyscallError(code)
    }
}

impl Error {
    /// Translates a platform error code of a plain system call.
    pub fn from_errno(code: i32) -> (r: Error)
        ensures
            r == syscall_error_of(code),
    {
        if code == EACCES {
            Error::PermissionDenied
        } else {
            Error::SyscallError(code)
        }
    }

    /// The error for a failure of the ioctl named `op` with `code`.
    pub fn ioctl(op: &'static str, code: i32) -> (r: Error)
        ensures
            is_ioctl_error(r, op@, code),
    {
        proof {
            reveal_strlit("no name");
        }
        match errno_name(code) {
            Some(n) => Error::IoctlError(op, n),
            None => Error::IoctlError(op, "no name"),
        }
    }
}

/// What the result code of a finished WAIT means.
pub open spec fn outcome_of(result: u32, file_size: u32) -> Result<u32, EncodeError> {
    if result == 0 {
        Ok(file_size)
    } else if result == 1 {
        Err(EncodeError::OutputBufferTooSmall)
    } else if result == 2 {
        Err(EncodeError::Timeout)
    } else {
        Err(EncodeError::Unknown)
    }
}

/// Interprets the hardware's result code: 0 is success with `file_size`
/// bytes written, 1 an output buffer too small, 2 a timeout, anything else
/// an unknown failure.
pub fn result_outcome(result: u32, file_size: u32) -> (r: Result<u32, EncodeError>)
    ensures
        r == outcome_of(result, file_size),
        result == 0 <==> r == Ok::<u32, EncodeError>(file_size),
        result == 1 <==> r matches Err(EncodeError::OutputBufferTooSmall),
        result == 2 <==> r matches Err(EncodeError::Timeout),
        result > 2 <==> r matches Err(EncodeError::Unknown),
{
    match result {
        0 => Ok(file_size),
        1 => Err(EncodeError::OutputBufferTooSmall),
        2 => Err(EncodeError::Timeout),
        _ => Err(EncodeError::Unknown),
    }
}

/// `e` is what a WAIT call that failed with `code` reports: a bad address
/// means the output buffer is too small, anything else is an ioctl error.
pub open spec fn is_wait_failure(e: EncodeError, code: i32) -> bool {
    if code == EFAULT {
        e == EncodeError::OutputBufferTooSmall
    } else {
        e matches EncodeError::IoError(inner) && is_ioctl_error(
            inner,
            "JPEG_ENC_IOCTL_WAIT"@,
            code,
        )
    }
}

/// The outcome of a WAIT call that failed with `code`.
pub fn wait_failure(code: i32) -> (r: EncodeError)
    ensures
        is_wait_failure(r, code),
        code == EFAULT <==> r matches EncodeError::OutputBufferTooSmall,
{
    if code == EFAULT {
        EncodeError::OutputBufferTooSmall
    } else {
        EncodeError::IoError(Error::ioctl("JPEG_ENC_IOCTL_WAIT", code))
    }
}

/// The configuration record of the CONFIG ioctl, field for field in the
/// order of the kernel's C layout.
#[derive(Debug, Clone, Copy, PartialEq, Eq, Structural)]
pub struct MtkEncodeConfig {
    pub dst_addr: u32,
    pub dst_size: u32,
    pub width: u32,
    pub height: u32,
    pub dst_exif_en: u8,
    pub alloc_buffer: u8,
    pub quality: u32,
    pub yuv_format: u32,
    pub disable_gmc: u32,
    pub restart_interval: u32,
    pub luma_addr: u32,
    pub chroma_addr: u32,
    pub img_stride: u32,
    pub mem_stride: u32,
    pub total_enc_du: u32,
    pub dst_offset_addr: u32,
    pub dst_byte_offset_mask: u32,
}

/// The record that describes an NV12 image in the mappings `y`, `uv` and
/// `out` to the encoder.
pub open spec fn config_record<T: Port>(
    width: u32,
    height: u32,
    y: Mva<T>,
    uv: Mva<T>,
    out: Mva<T>,
) -> MtkEncodeConfig {
    MtkEncodeConfig {
        dst_addr: out.start,
        dst_size: out.len,
        width,
        height,
        dst_exif_en: 0,
        alloc_buffer: 0,
        quality: Quality::Q90.spec_raw(),
        yuv_format: Format::Nv12.spec_raw(),
        disable_gmc: 0,
        restart_interval: 0,
        luma_addr: y.start,
        chroma_addr: uv.start,
        img_stride: ceil16(width as nat) as u32,
        mem_stride: ceil16(width as nat) as u32,
        total_enc_du: total_du(width as nat, height as nat) as u32,
        dst_offset_addr: 0,
        dst_byte_offset_mask: 0,
    }
}

/// Builds the configuration record of one encode.
pub fn make_config<T: Port>(width: u32, height: u32, y: &Mva<T>, uv: &Mva<T>, out: &Mva<T>) -> (r:
    MtkEncodeConfig)
    requires
        dims_ok(width, height),
    ensures
        r == config_record(width, height, *y, *uv, *out),
{
    let stride = stepceil16(width);
    MtkEncodeConfig {
        dst_addr: out.start,
        dst_size: out.len,
        width,
        height,
        dst_exif_en: 0,
        alloc_buffer: 0,
        quality: Quality::Q90.raw(),
        yuv_format: Format::Nv12.raw(),
        disable_gmc: 0,
        restart_interval: 0,
        luma_addr: y.start,
        chroma_addr: uv.start,
        img_stride: stride,
        mem_stride: stride,
        total_enc_du: total_enc_du(width, height),
        dst_offset_addr: 0,
        dst_byte_offset_mask: 0,
    }
}

/// A buffer handed to the encoder: its user address and its length in bytes.
#[derive(Debug, Clone, Copy, PartialEq, Eq, Structural)]
pub struct Plane {
    pub addr: usize,
    pub len: u32,
}

/// What one encode works on: the image's size, its two NV12 planes, the
/// output buffer, and the ports the inputs and the output attach to.
#[derive(Debug, Clone, Copy)]
pub struct EncodeConfig<T: Port> {
    pub width: u32,
    pub height: u32,
    pub uv_plane: Plane,
    pub y_plane: Plane,
    pub output: Plane,
    pub read_port: T,
    pub write_port: T,
}

impl<T: Port> EncodeConfig<T> {
    /// The buffer mapped in the `k`-th step: luma, chroma, then output.
    pub open spec fn plane(&self, k: int) -> Plane {
        if k == 0 {
            self.y_plane
        } else if k == 1 {
            self.uv_plane
        } else {
            self.output
        }
    }

    /// The port of the `k`-th mapped buffer.
    pub open spec fn port(&self, k: int) -> T {
        if k < 2 {
            self.read_port
        } else {
            self.write_port
        }
    }

    /// Each buffer starts on a 16-byte boundary, and the image can be described.
    pub open spec fn valid(&self) -> bool {
        self.y_plane.addr % 16 == 0 && self.uv_plane.addr % 16 == 0 && self.output.addr % 16
            == 0 && dims_ok(self.width, self.height)
    }
}

/// An open encoder device with its own M4U session.
pub struct MtkJpeg {
    pub fd: usize,
    pub m4u: M4u,
}

impl MtkJpeg {
    /// Builds a session from the answers of the three opening steps: opening
    /// the encoder device, its INIT ioctl, and opening the M4U. A later answer
    /// is read only when the earlier ones succeeded.
    pub fn open(
        opened: Result<usize, i32>,
        init: Result<(), i32>,
        m4u_opened: Result<usize, i32>,
    ) -> (r: Result<MtkJpeg, Error>)
        ensures
            match (opened, init, m4u_opened) {
                (Err(c), _, _) => r matches Err(e) && e == syscall_error_of(c),
                (Ok(_), Err(c), _) => r matches Err(e) && is_ioctl_error(
                    e,
                    "JPEG_ENC_IOCTL_INIT"@,
                    c,
                ),
                (Ok(_), Ok(_), Err(c)) => r matches Err(e) && e == Error::M4uError(error_of(c)),
                (Ok(fd), Ok(_), Ok(mfd)) => r matches Ok(j) && j.fd == fd && j.m4u.fd == mfd,
            },
    {
        let fd = match opened {
            Ok(fd) => fd,
            Err(c) => return Err(Error::from_errno(c)),
        };
        match init {
            Ok(_) => {},
            Err(c) => return Err(Error::ioctl("JPEG_ENC_IOCTL_INIT", c)),
        }
        match M4u::open(m4u_opened) {
            Ok(m4u) => Ok(MtkJpeg { fd, m4u }),
            Err(e) => Err(Error::M4uError(e)),
        }
    }
}

} // verus!
