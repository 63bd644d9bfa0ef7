//! The M4U buffer manager: mapping user buffers into device-virtual memory,
//! releasing those mappings, and keeping CPU caches coherent with them.
use vstd::prelude::*;

use crate::errno::EACCES;

verus! {

/// ioctl number that registers a buffer with the M4U.
pub const MTK_M4U_T_ALLOC_MVA: usize = 0xc0046704;

/// ioctl number that releases a registration.
pub const MTK_M4U_T_DEALLOC_MVA: usize = 0x40046705;

/// ioctl number of a cache synchronisation on a mapped range.
pub const MTK_M4U_T_CACHE_SYNC: usize = 0x4004670a;

/// Protection bits asked for on every mapping: read and write.
pub const PROT_READ_WRITE: u32 = 3;

/// Driver-level failures, shared by the buffer manager and the encoder.
#[derive(Debug, Clone, Copy, PartialEq, Eq, Structural)]
pub enum Error {
    PermissionDenied,
    DriverError(i32),
}

/// The error that a failed call with platform error code `code` stands for.
pub open spec fn error_of(code: i32) -> Error {
    if code == EACCES {
        Error::PermissionDenied
    } else {
        Error::DriverError(code)
    }
}

impl Error {
    /// Translates a platform error code: lack of privilege is told apart,
    /// anything else keeps its raw code.
    pub fn from_errno(code: i32) -> (r: Error)
        ensures
            r == error_of(code),
    {
        if code == EACCES {
            Error::PermissionDenied
        } else {
            Error::DriverError(code)
        }
    }
}

/// A DMA port of the SoC: anything that yields its wire-level code.
pub trait Port: Copy {
    spec fn spec_raw(&self) -> u32;

    fn raw(&self) -> (r: u32)
        ensures
            r == self.spec_raw(),
    ;
}

/// The cache operation to perform on a mapped range.
#[derive(Debug, Clone, Copy, PartialEq, Eq, Structural)]
pub enum SyncMode {
    CleanByRange,
    InvalidByRange,
    FlushByRange,
    CleanAll,
    InvalidAll,
    FlushAll,
}

impl SyncMode {
    /// The code of this mode in the kernel ABI.
    pub open spec fn spec_raw(&self) -> u32 {
        match self {
            SyncMode::CleanByRange => 0,
            SyncMode::InvalidByRange => 1,
            SyncMode::FlushByRange => 2,
            SyncMode::CleanAll => 3,
            SyncMode::InvalidAll => 4,
            SyncMode::FlushAll => 5,
        }
    }

    pub fn raw(&self) -> (r: u32)
        ensures
            r == self.spec_raw(),
    {
        match self {
            SyncMode::CleanByRange => 0,
            SyncMode::InvalidByRange => 1,
            SyncMode::FlushByRange => 2,
            SyncMode::CleanAll => 3,
            SyncMode::InvalidAll => 4,
            SyncMode::FlushAll => 5,
        }
    }
}

/// The record that the allocate and deallocate ioctls carry, field for
/// field in the order of the kernel's C layout.
#[derive(Debug, Clone, Copy, PartialEq, Eq, Structural)]
pub struct Module {
    pub port: u32,
    pub buf_addr: usize,
    pub buf_size: u32,
    pub prot: u32,
    pub mva_start: u32,
    pub mva_end: u32,
    pub flags: u32,
}

/// The record that the cache-sync ioctl carries, in the kernel's C layout.
#[derive(Debug, Clone, Copy, PartialEq, Eq, Structural)]
pub struct Cache {
    pub port: u32,
    pub sync_mode: u32,
    pub va: usize,
    pub size: u32,
    pub mva: u32,
}

/// A session with the M4U device, identified by its open handle.
pub struct M4u {
    pub fd: usize,
}

/// One outstanding registration of a user buffer with the M4U.
#[derive(Debug, Clone, Copy)]
pub struct Mva<T: Port> {
    pub port: T,
    pub start: u32,
    pub va: usize,
    pub len: u32,
}

impl M4u {
    /// Turns the outcome of opening the M4U device (a handle or a platform
    /// error code) into a session.
    pub fn open(opened: Result<usize, i32>) -> (r: Result<M4u, Error>)
        ensures
            match opened {
                Ok(fd) => r matches Ok(m) && m.fd == fd,
                Err(code) => r == Err::<M4u, Error>(error_of(code)),
            },
    {
        match opened {
            Ok(fd) => Ok(M4u { fd }),
            Err(code) => Err(Error::from_errno(code)),
        }
    }

    /// The record that asks the M4U to map `len` bytes at `buf` for `port`.
    /// A buffer whose start is not 16-byte aligned is a caller bug.
    pub fn alloc_request<T: Port>(&self, port: T, buf: usize, len: u32) -> (r: Module)
        requires
            buf % 16 == 0,
        ensures
            r == (Module {
                port: port.spec_raw(),
                buf_addr: buf,
                buf_size: len,
                prot: PROT_READ_WRITE,
                mva_start: 0,
                mva_end: 0,
                flags: 0,
            }),
    {
        Module {
            port: port.raw(),
            buf_addr: buf,
            buf_size: len,
            prot: PROT_READ_WRITE,
            mva_start: 0,
            mva_end: 0,
            flags: 0,
        }
    }

    /// Registers `len` bytes at `buf` for `port`, given what the allocate
    /// ioctl answered: the start of the device-virtual range, or an error code.
    pub fn allocate<T: Port>(&self, port: T, buf: usize, len: u32, answer: Result<u32, i32>) -> (r:
        Result<Mva<T>, Error>)
        requires
            buf % 16 == 0,
        ensures
            match answer {
                Ok(start) => r matches Ok(m) && m.port == port && m.start == start && m.va == buf
                    && m.len == len,
                Err(code) => r matches Err(e) && e == error_of(code),
            },
    {
        match answer {
            Ok(start) => Ok(Mva { port, start, va: buf, len }),
            Err(code) => Err(Error::from_errno(code)),
        }
    }
}

impl<T: Port> Mva<T> {
    /// The record that releases this registration.
    pub fn release_request(&self) -> (r: Module)
        ensures
            r == (Module {
                port: self.port.spec_raw(),
                buf_addr: 0,
                buf_size: 0,
                prot: 0,
                mva_start: self.start,
                mva_end: 0,
                flags: 0,
            }),
    {
        Module {
            port: self.port.raw(),
            buf_addr: 0,
            buf_size: 0,
            prot: 0,
            mva_start: self.start,
            mva_end: 0,
            flags: 0,
        }
    }

    /// The record that synchronises the cache over this whole mapping.
    pub fn sync_request(&self, mode: SyncMode) -> (r: Cache)
        ensures
            r == (Cache {
                port: self.port.spec_raw(),
                sync_mode: mode.spec_raw(),
                va: self.va,
                size: self.len,
                mva: self.start,
            }),
    {
        Cache {
            port: self.port.raw(),
            sync_mode: mode.raw(),
            va: self.va,
            size: self.len,
            mva: self.start,
        }
    }

    /// What a cache sync on this mapping returns, given the ioctl's answer.
    pub fn flush(&self, answer: Result<(), i32>) -> (r: Result<(), Error>)
        ensures
            match answer {
                Ok(_) => r is Ok,
                Err(code) => r == Err::<(), Error>(error_of(code)),
            },
    {
        match answer {
            Ok(_) => Ok(()),
            Err(code) => Err(Error::from_errno(code)),
        }
    }
}

} // verus!
