use mtk_jpeg::encode::{Action, EncodeRun, Event};
use mtk_jpeg::errno::{EACCES, EFAULT};
use mtk_jpeg::jpeg::{
    dims_fit, result_outcome, stepceil16, total_enc_du, wait_failure, EncodeConfig, EncodeError,
    Error, Format, MtkJpeg, Plane, Quality,
};
use mtk_jpeg::m4u::{self, M4u, Port as _, SyncMode};
use mtk_jpeg::mt6768::Port;

fn session() -> MtkJpeg {
    MtkJpeg::open(Ok(3), Ok(()), Ok(4)).unwrap()
}

fn config_64() -> EncodeConfig<Port> {
    EncodeConfig {
        width: 64,
        height: 64,
        y_plane: Plane { addr: 0x10000, len: 4096 },
        uv_plane: Plane { addr: 0x20000, len: 2048 },
        output: Plane { addr: 0x30000, len: 65535 },
        read_port: Port::JpgencRdma,
        write_port: Port::JpgencBsdma,
    }
}

/// Drives one encode against a mock device whose WAIT answers `wait`.
fn run_mock(wait: Event) -> (Result<u32, EncodeError>, Vec<Action>) {
    let jpeg = session();
    let (mut run, mut action): (EncodeRun<Port>, Action) = jpeg.encode(config_64());
    let mut seen = Vec::new();
    let mut next_mva: u32 = 0x100;
    loop {
        seen.push(action);
        let ev = match action {
            Action::MapBuffer(_) => {
                next_mva += 0x100;
                Event::Mapped(next_mva)
            }
            Action::Wait(_) => wait,
            Action::Finish(r) => return (r, seen),
            _ => Event::Done,
        };
        action = run.step(ev);
    }
}

#[test]
fn encode_64x64_succeeds_with_file_size() {
    let (r, actions) = run_mock(Event::Waited(0, 1200));
    assert!(matches!(r, Ok(1200)));
    let configured = actions.iter().find_map(|a| match a {
        Action::Configure(c) => Some(*c),
        _ => None,
    });
    let c = configured.unwrap();
    assert_eq!(c.width, 64);
    assert_eq!(c.height, 64);
    assert_eq!(c.img_stride, 64);
    assert_eq!(c.mem_stride, 64);
    assert_eq!(c.total_enc_du, 95);
    assert_eq!(c.yuv_format, 2);
    assert_eq!(c.quality, 2);
    assert_eq!(c.luma_addr, 0x200);
    assert_eq!(c.chroma_addr, 0x300);
    assert_eq!(c.dst_addr, 0x400);
    assert_eq!(c.dst_size, 65535);
}

#[test]
fn encode_releases_in_reverse_order() {
    let (_, actions) = run_mock(Event::Waited(0, 1200));
    let mapped: Vec<usize> = actions
        .iter()
        .filter_map(|a| match a {
            Action::MapBuffer(m) => Some(m.buf_addr),
            _ => None,
        })
        .collect();
    assert_eq!(mapped, vec![0x10000, 0x20000, 0x30000]);
    let released: Vec<(u32, u32)> = actions
        .iter()
        .filter_map(|a| match a {
            Action::Release(m) => Some((m.mva_start, m.port)),
            _ => None,
        })
        .collect();
    assert_eq!(released, vec![(0x400, 56), (0x300, 55), (0x200, 55)]);
}

#[test]
fn encode_syncs_before_and_after() {
    let (_, actions) = run_mock(Event::Waited(0, 1200));
    let modes: Vec<u32> = actions
        .iter()
        .filter_map(|a| match a {
            Action::Sync(c) => Some(c.sync_mode),
            _ => None,
        })
        .collect();
    assert_eq!(modes, vec![2, 2, 1, 2, 2, 1]);
    let kinds: Vec<u8> = actions
        .iter()
        .map(|a| match a {
            Action::MapBuffer(_) => 0,
            Action::Sync(_) => 1,
            Action::Configure(_) => 2,
            Action::Start => 3,
            Action::Wait(t) => {
                assert_eq!(*t, 1000);
                4
            }
            Action::Release(_) => 5,
            Action::Finish(_) => 6,
        })
        .collect();
    assert_eq!(kinds, vec![0, 0, 0, 1, 1, 1, 2, 3, 4, 1, 1, 1, 5, 5, 5, 6]);
}

#[test]
fn encode_result_one_is_too_small() {
    let (r, _) = run_mock(Event::Waited(1, 0));
    assert!(matches!(r, Err(EncodeError::OutputBufferTooSmall)));
}

#[test]
fn encode_result_two_is_timeout() {
    let (r, _) = run_mock(Event::Waited(2, 0));
    assert!(matches!(r, Err(EncodeError::Timeout)));
}

#[test]
fn encode_bad_address_on_wait_is_too_small() {
    let (r, actions) = run_mock(Event::Failed(EFAULT));
    assert!(matches!(r, Err(EncodeError::OutputBufferTooSmall)));
    let releases = actions.iter().filter(|a| matches!(a, Action::Release(_))).count();
    assert_eq!(releases, 3);
}

#[test]
fn encode_other_wait_failure_is_ioctl_error() {
    let (r, _) = run_mock(Event::Failed(5));
    match r {
        Err(EncodeError::IoError(Error::IoctlError(op, name))) => {
            assert_eq!(op, "JPEG_ENC_IOCTL_WAIT");
            assert_eq!(name, "EIO");
        }
        other => panic!("unexpected {:?}", other),
    }
}

#[test]
fn failed_mapping_releases_only_earlier_ones() {
    let jpeg = session();
    let (mut run, a0) = jpeg.encode(config_64());
    assert!(matches!(a0, Action::MapBuffer(_)));
    let a1 = run.step(Event::Mapped(0x500));
    assert!(matches!(a1, Action::MapBuffer(_)));
    let a2 = run.step(Event::Failed(EACCES));
    match a2 {
        Action::Release(m) => assert_eq!(m.mva_start, 0x500),
        other => panic!("unexpected {:?}", other),
    }
    let a3 = run.step(Event::Done);
    assert!(matches!(
        a3,
        Action::Finish(Err(EncodeError::M4uError(m4u::Error::PermissionDenied)))
    ));
}

#[test]
fn failed_config_is_named_ioctl_error() {
    let jpeg = session();
    let (mut run, mut action) = jpeg.encode(config_64());
    loop {
        let ev = match action {
            Action::MapBuffer(_) => Event::Mapped(0x800),
            Action::Configure(_) => Event::Failed(1),
            Action::Finish(_) => break,
            _ => Event::Done,
        };
        action = run.step(ev);
    }
    match action {
        Action::Finish(Err(EncodeError::IoError(Error::IoctlError(op, name)))) => {
            assert_eq!(op, "JPEG_ENC_IOCTL_CONFIG");
            assert_eq!(name, "EPERM");
        }
        other => panic!("unexpected {:?}", other),
    }
}

#[test]
fn result_codes_map_exhaustively() {
    assert!(matches!(result_outcome(0, 77), Ok(77)));
    assert!(matches!(result_outcome(1, 77), Err(EncodeError::OutputBufferTooSmall)));
    assert!(matches!(result_outcome(2, 77), Err(EncodeError::Timeout)));
    assert!(matches!(result_outcome(3, 77), Err(EncodeError::Unknown)));
    assert!(matches!(result_outcome(u32::MAX, 77), Err(EncodeError::Unknown)));
}

#[test]
fn wait_failure_codes() {
    assert!(matches!(wait_failure(EFAULT), EncodeError::OutputBufferTooSmall));
    assert!(matches!(
        wait_failure(99999),
        EncodeError::IoError(Error::IoctlError("JPEG_ENC_IOCTL_WAIT", "no name"))
    ));
}

#[test]
fn stride_rounding() {
    assert_eq!(stepceil16(1920), 1920);
    assert_eq!(stepceil16(1921), 1936);
    assert_eq!(stepceil16(1080), 1088);
    assert_eq!(stepceil16(0), 0);
    assert_eq!(stepceil16(stepceil16(17)), stepceil16(17));
    assert_eq!(stepceil16(u32::MAX - 15), u32::MAX - 15);
}

#[test]
fn data_unit_count() {
    assert_eq!(total_enc_du(1920, 1080), 48959);
    assert_eq!(total_enc_du(64, 64), 95);
    assert_eq!(total_enc_du(1, 1), 5);
    assert!(dims_fit(1920, 1080));
    assert!(!dims_fit(0, 1080));
    assert!(dims_fit(65536, 65536));
    assert!(!dims_fit(1 << 20, 1 << 20));
    assert!(!dims_fit(u32::MAX, 1));
}

#[test]
fn error_translation() {
    assert!(matches!(m4u::Error::from_errno(EACCES), m4u::Error::PermissionDenied));
    assert!(matches!(m4u::Error::from_errno(2), m4u::Error::DriverError(2)));
    assert!(matches!(Error::from_errno(EACCES), Error::PermissionDenied));
    assert!(matches!(Error::from_errno(9), Error::SyscallError(9)));
}

#[test]
fn session_open_outcomes() {
    assert!(matches!(MtkJpeg::open(Err(EACCES), Ok(()), Ok(1)), Err(Error::PermissionDenied)));
    match MtkJpeg::open(Ok(3), Err(22), Ok(1)) {
        Err(Error::IoctlError(op, name)) => {
            assert_eq!(op, "JPEG_ENC_IOCTL_INIT");
            assert_eq!(name, "EINVAL");
        }
        _ => panic!("expected an ioctl error"),
    }
    assert!(matches!(
        MtkJpeg::open(Ok(3), Ok(()), Err(19)),
        Err(Error::M4uError(m4u::Error::DriverError(19)))
    ));
    let j = session();
    assert_eq!(j.fd, 3);
    assert_eq!(j.m4u.fd, 4);
}

#[test]
fn m4u_records() {
    let m = M4u::open(Ok(7)).unwrap();
    let req = m.alloc_request(Port::JpgencRdma, 0x1000, 4096);
    assert_eq!((req.port, req.buf_addr, req.buf_size, req.prot), (55, 0x1000, 4096, 3));
    let mva = m.allocate(Port::JpgencBsdma, 0x2000, 512, Ok(0x9000)).unwrap();
    assert_eq!((mva.start, mva.va, mva.len), (0x9000, 0x2000, 512));
    let rel = mva.release_request();
    assert_eq!((rel.port, rel.mva_start, rel.buf_addr), (56, 0x9000, 0));
    let sync = mva.sync_request(SyncMode::InvalidByRange);
    assert_eq!((sync.port, sync.sync_mode, sync.va, sync.size, sync.mva), (56, 1, 0x2000, 512, 0x9000));
    assert!(matches!(mva.flush(Err(EACCES)), Err(m4u::Error::PermissionDenied)));
    assert!(matches!(
        m.allocate(Port::JpgencRdma, 0x2000, 512, Err(12)),
        Err(m4u::Error::DriverError(12))
    ));
    assert!(matches!(M4u::open(Err(EACCES)), Err(m4u::Error::PermissionDenied)));
}

#[test]
fn codes_of_enums() {
    assert_eq!(Port::JpgencRdma.raw(), 55);
    assert_eq!(Port::JpgencBsdma.raw(), 56);
    assert_eq!(SyncMode::CleanByRange.raw(), 0);
    assert_eq!(SyncMode::FlushAll.raw(), 5);
    assert_eq!(Format::Nv12.raw(), 2);
    assert_eq!(Format::Yuv444.raw(), 444);
    assert_eq!(Format::Grayscale.raw(), 400);
    assert_eq!(Quality::Q90.raw(), 2);
    assert_eq!(Quality::Q48.raw(), 9);
    assert_eq!(Quality::QAll.raw(), 0x10);
}
