use cpuprofiler::Error;
use cpuprofiler::FileStatus;
use cpuprofiler::IoInfo;
use cpuprofiler::IoKind;
use cpuprofiler::Profiler;
use cpuprofiler::ProfilerState;

fn writable_file() -> FileStatus {
    FileStatus { is_file: true, readonly: false }
}

#[test]
fn fresh_handle_is_not_active() {
    let p = Profiler::new();
    assert_eq!(p.state(), ProfilerState::NotActive);
}

#[test]
fn start_stop_round_trip() {
    let mut p = Profiler::new();
    let path = p.start_validate(b"./my-prof.profile".to_vec()).unwrap();
    assert_eq!(path, "./my-prof.profile");
    assert!(Profiler::start_check_target(Ok(writable_file())).is_ok());
    assert_eq!(p.start_commit(1), Ok(()));
    assert_eq!(p.state(), ProfilerState::Active);
    assert_eq!(p.stop(), Ok(()));
    assert_eq!(p.state(), ProfilerState::NotActive);
}

#[test]
fn double_start_rejected() {
    let mut p = Profiler::new();
    p.start_validate(b"prof.out".to_vec()).unwrap();
    assert_eq!(p.start_commit(1), Ok(()));
    let second = p.start_validate(b"prof.out".to_vec());
    assert_eq!(second, Err(Error::InvalidState(ProfilerState::Active)));
    assert_eq!(p.state(), ProfilerState::Active);
    let committed = p.start_commit(1);
    assert_eq!(committed, Err(Error::InvalidState(ProfilerState::Active)));
    assert_eq!(p.state(), ProfilerState::Active);
}

#[test]
fn stop_without_start_rejected() {
    let mut p = Profiler::new();
    assert_eq!(p.stop(), Err(Error::InvalidState(ProfilerState::NotActive)));
    assert_eq!(p.state(), ProfilerState::NotActive);
}

#[test]
fn missing_target_gives_not_found() {
    let p = Profiler::new();
    p.start_validate(b"no-such-file.profile".to_vec()).unwrap();
    let io = IoInfo { kind: IoKind::NotFound, os_code: Some(2) };
    assert_eq!(
        Profiler::start_check_target(Err(io)),
        Err(Error::Io(IoInfo { kind: IoKind::NotFound, os_code: Some(2) }))
    );
    assert_eq!(p.state(), ProfilerState::NotActive);
}

#[test]
fn non_file_target_gives_not_found() {
    let probe = Ok(FileStatus { is_file: false, readonly: false });
    assert_eq!(
        Profiler::start_check_target(probe),
        Err(Error::Io(IoInfo { kind: IoKind::NotFound, os_code: None }))
    );
}

#[test]
fn readonly_target_gives_permission_denied() {
    let mut p = Profiler::new();
    p.start_validate(b"readonly.profile".to_vec()).unwrap();
    let probe = Ok(FileStatus { is_file: true, readonly: true });
    assert_eq!(
        Profiler::start_check_target(probe),
        Err(Error::Io(IoInfo { kind: IoKind::PermissionDenied, os_code: None }))
    );
    assert_eq!(p.state(), ProfilerState::NotActive);
}

#[test]
fn nul_in_filename_gives_encoding() {
    let p = Profiler::new();
    let r = p.start_validate(b"pro\0file".to_vec());
    assert_eq!(r, Err(Error::Encoding(3)));
    assert_eq!(p.state(), ProfilerState::NotActive);
}

#[test]
fn trailing_nul_gives_encoding() {
    let p = Profiler::new();
    let r = p.start_validate(b"profile\0".to_vec());
    assert_eq!(r, Err(Error::Encoding(7)));
}

#[test]
fn invalid_utf8_gives_utf8_error() {
    let p = Profiler::new();
    let r = p.start_validate(vec![0xff, 0xfe, 0x2e]);
    assert_eq!(r, Err(Error::Utf8));
    assert_eq!(p.state(), ProfilerState::NotActive);
}

#[test]
fn empty_filename_validates() {
    let p = Profiler::new();
    assert_eq!(p.start_validate(Vec::new()), Ok(String::new()));
}

#[test]
fn non_ascii_utf8_filename_validates() {
    let p = Profiler::new();
    let r = p.start_validate("pröfile.out".as_bytes().to_vec());
    assert_eq!(r, Ok("pröfile.out".to_string()));
}

#[test]
fn native_failure_gives_internal_error_and_allows_retry() {
    let mut p = Profiler::new();
    assert_eq!(p.start_commit(0), Err(Error::InternalError));
    assert_eq!(p.state(), ProfilerState::NotActive);
    assert_eq!(p.start_commit(-1), Ok(()));
    assert_eq!(p.state(), ProfilerState::Active);
}

#[test]
fn state_names() {
    assert_eq!(ProfilerState::Active.name(), "Active");
    assert_eq!(ProfilerState::NotActive.name(), "NotActive");
}

#[test]
fn invalid_state_messages_distinguish_states() {
    let active = Error::InvalidState(ProfilerState::Active).message();
    let not_active = Error::InvalidState(ProfilerState::NotActive).message();
    assert_ne!(active, not_active);
    assert_eq!(active, "Operation is invalid for profiler state: Active");
    assert_eq!(not_active, "Operation is invalid for profiler state: NotActive");
    assert!(active.contains("Active"));
    assert!(not_active.contains("NotActive"));
}

#[test]
fn error_messages() {
    assert_eq!(
        Error::Io(IoInfo { kind: IoKind::NotFound, os_code: Some(2) }).message(),
        "I/O error: not found"
    );
    assert_eq!(
        Error::Io(IoInfo { kind: IoKind::PermissionDenied, os_code: None }).message(),
        "I/O error: permission denied"
    );
    assert_eq!(
        Error::Io(IoInfo { kind: IoKind::Other, os_code: Some(5) }).message(),
        "I/O error: other"
    );
    assert_eq!(Error::Encoding(3).message(), "nul byte found in provided data");
    assert_eq!(Error::Utf8.message(), "invalid utf-8 sequence");
    assert_eq!(Error::InternalError.message(), "Internal library error!");
}
