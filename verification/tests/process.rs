use hookvibe::error::{WinApiError, WinApiErrorCode};
use hookvibe::process::{
    enum_buffer_bytes, enum_step, resolve_by_name, take_pids, wide_eq, EnumStep, ScanOutcome,
    WinApiProcess, INITIAL_BUFFER_SIZE,
};

fn wide(s: &str) -> Vec<u16> {
    s.encode_utf16().collect()
}

#[test]
fn buffer_bytes_for_initial_size() {
    assert_eq!(enum_buffer_bytes(INITIAL_BUFFER_SIZE), Ok(4096));
}

#[test]
fn buffer_bytes_over_addressable_limit() {
    // 4 * 0x4000_0000 = 0x1_0000_0000 bytes: past the 32-bit limit.
    let too_many = 0x4000_0000usize;
    assert_eq!(
        enum_buffer_bytes(too_many),
        Err(WinApiError::BufferSizeError(0x1_0000_0000))
    );
}

#[test]
fn enum_step_accepts_partial_buffer() {
    // 40 bytes returned out of 4096 requested: a complete list of 10 ids.
    assert_eq!(
        enum_step(1024, 4096, true, 0, 40),
        Ok(EnumStep::Finish { count: 10 })
    );
}

#[test]
fn enum_step_retries_on_full_buffer() {
    // Returned bytes equal requested bytes: the list may be truncated, so
    // the buffer is doubled instead of the result being accepted.
    assert_eq!(
        enum_step(1024, 4096, true, 0, 4096),
        Ok(EnumStep::Grow { next_size: 2048 })
    );
}

#[test]
fn enum_step_surfaces_os_failure() {
    assert_eq!(
        enum_step(1024, 4096, false, 5, 0),
        Err(WinApiError::WinApiErrorCode(WinApiErrorCode::new(5)))
    );
}

#[test]
fn take_pids_keeps_only_written_entries() {
    let buffer = vec![11, 22, 33, 44, 55];
    assert_eq!(take_pids(buffer, 3), vec![11, 22, 33]);
}

#[test]
fn resolve_skips_failed_candidates() {
    // Candidates that cannot be opened or named are skipped, not fatal.
    let outcomes = vec![
        ScanOutcome::OpenFailed { code: 5 },
        ScanOutcome::NameFailed,
        ScanOutcome::Named { pid: 7, name: wide("th08.exe") },
        ScanOutcome::Named { pid: 9, name: wide("th08.exe") },
    ];
    assert_eq!(resolve_by_name(&outcomes, &wide("th08.exe")), Some(7));
}

#[test]
fn resolve_skips_non_matching_names() {
    let outcomes = vec![
        ScanOutcome::Named { pid: 1, name: wide("explorer.exe") },
        ScanOutcome::OpenFailed { code: 5 },
        ScanOutcome::Named { pid: 2, name: wide("th08.exe") },
    ];
    assert_eq!(resolve_by_name(&outcomes, &wide("th08.exe")), Some(2));
}

#[test]
fn resolve_without_match_is_none() {
    let outcomes = vec![
        ScanOutcome::OpenFailed { code: 5 },
        ScanOutcome::Named { pid: 1, name: wide("th07.exe") },
    ];
    assert_eq!(resolve_by_name(&outcomes, &wide("th08.exe")), None);
    assert_eq!(resolve_by_name(&Vec::new(), &wide("th08.exe")), None);
}

#[test]
fn wide_eq_is_exact() {
    assert!(wide_eq(&wide("th08.exe"), &wide("th08.exe")));
    assert!(!wide_eq(&wide("th08.exe"), &wide("th08.exe ")));
    assert!(!wide_eq(&wide("th08.exe"), &wide("TH08.EXE")));
    assert!(wide_eq(&Vec::new(), &Vec::new()));
}

#[test]
fn process_pairs_pid_and_handle() {
    let p = WinApiProcess::new(42, 0x1c);
    assert_eq!(p.pid, 42);
    assert_eq!(p.handle, 0x1c);
}
