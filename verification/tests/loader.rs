use hookvibe::loader::{
    cleanup_plan, inject_advance, inject_thread_done, load_outcome, wide_byte_len, widen_path,
    CleanupAction, InjectError, InjectOp, InjectState,
};

#[test]
fn widen_path_appends_terminating_null() {
    let units: Vec<u16> = "C:\\mods\\hook.dll".encode_utf16().collect();
    let buffer = widen_path(&units);
    assert_eq!(buffer.len(), units.len() + 1);
    assert_eq!(&buffer[..units.len()], &units[..]);
    assert_eq!(buffer[units.len()], 0);
}

#[test]
fn wide_byte_len_counts_two_bytes_per_unit() {
    assert_eq!(wide_byte_len(0), 0);
    assert_eq!(wide_byte_len(17), 34);
}

#[test]
fn inject_success_walks_all_states() {
    let s = InjectState::Started;
    let s = inject_advance(s, 0x10, 0).unwrap();
    assert_eq!(s, InjectState::Opened { process: 0x10 });
    let s = inject_advance(s, 0x2000, 0).unwrap();
    assert_eq!(s, InjectState::Allocated { process: 0x10, region: 0x2000 });
    let s = inject_advance(s, 1, 0).unwrap();
    assert_eq!(s, InjectState::Written { process: 0x10, region: 0x2000 });
    let s = inject_advance(s, 0x44, 0).unwrap();
    assert_eq!(
        s,
        InjectState::ThreadCreated { process: 0x10, region: 0x2000, thread: 0x44 }
    );
    let s = inject_thread_done(s, 1);
    assert_eq!(
        s,
        InjectState::ThreadDone { process: 0x10, region: 0x2000, thread: 0x44, exit_code: 1 }
    );
}

#[test]
fn inject_open_failure_names_the_call() {
    // A non-existent pid: OpenProcess returns null and the attempt aborts.
    let r = inject_advance(InjectState::Started, 0, 87);
    assert_eq!(
        r,
        Err(InjectError::OsCallFailed { op: InjectOp::OpenProcess, code: 87 })
    );
}

#[test]
fn inject_failures_after_open_name_their_calls() {
    let opened = InjectState::Opened { process: 0x10 };
    assert_eq!(
        inject_advance(opened, 0, 8),
        Err(InjectError::OsCallFailed { op: InjectOp::AllocMem, code: 8 })
    );
    let allocated = InjectState::Allocated { process: 0x10, region: 0x2000 };
    assert_eq!(
        inject_advance(allocated, 0, 299),
        Err(InjectError::OsCallFailed { op: InjectOp::WriteMem, code: 299 })
    );
    let written = InjectState::Written { process: 0x10, region: 0x2000 };
    assert_eq!(
        inject_advance(written, 0, 5),
        Err(InjectError::OsCallFailed { op: InjectOp::CreateThread, code: 5 })
    );
}

#[test]
fn zero_exit_code_is_load_failure() {
    assert_eq!(load_outcome(0), Err(InjectError::LoadFailed));
    assert_eq!(load_outcome(1), Ok(()));
    assert_eq!(load_outcome(0x77aa0000), Ok(()));
}

#[test]
fn cleanup_frees_then_closes_thread_then_process() {
    let plan = cleanup_plan(0x10, 0x2000, 0x44);
    assert_eq!(
        plan,
        vec![
            CleanupAction::FreeRegion { process: 0x10, region: 0x2000 },
            CleanupAction::CloseThread { thread: 0x44 },
            CleanupAction::CloseProcess { process: 0x10 },
        ]
    );
}
