use hookvibe::lifecycle::{
    attach_plan, attach_return, dll_main_action, lifecycle_advance, AttachStep, Bool,
    DllMainAction, DllReason, LifecycleEvent, LifecyclePhase,
};

#[test]
fn reason_codes_round_trip() {
    let reasons = [
        DllReason::DllProcessDetach,
        DllReason::DllProcessAttach,
        DllReason::DllThreadAtach,
        DllReason::DllThreadDetach,
    ];
    for (code, reason) in reasons.iter().enumerate() {
        assert_eq!(reason.code(), code as u32);
        assert_eq!(DllReason::from_code(code as u32), Some(reason.clone()));
    }
    assert_eq!(DllReason::from_code(4), None);
    assert_eq!(DllReason::from_code(u32::MAX), None);
}

#[test]
fn bool_codes() {
    assert_eq!(Bool::False.code(), 0);
    assert_eq!(Bool::True.code(), 1);
}

#[test]
fn attach_spawns_worker() {
    assert_eq!(
        dll_main_action(&DllReason::DllProcessAttach, true),
        DllMainAction::SpawnAttachWorker
    );
    assert_eq!(
        dll_main_action(&DllReason::DllProcessAttach, false),
        DllMainAction::SpawnAttachWorker
    );
}

#[test]
fn explicit_unload_cleans_owned_resources() {
    assert_eq!(
        dll_main_action(&DllReason::DllProcessDetach, true),
        DllMainAction::CleanupOwned
    );
}

#[test]
fn terminating_detach_is_nonblocking_cleanup_only() {
    // Non-null reserved context: the process is terminating, so only the
    // non-blocking cleanup action is chosen, whatever tasks are pending.
    assert_eq!(
        dll_main_action(&DllReason::DllProcessDetach, false),
        DllMainAction::CleanupTerminating
    );
}

#[test]
fn thread_notices_are_ignored() {
    assert_eq!(dll_main_action(&DllReason::DllThreadAtach, true), DllMainAction::Ignore);
    assert_eq!(dll_main_action(&DllReason::DllThreadDetach, false), DllMainAction::Ignore);
}

#[test]
fn attach_return_is_true_only_on_full_success() {
    assert_eq!(attach_return(true, true), Bool::True);
    assert_eq!(attach_return(false, true), Bool::False);
    assert_eq!(attach_return(true, false), Bool::False);
    assert_eq!(attach_return(false, false), Bool::False);
}

#[test]
fn lifecycle_walks_the_forward_path() {
    let s = LifecyclePhase::NotLoaded;
    let s = lifecycle_advance(&s, &LifecycleEvent::LoadNotice).unwrap();
    assert_eq!(s, LifecyclePhase::Attaching);
    let s = lifecycle_advance(&s, &LifecycleEvent::AttachComplete).unwrap();
    assert_eq!(s, LifecyclePhase::Active);
    let s = lifecycle_advance(&s, &LifecycleEvent::UnloadNotice).unwrap();
    assert_eq!(s, LifecyclePhase::Detaching);
    let s = lifecycle_advance(&s, &LifecycleEvent::CleanupComplete).unwrap();
    assert_eq!(s, LifecyclePhase::Unloaded);
}

#[test]
fn lifecycle_has_no_backward_transitions() {
    assert_eq!(
        lifecycle_advance(&LifecyclePhase::Active, &LifecycleEvent::LoadNotice),
        None
    );
    assert_eq!(
        lifecycle_advance(&LifecyclePhase::Unloaded, &LifecycleEvent::LoadNotice),
        None
    );
    assert_eq!(
        lifecycle_advance(&LifecyclePhase::NotLoaded, &LifecycleEvent::UnloadNotice),
        None
    );
}

#[test]
fn attach_opens_bridge_before_installing_hook() {
    let plan = attach_plan();
    assert_eq!(
        plan,
        vec![AttachStep::ResolveBase, AttachStep::OpenBridge, AttachStep::InstallHook]
    );
    let bridge_at = plan.iter().position(|s| *s == AttachStep::OpenBridge).unwrap();
    let hook_at = plan.iter().position(|s| *s == AttachStep::InstallHook).unwrap();
    assert!(bridge_at < hook_at);
}
