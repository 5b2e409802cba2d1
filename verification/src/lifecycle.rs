//! The module lifecycle controller: what the injected module's entry point
//! decides for each loader notification.
//!
//! The entry point itself is foreign-called and unverified; it reads one
//! decision from `dll_main_action` and performs it.  Attach work never runs
//! on the loader's notification thread (it blocks on device setup, which
//! would deadlock against the loader's lock), so the attach action is only
//! to spawn a worker.  A detach while the process is terminating must not
//! wait on anything: every other thread has already been stopped.

use vstd::prelude::*;

verus! {

/// Reason codes the OS loader passes to the module's entry point.
#[derive(Debug, Clone, Copy, PartialEq, Eq, Structural)]
pub enum DllReason {
    DllProcessDetach,
    DllProcessAttach,
    DllThreadAtach,
    DllThreadDetach,
}

impl DllReason {
    /// The numeric code the OS uses for this notification.
    pub fn code(&self) -> (r: u32)
        ensures
            *self == DllReason::DllProcessDetach ==> r == 0,
            *self == DllReason::DllProcessAttach ==> r == 1,
            *self == DllReason::DllThreadAtach ==> r == 2,
            *self == DllReason::DllThreadDetach ==> r == 3,
    {
        match self {
            DllReason::DllProcessDetach => 0,
            DllReason::DllProcessAttach => 1,
            DllReason::DllThreadAtach => 2,
            DllReason::DllThreadDetach => 3,
        }
    }

    /// The notification named by an OS reason code.
    pub fn from_code(code: u32) -> (r: Option<DllReason>)
        ensures
            code == 0 ==> r == Some(DllReason::DllProcessDetach),
            code == 1 ==> r == Some(DllReason::DllProcessAttach),
            code == 2 ==> r == Some(DllReason::DllThreadAtach),
            code == 3 ==> r == Some(DllReason::DllThreadDetach),
            code > 3 ==> r is None,
    {
        if code == 0 {
            Some(DllReason::DllProcessDetach)
        } else if code == 1 {
            Some(DllReason::DllProcessAttach)
        } else if code == 2 {
            Some(DllReason::DllThreadAtach)
        } else if code == 3 {
            Some(DllReason::DllThreadDetach)
        } else {
            None
        }
    }
}

/// Success/failure value returned across the loader boundary.
#[derive(Debug, Clone, Copy, PartialEq, Eq, Structural)]
pub enum Bool {
    False,
    True,
}

impl Bool {
    /// The numeric value the OS expects: zero for failure, one for success.
    pub fn code(&self) -> (r: i32)
        ensures
            *self == Bool::False ==> r == 0,
            *self == Bool::True ==> r == 1,
    {
        match self {
            Bool::False => 0,
            Bool::True => 1,
        }
    }
}

/// What the entry point does for one notification.
#[derive(Debug, Clone, Copy, PartialEq, Eq, Structural)]
pub enum DllMainAction {
    /// Explicit unload, or a load that failed: release the threads and heap
    /// this module owns.  Waiting is allowed; other threads still run.
    CleanupOwned,
    /// The process is terminating and every other thread is already
    /// stopped: only non-blocking, best-effort cleanup.
    CleanupTerminating,
    /// First notification: disable per-thread notices, then start the
    /// attach worker and return at once.
    SpawnAttachWorker,
    /// Per-thread notices are accepted and ignored.
    Ignore,
}

/// True of an action that may wait on another thread or block on I/O.
pub open spec fn action_may_block(a: DllMainAction) -> bool {
    a == DllMainAction::CleanupOwned
}

/// The entry point's decision for a notification: detach splits on the
/// reserved signal (null means explicitly unloaded or load failed; non-null
/// means the process is terminating), attach starts the worker, thread
/// notices are ignored.
pub open spec fn dll_main_action_spec(reason: DllReason, reserved_null: bool) -> DllMainAction {
    match reason {
        DllReason::DllProcessDetach => if reserved_null {
            DllMainAction::CleanupOwned
        } else {
            DllMainAction::CleanupTerminating
        },
        DllReason::DllProcessAttach => DllMainAction::SpawnAttachWorker,
        _ => DllMainAction::Ignore,
    }
}

/// Decides the entry point's action from the reason code and whether the
/// reserved context pointer was null.
pub fn dll_main_action(reason: &DllReason, reserved_null: bool) -> (r: DllMainAction)
    ensures
        r == dll_main_action_spec(*reason, reserved_null),
{
    match reason {
        DllReason::DllProcessDetach => {
            if reserved_null {
                DllMainAction::CleanupOwned
            } else {
                DllMainAction::CleanupTerminating
            }
        },
        DllReason::DllProcessAttach => DllMainAction::SpawnAttachWorker,
        _ => DllMainAction::Ignore,
    }
}

/// Law: a detach with a non-null reserved context — the process is
/// terminating — never chooses an action that waits: its cleanup is
/// non-blocking and therefore bounded, whatever work is still pending.
pub proof fn lemma_terminating_detach_nonblocking(reserved_null: bool)
    requires
        !reserved_null,
    ensures
        !action_may_block(dll_main_action_spec(DllReason::DllProcessDetach, reserved_null)),
{
}

/// Entry-point return for a process-attach notification: success only when
/// per-thread notices were disabled and the attach worker started.
pub fn attach_return(disable_ok: bool, spawn_ok: bool) -> (r: Bool)
    ensures
        r == Bool::True <==> disable_ok && spawn_ok,
{
    if disable_ok && spawn_ok {
        Bool::True
    } else {
        Bool::False
    }
}

/// Phases of the injected module inside its host process.
#[derive(Debug, Clone, Copy, PartialEq, Eq, Structural)]
pub enum LifecyclePhase {
    NotLoaded,
    Attaching,
    Active,
    Detaching,
    Unloaded,
}

/// Events that move the module between phases.
#[derive(Debug, Clone, Copy, PartialEq, Eq, Structural)]
pub enum LifecycleEvent {
    /// The loader delivered the attach notification.
    LoadNotice,
    /// The attach worker finished setting up the hook and the bridge.
    AttachComplete,
    /// The loader delivered a detach notification.
    UnloadNotice,
    /// Cleanup ran to completion.
    CleanupComplete,
}

/// The module's phase transitions: only the forward path exists — the hook
/// is never removed while the process lives.
pub fn lifecycle_advance(phase: &LifecyclePhase, event: &LifecycleEvent) -> (r: Option<
    LifecyclePhase,
>)
    ensures
        *phase == LifecyclePhase::NotLoaded && *event == LifecycleEvent::LoadNotice ==> r == Some(
            LifecyclePhase::Attaching,
        ),
        *phase == LifecyclePhase::Attaching && *event == LifecycleEvent::AttachComplete ==> r
            == Some(LifecyclePhase::Active),
        *phase == LifecyclePhase::Attaching && *event == LifecycleEvent::UnloadNotice ==> r == Some(
            LifecyclePhase::Detaching,
        ),
        *phase == LifecyclePhase::Active && *event == LifecycleEvent::UnloadNotice ==> r == Some(
            LifecyclePhase::Detaching,
        ),
        *phase == LifecyclePhase::Detaching && *event == LifecycleEvent::CleanupComplete ==> r
            == Some(LifecyclePhase::Unloaded),
        r is Some ==> ((*phase == LifecyclePhase::NotLoaded && *event == LifecycleEvent::LoadNotice)
            || (*phase == LifecyclePhase::Attaching && *event == LifecycleEvent::AttachComplete) || (
        *phase == LifecyclePhase::Attaching && *event == LifecycleEvent::UnloadNotice) || (*phase
            == LifecyclePhase::Active && *event == LifecycleEvent::UnloadNotice) || (*phase
            == LifecyclePhase::Detaching && *event == LifecycleEvent::CleanupComplete)),
{
    match (phase, event) {
        (LifecyclePhase::NotLoaded, LifecycleEvent::LoadNotice) => Some(LifecyclePhase::Attaching),
        (LifecyclePhase::Attaching, LifecycleEvent::AttachComplete) => Some(LifecyclePhase::Active),
        (LifecyclePhase::Attaching, LifecycleEvent::UnloadNotice) => Some(
            LifecyclePhase::Detaching,
        ),
        (LifecyclePhase::Active, LifecycleEvent::UnloadNotice) => Some(LifecyclePhase::Detaching),
        (LifecyclePhase::Detaching, LifecycleEvent::CleanupComplete) => Some(
            LifecyclePhase::Unloaded,
        ),
        _ => None,
    }
}

/// Steps of the attach worker, in the order it must run them.
#[derive(Debug, Clone, Copy, PartialEq, Eq, Structural)]
pub enum AttachStep {
    /// Obtain the loaded image's base address.
    ResolveBase,
    /// Open the actuation session and publish it process-wide.
    OpenBridge,
    /// Patch the target function and build the trampoline.
    InstallHook,
}

/// The attach worker's plan: the actuation session is opened and published
/// strictly before the hook is installed, so every hooked call that can ever
/// run finds the session initialized.
pub fn attach_plan() -> (r: Vec<AttachStep>)
    ensures
        r@ == seq![AttachStep::ResolveBase, AttachStep::OpenBridge, AttachStep::InstallHook],
{
    let mut r: Vec<AttachStep> = Vec::new();
    r.push(AttachStep::ResolveBase);
    r.push(AttachStep::OpenBridge);
    r.push(AttachStep::InstallHook);
    proof {
        assert(r@ =~= seq![
            AttachStep::ResolveBase,
            AttachStep::OpenBridge,
            AttachStep::InstallHook,
        ]);
    }
    r
}

} // verus!
