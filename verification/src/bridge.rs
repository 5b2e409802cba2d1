//! The actuation bridge: the verified model of the background scheduler's
//! queue and of what each trigger schedules.
//!
//! The real session owns an async runtime and a connection to the external
//! device-control collaborator; both live in the unverified shell.  What is
//! decided here: which task a trigger enqueues (exactly one timed
//! start/stop pair), which device is selected after a scan, and which
//! collaborator event completes setup.  A trigger only enqueues — it never
//! blocks the hooked caller; errors inside a scheduled task are logged by
//! the scheduler, never surfaced to the caller.

use vstd::prelude::*;

verus! {

/// Failure to open the actuation session.
#[derive(Debug, Clone, Copy, PartialEq, Eq, Structural)]
pub enum BridgeError {
    /// The collaborator connection or the device scan failed or timed out.
    BridgeUnavailable,
}

/// Device speed in thousandths of full scale: the collaborator's fraction
/// `0.0..=1.0` scaled to an integer.
#[derive(Debug, Clone, Copy, PartialEq, Eq, Structural)]
pub struct Intensity {
    pub milli: u16,
}

/// `Intensity` value of the collaborator's full-speed fraction `1.0`.
pub const INTENSITY_FULL_MILLI: u16 = 1000;

impl Intensity {
    /// A speed within the collaborator's scale.
    pub open spec fn wf(self) -> bool {
        self.milli <= INTENSITY_FULL_MILLI
    }

    /// A speed from thousandths of full scale.
    pub fn new(milli: u16) -> (r: Self)
        requires
            milli <= INTENSITY_FULL_MILLI,
        ensures
            r.milli == milli,
            r.wf(),
    {
        Intensity { milli }
    }

    /// Full speed: the fraction `1.0`.
    pub fn full() -> (r: Self)
        ensures
            r.milli == INTENSITY_FULL_MILLI,
            r.wf(),
    {
        Intensity { milli: INTENSITY_FULL_MILLI }
    }
}

/// One unit of work handed to the background scheduler.
#[derive(Debug, Clone, Copy, PartialEq, Eq, Structural)]
pub enum ScheduledTask {
    /// Start actuation at `intensity`, hold it for `duration_ms`, then stop.
    Vibe { intensity: Intensity, duration_ms: u64 },
    /// Stop the device once, immediately.
    Halt,
}

/// A scheduled task asks only for representable speeds.
pub open spec fn task_wf(t: ScheduledTask) -> bool {
    match t {
        ScheduledTask::Vibe { intensity, .. } => intensity.wf(),
        ScheduledTask::Halt => true,
    }
}

/// Commands the device collaborator observes.
#[derive(Debug, Clone, Copy, PartialEq, Eq, Structural)]
pub enum DeviceCommand {
    /// Begin actuating at `intensity`.
    Start { intensity: Intensity },
    /// Stop actuating.
    Stop,
}

/// The commands one task sends, in order: a timed actuation is exactly one
/// start followed, after its duration, by one stop.
pub open spec fn task_commands(t: ScheduledTask) -> Seq<DeviceCommand> {
    match t {
        ScheduledTask::Vibe { intensity, .. } => seq![
            DeviceCommand::Start { intensity },
            DeviceCommand::Stop,
        ],
        ScheduledTask::Halt => seq![DeviceCommand::Stop],
    }
}

/// Every command the schedule sends, task by task.  Overlapping tasks hold
/// no mutual ordering guarantee on the device; this trace is the per-task
/// sequential view.
pub open spec fn schedule_commands(ts: Seq<ScheduledTask>) -> Seq<DeviceCommand>
    decreases ts.len(),
{
    if ts.len() == 0 {
        Seq::empty()
    } else {
        schedule_commands(ts.drop_last()).add(task_commands(ts.last()))
    }
}

/// The open actuation session: the device selected at setup and the tasks
/// handed to the background scheduler, oldest first.  Created once by the
/// attach worker and published before the hook is installed; hooked calls
/// only append tasks.
#[derive(Debug, Clone, PartialEq)]
pub struct XBone {
    pub device: usize,
    pub scheduled: Vec<ScheduledTask>,
}

impl XBone {
    /// Every scheduled task is well formed.
    pub open spec fn wf(self) -> bool {
        forall|i: int| 0 <= i < self.scheduled@.len() ==> task_wf(#[trigger] self.scheduled@[i])
    }

    /// A fresh session for the selected device, with nothing scheduled.
    pub fn new(device: usize) -> (r: Self)
        ensures
            r.device == device,
            r.scheduled@ == Seq::<ScheduledTask>::empty(),
            r.wf(),
    {
        let r = XBone { device, scheduled: Vec::new() };
        proof {
            assert(r.scheduled@ =~= Seq::<ScheduledTask>::empty());
        }
        r
    }

    /// Schedules one timed actuation — start at `intensity`, hold for
    /// `duration_ms`, stop — and returns at once.  It only enqueues; the
    /// caller is never blocked on the device.
    pub fn vibe(&mut self, intensity: Intensity, duration_ms: u64)
        requires
            intensity.wf(),
            old(self).wf(),
        ensures
            final(self).device == old(self).device,
            final(self).scheduled@ == old(self).scheduled@.push(
                ScheduledTask::Vibe { intensity, duration_ms },
            ),
            final(self).wf(),
    {
        self.scheduled.push(ScheduledTask::Vibe { intensity, duration_ms });
    }

    /// Schedules one immediate stop of the device.
    pub fn stop(&mut self)
        requires
            old(self).wf(),
        ensures
            final(self).device == old(self).device,
            final(self).scheduled@ == old(self).scheduled@.push(ScheduledTask::Halt),
            final(self).wf(),
    {
        self.scheduled.push(ScheduledTask::Halt);
    }
}

/// Law: one trigger adds exactly one start/stop pair — at its intensity —
/// to the command trace, and leaves every earlier command unchanged.
pub proof fn lemma_vibe_one_pair(before: Seq<ScheduledTask>, intensity: Intensity, duration_ms: u64)
    ensures
        schedule_commands(before.push(ScheduledTask::Vibe { intensity, duration_ms }))
            == schedule_commands(before).add(
            seq![DeviceCommand::Start { intensity }, DeviceCommand::Stop],
        ),
{
    let t = ScheduledTask::Vibe { intensity, duration_ms };
    assert(before.push(t).drop_last() =~= before);
    assert(before.push(t).last() == t);
}

/// Chooses the device after a scan: the first one reported; an empty scan
/// leaves the bridge unavailable.
pub fn select_device(device_count: usize) -> (r: Result<usize, BridgeError>)
    ensures
        device_count > 0 ==> r == Ok::<usize, BridgeError>(0),
        device_count == 0 ==> r == Err::<usize, BridgeError>(BridgeError::BridgeUnavailable),
{
    if device_count > 0 {
        Ok(0)
    } else {
        Err(BridgeError::BridgeUnavailable)
    }
}

/// Events the device-control collaborator reports while the session opens.
#[derive(Debug, Clone, Copy, PartialEq, Eq, Structural)]
pub enum BridgeEvent {
    ServerConnect,
    ServerDisconnect,
    DeviceAdded,
    DeviceRemoved,
    ScanningFinished,
    PingTimeout,
    ErrorEvent,
}

/// True of the one event that completes setup: a device was added.  Setup
/// keeps waiting through every other event.
pub fn device_ready(event: &BridgeEvent) -> (r: bool)
    ensures
        r <==> *event == BridgeEvent::DeviceAdded,
{
    match event {
        BridgeEvent::DeviceAdded => true,
        _ => false,
    }
}

/// Duration, in milliseconds, of the actuation each hooked call schedules.
pub const HOOK_VIBE_MS: u64 = 5000;

/// The hooked call's side effect: schedule one full-speed actuation for
/// `HOOK_VIBE_MS`, then fall through to the trampoline.  Never blocks the
/// hooked thread and never surfaces an error into it.
pub fn on_hooked_call(session: &mut XBone)
    requires
        old(session).wf(),
    ensures
        final(session).device == old(session).device,
        final(session).scheduled@ == old(session).scheduled@.push(
            ScheduledTask::Vibe {
                intensity: Intensity { milli: INTENSITY_FULL_MILLI },
                duration_ms: HOOK_VIBE_MS,
            },
        ),
        final(session).wf(),
{
    let full = Intensity::full();
    session.vibe(full, HOOK_VIBE_MS);
}

} // verus!
