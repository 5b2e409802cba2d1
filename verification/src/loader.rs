//! The remote loader's decision core: wide-path encoding and the state
//! machine of one injection attempt.
//!
//! The unverified shell performs each OS call (open the target, allocate and
//! write remote memory, start the remote load thread, await it) and reports
//! the raw outcome back; the functions here decide what each outcome means:
//! which state the attempt reaches, which error aborts it, how the remote
//! thread's exit code is judged, and which cleanup runs afterwards.

use vstd::prelude::*;

verus! {

/// The OS primitives one injection attempt drives, in order.
#[derive(Debug, Clone, Copy, PartialEq, Eq, Structural)]
pub enum InjectOp {
    OpenProcess,
    AllocMem,
    WriteMem,
    CreateThread,
    WaitThread,
}

/// Failure of one injection attempt.
#[derive(Debug, Clone, Copy, PartialEq, Eq, Structural)]
pub enum InjectError {
    /// An OS primitive failed, with the OS's native code.
    OsCallFailed { op: InjectOp, code: u32 },
    /// The remote load thread finished but reported that the module did not
    /// load (exit code zero).
    LoadFailed,
}

/// Appends the terminating null unit to a wide-character path, giving the
/// exact buffer written into the target's address space.
pub fn widen_path(units: &Vec<u16>) -> (r: Vec<u16>)
    requires
        units@.len() < usize::MAX,
    ensures
        r@ == units@.push(0u16),
{
    let mut r: Vec<u16> = Vec::new();
    let mut k: usize = 0;
    while k < units.len()
        invariant
            k <= units@.len(),
            r@ == units@.subrange(0, k as int),
        decreases units@.len() - k,
    {
        r.push(units[k]);
        proof {
            assert(r@ =~= units@.subrange(0, k + 1));
        }
        k += 1;
    }
    r.push(0);
    proof {
        assert(units@.subrange(0, units@.len() as int) =~= units@);
    }
    r
}

/// Number of bytes a buffer of `unit_count` wide characters occupies in the
/// target's memory.
pub fn wide_byte_len(unit_count: usize) -> (r: usize)
    requires
        2 * unit_count <= usize::MAX,
    ensures
        r == 2 * unit_count,
{
    2 * unit_count
}

/// State of one injection attempt after each completed OS call.
#[derive(Debug, Clone, Copy, PartialEq, Eq, Structural)]
pub enum InjectState {
    /// Nothing done yet.
    Started,
    /// The target process is open.
    Opened { process: usize },
    /// A read-write region for the path is allocated in the target.
    Allocated { process: usize, region: usize },
    /// The encoded path has been written into the region.
    Written { process: usize, region: usize },
    /// The remote load thread is running.
    ThreadCreated { process: usize, region: usize, thread: usize },
    /// The remote load thread finished with `exit_code`.
    ThreadDone { process: usize, region: usize, thread: usize, exit_code: u32 },
}

/// The OS call an attempt in state `s` performs next.
pub open spec fn next_op(s: InjectState) -> InjectOp {
    match s {
        InjectState::Started => InjectOp::OpenProcess,
        InjectState::Opened { .. } => InjectOp::AllocMem,
        InjectState::Allocated { .. } => InjectOp::WriteMem,
        InjectState::Written { .. } => InjectOp::CreateThread,
        InjectState::ThreadCreated { .. } => InjectOp::WaitThread,
        InjectState::ThreadDone { .. } => InjectOp::WaitThread,
    }
}

/// The state reached when the call succeeds with return value `ret`.
pub open spec fn success_state(s: InjectState, ret: usize) -> InjectState {
    match s {
        InjectState::Started => InjectState::Opened { process: ret },
        InjectState::Opened { process } => InjectState::Allocated { process, region: ret },
        InjectState::Allocated { process, region } => InjectState::Written { process, region },
        InjectState::Written { process, region } => InjectState::ThreadCreated {
            process,
            region,
            thread: ret,
        },
        _ => s,
    }
}

/// Advances the attempt by the raw result of its next OS call.  A zero
/// return (null handle, null region, zero success code) is that call's
/// failure: the attempt aborts with the call's name and the OS error code.
pub fn inject_advance(state: InjectState, ret: usize, error_code: u32) -> (r: Result<
    InjectState,
    InjectError,
>)
    requires
        (state matches InjectState::Started) || (state matches InjectState::Opened { .. }) || (
        state matches InjectState::Allocated { .. }) || (state matches InjectState::Written {
            ..
        }),
    ensures
        ret == 0 ==> (r matches Err(InjectError::OsCallFailed { op, code }) && op == next_op(
            state,
        ) && code == error_code),
        ret != 0 ==> (r matches Ok(s) && s == success_state(state, ret)),
{
    if ret == 0 {
        let op = match state {
            InjectState::Started => InjectOp::OpenProcess,
            InjectState::Opened { .. } => InjectOp::AllocMem,
            InjectState::Allocated { .. } => InjectOp::WriteMem,
            _ => InjectOp::CreateThread,
        };
        Err(InjectError::OsCallFailed { op, code: error_code })
    } else {
        let next = match state {
            InjectState::Started => InjectState::Opened { process: ret },
            InjectState::Opened { process } => InjectState::Allocated { process, region: ret },
            InjectState::Allocated { process, region } => InjectState::Written { process, region },
            InjectState::Written { process, region } => InjectState::ThreadCreated {
                process,
                region,
                thread: ret,
            },
            _ => state,
        };
        Ok(next)
    }
}

/// Records the awaited remote thread's exit code.
pub fn inject_thread_done(state: InjectState, exit_code: u32) -> (r: InjectState)
    requires
        state matches InjectState::ThreadCreated { .. },
    ensures
        state matches InjectState::ThreadCreated { process, region, thread } ==> r
            == (InjectState::ThreadDone { process, region, thread, exit_code }),
{
    match state {
        InjectState::ThreadCreated { process, region, thread } => InjectState::ThreadDone {
            process,
            region,
            thread,
            exit_code,
        },
        _ => state,
    }
}

/// Judges the remote load: a zero exit code from the load thread means the
/// module failed to load; any other exit code is success.
pub fn load_outcome(exit_code: u32) -> (r: Result<(), InjectError>)
    ensures
        exit_code == 0 <==> r matches Err(InjectError::LoadFailed),
        exit_code != 0 <==> r matches Ok(..),
{
    if exit_code == 0 {
        Err(InjectError::LoadFailed)
    } else {
        Ok(())
    }
}

/// Cleanup performed after the attempt, regardless of its outcome.
#[derive(Debug, Clone, Copy, PartialEq, Eq, Structural)]
pub enum CleanupAction {
    /// Release the path region allocated in the target.
    FreeRegion { process: usize, region: usize },
    /// Close the handle of the remote load thread.
    CloseThread { thread: usize },
    /// Close the handle of the target process.
    CloseProcess { process: usize },
}

/// The best-effort cleanup plan once the remote thread has been awaited:
/// free the allocated region, then close the thread handle, then the
/// process handle — in that order, whatever the attempt's outcome.  A
/// failure of any action is logged, never propagated.
pub fn cleanup_plan(process: usize, region: usize, thread: usize) -> (r: Vec<CleanupAction>)
    ensures
        r@ == seq![
            CleanupAction::FreeRegion { process, region },
            CleanupAction::CloseThread { thread },
            CleanupAction::CloseProcess { process },
        ],
{
    let mut r: Vec<CleanupAction> = Vec::new();
    r.push(CleanupAction::FreeRegion { process, region });
    r.push(CleanupAction::CloseThread { thread });
    r.push(CleanupAction::CloseProcess { process });
    proof {
        assert(r@ =~= seq![
            CleanupAction::FreeRegion { process, region },
            CleanupAction::CloseThread { thread },
            CleanupAction::CloseProcess { process },
        ]);
    }
    r
}

} // verus!
