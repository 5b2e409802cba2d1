//! The process directory: buffer sizing for process enumeration and
//! resolution of a process by its executable name.
//!
//! The OS calls themselves (enumerate, open, read a module name) live in the
//! unverified shell; every decision they feed — how large a buffer to ask
//! for, when a reply may be truncated, which candidate matches — is made
//! here.

use vstd::prelude::*;
use crate::error::WinApiError;
use crate::error::WinApiErrorCode;

verus! {

/// Number of bytes in one process identifier as the OS reports it.
pub const PID_SIZE: usize = 4;

/// First capacity, in identifiers, tried when enumerating processes.
pub const INITIAL_BUFFER_SIZE: usize = 1024;

/// An open process: its identifier and the non-null access handle the OS
/// opened for it.
#[derive(Debug, Clone, Copy, PartialEq, Eq, Structural)]
pub struct WinApiProcess {
    pub pid: u32,
    pub handle: usize,
}

impl WinApiProcess {
    /// Pairs a process identifier with the handle the OS opened for it.
    pub fn new(pid: u32, handle: usize) -> (r: Self)
        requires
            handle != 0,
        ensures
            r.pid == pid,
            r.handle == handle,
            r.handle != 0,
    {
        WinApiProcess { pid, handle }
    }
}

/// What the enumeration loop does after one OS round trip.
#[derive(Debug, Clone, Copy, PartialEq, Eq, Structural)]
pub enum EnumStep {
    /// The buffer had room to spare, so the list is complete: accept its
    /// first `count` identifiers.
    Finish { count: usize },
    /// The OS filled the whole buffer, so the list may be truncated: retry
    /// with room for `next_size` identifiers.
    Grow { next_size: usize },
}

/// Byte capacity passed to the OS for a buffer of `buffer_size` identifiers;
/// refused when it would exceed the OS's 32-bit addressable limit.
pub fn enum_buffer_bytes(buffer_size: usize) -> (r: Result<u32, WinApiError>)
    requires
        PID_SIZE * buffer_size <= usize::MAX,
    ensures
        PID_SIZE * buffer_size <= u32::MAX ==> (r matches Ok(b) && b == PID_SIZE * buffer_size),
        PID_SIZE * buffer_size > u32::MAX ==> (r matches Err(WinApiError::BufferSizeError(s))
            && s == PID_SIZE * buffer_size),
{
    let bytes: usize = PID_SIZE * buffer_size;
    if bytes > u32::MAX as usize {
        Err(WinApiError::BufferSizeError(bytes))
    } else {
        Ok(bytes as u32)
    }
}

/// Decides the next enumeration action from the OS's reply to a request for
/// `buffer_bytes` bytes.  A failed call aborts with the OS code; a reply
/// that fills the whole buffer is never accepted, only retried larger, so an
/// accepted list is never truncated.
pub fn enum_step(
    buffer_size: usize,
    buffer_bytes: u32,
    call_ok: bool,
    error_code: u32,
    ret_bytes: u32,
) -> (r: Result<EnumStep, WinApiError>)
    requires
        buffer_bytes == PID_SIZE * buffer_size,
    ensures
        !call_ok ==> (r matches Err(WinApiError::WinApiErrorCode(c)) && c.0 == error_code),
        call_ok && ret_bytes < buffer_bytes ==> (r matches Ok(EnumStep::Finish { count })
            && count == ret_bytes / (PID_SIZE as u32)),
        call_ok && ret_bytes >= buffer_bytes ==> (r matches Ok(EnumStep::Grow { next_size })
            && next_size == 2 * buffer_size),
        call_ok && ret_bytes == buffer_bytes ==> !(r matches Ok(EnumStep::Finish { .. })),
{
    if !call_ok {
        Err(WinApiError::WinApiErrorCode(WinApiErrorCode::new(error_code)))
    } else if ret_bytes < buffer_bytes {
        Ok(EnumStep::Finish { count: (ret_bytes / (PID_SIZE as u32)) as usize })
    } else {
        Ok(EnumStep::Grow { next_size: 2 * buffer_size })
    }
}

/// The accepted identifiers: the first `count` entries the OS wrote.
pub fn take_pids(buffer: Vec<u32>, count: usize) -> (r: Vec<u32>)
    requires
        count <= buffer@.len(),
    ensures
        r@ == buffer@.subrange(0, count as int),
{
    let mut b = buffer;
    b.truncate(count);
    b
}

/// One candidate examined while scanning for a process by name.
#[derive(Debug, Clone, PartialEq)]
pub enum ScanOutcome {
    /// The process could not be opened: insufficient rights, or it exited
    /// before the open.
    OpenFailed { code: u32 },
    /// Its primary module's name could not be read: the target exited
    /// mid-read, or the name was not convertible.
    NameFailed,
    /// The base name of its primary module, in wide-character units.
    Named { pid: u32, name: Vec<u16> },
}

/// The first candidate whose name matches `target` exactly; candidates that
/// failed to open or to report a name are skipped, never fatal.
pub open spec fn resolve_spec(outcomes: Seq<ScanOutcome>, target: Seq<u16>) -> Option<u32>
    decreases outcomes.len(),
{
    if outcomes.len() == 0 {
        None
    } else {
        match outcomes[0] {
            ScanOutcome::Named { pid, name } => if name@ == target {
                Some(pid)
            } else {
                resolve_spec(outcomes.drop_first(), target)
            },
            _ => resolve_spec(outcomes.drop_first(), target),
        }
    }
}

/// Law: a candidate that fails to open, or whose name cannot be read, does
/// not stop the scan — the result is exactly that of the remaining
/// candidates.
pub proof fn lemma_scan_skips_failures(first: ScanOutcome, rest: Seq<ScanOutcome>, target: Seq<u16>)
    requires
        !(first matches ScanOutcome::Named { .. }),
    ensures
        resolve_spec(seq![first].add(rest), target) == resolve_spec(rest, target),
{
    let all = seq![first].add(rest);
    assert(all.len() == 1 + rest.len());
    assert(all.drop_first() =~= rest);
}

/// Scans the candidates in order and returns the first process whose module
/// name equals `target` exactly; failed candidates are skipped.
pub fn resolve_by_name(outcomes: &Vec<ScanOutcome>, target: &Vec<u16>) -> (r: Option<u32>)
    ensures
        r == resolve_spec(outcomes@, target@),
{
    let mut k: usize = 0;
    proof {
        assert(outcomes@.skip(0) =~= outcomes@);
    }
    while k < outcomes.len()
        invariant
            k <= outcomes@.len(),
            resolve_spec(outcomes@, target@) == resolve_spec(
                outcomes@.skip(k as int),
                target@,
            ),
        decreases outcomes@.len() - k,
    {
        let ghost before = outcomes@.skip(k as int);
        match &outcomes[k] {
            ScanOutcome::Named { pid, name } => {
                let matches_target = wide_eq(name, target);
                if matches_target {
                    proof {
                        assert(before[0] == outcomes@[k as int]);
                    }
                    return Some(*pid);
                }
            },
            _ => {},
        }
        k += 1;
        proof {
            assert(before[0] == outcomes@[k - 1]);
            assert(before.drop_first() =~= outcomes@.skip(k as int));
        }
    }
    proof {
        assert(outcomes@.skip(outcomes@.len() as int).len() == 0);
    }
    None
}

/// Exact equality of two wide-character names.
pub fn wide_eq(a: &Vec<u16>, b: &Vec<u16>) -> (r: bool)
    ensures
        r == (a@ == b@),
{
    if a.len() != b.len() {
        return false;
    }
    let mut k: usize = 0;
    while k < a.len()
        invariant
            k <= a@.len(),
            a@.len() == b@.len(),
            forall|j: int| 0 <= j < k ==> a@[j] == b@[j],
        decreases a@.len() - k,
    {
        if a[k] != b[k] {
            return false;
        }
        k += 1;
    }
    proof {
        assert(a@ =~= b@);
    }
    true
}

} // verus!
