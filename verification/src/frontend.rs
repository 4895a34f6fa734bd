//! The syscall-shaped frontend: decodes raw futex arguments, dispatches to
//! the wait and wake engines, and renders results in the POSIX convention.

use vstd::prelude::*;

use crate::errors::FutexError;
use crate::syscall::{
    absolute_deadline, futex_op_and_flags_from_u32, timeout_policy, timeout_policy_spec,
    FutexOp, TimeoutPolicy, FUTEX_BITSET_MATCH_ANY,
};
use crate::types::{wake_scan, FutexKey, FutexVec, Waiter};

verus! {

/// What one futex syscall asks the caller to do next.
///
/// A wake, an error, or an unsupported operation completes at once; a
/// successful wait hands back the bucket and deadline under which the caller
/// must suspend, polling until the wait resolves.
pub enum SysFutexStep {
    /// The call is finished. `ret` follows the POSIX convention: a
    /// non-negative wake count on success, or the negated errno on failure.
    /// `woken` holds the task identities that the caller must now resume.
    Complete { ret: i32, woken: Vec<u64> },
    /// The caller was enqueued in bucket `bucket_index` and must suspend,
    /// until a poll reports that the wait was resolved; `deadline` is the
    /// absolute time limit, if the wait is timed, kept under `policy`.
    Block { bucket_index: usize, deadline: Option<u64>, policy: TimeoutPolicy },
}

/// What a wait-family call must produce: an immediate would-block failure on
/// a value mismatch, else an enqueued waiter and the order to suspend.
pub open spec fn wait_step_spec(
    old_t: FutexVec,
    new_t: FutexVec,
    r: SysFutexStep,
    addr: usize,
    expected: i32,
    actual: i32,
    bitset: u32,
    task_id: u64,
    timeout: Option<u64>,
    irq_available: bool,
    now: u64,
) -> bool {
    if actual != expected {
        &&& r matches SysFutexStep::Complete { ret, woken } && ret
            == -FutexError::WouldBlock.errno_spec() && woken@.len() == 0
        &&& new_t == old_t
    } else {
        let idx = old_t.bucket_index_spec(addr);
        &&& r matches SysFutexStep::Block { bucket_index, deadline, policy } && bucket_index
            == idx && policy == timeout_policy_spec(irq_available, bitset) && (match timeout {
            None => deadline is None,
            Some(t) => deadline == Some(
                if now + t <= u64::MAX {
                    (now + t) as u64
                } else {
                    u64::MAX
                },
            ),
        })
        &&& new_t.buckets@[idx].waiters@ == old_t.buckets@[idx].waiters@.push(
            (Waiter { key: (FutexKey { key: addr, bitset }), task_id, blocked: true }),
        )
        &&& forall|j: int|
            0 <= j < old_t.buckets@.len() && j != idx ==> new_t.buckets@[j]
                == old_t.buckets@[j]
    }
}

/// What a wake-family call must produce: one wake pass over the owning
/// bucket, the woken task identities handed back, and their count as the
/// return value.
pub open spec fn wake_step_spec(
    old_t: FutexVec,
    new_t: FutexVec,
    r: SysFutexStep,
    addr: usize,
    max_count: usize,
    bitset: u32,
) -> bool {
    let idx = old_t.bucket_index_spec(addr);
    let scan = wake_scan(old_t.buckets@[idx].waiters@, addr, bitset, max_count as nat);
    &&& r matches SysFutexStep::Complete { ret, woken } && woken@ == scan.1 && ret == (
    if scan.1.len() <= i32::MAX {
        scan.1.len() as i32
    } else {
        i32::MAX
    })
    &&& new_t.buckets@[idx].waiters@ == scan.0
    &&& forall|j: int|
        0 <= j < old_t.buckets@.len() && j != idx ==> new_t.buckets@[j] == old_t.buckets@[j]
}

/// The wait side of the dispatch: value check, enqueue, and the blocking
/// order with its deadline and policy.
fn wait_path(
    table: &mut FutexVec,
    addr: usize,
    expected: i32,
    actual: i32,
    bitset: u32,
    task_id: u64,
    timeout: Option<u64>,
    irq_available: bool,
    now: u64,
) -> (r: SysFutexStep)
    requires
        old(table).wf(),
    ensures
        final(table).wf(),
        final(table).mask == old(table).mask,
        wait_step_spec(
            *old(table),
            *final(table),
            r,
            addr,
            expected,
            actual,
            bitset,
            task_id,
            timeout,
            irq_available,
            now,
        ),
{
    match crate::syscall::futex_wait_bitset(table, addr, expected, actual, bitset, task_id) {
        Err(e) => SysFutexStep::Complete { ret: -(e.errno()), woken: Vec::new() },
        Ok(()) => {
            let key = FutexKey::new(addr, bitset);
            let bucket_index = table.bucket_index(key);
            let deadline = match timeout {
                None => None,
                Some(t) => Some(absolute_deadline(now, t)),
            };
            let policy = timeout_policy(irq_available, bitset);
            SysFutexStep::Block { bucket_index, deadline, policy }
        },
    }
}

/// The wake side of the dispatch: one wake pass, and the count rendered as
/// the return value (saturating at `i32::MAX`, a count no real queue can
/// reach).
fn wake_path(table: &mut FutexVec, addr: usize, max_count: usize, bitset: u32) -> (r:
    SysFutexStep)
    requires
        old(table).wf(),
    ensures
        final(table).wf(),
        final(table).mask == old(table).mask,
        wake_step_spec(*old(table), *final(table), r, addr, max_count, bitset),
{
    match crate::syscall::futex_wake_bitset(table, addr, max_count, bitset) {
        Ok((count, woken)) => {
            let ret: i32 = if count > i32::MAX as usize {
                i32::MAX
            } else {
                count as i32
            };
            SysFutexStep::Complete { ret, woken }
        },
        Err(e) => SysFutexStep::Complete { ret: -(e.errno()), woken: Vec::new() },
    }
}

/// One step of the six-argument POSIX futex syscall.
///
/// Decodes `op` into an operation code and flags; malformed words fail with
/// invalid input before any table lookup. Wait operations check `actual`
/// (the watched word's value, loaded by the caller under the owning bucket's
/// exclusion) against `val` and either refuse with would-block or enqueue
/// the caller; the timeout is honored only for the wait family. Wake
/// operations run one wake pass with `val` as the count limit. Recognized
/// but unimplemented operations fail as unsupported. Errors are returned as
/// negated errno values.
pub fn sys_futex(
    table: &mut FutexVec,
    uaddr: usize,
    op: u32,
    val: i32,
    timeout: Option<u64>,
    _uaddr2: i32,
    val3: i32,
    actual: i32,
    task_id: u64,
    irq_available: bool,
    now: u64,
) -> (r: SysFutexStep)
    requires
        old(table).wf(),
    ensures
        final(table).wf(),
        final(table).mask == old(table).mask,
        ({
            let dec = crate::syscall::op_and_flags_spec(op);
            &&& (dec matches Err(e) ==> (r matches SysFutexStep::Complete { ret, woken }
                && ret == -e.errno_spec() && woken@.len() == 0 && *final(table) == *old(table)))
            &&& (dec matches Ok(p) ==> {
                &&& (p.0 == FutexOp::FUTEX_WAIT ==> wait_step_spec(
                    *old(table),
                    *final(table),
                    r,
                    uaddr,
                    val,
                    actual,
                    FUTEX_BITSET_MATCH_ANY,
                    task_id,
                    timeout,
                    irq_available,
                    now,
                ))
                &&& (p.0 == FutexOp::FUTEX_WAIT_BITSET ==> wait_step_spec(
                    *old(table),
                    *final(table),
                    r,
                    uaddr,
                    val,
                    actual,
                    val3 as u32,
                    task_id,
                    timeout,
                    irq_available,
                    now,
                ))
                &&& (p.0 == FutexOp::FUTEX_WAKE ==> wake_step_spec(
                    *old(table),
                    *final(table),
                    r,
                    uaddr,
                    val as usize,
                    FUTEX_BITSET_MATCH_ANY,
                ))
                &&& (p.0 == FutexOp::FUTEX_WAKE_BITSET ==> wake_step_spec(
                    *old(table),
                    *final(table),
                    r,
                    uaddr,
                    val as usize,
                    val3 as u32,
                ))
                &&& (!(p.0 == FutexOp::FUTEX_WAIT || p.0 == FutexOp::FUTEX_WAIT_BITSET
                    || p.0 == FutexOp::FUTEX_WAKE || p.0 == FutexOp::FUTEX_WAKE_BITSET)
                    ==> (r matches SysFutexStep::Complete { ret, woken } && ret
                    == -FutexError::Unsupported.errno_spec() && woken@.len() == 0 && *final(table) == *old(table)))
            })
        }),
{
    let decoded = futex_op_and_flags_from_u32(op);
    let (op_code, _flags) = match decoded {
        Ok(p) => p,
        Err(e) => {
            return SysFutexStep::Complete { ret: -(e.errno()), woken: Vec::new() };
        },
    };
    match op_code {
        FutexOp::FUTEX_WAIT => wait_path(
            table,
            uaddr,
            val,
            actual,
            FUTEX_BITSET_MATCH_ANY,
            task_id,
            timeout,
            irq_available,
            now,
        ),
        FutexOp::FUTEX_WAIT_BITSET => wait_path(
            table,
            uaddr,
            val,
            actual,
            #[verifier::truncate] (val3 as u32),
            task_id,
            timeout,
            irq_available,
            now,
        ),
        FutexOp::FUTEX_WAKE => wake_path(
            table,
            uaddr,
            #[verifier::truncate] (val as usize),
            FUTEX_BITSET_MATCH_ANY,
        ),
        FutexOp::FUTEX_WAKE_BITSET => wake_path(
            table,
            uaddr,
            #[verifier::truncate] (val as usize),
            #[verifier::truncate] (val3 as u32),
        ),
        _ => {
            let e = FutexError::Unsupported;
            SysFutexStep::Complete { ret: -(e.errno()), woken: Vec::new() }
        },
    }
}

} // verus!
