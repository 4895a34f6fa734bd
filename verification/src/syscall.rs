//! Operation-word decoding and the futex wait/wake engines.

use vstd::prelude::*;

use crate::errors::FutexError;
use crate::types::{
    unique_task, wake_scan, FutexKey, FutexVec, Waiter,
};

verus! {

/// The low four bits of the operation word hold the operation code.
pub const FUTEX_OP_MASK: u32 = 0x0000_000F;

/// The remaining bits of the operation word hold the flags.
pub const FUTEX_FLAGS_MASK: u32 = u32::MAX ^ FUTEX_OP_MASK;

/// The bitset that matches every waiter on an address.
pub const FUTEX_BITSET_MATCH_ANY: u32 = u32::MAX;

/// The flag marking a futex as private to one address space.
pub const FUTEX_PRIVATE: u32 = 128;

/// The flag selecting the real-time clock for timeouts.
pub const FUTEX_CLOCK_REALTIME: u32 = 256;

/// The operation codes of the futex syscall that this engine recognizes.
///
/// Only the wait and wake families are implemented; the others are decoded
/// so that they can be refused as unsupported rather than as malformed.
#[derive(Clone, Copy, Debug, PartialEq, Eq, Structural)]
#[allow(non_camel_case_types)]
pub enum FutexOp {
    FUTEX_WAIT,
    FUTEX_WAKE,
    FUTEX_FD,
    FUTEX_REQUEUE,
    FUTEX_CMP_REQUEUE,
    FUTEX_WAKE_OP,
    FUTEX_LOCK_PI,
    FUTEX_UNLOCK_PI,
    FUTEX_TRYLOCK_PI,
    FUTEX_WAIT_BITSET,
    FUTEX_WAKE_BITSET,
}

/// What the operation-code bits decode to: codes 0 through 10 in order, and
/// invalid input for anything else.
pub open spec fn op_from_u32_spec(bits: u32) -> Result<FutexOp, FutexError> {
    if bits == 0 {
        Ok(FutexOp::FUTEX_WAIT)
    } else if bits == 1 {
        Ok(FutexOp::FUTEX_WAKE)
    } else if bits == 2 {
        Ok(FutexOp::FUTEX_FD)
    } else if bits == 3 {
        Ok(FutexOp::FUTEX_REQUEUE)
    } else if bits == 4 {
        Ok(FutexOp::FUTEX_CMP_REQUEUE)
    } else if bits == 5 {
        Ok(FutexOp::FUTEX_WAKE_OP)
    } else if bits == 6 {
        Ok(FutexOp::FUTEX_LOCK_PI)
    } else if bits == 7 {
        Ok(FutexOp::FUTEX_UNLOCK_PI)
    } else if bits == 8 {
        Ok(FutexOp::FUTEX_TRYLOCK_PI)
    } else if bits == 9 {
        Ok(FutexOp::FUTEX_WAIT_BITSET)
    } else if bits == 10 {
        Ok(FutexOp::FUTEX_WAKE_BITSET)
    } else {
        Err(FutexError::InvalidInput)
    }
}

impl FutexOp {
    /// Decodes an operation code: total over the 32-bit domain, succeeding
    /// exactly on codes 0 through 10.
    pub fn from_u32(bits: u32) -> (r: Result<FutexOp, FutexError>)
        ensures
            r == op_from_u32_spec(bits),
    {
        match bits {
            0 => Ok(FutexOp::FUTEX_WAIT),
            1 => Ok(FutexOp::FUTEX_WAKE),
            2 => Ok(FutexOp::FUTEX_FD),
            3 => Ok(FutexOp::FUTEX_REQUEUE),
            4 => Ok(FutexOp::FUTEX_CMP_REQUEUE),
            5 => Ok(FutexOp::FUTEX_WAKE_OP),
            6 => Ok(FutexOp::FUTEX_LOCK_PI),
            7 => Ok(FutexOp::FUTEX_UNLOCK_PI),
            8 => Ok(FutexOp::FUTEX_TRYLOCK_PI),
            9 => Ok(FutexOp::FUTEX_WAIT_BITSET),
            10 => Ok(FutexOp::FUTEX_WAKE_BITSET),
            _ => Err(FutexError::InvalidInput),
        }
    }
}

/// The validated flag bits of an operation word.
#[derive(Clone, Copy, Debug, PartialEq, Eq, Structural)]
pub struct FutexFlags {
    pub bits: u32,
}

/// What the flag bits decode to: the bits themselves when every set bit is a
/// known flag, and invalid input otherwise.
pub open spec fn flags_from_u32_spec(bits: u32) -> Result<FutexFlags, FutexError> {
    if bits & !(FUTEX_PRIVATE | FUTEX_CLOCK_REALTIME) == 0 {
        Ok(FutexFlags { bits })
    } else {
        Err(FutexError::InvalidInput)
    }
}

impl FutexFlags {
    /// Decodes flag bits, rejecting any bit outside the known flag set.
    pub fn from_u32(bits: u32) -> (r: Result<FutexFlags, FutexError>)
        ensures
            r == flags_from_u32_spec(bits),
    {
        if bits & !(FUTEX_PRIVATE | FUTEX_CLOCK_REALTIME) == 0 {
            Ok(FutexFlags { bits })
        } else {
            Err(FutexError::InvalidInput)
        }
    }

    /// The raw flag bits.
    pub fn bits(&self) -> (r: u32)
        ensures
            r == self.bits,
    {
        self.bits
    }

    /// Whether no flag is set.
    pub fn is_empty(&self) -> (r: bool)
        ensures
            r == (self.bits == 0),
    {
        self.bits == 0
    }

    /// Whether every flag in `other` is set here too.
    pub fn contains(&self, other: FutexFlags) -> (r: bool)
        ensures
            r == (self.bits & other.bits == other.bits),
    {
        self.bits & other.bits == other.bits
    }
}

/// What a whole operation word decodes to: operation code from the low four
/// bits, then flags from the rest; the first failure wins.
pub open spec fn op_and_flags_spec(bits: u32) -> Result<(FutexOp, FutexFlags), FutexError> {
    match op_from_u32_spec(bits & FUTEX_OP_MASK) {
        Err(e) => Err(e),
        Ok(op) => match flags_from_u32_spec(bits & FUTEX_FLAGS_MASK) {
            Err(e) => Err(e),
            Ok(flags) => Ok((op, flags)),
        },
    }
}

/// Splits a raw operation word into its operation code and flags.
///
/// Decoding is pure and total: every 32-bit word either decodes or fails
/// deterministically with invalid input, before any table lookup.
pub fn futex_op_and_flags_from_u32(bits: u32) -> (r: Result<(FutexOp, FutexFlags), FutexError>)
    ensures
        r == op_and_flags_spec(bits),
{
    let op = match FutexOp::from_u32(bits & FUTEX_OP_MASK) {
        Ok(op) => op,
        Err(e) => {
            return Err(e);
        },
    };
    let flags = match FutexFlags::from_u32(bits & FUTEX_FLAGS_MASK) {
        Ok(flags) => flags,
        Err(e) => {
            return Err(e);
        },
    };
    Ok((op, flags))
}

/// Checks the watched value and enqueues the caller, under one bucket.
///
/// `actual` must be the value at `addr` loaded under the owning bucket's
/// exclusion, so that the check and the enqueue are atomic with respect to
/// wake scans of the same bucket. On a mismatch the caller never enters any
/// wait queue; on a match it is queued blocked, tagged with (addr, bitset),
/// and the caller must then suspend until a poll reports an outcome.
pub fn futex_wait_bitset(
    table: &mut FutexVec,
    addr: usize,
    expected: i32,
    actual: i32,
    bitset: u32,
    task_id: u64,
) -> (r: Result<(), FutexError>)
    requires
        old(table).wf(),
    ensures
        final(table).wf(),
        final(table).mask == old(table).mask,
        actual != expected ==> r == Err::<(), FutexError>(FutexError::WouldBlock)
            && *final(table) == *old(table),
        actual == expected ==> {
            let idx = old(table).bucket_index_spec(addr);
            &&& r == Ok::<(), FutexError>(())
            &&& final(table).buckets@[idx].waiters@ == old(table).buckets@[idx].waiters@.push(
                (Waiter { key: (FutexKey { key: addr, bitset }), task_id, blocked: true }),
            )
            &&& forall|j: int|
                0 <= j < old(table).buckets@.len() && j != idx ==> final(table).buckets@[j]
                    == old(table).buckets@[j]
        },
{
    let key = FutexKey::new(addr, bitset);
    let idx = table.bucket_index(key);
    if actual != expected {
        return Err(FutexError::WouldBlock);
    }
    let bucket = &mut table.buckets[idx];
    bucket.push_waiter(key, task_id);
    Ok(())
}

/// `futex_wait_bitset` with the match-any bitset: checks the watched value
/// and enqueues the caller to be woken by any wake on the address.
pub fn futex_wait(
    table: &mut FutexVec,
    addr: usize,
    expected: i32,
    actual: i32,
    task_id: u64,
) -> (r: Result<(), FutexError>)
    requires
        old(table).wf(),
    ensures
        final(table).wf(),
        final(table).mask == old(table).mask,
        actual != expected ==> r == Err::<(), FutexError>(FutexError::WouldBlock)
            && *final(table) == *old(table),
        actual == expected ==> {
            let idx = old(table).bucket_index_spec(addr);
            &&& r == Ok::<(), FutexError>(())
            &&& final(table).buckets@[idx].waiters@ == old(table).buckets@[idx].waiters@.push(
                (Waiter {
                    key: (FutexKey { key: addr, bitset: FUTEX_BITSET_MATCH_ANY }),
                    task_id,
                    blocked: true,
                }),
            )
            &&& forall|j: int|
                0 <= j < old(table).buckets@.len() && j != idx ==> final(table).buckets@[j]
                    == old(table).buckets@[j]
        },
{
    futex_wait_bitset(table, addr, expected, actual, FUTEX_BITSET_MATCH_ANY, task_id)
}

/// Wakes waiters on `addr` whose bitset overlaps `bitset`, at most
/// `max_count` of them, in queue order; records no longer blocked are dropped
/// from the queue without being counted; waiters on other addresses in the
/// same bucket, and waiters with disjoint bitsets, are left untouched.
///
/// Returns the number of waiters actually woken — equal to the number of
/// task identities handed back for resumption, and never more than
/// `max_count`.
pub fn futex_wake_bitset(
    table: &mut FutexVec,
    addr: usize,
    max_count: usize,
    bitset: u32,
) -> (r: Result<(usize, Vec<u64>), FutexError>)
    requires
        old(table).wf(),
    ensures
        final(table).wf(),
        final(table).mask == old(table).mask,
        ({
            let idx = old(table).bucket_index_spec(addr);
            let scan = wake_scan(
                old(table).buckets@[idx].waiters@,
                addr,
                bitset,
                max_count as nat,
            );
            &&& r matches Ok(v) && v.0 == v.1@.len() && v.0 <= max_count && v.1@ == scan.1
                && final(table).buckets@[idx].waiters@ == scan.0
            &&& forall|j: int|
                0 <= j < old(table).buckets@.len() && j != idx ==> final(table).buckets@[j]
                    == old(table).buckets@[j]
        }),
{
    let key = FutexKey::new(addr, bitset);
    let idx = table.bucket_index(key);
    let bucket = &mut table.buckets[idx];
    let (count, woken) = bucket.wake_matching(addr, max_count, bitset);
    Ok((count, woken))
}

/// What one poll of a suspended waiter's state reports.
#[derive(Clone, Copy, Debug, PartialEq, Eq, Structural)]
pub enum WaitPoll {
    /// The waiter's record is gone, or its task is no longer blocked:
    /// the wait has completed successfully.
    Woken,
    /// The waiter is still queued and blocked, and no deadline has passed:
    /// the task must keep sleeping.
    StillBlocked,
    /// The deadline passed with no matching wake; the record has been
    /// removed from its queue.
    TimedOut,
}

/// Decides the outcome of a suspended wait for task `task_id` on `addr`,
/// as of time `now`.
///
/// If the record is gone or no longer blocked, the wait completed: a stale
/// record is removed here. If the record is still blocked and the deadline
/// (if any) has passed, the record is removed and the wait timed out.
/// Otherwise the task keeps sleeping. A timed-out result is reported only at
/// or after the deadline, and an untimed wait never times out.
pub fn futex_wait_poll(
    table: &mut FutexVec,
    addr: usize,
    task_id: u64,
    now: u64,
    deadline: Option<u64>,
) -> (r: WaitPoll)
    requires
        old(table).wf(),
        unique_task(
            old(table).buckets@[old(table).bucket_index_spec(addr)].waiters@,
            task_id,
        ),
    ensures
        final(table).wf(),
        final(table).mask == old(table).mask,
        ({
            let idx = old(table).bucket_index_spec(addr);
            let ws = old(table).buckets@[idx].waiters@;
            &&& (forall|j: int| 0 <= j < ws.len() ==> ws[j].task_id != task_id) ==> (r
                == WaitPoll::Woken && *final(table) == *old(table))
            &&& forall|j: int|
                0 <= j < ws.len() && ws[j].task_id == task_id ==> {
                    &&& (!ws[j].blocked ==> r == WaitPoll::Woken && final(table).buckets@[idx].waiters@ == ws.remove(j))
                    &&& (ws[j].blocked && (deadline matches Some(d) && now >= d) ==> r
                        == WaitPoll::TimedOut && final(table).buckets@[idx].waiters@
                        == ws.remove(j))
                    &&& (ws[j].blocked && !(deadline matches Some(d) && now >= d) ==> r
                        == WaitPoll::StillBlocked && *final(table) == *old(table))
                }
            &&& forall|j2: int|
                0 <= j2 < old(table).buckets@.len() && j2 != idx ==> final(table).buckets@[j2] == old(table).buckets@[j2]
        }),
        r == WaitPoll::TimedOut ==> (deadline matches Some(d) && now >= d),
        deadline is None ==> r != WaitPoll::TimedOut,
{
    let key = FutexKey::new(addr, FUTEX_BITSET_MATCH_ANY);
    let idx = table.bucket_index(key);
    let found = table.buckets[idx].find_task(task_id);
    match found {
        None => WaitPoll::Woken,
        Some(j) => {
            let w_blocked = table.buckets[idx].waiters[j].blocked;
            let deadline_passed = match deadline {
                Some(d) => now >= d,
                None => false,
            };
            if !w_blocked {
                let bucket = &mut table.buckets[idx];
                let _stale = bucket.waiters.remove(j);
                WaitPoll::Woken
            } else if deadline_passed {
                let bucket = &mut table.buckets[idx];
                let _expired = bucket.waiters.remove(j);
                WaitPoll::TimedOut
            } else {
                WaitPoll::StillBlocked
            }
        },
    }
}

/// The two ways a wait deadline can be kept.
#[derive(Clone, Copy, Debug, PartialEq, Eq, Structural)]
pub enum TimeoutPolicy {
    /// Sleep against an absolute deadline computed at call time; accurate
    /// across preemption and rescheduling, and the only choice when no
    /// asynchronous timer interrupt is available.
    Absolute,
    /// Sleep for a relative span measured from the blocking point; usable
    /// when timer interrupts are available.
    RelativeFromBlock,
}

/// Which deadline policy a timed wait uses, given whether timer interrupts
/// are available and which bitset the wait carries.
pub open spec fn timeout_policy_spec(irq_available: bool, bitset: u32) -> TimeoutPolicy {
    if !irq_available {
        TimeoutPolicy::Absolute
    } else if bitset == FUTEX_BITSET_MATCH_ANY {
        TimeoutPolicy::Absolute
    } else {
        TimeoutPolicy::RelativeFromBlock
    }
}

/// Chooses the deadline policy for a timed wait: without timer interrupts
/// every wait sleeps against an absolute deadline; with them, match-any
/// waits still do, and bitset waits sleep relative to the blocking point.
pub fn timeout_policy(irq_available: bool, bitset: u32) -> (r: TimeoutPolicy)
    ensures
        r == timeout_policy_spec(irq_available, bitset),
{
    if !irq_available {
        TimeoutPolicy::Absolute
    } else if bitset == FUTEX_BITSET_MATCH_ANY {
        TimeoutPolicy::Absolute
    } else {
        TimeoutPolicy::RelativeFromBlock
    }
}

/// The absolute deadline for a wait issued at `now` with a relative timeout
/// of `timeout` time units: their sum, saturating at the end of time.
pub fn absolute_deadline(now: u64, timeout: u64) -> (r: u64)
    ensures
        now + timeout <= u64::MAX ==> r == now + timeout,
        now + timeout > u64::MAX ==> r == u64::MAX,
        r >= now,
{
    if timeout > u64::MAX - now {
        u64::MAX
    } else {
        now + timeout
    }
}

/// `futex_wake_bitset` with the match-any bitset: wakes up to `max_count`
/// waiters on the address, whatever bitset they registered.
pub fn futex_wake(table: &mut FutexVec, addr: usize, max_count: usize) -> (r: Result<
    (usize, Vec<u64>),
    FutexError,
>)
    requires
        old(table).wf(),
    ensures
        final(table).wf(),
        final(table).mask == old(table).mask,
        ({
            let idx = old(table).bucket_index_spec(addr);
            let scan = wake_scan(
                old(table).buckets@[idx].waiters@,
                addr,
                FUTEX_BITSET_MATCH_ANY,
                max_count as nat,
            );
            &&& r matches Ok(v) && v.0 == v.1@.len() && v.0 <= max_count && v.1@ == scan.1
                && final(table).buckets@[idx].waiters@ == scan.0
            &&& forall|j: int|
                0 <= j < old(table).buckets@.len() && j != idx ==> final(table).buckets@[j]
                    == old(table).buckets@[j]
        }),
{
    futex_wake_bitset(table, addr, max_count, FUTEX_BITSET_MATCH_ANY)
}

} // verus!
