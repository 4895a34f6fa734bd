//! A verified futex (fast user-space mutex) engine.
//!
//! The crate implements the kernel-side wait/wake mechanism that lets user
//! threads block on a 32-bit memory word and be woken selectively: a sharded
//! bucket table mapping addresses to wait queues, address-and-bitset waiter
//! selection, timeout policy, and the syscall-shaped frontend that decodes
//! raw operation words and dispatches to the engines.
//!
//! Suspending and resuming threads, the atomic load of the watched word, and
//! per-CPU bookkeeping are outside collaborators: the engines here decide,
//! over plain values, who enters a queue and who leaves it.

use vstd::prelude::*;

pub mod errors;
pub mod frontend;
pub mod rand_strategy;
pub mod spin_rand;
pub mod syscall;
pub mod types;

verus! {

/// 2 to the power of `e`.
pub open spec fn pow2(e: nat) -> nat
    decreases e,
{
    if e == 0 {
        1
    } else {
        2 * pow2((e - 1) as nat)
    }
}

/// Rounds `n` up to the next power of two.
///
/// The result is the least power of two that is at least `n`.
pub fn next_power_of_two(n: usize) -> (r: usize)
    requires
        1 <= n <= usize::MAX / 2 + 1,
    ensures
        exists|e: nat| r == pow2(e),
        n <= r < 2 * n,
{
    let mut r: usize = 1;
    proof {
        assert(pow2(0) == 1);
        assert(r == pow2(0));
    }
    while r < n
        invariant
            1 <= r,
            n <= usize::MAX / 2 + 1,
            exists|e: nat| r == pow2(e),
            r < 2 * n,
        decreases 2 * n - r,
    {
        proof {
            let e = choose|e: nat| r == pow2(e);
            assert(2 * r == pow2(e + 1));
        }
        r = r * 2;
    }
    r
}

/// The number of buckets per CPU core, before rounding up: the same count as
/// the Linux kernel uses, to keep comparable collision behavior.
pub const BUCKETS_PER_CORE: usize = 256;

/// Builds the process-wide futex table for `core_count` CPU cores:
/// `next_power_of_two(256 * core_count)` empty buckets, fixed in size for the
/// process lifetime.
///
/// The table must be created once during startup, before any futex call is
/// issued; the caller owns it thereafter and it is never torn down.
pub fn init_futex(core_count: usize) -> (t: types::FutexVec)
    requires
        1 <= core_count <= 0x10000,
    ensures
        t.wf(),
        exists|e: nat| t.buckets@.len() == pow2(e),
        BUCKETS_PER_CORE * core_count <= t.buckets@.len() < 2 * BUCKETS_PER_CORE
            * core_count,
        forall|j: int| 0 <= j < t.buckets@.len() ==> t.buckets@[j].waiters@.len() == 0,
{
    let n = core_count * BUCKETS_PER_CORE;
    let size = next_power_of_two(n);
    proof {
        assert(size >= BUCKETS_PER_CORE * core_count) by (nonlinear_arith)
            requires
                size >= n,
                n == BUCKETS_PER_CORE * core_count,
        ;
        assert(size < 2 * BUCKETS_PER_CORE * core_count) by (nonlinear_arith)
            requires
                size < 2 * n,
                n == BUCKETS_PER_CORE * core_count,
        ;
    }
    types::FutexVec::new(size)
}

} // verus!
