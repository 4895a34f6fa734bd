//! The randomized exponential backoff strategy for contended spinlocks.
//!
//! The strategy consumes a "random number in range" capability through the
//! [`SpinRandIf`] trait, injected by the caller rather than reimplemented
//! here: the engine only decides how the backoff limit grows and how long to
//! spin.

use vstd::prelude::*;

verus! {

/// The interface to generate a random number within a given inclusive
/// range, used by the random exponential backoff algorithm.
///
/// Implementations may be called simultaneously on multiple CPUs, so they
/// must be thread-safe; nothing beyond range membership is promised of the
/// drawn value.
pub trait SpinRandIf {
    /// Draws a number in `lo ..= hi`.
    fn percpu_rand(&mut self, lo: u32, hi: u32) -> (r: u32)
        requires
            lo <= hi,
        ensures
            lo <= r <= hi,
    ;
}

/// A contention-relax policy: what a spinning thread does between retries.
pub trait Relax {
    /// Backs off once between lock attempts.
    fn relax(&mut self);
}

/// A contention-backoff policy: what a failed lock attempt does before the
/// next one.
pub trait Backoff {
    /// Backs off once after a failed attempt.
    fn backoff(&mut self);
}

/// Relies on `core::hint::spin_loop`: a CPU pause hint with no observable
/// effect on any value.
#[verifier::external_body]
fn cpu_relax() {
    core::hint::spin_loop();
}

/// One step of random exponential backoff: raises the stored limit to at
/// least `max`, draws a random delay within the previous limit, and spins
/// that many times.
pub fn exp_rand_backoff<R: SpinRandIf>(current_limit: &mut u32, max: u32, rng: &mut R)
    ensures
        *final(current_limit) == if max > *old(current_limit) {
            max
        } else {
            *old(current_limit)
        },
{
    let limit = *current_limit;
    *current_limit = if max > limit {
        max
    } else {
        limit
    };
    let delay = rng.percpu_rand(0, limit);
    let mut i: u32 = 0;
    while i < delay
        invariant
            i <= delay,
            *current_limit == if max > limit {
                max
            } else {
                limit
            },
        decreases delay - i,
    {
        cpu_relax();
        i += 1;
    }
}

/// Calls [`cpu_relax`] a random number of times within an exponentially
/// grown limit whenever backoff or relax is required, drawing the count
/// from the injected [`SpinRandIf`] capability.
///
/// This generally increases performance when a lock is highly contended.
pub struct ExpRand<R, const MAX: u32> {
    pub limit: u32,
    pub rng: R,
}

impl<R: SpinRandIf, const MAX: u32> ExpRand<R, MAX> {
    /// A fresh strategy around `rng`, with the initial limit of one.
    pub fn new(rng: R) -> (r: Self)
        ensures
            r.limit == 1,
    {
        ExpRand { limit: 1, rng }
    }
}

impl<R: SpinRandIf, const MAX: u32> Relax for ExpRand<R, MAX> {
    fn relax(&mut self) {
        exp_rand_backoff(&mut self.limit, MAX, &mut self.rng);
    }
}

impl<R: SpinRandIf, const MAX: u32> Backoff for ExpRand<R, MAX> {
    fn backoff(&mut self) {
        exp_rand_backoff(&mut self.limit, MAX, &mut self.rng);
    }
}

} // verus!
