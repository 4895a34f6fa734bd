//! A small deterministic number source for spinlock backoff.
//!
//! Backoff randomness needs no statistical quality, only cheap variety, so
//! this source walks a fixed table of small values with a running counter.

use vstd::prelude::*;

use crate::rand_strategy::SpinRandIf;

verus! {

/// The fixed table that [`easy_rng`] walks: 64 values, each below 16.
pub open spec fn rng_table() -> Seq<u32> {
    seq![
        9u32, 7, 13, 0, 15, 2, 14, 1, 14, 14, 11, 3, 13, 11, 12, 10, 3, 6, 8, 1, 2, 0, 12,
        12, 13, 2, 9, 5, 3, 10, 6, 1, 15, 9, 6, 12, 9, 7, 4, 7, 4, 8, 11, 7, 0, 1, 2, 10,
        15, 6, 5, 3, 0, 5, 14, 4, 4, 13, 15, 8, 5, 10, 8, 11,
    ]
}

/// Draws the next value of the fixed table, advancing the counter by one
/// (wrapping at the end of its range). Every drawn value is below 16.
pub fn easy_rng(state: &mut u64) -> (r: u32)
    ensures
        r == rng_table()[(*old(state) % 64) as int],
        r < 16,
        *final(state) == if *old(state) == u64::MAX {
            0u64
        } else {
            (*old(state) + 1) as u64
        },
{
    let table: Vec<u32> = vec![
        9u32, 7, 13, 0, 15, 2, 14, 1, 14, 14, 11, 3, 13, 11, 12, 10, 3, 6, 8, 1, 2, 0, 12,
        12, 13, 2, 9, 5, 3, 10, 6, 1, 15, 9, 6, 12, 9, 7, 4, 7, 4, 8, 11, 7, 0, 1, 2, 10,
        15, 6, 5, 3, 0, 5, 14, 4, 4, 13, 15, 8, 5, 10, 8, 11,
    ];
    proof {
        assert(table@ =~= rng_table());
        assert(forall|k: int| 0 <= k < 64 ==> #[trigger] rng_table()[k] < 16) by {
            assert(rng_table().len() == 64);
        }
    }
    let idx = (*state % 64) as usize;
    let r = table[idx];
    *state = if *state == u64::MAX {
        0
    } else {
        *state + 1
    };
    r
}

/// The per-CPU number source used for spinlock backoff: a counter into the
/// fixed table.
#[derive(Clone, Copy, Debug)]
pub struct EasyRng {
    pub state: u64,
}

impl EasyRng {
    /// A fresh source starting at the head of the table.
    pub fn new() -> (r: Self)
        ensures
            r.state == 0,
    {
        EasyRng { state: 0 }
    }
}

impl SpinRandIf for EasyRng {
    /// Maps the next table value into `lo ..= hi`.
    fn percpu_rand(&mut self, lo: u32, hi: u32) -> (r: u32) {
        let x = easy_rng(&mut self.state);
        if lo == 0 && hi == u32::MAX {
            x
        } else {
            let span = hi - lo + 1;
            lo + x % span
        }
    }
}

} // verus!
