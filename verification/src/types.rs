//! Futex keys, waiter records, wait-queue buckets, and the sharded table.

use vstd::prelude::*;

verus! {

/// Identifies a futex as (address, bitset).
///
/// `key` is the raw memory location of the watched 32-bit word, treated as an
/// opaque integer identity: the table and bucket logic never dereference it.
/// Equality uses the address only; the bitset is carried as payload.
#[derive(Clone, Copy, Debug)]
pub struct FutexKey {
    pub key: usize,
    pub bitset: u32,
}

impl FutexKey {
    /// Creates a futex key from the address of the watched word and a bitset.
    pub fn new(addr: usize, bitset: u32) -> (r: Self)
        ensures
            r.key == addr,
            r.bitset == bitset,
    {
        Self { key: addr, bitset }
    }

    /// Returns the address that this futex key references.
    pub fn addr(&self) -> (r: usize)
        ensures
            r == self.key,
    {
        self.key
    }

    /// Returns the bitset carried by this key.
    pub fn bitset(&self) -> (r: u32)
        ensures
            r == self.bitset,
    {
        self.bitset
    }
}

impl PartialEq for FutexKey {
    /// Two keys are the same futex iff their addresses match,
    /// regardless of bitset.
    fn eq(&self, other: &Self) -> (r: bool) {
        self.key == other.key
    }
}

impl vstd::std_specs::cmp::PartialEqSpecImpl for FutexKey {
    open spec fn obeys_eq_spec() -> bool {
        true
    }

    open spec fn eq_spec(&self, other: &FutexKey) -> bool {
        self.key == other.key
    }
}

/// One blocked-waiter record: the key supplied at block time, the identity of
/// the blocked task, and whether the task is still in the blocked state.
///
/// `blocked` models the scheduler's view of the task: a task made runnable
/// behind the engine's back (a spurious wake) keeps its record in the bucket
/// with `blocked == false` until a wake scan or its own poll removes it.
#[derive(Clone, Copy, Debug)]
pub struct Waiter {
    pub key: FutexKey,
    pub task_id: u64,
    pub blocked: bool,
}

/// A wait queue for one hash slot.
///
/// A bucket may hold waiters for many distinct real addresses at once (hash
/// collisions), so every scan re-checks each waiter's own key.
pub struct FutexBucket {
    pub waiters: Vec<Waiter>,
}

impl FutexBucket {
    /// Creates an empty bucket.
    pub fn new() -> (r: Self)
        ensures
            r.waiters@ =~= Seq::<Waiter>::empty(),
    {
        Self { waiters: Vec::new() }
    }

    /// The number of waiter records currently queued.
    pub fn len(&self) -> (r: usize)
        ensures
            r == self.waiters@.len(),
    {
        self.waiters.len()
    }

    /// Appends a blocked waiter tagged with `key` for task `task_id`.
    pub fn push_waiter(&mut self, key: FutexKey, task_id: u64)
        ensures
            final(self).waiters@ == old(self).waiters@.push(
                (Waiter { key, task_id, blocked: true }),
            ),
    {
        self.waiters.push(Waiter { key, task_id, blocked: true });
    }

    /// One wake pass over this bucket, in queue order: drops records that are
    /// no longer blocked, wakes blocked records whose key has address `addr`
    /// and a bitset overlapping `bitset` while fewer than `max_count` have
    /// been woken, and leaves every other record queued.
    ///
    /// Returns the number of waiters actually woken and their task
    /// identities; the count never exceeds `max_count`.
    pub fn wake_matching(&mut self, addr: usize, max_count: usize, bitset: u32) -> (r: (
        usize,
        Vec<u64>,
    ))
        ensures
            final(self).waiters@ == wake_scan(
                old(self).waiters@,
                addr,
                bitset,
                max_count as nat,
            ).0,
            r.1@ == wake_scan(old(self).waiters@, addr, bitset, max_count as nat).1,
            r.0 == r.1@.len(),
            r.0 <= max_count,
    {
        let ghost orig = self.waiters@;
        let mut kept: Vec<Waiter> = Vec::new();
        let mut woken: Vec<u64> = Vec::new();
        let mut count: usize = 0;
        let mut i: usize = 0;
        while i < self.waiters.len()
            invariant
                self.waiters@ == orig,
                i <= orig.len(),
                count == woken@.len(),
                count <= max_count,
                kept@ == wake_scan(orig.take(i as int), addr, bitset, max_count as nat).0,
                woken@ == wake_scan(orig.take(i as int), addr, bitset, max_count as nat).1,
            decreases orig.len() - i,
        {
            let w = self.waiters[i];
            proof {
                assert(orig.take(i + 1).drop_last() =~= orig.take(i as int));
                assert(orig.take(i + 1).last() == orig[i as int]);
            }
            if !w.blocked {
                // a record no longer blocked is dropped without being counted
            } else if count < max_count && w.key.key == addr && (bitset & w.key.bitset)
                != 0 {
                woken.push(w.task_id);
                count += 1;
            } else {
                kept.push(w);
            }
            i += 1;
        }
        proof {
            assert(orig.take(orig.len() as int) =~= orig);
        }
        self.waiters = kept;
        (count, woken)
    }

    /// Finds the queue position of the first record for `task_id`, if any.
    pub fn find_task(&self, task_id: u64) -> (r: Option<usize>)
        ensures
            match r {
                Some(j) => j < self.waiters@.len() && self.waiters@[j as int].task_id
                    == task_id && forall|k: int|
                    0 <= k < j ==> self.waiters@[k].task_id != task_id,
                None => forall|k: int|
                    0 <= k < self.waiters@.len() ==> self.waiters@[k].task_id != task_id,
            },
    {
        let mut i: usize = 0;
        while i < self.waiters.len()
            invariant
                i <= self.waiters@.len(),
                forall|k: int| 0 <= k < i ==> self.waiters@[k].task_id != task_id,
            decreases self.waiters@.len() - i,
        {
            if self.waiters[i].task_id == task_id {
                return Some(i);
            }
            i += 1;
        }
        None
    }

    /// Reports whether a still-blocked record for `task_id` is queued here.
    pub fn contains_blocked_task(&self, task_id: u64) -> (r: bool)
        ensures
            r == exists|j: int|
                0 <= j < self.waiters@.len() && self.waiters@[j].task_id == task_id
                    && self.waiters@[j].blocked,
    {
        let mut i: usize = 0;
        while i < self.waiters.len()
            invariant
                i <= self.waiters@.len(),
                forall|j: int|
                    0 <= j < i ==> !(self.waiters@[j].task_id == task_id
                        && self.waiters@[j].blocked),
            decreases self.waiters@.len() - i,
        {
            if self.waiters[i].task_id == task_id && self.waiters[i].blocked {
                return true;
            }
            i += 1;
        }
        false
    }
}

/// At most one record in `ws` belongs to task `id`.
///
/// Every queue in a running system satisfies this: a task blocks in at most
/// one place at a time.
pub open spec fn unique_task(ws: Seq<Waiter>, id: u64) -> bool {
    forall|j: int, k: int|
        0 <= j < ws.len() && 0 <= k < ws.len() && #[trigger] ws[j].task_id == id
            && #[trigger] ws[k].task_id == id ==> j == k
}

/// Whether a wake aimed at `addr` with selector `bitset` may wake `w`:
/// `w` is still blocked, waits on the same address, and the selectors overlap.
pub open spec fn waiter_matches(w: Waiter, addr: usize, bitset: u32) -> bool {
    w.blocked && w.key.key == addr && (bitset & w.key.bitset) != 0
}

/// The number of waiters in `ws` that a wake aimed at `addr` with selector
/// `bitset` may wake.
pub open spec fn count_matching(ws: Seq<Waiter>, addr: usize, bitset: u32) -> nat
    decreases ws.len(),
{
    if ws.len() == 0 {
        0
    } else {
        count_matching(ws.drop_last(), addr, bitset) + if waiter_matches(
            ws.last(),
            addr,
            bitset,
        ) {
            1nat
        } else {
            0nat
        }
    }
}

/// What one wake pass over the queue `ws` produces, in queue order: the
/// waiters left queued, and the task identities woken.
///
/// A record that is no longer blocked is dropped from the queue without being
/// counted; a blocked record whose address and bitset match is woken while
/// fewer than `max` have been woken; every other record stays queued.
pub open spec fn wake_scan(ws: Seq<Waiter>, addr: usize, bitset: u32, max: nat) -> (Seq<
    Waiter,
>, Seq<u64>)
    decreases ws.len(),
{
    if ws.len() == 0 {
        (Seq::<Waiter>::empty(), Seq::<u64>::empty())
    } else {
        let (rem, wk) = wake_scan(ws.drop_last(), addr, bitset, max);
        let w = ws.last();
        if !w.blocked {
            (rem, wk)
        } else if wk.len() < max && w.key.key == addr && (bitset & w.key.bitset) != 0 {
            (rem, wk.push(w.task_id))
        } else {
            (rem.push(w), wk)
        }
    }
}

/// A wake pass wakes exactly as many waiters as match, capped at `max`:
/// never more than `max`, and never fewer than the queue offers.
pub proof fn lemma_wake_count(ws: Seq<Waiter>, addr: usize, bitset: u32, max: nat)
    ensures
        wake_scan(ws, addr, bitset, max).1.len() == if count_matching(ws, addr, bitset)
            <= max {
            count_matching(ws, addr, bitset)
        } else {
            max
        },
    decreases ws.len(),
{
    if ws.len() != 0 {
        lemma_wake_count(ws.drop_last(), addr, bitset, max);
    }
}

/// There is a waiter in `ws` that a wake aimed at `addr` with selector
/// `bitset` may wake, and whose task identity is `t`.
pub open spec fn has_matching_waiter_with_task(
    ws: Seq<Waiter>,
    addr: usize,
    bitset: u32,
    t: u64,
) -> bool {
    exists|i: int|
        0 <= i < ws.len() && waiter_matches(ws[i], addr, bitset) && ws[i].task_id == t
}

/// Every woken task identity comes from a queued waiter that was blocked,
/// waited on the woken address, and had an overlapping bitset: a wake pass
/// never wakes a waiter on a different address or a disjoint bitset.
pub proof fn lemma_wake_only_matching(ws: Seq<Waiter>, addr: usize, bitset: u32, max: nat)
    ensures
        forall|j: int|
            0 <= j < wake_scan(ws, addr, bitset, max).1.len()
                ==> has_matching_waiter_with_task(
                ws,
                addr,
                bitset,
                #[trigger] wake_scan(ws, addr, bitset, max).1[j],
            ),
    decreases ws.len(),
{
    if ws.len() != 0 {
        lemma_wake_only_matching(ws.drop_last(), addr, bitset, max);
        let prev = ws.drop_last();
        let wk = wake_scan(prev, addr, bitset, max).1;
        let fin = wake_scan(ws, addr, bitset, max).1;
        assert forall|j: int| 0 <= j < fin.len() implies has_matching_waiter_with_task(
            ws,
            addr,
            bitset,
            fin[j],
        ) by {
            if j < wk.len() {
                assert(fin[j] == wk[j]);
                assert(has_matching_waiter_with_task(prev, addr, bitset, wk[j]));
                let i = choose|i: int|
                    0 <= i < prev.len() && waiter_matches(prev[i], addr, bitset)
                        && prev[i].task_id == wk[j];
                assert(ws[i] == prev[i]);
                assert(waiter_matches(ws[i], addr, bitset) && ws[i].task_id == fin[j]);
            } else {
                assert(fin == wk.push(ws.last().task_id));
                assert(fin[j] == ws.last().task_id);
                let i = ws.len() - 1;
                assert(waiter_matches(ws[i], addr, bitset) && ws[i].task_id == fin[j]);
            }
        }
    }
}

/// A wake pass leaves every still-blocked waiter that it may not wake —
/// a different address, or a disjoint bitset — queued, untouched.
pub proof fn lemma_wake_keeps_unmatched(ws: Seq<Waiter>, addr: usize, bitset: u32, max: nat)
    ensures
        forall|i: int|
            0 <= i < ws.len() && ws[i].blocked && !(ws[i].key.key == addr && (bitset
                & ws[i].key.bitset) != 0) ==> wake_scan(ws, addr, bitset, max).0.contains(
                ws[i],
            ),
    decreases ws.len(),
{
    if ws.len() != 0 {
        lemma_wake_keeps_unmatched(ws.drop_last(), addr, bitset, max);
        let (rem, wk) = wake_scan(ws.drop_last(), addr, bitset, max);
        assert forall|i: int|
            0 <= i < ws.len() && ws[i].blocked && !(ws[i].key.key == addr && (bitset
                & ws[i].key.bitset) != 0) implies wake_scan(ws, addr, bitset, max).0.contains(
            ws[i],
        ) by {
            if i < ws.len() - 1 {
                assert(ws[i] == ws.drop_last()[i]);
                assert(rem.contains(ws[i]));
                let k = choose|k: int| 0 <= k < rem.len() && rem[k] == ws[i];
                let fin = wake_scan(ws, addr, bitset, max).0;
                assert(fin[k] == ws[i]);
            } else {
                let fin = wake_scan(ws, addr, bitset, max).0;
                assert(ws[i] == ws.last());
                assert(fin[fin.len() - 1] == ws[i]);
            }
        }
    }
}

/// When the wake budget covers every matching waiter, every matching waiter
/// is woken: none is left behind for want of order.
pub proof fn lemma_wake_all_matching_when_budget(
    ws: Seq<Waiter>,
    addr: usize,
    bitset: u32,
    max: nat,
)
    requires
        count_matching(ws, addr, bitset) <= max,
    ensures
        forall|i: int|
            0 <= i < ws.len() && waiter_matches(ws[i], addr, bitset) ==> wake_scan(
                ws,
                addr,
                bitset,
                max,
            ).1.contains(ws[i].task_id),
    decreases ws.len(),
{
    if ws.len() != 0 {
        lemma_wake_all_matching_when_budget(ws.drop_last(), addr, bitset, max);
        lemma_wake_count(ws.drop_last(), addr, bitset, max);
        let (rem, wk) = wake_scan(ws.drop_last(), addr, bitset, max);
        assert forall|i: int|
            0 <= i < ws.len() && waiter_matches(ws[i], addr, bitset) implies wake_scan(
            ws,
            addr,
            bitset,
            max,
        ).1.contains(ws[i].task_id) by {
            let fin = wake_scan(ws, addr, bitset, max).1;
            if i < ws.len() - 1 {
                assert(ws[i] == ws.drop_last()[i]);
                assert(wk.contains(ws[i].task_id));
                let k = choose|k: int| 0 <= k < wk.len() && wk[k] == ws[i].task_id;
                assert(fin[k] == ws[i].task_id);
            } else {
                assert(ws[i] == ws.last());
                assert(wk.len() < max);
                assert(fin[fin.len() - 1] == ws[i].task_id);
            }
        }
    }
}

/// A blocked waiter registered with the match-any bitset is woken by any
/// wake pass on its address with a nonzero selector, whenever the wake
/// budget covers the matching waiters: such a wait stays queued only until
/// the next adequate wake on the same address, and no wake outcome ever
/// turns it into an error.
pub proof fn lemma_match_any_waiter_is_woken(
    ws: Seq<Waiter>,
    addr: usize,
    bitset: u32,
    max: nat,
    i: int,
)
    requires
        0 <= i < ws.len(),
        ws[i].blocked,
        ws[i].key.key == addr,
        ws[i].key.bitset == 0xFFFF_FFFFu32,
        bitset != 0,
        count_matching(ws, addr, bitset) <= max,
    ensures
        wake_scan(ws, addr, bitset, max).1.contains(ws[i].task_id),
{
    assert(bitset & 0xFFFF_FFFFu32 == bitset) by (bit_vector);
    assert(waiter_matches(ws[i], addr, bitset));
    lemma_wake_all_matching_when_budget(ws, addr, bitset, max);
}

/// The result of hashing an address word with the fixed-seed hash function.
pub uninterp spec fn addr_hash(word: usize) -> usize;

/// Relies on `ahash::AHasher::default()`: with the crate's `runtime-rng` and
/// `compile-time-rng` features off, as here, its keys are hardcoded constants,
/// so the finished hash is a function of the written word alone.
#[verifier::external_body]
fn hash_word(word: usize) -> (r: usize)
    ensures
        r == addr_hash(word),
{
    let mut hasher = ahash::AHasher::default();
    core::hash::Hash::hash(&word, &mut hasher);
    core::hash::Hasher::finish(&hasher) as usize
}

/// The sharded futex table: a fixed-size vector of buckets, with a mask that
/// reduces an address hash to a slot index.
///
/// The size is fixed at initialization and never changes; each bucket is an
/// independently synchronized wait queue, so contention is bounded to threads
/// whose addresses hash together.
pub struct FutexVec {
    pub buckets: Vec<FutexBucket>,
    pub mask: usize,
}

impl FutexVec {
    /// The table's shape invariant: the mask covers exactly the bucket range.
    pub open spec fn wf(&self) -> bool {
        self.buckets@.len() == self.mask + 1
    }

    /// The slot that `addr` maps to: a fixed hash of the word-aligned part of
    /// the address, reduced by the mask.
    pub open spec fn bucket_index_spec(&self, addr: usize) -> int {
        (addr_hash(addr >> 2) & self.mask) as int
    }

    /// Creates a table of `size` empty buckets.
    pub fn new(size: usize) -> (r: Self)
        requires
            size >= 1,
        ensures
            r.wf(),
            r.buckets@.len() == size,
            forall|j: int| 0 <= j < size ==> r.buckets@[j].waiters@.len() == 0,
    {
        let mut buckets: Vec<FutexBucket> = Vec::new();
        let mut i: usize = 0;
        while i < size
            invariant
                i <= size,
                buckets@.len() == i,
                forall|j: int| 0 <= j < i ==> buckets@[j].waiters@.len() == 0,
            decreases size - i,
        {
            buckets.push(FutexBucket::new());
            i += 1;
        }
        FutexVec { buckets, mask: size - 1 }
    }

    /// Computes the slot index owning `key`.
    ///
    /// The address is shifted right by two before hashing: watched words are
    /// 32-bit aligned, so the low two bits carry no entropy.
    pub fn bucket_index(&self, key: FutexKey) -> (idx: usize)
        requires
            self.wf(),
        ensures
            idx == self.bucket_index_spec(key.key),
            idx < self.buckets@.len(),
    {
        let hash = hash_word(key.addr() >> 2);
        let idx = hash & self.mask;
        proof {
            lemma_and_mask_le(hash, self.mask);
        }
        idx
    }

    /// Returns the slot index owning `key` and a reference to that bucket.
    ///
    /// Lookup is deterministic and stable for the process lifetime: the same
    /// address always maps to the same bucket.
    pub fn get_bucket(&self, key: FutexKey) -> (r: (usize, &FutexBucket))
        requires
            self.wf(),
        ensures
            r.0 == self.bucket_index_spec(key.key),
            r.0 < self.buckets@.len(),
            *r.1 == self.buckets@[r.0 as int],
    {
        let idx = self.bucket_index(key);
        (idx, &self.buckets[idx])
    }
}

/// Masking with `m` never exceeds `m`.
proof fn lemma_and_mask_le(x: usize, m: usize)
    ensures
        (x & m) <= m,
{
    assert((x & m) <= m) by (bit_vector);
}

} // verus!
