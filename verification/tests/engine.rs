use core::hash::{Hash, Hasher};
use ruxfutex::errors::FutexError;
use ruxfutex::frontend::{sys_futex, SysFutexStep};
use ruxfutex::init_futex;
use ruxfutex::syscall::{
    futex_wait, futex_wait_bitset, futex_wait_poll, futex_wake, futex_wake_bitset,
    TimeoutPolicy, WaitPoll,
};
use ruxfutex::types::{FutexKey, FutexVec, Waiter};

fn bucket_of(table: &FutexVec, addr: usize) -> usize {
    table.get_bucket(FutexKey::new(addr, 0)).0
}

#[test]
fn init_futex_sizes_the_table() {
    let table = init_futex(1);
    assert_eq!(table.buckets.len(), 256);
    let table3 = init_futex(3);
    assert_eq!(table3.buckets.len(), 1024);
    for b in &table.buckets {
        assert_eq!(b.len(), 0);
    }
}

#[test]
fn key_equality_is_address_only() {
    let a = FutexKey::new(0x1000, 0b01);
    let b = FutexKey::new(0x1000, 0b10);
    let c = FutexKey::new(0x2000, 0b01);
    assert!(a == b);
    assert!(a != c);
    assert_eq!(a.addr(), 0x1000);
    assert_eq!(a.bitset(), 0b01);
}

#[test]
fn bucket_lookup_is_stable_and_matches_the_hash() {
    let table = init_futex(1);
    let key = FutexKey::new(0x7f00_1000, 0);
    let (idx1, _) = table.get_bucket(key);
    let (idx2, _) = table.get_bucket(FutexKey::new(0x7f00_1000, 99));
    assert_eq!(idx1, idx2);
    assert!(idx1 < table.buckets.len());

    // the slot must come from the fixed-seed hash of (addr >> 2), masked --
    // an identity mapping in its place would give a different slot
    let mut hasher = ahash::AHasher::default();
    (0x7f00_1000usize >> 2).hash(&mut hasher);
    let expected = (hasher.finish() as usize) & (table.buckets.len() - 1);
    assert_eq!(idx1, expected);
}

#[test]
fn wait_with_mismatched_value_never_enqueues() {
    let mut table = init_futex(1);
    let r = futex_wait_bitset(&mut table, 0x1000, 7, 8, 0b1, 1);
    assert_eq!(r, Err(FutexError::WouldBlock));
    for b in &table.buckets {
        assert_eq!(b.len(), 0);
    }
}

#[test]
fn wait_with_matching_value_enqueues_blocked() {
    let mut table = init_futex(1);
    let r = futex_wait_bitset(&mut table, 0x1000, 7, 7, 0b1, 42);
    assert_eq!(r, Ok(()));
    let idx = bucket_of(&table, 0x1000);
    assert_eq!(table.buckets[idx].len(), 1);
    assert!(table.buckets[idx].contains_blocked_task(42));
}

#[test]
fn wake_bitset_wakes_only_the_matching_class() {
    // two waiters on one address with disjoint bitsets: a wake aimed at one
    // class leaves the other blocked
    let mut table = init_futex(1);
    futex_wait_bitset(&mut table, 0x1000, 0, 0, 0b01, 1).unwrap();
    futex_wait_bitset(&mut table, 0x1000, 0, 0, 0b10, 2).unwrap();

    let (count, woken) = futex_wake_bitset(&mut table, 0x1000, 1, 0b01).unwrap();
    assert_eq!(count, 1);
    assert_eq!(woken, vec![1]);

    let idx = bucket_of(&table, 0x1000);
    assert!(!table.buckets[idx].contains_blocked_task(1));
    assert!(table.buckets[idx].contains_blocked_task(2));
}

#[test]
fn wake_respects_the_count_limit_in_queue_order() {
    let mut table = init_futex(1);
    futex_wait(&mut table, 0x2000, 0, 0, 10).unwrap();
    futex_wait(&mut table, 0x2000, 0, 0, 11).unwrap();
    futex_wait(&mut table, 0x2000, 0, 0, 12).unwrap();

    let (count, woken) = futex_wake(&mut table, 0x2000, 2).unwrap();
    assert_eq!(count, 2);
    assert_eq!(woken, vec![10, 11]);
    let idx = bucket_of(&table, 0x2000);
    assert!(table.buckets[idx].contains_blocked_task(12));

    let (count, woken) = futex_wake(&mut table, 0x2000, usize::MAX).unwrap();
    assert_eq!(count, 1);
    assert_eq!(woken, vec![12]);
    assert_eq!(table.buckets[idx].len(), 0);
}

#[test]
fn wake_skips_and_drops_non_blocked_records_without_counting() {
    let mut table = init_futex(1);
    futex_wait(&mut table, 0x3000, 0, 0, 1).unwrap();
    futex_wait(&mut table, 0x3000, 0, 0, 2).unwrap();
    let idx = bucket_of(&table, 0x3000);
    // the first record's task was made runnable behind the engine's back
    table.buckets[idx].waiters[0].blocked = false;

    let (count, woken) = futex_wake(&mut table, 0x3000, usize::MAX).unwrap();
    assert_eq!(count, 1);
    assert_eq!(woken, vec![2]);
    // the stale record was removed without being counted
    assert_eq!(table.buckets[idx].len(), 0);
}

#[test]
fn wake_leaves_bucket_colliding_addresses_untouched() {
    let mut table = init_futex(1);
    futex_wait(&mut table, 0x4000, 0, 0, 1).unwrap();
    let idx = bucket_of(&table, 0x4000);
    // a waiter for a different address, forced into the same bucket as a
    // hash collision would place it
    table.buckets[idx].waiters.push(Waiter {
        key: FutexKey::new(0x9999_0000, u32::MAX),
        task_id: 2,
        blocked: true,
    });

    let (count, woken) = futex_wake(&mut table, 0x4000, usize::MAX).unwrap();
    assert_eq!(count, 1);
    assert_eq!(woken, vec![1]);
    assert!(table.buckets[idx].contains_blocked_task(2));
    assert_eq!(table.buckets[idx].len(), 1);
}

#[test]
fn wake_on_an_empty_table_returns_zero() {
    let mut table = init_futex(1);
    let (count, woken) = futex_wake(&mut table, 0x5000, 100).unwrap();
    assert_eq!(count, 0);
    assert!(woken.is_empty());
}

#[test]
fn poll_keeps_sleeping_before_the_deadline() {
    let mut table = init_futex(1);
    futex_wait(&mut table, 0x6000, 0, 0, 7).unwrap();
    assert_eq!(
        futex_wait_poll(&mut table, 0x6000, 7, 0, None),
        WaitPoll::StillBlocked
    );
    assert_eq!(
        futex_wait_poll(&mut table, 0x6000, 7, 99, Some(100)),
        WaitPoll::StillBlocked
    );
    let idx = bucket_of(&table, 0x6000);
    assert!(table.buckets[idx].contains_blocked_task(7));
}

#[test]
fn poll_times_out_no_earlier_than_the_deadline() {
    let mut table = init_futex(1);
    futex_wait(&mut table, 0x6100, 0, 0, 7).unwrap();
    assert_eq!(
        futex_wait_poll(&mut table, 0x6100, 7, 100, Some(100)),
        WaitPoll::TimedOut
    );
    let idx = bucket_of(&table, 0x6100);
    assert_eq!(table.buckets[idx].len(), 0);
}

#[test]
fn poll_reports_woken_after_a_wake() {
    let mut table = init_futex(1);
    futex_wait(&mut table, 0x6200, 0, 0, 7).unwrap();
    futex_wake(&mut table, 0x6200, 1).unwrap();
    assert_eq!(
        futex_wait_poll(&mut table, 0x6200, 7, 0, None),
        WaitPoll::Woken
    );
}

#[test]
fn poll_clears_a_spuriously_woken_record() {
    let mut table = init_futex(1);
    futex_wait(&mut table, 0x6300, 0, 0, 7).unwrap();
    let idx = bucket_of(&table, 0x6300);
    table.buckets[idx].waiters[0].blocked = false;
    assert_eq!(
        futex_wait_poll(&mut table, 0x6300, 7, 0, None),
        WaitPoll::Woken
    );
    assert_eq!(table.buckets[idx].len(), 0);
}

#[test]
fn sys_futex_rejects_malformed_and_unsupported_ops() {
    let mut table = init_futex(1);
    // invalid op code
    match sys_futex(&mut table, 0x1000, 11, 0, None, 0, 0, 0, 1, false, 0) {
        SysFutexStep::Complete { ret, woken } => {
            assert_eq!(ret, -22);
            assert!(woken.is_empty());
        }
        _ => panic!("expected an immediate completion"),
    }
    // recognized but unimplemented: FUTEX_LOCK_PI
    match sys_futex(&mut table, 0x1000, 6, 0, None, 0, 0, 0, 1, false, 0) {
        SysFutexStep::Complete { ret, woken } => {
            assert_eq!(ret, -38);
            assert!(woken.is_empty());
        }
        _ => panic!("expected an immediate completion"),
    }
}

#[test]
fn sys_futex_wait_mismatch_would_block() {
    let mut table = init_futex(1);
    match sys_futex(&mut table, 0x1000, 0, 5, None, 0, 0, 6, 1, false, 0) {
        SysFutexStep::Complete { ret, woken } => {
            assert_eq!(ret, -11);
            assert!(woken.is_empty());
        }
        _ => panic!("expected an immediate completion"),
    }
}

#[test]
fn sys_futex_wait_blocks_with_an_absolute_deadline() {
    let mut table = init_futex(1);
    match sys_futex(&mut table, 0x1000, 0, 5, Some(1_000), 0, 0, 5, 1, false, 40) {
        SysFutexStep::Block {
            bucket_index,
            deadline,
            policy,
        } => {
            assert_eq!(bucket_index, bucket_of(&table, 0x1000));
            assert_eq!(deadline, Some(1_040));
            assert_eq!(policy, TimeoutPolicy::Absolute);
        }
        _ => panic!("expected a blocking step"),
    }
    // a bitset wait under timer interrupts keeps a relative policy
    match sys_futex(&mut table, 0x1000, 9, 5, Some(50), 0, 0b01, 5, 2, true, 0) {
        SysFutexStep::Block { policy, .. } => {
            assert_eq!(policy, TimeoutPolicy::RelativeFromBlock);
        }
        _ => panic!("expected a blocking step"),
    }
}

#[test]
fn sys_futex_wake_returns_the_count() {
    let mut table = init_futex(1);
    sys_futex(&mut table, 0x1000, 0, 5, None, 0, 0, 5, 1, false, 0);
    sys_futex(&mut table, 0x1000, 0, 5, None, 0, 0, 5, 2, false, 0);
    match sys_futex(&mut table, 0x1000, 1, 10, None, 0, 0, 0, 0, false, 0) {
        SysFutexStep::Complete { ret, woken } => {
            assert_eq!(ret, 2);
            assert_eq!(woken, vec![1, 2]);
        }
        _ => panic!("expected an immediate completion"),
    }
}

#[test]
fn two_wait_classes_one_wake_scenario() {
    // threads A and B wait on one address with bitsets 0b01 and 0b10, both
    // expecting value 0; after the value moves to 1, a wake of one waiter
    // with selector 0b01 wakes only A
    let mut table = init_futex(1);
    let addr = 0x7000;
    futex_wait_bitset(&mut table, addr, 0, 0, 0b01, 100).unwrap();
    futex_wait_bitset(&mut table, addr, 0, 0, 0b10, 200).unwrap();

    // a further wait now sees the mutated value and refuses to block
    assert_eq!(
        futex_wait_bitset(&mut table, addr, 0, 1, 0b01, 300),
        Err(FutexError::WouldBlock)
    );

    let (count, woken) = futex_wake_bitset(&mut table, addr, 1, 0b01).unwrap();
    assert_eq!(count, 1);
    assert_eq!(woken, vec![100]);

    let idx = bucket_of(&table, addr);
    assert_eq!(
        futex_wait_poll(&mut table, addr, 100, 0, None),
        WaitPoll::Woken
    );
    assert_eq!(
        futex_wait_poll(&mut table, addr, 200, 0, None),
        WaitPoll::StillBlocked
    );
    assert!(table.buckets[idx].contains_blocked_task(200));
}
