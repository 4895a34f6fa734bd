use axerrno::{AxErrorKind, LinuxError};
use ruxfutex::errors::FutexError;
use ruxfutex::rand_strategy::{Backoff, ExpRand, Relax, SpinRandIf};
use ruxfutex::syscall::{
    absolute_deadline, futex_op_and_flags_from_u32, timeout_policy, FutexFlags, FutexOp,
    TimeoutPolicy, FUTEX_BITSET_MATCH_ANY, FUTEX_CLOCK_REALTIME, FUTEX_PRIVATE,
};

#[test]
fn decode_wait_bitset_word_with_empty_flags() {
    let (op, flags) = futex_op_and_flags_from_u32(0x0000_0009).unwrap();
    assert_eq!(op, FutexOp::FUTEX_WAIT_BITSET);
    assert!(flags.is_empty());
    assert_eq!(flags.bits(), 0);
}

#[test]
fn decode_every_known_op_code() {
    let expected = [
        FutexOp::FUTEX_WAIT,
        FutexOp::FUTEX_WAKE,
        FutexOp::FUTEX_FD,
        FutexOp::FUTEX_REQUEUE,
        FutexOp::FUTEX_CMP_REQUEUE,
        FutexOp::FUTEX_WAKE_OP,
        FutexOp::FUTEX_LOCK_PI,
        FutexOp::FUTEX_UNLOCK_PI,
        FutexOp::FUTEX_TRYLOCK_PI,
        FutexOp::FUTEX_WAIT_BITSET,
        FutexOp::FUTEX_WAKE_BITSET,
    ];
    for (code, want) in expected.iter().enumerate() {
        assert_eq!(FutexOp::from_u32(code as u32).unwrap(), *want);
    }
    for code in 11u32..16 {
        assert_eq!(FutexOp::from_u32(code), Err(FutexError::InvalidInput));
    }
}

#[test]
fn decode_rejects_bits_outside_known_masks() {
    // bit 9 alone is no known flag
    assert_eq!(
        futex_op_and_flags_from_u32(0x0000_0200),
        Err(FutexError::InvalidInput)
    );
    // an unknown flag bit combined with an op-code bit
    assert_eq!(
        futex_op_and_flags_from_u32(0x0000_0200 | 0x0000_0010),
        Err(FutexError::InvalidInput)
    );
    // an invalid op code with valid flags
    assert_eq!(
        futex_op_and_flags_from_u32(128 | 11),
        Err(FutexError::InvalidInput)
    );
}

#[test]
fn decode_accepts_known_flags() {
    let (op, flags) = futex_op_and_flags_from_u32(FUTEX_PRIVATE | 9).unwrap();
    assert_eq!(op, FutexOp::FUTEX_WAIT_BITSET);
    assert_eq!(flags.bits(), FUTEX_PRIVATE);
    assert!(flags.contains(FutexFlags::from_u32(FUTEX_PRIVATE).unwrap()));

    let (op, flags) =
        futex_op_and_flags_from_u32(FUTEX_PRIVATE | FUTEX_CLOCK_REALTIME | 1).unwrap();
    assert_eq!(op, FutexOp::FUTEX_WAKE);
    assert_eq!(flags.bits(), FUTEX_PRIVATE | FUTEX_CLOCK_REALTIME);
}

#[test]
fn errno_values_follow_the_linux_convention() {
    assert_eq!(FutexError::WouldBlock.errno(), 11);
    assert_eq!(FutexError::InvalidInput.errno(), 22);
    assert_eq!(FutexError::Unsupported.errno(), 38);
    assert_eq!(FutexError::TimedOut.errno(), 110);
}

#[test]
fn errno_values_match_axerrno() {
    assert_eq!(
        FutexError::WouldBlock.errno(),
        LinuxError::from(AxErrorKind::WouldBlock).code()
    );
    assert_eq!(
        FutexError::InvalidInput.errno(),
        LinuxError::from(AxErrorKind::InvalidInput).code()
    );
    assert_eq!(
        FutexError::Unsupported.errno(),
        LinuxError::from(AxErrorKind::Unsupported).code()
    );
    assert_eq!(
        FutexError::TimedOut.errno(),
        LinuxError::from(AxErrorKind::TimedOut).code()
    );
}

#[test]
fn timeout_policy_choice() {
    assert_eq!(
        timeout_policy(false, FUTEX_BITSET_MATCH_ANY),
        TimeoutPolicy::Absolute
    );
    assert_eq!(timeout_policy(false, 0b01), TimeoutPolicy::Absolute);
    assert_eq!(
        timeout_policy(true, FUTEX_BITSET_MATCH_ANY),
        TimeoutPolicy::Absolute
    );
    assert_eq!(timeout_policy(true, 0b01), TimeoutPolicy::RelativeFromBlock);
}

#[test]
fn absolute_deadline_saturates() {
    assert_eq!(absolute_deadline(40, 1_000), 1_040);
    assert_eq!(absolute_deadline(u64::MAX - 5, 10), u64::MAX);
    assert_eq!(absolute_deadline(0, u64::MAX), u64::MAX);
}

#[test]
fn next_power_of_two_rounds_up() {
    assert_eq!(ruxfutex::next_power_of_two(1), 1);
    assert_eq!(ruxfutex::next_power_of_two(2), 2);
    assert_eq!(ruxfutex::next_power_of_two(3), 4);
    assert_eq!(ruxfutex::next_power_of_two(255), 256);
    assert_eq!(ruxfutex::next_power_of_two(256), 256);
    assert_eq!(ruxfutex::next_power_of_two(257), 512);
}

#[test]
fn easy_rng_walks_the_fixed_table() {
    let mut state: u64 = 0;
    assert_eq!(ruxfutex::spin_rand::easy_rng(&mut state), 9);
    assert_eq!(state, 1);
    assert_eq!(ruxfutex::spin_rand::easy_rng(&mut state), 7);
    assert_eq!(ruxfutex::spin_rand::easy_rng(&mut state), 13);
    let mut wrapped: u64 = u64::MAX;
    // index 63 of the table, and the counter wraps to zero
    assert_eq!(ruxfutex::spin_rand::easy_rng(&mut wrapped), 11);
    assert_eq!(wrapped, 0);
}

#[test]
fn percpu_rand_stays_in_range() {
    let mut rng = ruxfutex::spin_rand::EasyRng::new();
    // first table value is 9; 5 + 9 % 6 == 8
    assert_eq!(rng.percpu_rand(5, 10), 8);
    for _ in 0..100 {
        let v = rng.percpu_rand(3, 7);
        assert!((3..=7).contains(&v));
    }
    let mut full = ruxfutex::spin_rand::EasyRng::new();
    let v = full.percpu_rand(0, u32::MAX);
    assert_eq!(v, 9);
}

#[test]
fn exp_rand_backoff_raises_the_limit() {
    let mut limit: u32 = 1;
    let mut rng = ruxfutex::spin_rand::EasyRng::new();
    ruxfutex::rand_strategy::exp_rand_backoff(&mut limit, 16, &mut rng);
    assert_eq!(limit, 16);
    ruxfutex::rand_strategy::exp_rand_backoff(&mut limit, 4, &mut rng);
    assert_eq!(limit, 16);

    let mut strategy: ExpRand<ruxfutex::spin_rand::EasyRng, 32> =
        ExpRand::new(ruxfutex::spin_rand::EasyRng::new());
    assert_eq!(strategy.limit, 1);
    strategy.relax();
    assert_eq!(strategy.limit, 32);
    strategy.backoff();
    assert_eq!(strategy.limit, 32);
}
