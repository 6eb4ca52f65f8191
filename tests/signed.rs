use atomic_shim::AtomicI64;
use std::sync::atomic::Ordering;

#[test]
fn signed_load_after_store() {
    let a = AtomicI64::new(-1);
    assert_eq!(a.load(Ordering::SeqCst), -1);
    a.store(i64::MIN, Ordering::Release);
    assert_eq!(a.load(Ordering::Acquire), i64::MIN);
}

#[test]
fn signed_swap_returns_previous() {
    let a = AtomicI64::new(-3);
    assert_eq!(a.swap(9, Ordering::SeqCst), -3);
    assert_eq!(a.load(Ordering::SeqCst), 9);
}

#[test]
fn signed_compare_and_swap() {
    let a = AtomicI64::new(-4);
    assert_eq!(a.compare_and_swap(4, 8, Ordering::SeqCst), -4);
    assert_eq!(a.load(Ordering::SeqCst), -4);
    assert_eq!(a.compare_and_swap(-4, 8, Ordering::SeqCst), -4);
    assert_eq!(a.load(Ordering::SeqCst), 8);
}

#[test]
fn signed_compare_exchange_scenario() {
    let a = AtomicI64::new(5);
    assert_eq!(a.compare_exchange(5, 10, Ordering::Acquire, Ordering::Relaxed), Ok(5));
    assert_eq!(a.load(Ordering::Relaxed), 10);
    assert_eq!(a.compare_exchange(6, 12, Ordering::SeqCst, Ordering::Acquire), Err(10));
    assert_eq!(a.load(Ordering::Relaxed), 10);
    assert_eq!(a.compare_exchange_weak(10, -10, Ordering::SeqCst, Ordering::Relaxed), Ok(10));
    assert_eq!(a.compare_exchange_weak(10, 0, Ordering::SeqCst, Ordering::Relaxed), Err(-10));
    assert_eq!(a.load(Ordering::Relaxed), -10);
}

#[test]
fn signed_fetch_add_wraps_at_max() {
    let a = AtomicI64::new(i64::MAX);
    assert_eq!(a.fetch_add(1, Ordering::SeqCst), i64::MAX);
    assert_eq!(a.load(Ordering::SeqCst), i64::MIN);
    assert_eq!(a.fetch_sub(1, Ordering::SeqCst), i64::MIN);
    assert_eq!(a.load(Ordering::SeqCst), i64::MAX);
}

#[test]
fn signed_fetch_add_then_sub_round_trip() {
    let a = AtomicI64::new(-50);
    assert_eq!(a.fetch_add(-70, Ordering::SeqCst), -50);
    assert_eq!(a.load(Ordering::SeqCst), -120);
    assert_eq!(a.fetch_sub(-70, Ordering::SeqCst), -120);
    assert_eq!(a.load(Ordering::SeqCst), -50);
    assert_eq!(a.fetch_sub(i64::MAX, Ordering::SeqCst), -50);
    assert_eq!(a.load(Ordering::SeqCst), i64::MAX - 48);
    assert_eq!(a.fetch_add(i64::MAX, Ordering::SeqCst), i64::MAX - 48);
    assert_eq!(a.load(Ordering::SeqCst), -50);
}

#[test]
fn signed_bitwise_exact() {
    let a = AtomicI64::new(0b101101);
    assert_eq!(a.fetch_or(0b110011, Ordering::SeqCst), 0b101101);
    assert_eq!(a.load(Ordering::SeqCst), 0b111111);
    assert_eq!(a.fetch_and(0b100110, Ordering::SeqCst), 0b111111);
    assert_eq!(a.load(Ordering::SeqCst), 0b100110);
    assert_eq!(a.fetch_xor(-1, Ordering::SeqCst), 0b100110);
    assert_eq!(a.load(Ordering::SeqCst), -0b100111);
    assert_eq!(a.fetch_nand(0x0f, Ordering::SeqCst), -0b100111);
    assert_eq!(a.load(Ordering::SeqCst), -10);
}

#[test]
fn signed_bitwise_identities() {
    let a = AtomicI64::new(-123_456_789);
    assert_eq!(a.fetch_and(-1, Ordering::SeqCst), -123_456_789);
    assert_eq!(a.load(Ordering::SeqCst), -123_456_789);
    assert_eq!(a.fetch_xor(0, Ordering::SeqCst), -123_456_789);
    assert_eq!(a.load(Ordering::SeqCst), -123_456_789);
    a.fetch_xor(0x5555, Ordering::SeqCst);
    assert_eq!(a.load(Ordering::SeqCst), -123_456_789 ^ 0x5555);
    a.fetch_xor(0x5555, Ordering::SeqCst);
    assert_eq!(a.load(Ordering::SeqCst), -123_456_789);
}

#[test]
fn signed_get_mut_into_inner_from_default() {
    let mut a = AtomicI64::from(-2);
    *a.get_mut() -= 3;
    assert_eq!(a.load(Ordering::SeqCst), -5);
    assert_eq!(a.into_inner(), -5);
    assert_eq!(AtomicI64::default().into_inner(), 0);
}

#[test]
fn signed_concurrent_decrements_are_not_lost() {
    let a = AtomicI64::new(i64::MIN + 5);
    crossbeam_utils::thread::scope(|s| {
        for _ in 0..10 {
            s.spawn(|_| {
                a.fetch_sub(1, Ordering::SeqCst);
            });
        }
    })
    .unwrap();
    assert_eq!(a.load(Ordering::SeqCst), i64::MAX - 4);
}
