use facility_sim::random::{gcd, relatively_prime, reverse_bits, LcmGenerator, Random, MODULUS};
use facility_sim::simulation::{Duration, TimeStamp, TICKS_PER_MINUTE};

#[test]
fn time_stamp_arithmetic() {
    let t = TimeStamp::start();
    assert_eq!(t.get(), 0);
    let d = Duration::of_minutes(5);
    assert_eq!(d.as_ticks(), 5 * TICKS_PER_MINUTE);
    let later = t.add_duration(d);
    assert_eq!(later.get(), 5 * TICKS_PER_MINUTE);
    assert_eq!(later.duration_since(t), d);
    assert!(t.is_before(later));
    assert!(!later.is_before(t));
}

#[test]
fn duration_sentinels() {
    assert_eq!(Duration::none().as_ticks(), 0);
    assert!(Duration::never().is_never());
    assert!(!Duration::of_ticks(7).is_never());
    let a = Duration::of_ticks(7);
    let b = Duration::of_ticks(3);
    assert_eq!(a.add_duration(b).as_ticks(), 10);
    assert_eq!(a.sub_duration(b).as_ticks(), 4);
    assert_eq!(a.add_duration(Duration::none()), a);
}

#[test]
fn gcd_values() {
    assert_eq!(gcd(12, 18), 6);
    assert_eq!(gcd(17, 5), 1);
    assert_eq!(gcd(0, 9), 9);
    assert_eq!(gcd(9, 0), 9);
    assert!(relatively_prime(MODULUS, 11774353));
    assert!(!relatively_prime(MODULUS, 1024));
}

#[test]
fn next_is_wrapping_recurrence() {
    assert_eq!(LcmGenerator::next(3, 5, 7, 100), 22);
    let big = LcmGenerator::next(u64::MAX, 2, 0, u64::MAX);
    assert_eq!(big, u64::MAX.wrapping_mul(2) % u64::MAX);
}

#[test]
fn seeded_generator_meets_full_period_conditions() {
    for seed in [0u32, 1, 2, 77, 123456, u32::MAX] {
        let g = LcmGenerator::with_seed(seed);
        assert_eq!(g.m, MODULUS);
        assert!(g.x < g.m);
        assert_eq!(g.a % 4, 1);
        assert!(g.a > 11774353);
        assert!(g.c >= 11774353);
        assert_eq!(gcd(g.m, g.c), 1);
    }
}

#[test]
fn same_seed_same_sequence() {
    let mut a = Random::with_seed(42);
    let mut b = Random::with_seed(42);
    for _ in 0..100 {
        assert_eq!(a.next_value(), b.next_value());
        assert_eq!(a.boolean(), b.boolean());
    }
}

#[test]
fn draws_follow_the_recurrence() {
    let mut g = LcmGenerator::with_seed(9);
    let (a, c, m, x) = (g.a as u128, g.c as u128, g.m as u128, g.x as u128);
    let v = g.set_next();
    assert_eq!(v as u128, (a * x + c) % m);
    assert_eq!(g.x, v);
}

#[test]
fn boolean_is_parity_of_draw() {
    let mut r = Random::with_seed(5);
    let mut copy = Random::with_seed(5);
    let coin = r.boolean();
    let v = copy.next_value();
    assert_eq!(coin, v % 2 == 0);
    assert!(v < r.modulus());
}

#[test]
fn clock_seeded_source_is_valid() {
    let mut r = Random::new();
    assert_eq!(r.modulus(), MODULUS);
    assert!(r.next_value() < MODULUS);
    let g = LcmGenerator::new();
    assert_eq!(g.a % 4, 1);
}

#[test]
fn clock_reading_is_bit_reversed_into_the_seed() {
    let g = LcmGenerator::from_clock_nanos(1);
    let h = LcmGenerator::with_seed(0x8000_0000);
    assert_eq!((g.a, g.c, g.m, g.x), (h.a, h.c, h.m, h.x));
    let plain = LcmGenerator::with_seed(1);
    assert_ne!((g.a, g.c, g.x), (plain.a, plain.c, plain.x));
}

#[test]
fn reverse_bits_matches_std() {
    for x in [0u32, 1, 2, 0x8000_0000, 0x1234_5678, u32::MAX, 999_999_999] {
        assert_eq!(reverse_bits(x), x.reverse_bits());
    }
}
