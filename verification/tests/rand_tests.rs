use fuzz_corpus::rand::Rand;
use fuzz_corpus::rand::XorShiftRand;

#[test]
fn below_stays_under_the_bound() {
    let mut r = XorShiftRand::new();
    for bound in 1..=64u64 {
        for _ in 0..8 {
            assert!(r.below(bound) < bound);
        }
    }
}

#[test]
fn below_one_is_zero() {
    let mut r = XorShiftRand::with_seed(42);
    for _ in 0..8 {
        assert_eq!(r.below(1), 0);
    }
}

#[test]
fn same_seed_gives_same_draws() {
    let mut a = XorShiftRand::with_seed(1234);
    let mut b = XorShiftRand::with_seed(1234);
    for _ in 0..16 {
        assert_eq!(a.below(1000), b.below(1000));
    }
}
