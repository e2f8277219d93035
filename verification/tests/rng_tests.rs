use searchgen::rng::{FixedRng, Rand, Rng, SomeRng};

#[test]
fn booleans_from_queued_values() {
    let mut src = FixedRng::new(vec![0, 1, 2, 3]);
    let drawn = vec![
        bool::rand(&mut src),
        bool::rand(&mut src),
        bool::rand(&mut src),
        bool::rand(&mut src),
    ];
    assert_eq!(drawn, vec![true, false, true, false]);
}

#[test]
fn rand_consumes_exactly_one_value() {
    let mut src = FixedRng::new(vec![4, 5]);
    assert!(bool::rand(&mut src));
    // the next draw must see the subsequent queued value
    assert_eq!(src.next_32(), 5);
}

#[test]
fn odd_single_value_gives_false() {
    let mut src = FixedRng::new(vec![7]);
    assert!(!bool::rand(&mut src));
}

#[test]
fn exhausted_fixed_source_hands_out_zero() {
    let mut src = FixedRng::new(vec![1]);
    assert_eq!(src.next_32(), 1);
    assert_eq!(src.next_32(), 0);
}

#[test]
fn some_rng_always_returns_its_fixed_value() {
    let mut src = SomeRng {};
    assert_eq!(src.next_32(), 99);
    assert_eq!(src.next_32(), 99);
}

#[test]
fn some_rng_draws_false() {
    // 99 is odd, so the boolean drawn from it is false
    let mut src = SomeRng {};
    assert!(!bool::rand(&mut src));
}
