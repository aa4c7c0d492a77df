use prng_seed::Seed;

#[test]
fn seed_from_string_zero_at_end() {
    let a = Seed::new_from_str("test");
    let b = Seed::new_from_str("test0");

    assert_ne!(a, b);
}

#[test]
fn seed_from_string_spaces_at_end() {
    let a = Seed::new_from_str("test");
    let b = Seed::new_from_str("test ");

    assert_ne!(a, b);
}

#[test]
fn seed_from_string_empty_vs_space() {
    let a = Seed::new_from_str("");
    let b = Seed::new_from_str(" ");

    assert_ne!(a, b);
}

#[test]
fn seed_from_string_is_deterministic() {
    let a = Seed::new_from_str("value test");
    let b = Seed::new_from_str("value test");
    assert_eq!(a, b);
    assert_eq!(a.raw(), b.raw());
}

#[test]
fn seed_round_trip_extremes() {
    assert_eq!(Seed::from(0u128).raw(), 0);
    assert_eq!(Seed::from(u128::MAX).raw(), u128::MAX);
    assert_eq!(Seed::from(5u128).raw(), 5);
}

#[test]
fn random_seeds_differ() {
    assert_ne!(Seed::random().raw(), Seed::random().raw());
}
