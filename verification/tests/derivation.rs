use prng_seed::generate_u64;
use prng_seed::prng;
use prng_seed::IndexKey;
use prng_seed::KeyCapability;
use prng_seed::Seed;

use std::collections::HashSet;

#[test]
fn same_key_and_same_type_returns_same_values() {
    let seed = Seed::new_from_str("value test");
    let key = IndexKey::new(7);
    let cap1 = KeyCapability::with_default_bitshift(1);
    let value1a = generate_u64(seed, &key, &cap1);
    let value1b = generate_u64(seed, &key, &cap1);
    assert_eq!(value1a, value1b);
}

#[test]
fn same_key_and_different_type_returns_different_values() {
    let seed = Seed::new_from_str("value test");
    let key = IndexKey::new(7);
    let cap1 = KeyCapability::with_default_bitshift(1);
    let cap2 = KeyCapability::with_default_bitshift(2);
    let value1 = generate_u64(seed, &key, &cap1);
    let value2 = generate_u64(seed, &key, &cap2);
    assert_ne!(value1, value2);
}

#[test]
fn unit_key_return_consistent_values() {
    let seed = Seed::new_from_str("global test");
    let cap = KeyCapability::with_default_bitshift(635184615);
    let global1 = generate_u64(seed, &(), &cap);
    let global2 = generate_u64(seed, &(), &cap);
    assert_eq!(global1, global2);
}

#[test]
fn zero_and_one_generate_different_values() {
    let seed = Seed::new_from_str("test");
    let k1 = IndexKey::new(0);
    let k2 = IndexKey::new(1);
    let cap = KeyCapability::with_default_bitshift(1);
    assert_ne!(generate_u64(seed, &k1, &cap), generate_u64(seed, &k2, &cap));
}

#[test]
fn uniqueness_by_key() {
    let mut rng = rand::thread_rng();

    let seed = Seed::from(rand::Rng::gen::<u128>(&mut rng));
    let key: u64 = rand::Rng::gen(&mut rng);
    let cap = KeyCapability::with_default_bitshift(1);

    let mut a = prng(seed, &IndexKey::new(key), &cap);
    let mut b = prng(seed, &IndexKey::new(key + 1), &cap);

    let a_values = a.take(256).into_iter().collect::<HashSet<_>>();
    let b_values = b.take(256).into_iter().collect::<HashSet<_>>();

    assert!(!a_values.iter().any(|n| b_values.contains(n)));
}

#[test]
fn prng_overlap() {
    let seed = Seed::from(0);
    let cap = KeyCapability::new(0, 0);

    let mut ga = prng(seed, &IndexKey::new(0), &cap);
    let mut gb = prng(seed, &IndexKey::new(1), &cap);
    let a = ga.take(2);
    let b = gb.take(2);

    // these two values overlap because a bitshift of zero creates a PRNG with
    // one unique value per key
    assert_eq!(a[1], b[0]);
}

#[test]
fn retained_stream_matches_one_shot() {
    let seed = Seed::new_from_str("retained");
    let key = IndexKey::new(9);
    let cap = KeyCapability::with_default_bitshift(42);
    let mut g = prng(seed, &key, &cap);
    assert_eq!(g.next_u64(), generate_u64(seed, &key, &cap));
}

#[test]
fn derived_streams_repeat_exactly() {
    let seed = Seed::new_from_str("value test");
    let key = IndexKey::new(7);
    let cap = KeyCapability::with_default_bitshift(1);
    let mut g1 = prng(seed, &key, &cap);
    let mut g2 = prng(seed, &key, &cap);
    assert_eq!(g1.take(8), g2.take(8));
}

#[test]
fn unit_key_matches_zero_index() {
    let seed = Seed::new_from_str("global test");
    let cap = KeyCapability::with_default_bitshift(635184615);
    let from_unit = generate_u64(seed, &(), &cap);
    let from_zero = generate_u64(seed, &IndexKey::new(0), &cap);
    assert_eq!(from_unit, from_zero);
}

#[test]
fn custom_bitshift_changes_window() {
    let seed = Seed::new_from_str("test");
    let key = IndexKey::new(1);
    let narrow = KeyCapability::new(1, 0);
    let wide = KeyCapability::new(1, 8);
    // key 1 starts at position 1 under exponent 0 and at position 256 under
    // exponent 8, so the first draws come from different stream positions
    assert_ne!(
        generate_u64(seed, &key, &narrow),
        generate_u64(seed, &key, &wide)
    );
}
