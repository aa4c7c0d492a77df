//! Stream derivation: how a seed, a key and a capability position a fresh
//! generator.

use crate::key::KeyCapability;
use crate::key::PrngKey;
use crate::pcg::pcg_stream;
use crate::pcg::stream_outputs;
use crate::pcg::DerivedRng;
use crate::seed::Seed;
use vstd::prelude::*;

verus! {

/// The base the generator is built from for `seed` under `cap`: the seed's
/// bits XORed with the capability's constant. The key plays no part here, so
/// every key of one (seed, capability) pair shares one sequence.
pub open spec fn stream_base(seed: Seed, cap: KeyCapability) -> u128 {
    seed@ ^ cap.spec_xor()
}

/// The advance offset reserved for a key projection under `cap`: the
/// projection shifted left by the advance exponent, so that each unit step
/// of the projection begins a fresh window of `2^bitshift` positions.
pub open spec fn advance_offset(projection: u64, cap: KeyCapability) -> u128 {
    (projection as u128) << cap.spec_bitshift()
}

/// Generate the PRNG for a (seed, key, type) tuple.
///
/// The returned generator stands at the start of the key's window inside the
/// sequence selected by the capability's constant. Higher keys take longer
/// to generate, working in `O(log2(n))` time of the projection's magnitude,
/// since the jump-ahead is logarithmic.
pub fn prng<K: PrngKey>(seed: Seed, key: &K, cap: &KeyCapability) -> (r: DerivedRng)
    requires
        cap.wf(),
    ensures
        r.stream_base() == stream_base(seed, *cap),
        r.position() == advance_offset(key.spec_key(), *cap),
{
    let base = seed.raw() ^ cap.xor();
    let advance = (key.key() as u128) << cap.bitshift();
    let mut rng = DerivedRng::new(base);
    rng.advance(advance);
    rng
}

/// Derive the stream for (seed, key, capability) and draw its first raw
/// output: the one-shot calling shape.
pub fn generate_u64<K: PrngKey>(seed: Seed, key: &K, cap: &KeyCapability) -> (r: u64)
    requires
        cap.wf(),
    ensures
        r == pcg_stream(
            stream_base(seed, *cap),
            advance_offset(key.spec_key(), *cap) as nat,
        ),
{
    let mut rng = prng(seed, key, cap);
    rng.next_u64()
}

/// Determinism: derivation reads nothing but the seed's bits, the key's
/// 64-bit projection and the capability's two fields. Two derivations that
/// agree on those — at whatever time, and through whatever key values — stand
/// at one base and position, and the raw outputs they go on to draw coincide,
/// however many are taken.
pub proof fn lemma_derivation_deterministic(
    seed1: Seed,
    seed2: Seed,
    c1: KeyCapability,
    c2: KeyCapability,
    k1: u64,
    k2: u64,
    n: nat,
)
    requires
        seed1@ == seed2@,
        c1.spec_xor() == c2.spec_xor(),
        c1.spec_bitshift() == c2.spec_bitshift(),
        k1 == k2,
    ensures
        stream_base(seed1, c1) == stream_base(seed2, c2),
        advance_offset(k1, c1) == advance_offset(k2, c2),
        stream_outputs(stream_base(seed1, c1), advance_offset(k1, c1) as nat, n)
            == stream_outputs(stream_base(seed2, c2), advance_offset(k2, c2) as nat, n),
{
}

/// Type separation: two capabilities with distinct constants place the same
/// seed at distinct generator bases, whatever the seed.
pub proof fn lemma_type_separation(seed: Seed, c1: KeyCapability, c2: KeyCapability)
    requires
        c1.spec_xor() != c2.spec_xor(),
    ensures
        stream_base(seed, c1) != stream_base(seed, c2),
{
    let s = seed@;
    let x1 = c1.spec_xor();
    let x2 = c2.spec_xor();
    assert(s ^ x1 != s ^ x2) by (bit_vector)
        requires
            x1 != x2,
    ;
}

/// Key separation: with a positive advance exponent, distinct key
/// projections reserve disjoint windows of stream positions — the first `n`
/// positions of either window never meet while `n` stays within the window
/// size `2^bitshift`.
pub proof fn lemma_key_separation(cap: KeyCapability, k1: u64, k2: u64, n: nat, i: nat, j: nat)
    requires
        cap.wf(),
        0 < cap.spec_bitshift(),
        k1 != k2,
        n <= (1u128 << cap.spec_bitshift()),
        i < n,
        j < n,
    ensures
        advance_offset(k1, cap) + i != advance_offset(k2, cap) + j,
{
    let e = cap.spec_bitshift();
    let o1 = advance_offset(k1, cap);
    let o2 = advance_offset(k2, cap);
    let p = 1u128 << e;
    if k1 < k2 {
        assert(o1 + p <= o2) by (bit_vector)
            requires
                o1 == (k1 as u128) << e,
                o2 == (k2 as u128) << e,
                p == 1u128 << e,
                k1 < k2,
                e <= 64u32,
        ;
    } else {
        assert(o2 + p <= o1) by (bit_vector)
            requires
                o1 == (k1 as u128) << e,
                o2 == (k2 as u128) << e,
                p == 1u128 << e,
                k2 < k1,
                e <= 64u32,
        ;
    }
}

/// Degenerate overlap at exponent 0: neighbouring keys' windows are
/// adjacent with no separation, so the first output of key `k + 1` stands at
/// the very position of the second output of key `k`.
pub proof fn lemma_adjacent_keys_overlap(base: u128, cap: KeyCapability, k: u64)
    requires
        cap.spec_bitshift() == 0,
        k < u64::MAX,
    ensures
        pcg_stream(base, advance_offset((k + 1) as u64, cap) as nat) == pcg_stream(
            base,
            (advance_offset(k, cap) + 1) as nat,
        ),
{
    assert((((k + 1) as u64) as u128) << 0u32 == ((k as u128) << 0u32) + 1) by (bit_vector)
        requires
            k < u64::MAX,
    ;
}

/// Unit-key consistency: a zero projection — the unit key's — reserves the
/// offset 0 under every capability, so repeated derivations with it all
/// stand at the start of the capability's sequence.
pub proof fn lemma_zero_projection_no_advance(cap: KeyCapability)
    ensures
        advance_offset(0, cap) == 0,
{
    let e = cap.spec_bitshift();
    assert((0u64 as u128) << e == 0) by (bit_vector);
}

} // verus!
