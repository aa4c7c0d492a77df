//! The 128-bit root value from which all derivations of a session originate.

use vstd::prelude::*;
use vstd::slice::slice_to_vec;
use vstd::utf8::encode_utf8;
use vstd::utf8::encode_utf8_decode_utf8;

verus! {

/// Framing byte written before a text's UTF-8 bytes ahead of hashing, so that
/// texts differing only by leading bytes hash to well-separated inputs.
pub const FRAME_PREFIX: u8 = 0x02;

/// Framing byte written after a text's UTF-8 bytes ahead of hashing, so that
/// one text being a prefix of another still gives distinct hash inputs.
pub const FRAME_SUFFIX: u8 = 0x03;

/// Seed values for procedurally generating deterministic pseudorandom
/// numbers.
///
/// Two seeds are equal exactly when their underlying 128-bit integers are;
/// no other structure is implied. A seed is created once per generation
/// session and read-only afterwards.
#[derive(Debug, Default, Clone, Copy, PartialEq, Eq, Structural, Hash)]
pub struct Seed(u128);

impl View for Seed {
    type V = u128;

    closed spec fn view(&self) -> u128 {
        self.0
    }
}

/// The seed holding a given raw 128-bit integer.
pub closed spec fn seed_from_raw(raw: u128) -> Seed {
    Seed(raw)
}

/// What the BLAKE3 hash returns for a byte sequence, cut to its first 16
/// digest bytes and read as a little-endian 128-bit integer. The digest is a
/// pure function of the hashed bytes.
pub uninterp spec fn blake3_digest128(bytes: Seq<u8>) -> u128;

/// The byte sequence handed to the hash for a text: the text's UTF-8 bytes
/// framed by the fixed prefix and suffix bytes.
pub open spec fn seed_input_bytes(text: Seq<char>) -> Seq<u8> {
    seq![FRAME_PREFIX] + encode_utf8(text) + seq![FRAME_SUFFIX]
}

/// Relies on blake3::Hasher (new, update, finalize_xof and
/// OutputReader::fill): the first 16 bytes of the extended digest depend on
/// the hashed bytes alone.
#[verifier::external_body]
fn hash_to_u128(bytes: &[u8]) -> (r: u128)
    ensures
        r == blake3_digest128(bytes@),
{
    let mut digest = [0u8; 16];
    blake3::Hasher::new().update(bytes).finalize_xof().fill(&mut digest);
    u128::from_le_bytes(digest)
}

/// Build the framed hash input for a text.
fn frame_text(text: &str) -> (r: Vec<u8>)
    ensures
        r@ == seed_input_bytes(text@),
{
    let mut bytes: Vec<u8> = Vec::new();
    bytes.push(FRAME_PREFIX);
    let mut middle = slice_to_vec(text.as_bytes());
    bytes.append(&mut middle);
    bytes.push(FRAME_SUFFIX);
    proof {
        assert(bytes@ =~= seed_input_bytes(text@));
    }
    bytes
}

impl Seed {
    /// The raw 128-bit integer behind this seed: the one value worth
    /// persisting, since it rebuilds the seed exactly.
    pub fn raw(&self) -> (r: u128)
        ensures
            r == self@,
    {
        self.0
    }

    /// Generate a `Seed` by hashing an input `&str`.
    ///
    /// Deterministic: the same text always yields the same seed, and the
    /// framing bytes keep distinct texts (even prefixes of one another, or
    /// texts differing only in trailing whitespace) from handing the hash
    /// the same input.
    pub fn new_from_str(seed: &str) -> (r: Self)
        ensures
            r@ == blake3_digest128(seed_input_bytes(seed@)),
    {
        let bytes = frame_text(seed);
        Seed(hash_to_u128(bytes.as_slice()))
    }

    /// Draw a seed from the process's source of randomness.
    ///
    /// Relies on rand::random: nothing is promised of the drawn value.
    #[verifier::external_body]
    pub fn random() -> Seed {
        Seed(rand::random())
    }
}

impl From<u128> for Seed {
    /// Treat a raw 128-bit integer as a seed, for persistence and interop.
    fn from(raw: u128) -> (r: Seed)
    {
        Seed(raw)
    }
}

impl vstd::std_specs::convert::FromSpecImpl<u128> for Seed {
    open spec fn obeys_from_spec() -> bool {
        true
    }

    open spec fn from_spec(raw: u128) -> Seed {
        seed_from_raw(raw)
    }
}

/// Round trip: the seed built from a raw 128-bit integer gives exactly that
/// integer back, for every raw value.
pub proof fn lemma_seed_round_trip(raw: u128)
    ensures
        seed_from_raw(raw)@ == raw,
{
}

/// Text-seed domain separation: distinct texts hand the hash distinct byte
/// sequences. The framing bytes contribute nothing here beyond fixed ends,
/// since UTF-8 encoding itself never maps two texts to one byte sequence.
pub proof fn lemma_seed_input_injective(text1: Seq<char>, text2: Seq<char>)
    requires
        text1 != text2,
    ensures
        seed_input_bytes(text1) != seed_input_bytes(text2),
{
    if seed_input_bytes(text1) == seed_input_bytes(text2) {
        let e1 = encode_utf8(text1);
        let e2 = encode_utf8(text2);
        assert(seed_input_bytes(text1).len() == e1.len() + 2);
        assert(seed_input_bytes(text2).len() == e2.len() + 2);
        assert(e1 =~= seed_input_bytes(text1).subrange(1, 1 + e1.len() as int));
        assert(e2 =~= seed_input_bytes(text2).subrange(1, 1 + e2.len() as int));
        encode_utf8_decode_utf8(text1);
        encode_utf8_decode_utf8(text2);
        assert(text1 == text2);
    }
}

} // verus!
