//! Keys name the entity being generated; capabilities bind a key type to a
//! value type.

use vstd::prelude::*;

verus! {

/// The default advance exponent: each key value owns `2^8 = 256` generator
/// slots before the next key's window begins.
pub const DEFAULT_BITSHIFT: u32 = 8;

/// The largest accepted advance exponent. A 64-bit key projection shifted by
/// at most 64 still fits a 128-bit advance offset without losing bits.
pub const MAX_BITSHIFT: u32 = 64;

/// Values of this type can be used as keys when generating deterministic
/// pseudorandom values.
pub trait PrngKey {
    /// The canonical 64-bit projection of this key, as contracts see it.
    spec fn spec_key(&self) -> u64;

    /// Convert the key into a `u64` value: the only information used to
    /// distinguish entities during derivation. It must be stable across runs
    /// for a logically equal key.
    fn key(&self) -> (r: u64)
        ensures
            r == self.spec_key(),
    ;
}

/// The empty tuple may be used to generate global values: its projection is
/// always zero, so it selects the very first window of every stream.
impl PrngKey for () {
    open spec fn spec_key(&self) -> u64 {
        0
    }

    fn key(&self) -> (r: u64) {
        0
    }
}

/// A key that is already a plain 64-bit index.
#[derive(Debug, Clone, Copy)]
pub struct IndexKey(u64);

impl IndexKey {
    /// Wrap a 64-bit index as a key.
    pub fn new(index: u64) -> (r: Self)
        ensures
            r.spec_key() == index,
    {
        IndexKey(index)
    }
}

impl PrngKey for IndexKey {
    closed spec fn spec_key(&self) -> u64 {
        self.0
    }

    fn key(&self) -> (r: u64) {
        self.0
    }
}

/// Static metadata binding a key type to a value type: a 128-bit constant
/// XORed into the seed, and an advance exponent reserving `2^bitshift`
/// generator slots per key value.
///
/// The constant must be unique per (key type, value type) pair across the
/// whole program: two capabilities sharing a constant derive from the same
/// stream, so their values are no longer independent. Nothing at runtime can
/// detect such a collision; keeping the constants apart is the caller's
/// obligation, stated here once at the point of declaration.
#[derive(Debug, Clone, Copy)]
pub struct KeyCapability {
    xor: u128,
    bitshift: u32,
}

impl KeyCapability {
    /// The capability's XOR constant.
    pub closed spec fn spec_xor(&self) -> u128 {
        self.xor
    }

    /// The capability's advance exponent.
    pub closed spec fn spec_bitshift(&self) -> u32 {
        self.bitshift
    }

    /// Well-formed: shifting a 64-bit projection by the exponent never drops
    /// bits of the advance offset.
    pub open spec fn wf(&self) -> bool {
        self.spec_bitshift() <= MAX_BITSHIFT
    }

    /// Declare a capability with an explicit advance exponent.
    ///
    /// An exponent of 0 is legal and means no slot separation: neighbouring
    /// keys' output windows touch, which is a degenerate configuration kept
    /// for completeness rather than for real use.
    pub fn new(xor: u128, bitshift: u32) -> (r: Self)
        requires
            bitshift <= MAX_BITSHIFT,
        ensures
            r.spec_xor() == xor,
            r.spec_bitshift() == bitshift,
            r.wf(),
    {
        KeyCapability { xor, bitshift }
    }

    /// Declare a capability with the default advance exponent of 8.
    pub fn with_default_bitshift(xor: u128) -> (r: Self)
        ensures
            r.spec_xor() == xor,
            r.spec_bitshift() == DEFAULT_BITSHIFT,
            r.wf(),
    {
        KeyCapability { xor, bitshift: DEFAULT_BITSHIFT }
    }

    /// The XOR constant, at runtime.
    pub fn xor(&self) -> (r: u128)
        ensures
            r == self.spec_xor(),
    {
        self.xor
    }

    /// The advance exponent, at runtime.
    pub fn bitshift(&self) -> (r: u32)
        ensures
            r == self.spec_bitshift(),
    {
        self.bitshift
    }
}

} // verus!
