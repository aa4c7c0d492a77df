//! Deterministic derivation of per-entity pseudorandom streams.
//!
//! A 128-bit [`Seed`] is the root of one generation session. A key (any type
//! implementing [`PrngKey`]) names the entity being generated, reduced to a
//! 64-bit projection. A [`KeyCapability`] statically binds a key type to a
//! value type through a 128-bit constant, unique per (key type, value type)
//! pair, and an advance exponent that reserves `2^exponent` generator slots
//! per key value. [`prng`] combines the three into a freshly positioned
//! generator whose raw outputs the caller samples.

pub mod key;
pub mod pcg;
pub mod seed;
pub mod stream;

pub use key::IndexKey;
pub use key::KeyCapability;
pub use key::PrngKey;
pub use pcg::DerivedRng;
pub use seed::Seed;
pub use stream::generate_u64;
pub use stream::prng;
