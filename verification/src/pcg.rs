//! The boundary to the underlying PCG generator.
//!
//! The generator is `rand_pcg::Pcg64Mcg`, a multiplicative congruential
//! generator: once built from a 128-bit base value its whole output sequence
//! is fixed, `advance(n)` jumps `n` outputs ahead in `O(log n)` time, and
//! each draw moves one position further along that same sequence. A
//! generator is therefore modelled by the base it was built from and its
//! current position; [`pcg_stream`] names the output standing at each
//! position.

use rand::RngCore;
use vstd::prelude::*;

verus! {

/// The raw 64-bit output at position `pos` of the PCG sequence built from
/// `base`. The output depends on `base` and `pos` alone.
pub uninterp spec fn pcg_stream(base: u128, pos: nat) -> u64;

#[verifier::external_type_specification]
#[verifier::external_body]
pub struct ExPcg64Mcg(rand_pcg::Pcg64Mcg);

/// A generator standing at some position of the PCG sequence built from a
/// base value. Derivation positions one; the caller then draws raw outputs.
pub struct DerivedRng {
    inner: rand_pcg::Pcg64Mcg,
    base: Ghost<u128>,
    pos: Ghost<nat>,
}

/// Relies on rand_pcg::Pcg64Mcg::new: it builds the generator of the output
/// sequence that [`pcg_stream`] names for `base`, standing at position 0.
/// The verified constructor around it records that base and position.
#[verifier::external_body]
fn pcg_new_raw(base: u128) -> rand_pcg::Pcg64Mcg {
    rand_pcg::Pcg64Mcg::new(base)
}

/// The next `n` outputs of the sequence built from `base`, starting at
/// position `start`.
pub open spec fn stream_outputs(base: u128, start: nat, n: nat) -> Seq<u64> {
    Seq::new(n, |i: int| pcg_stream(base, (start + i) as nat))
}

impl DerivedRng {
    /// The base the underlying generator was built from.
    pub closed spec fn stream_base(&self) -> u128 {
        self.base@
    }

    /// The position of the sequence whose output the next draw returns.
    pub closed spec fn position(&self) -> nat {
        self.pos@
    }

    /// Build the generator of the sequence of `base`, standing at its start.
    pub(crate) fn new(base: u128) -> (r: Self)
        ensures
            r.stream_base() == base,
            r.position() == 0,
    {
        DerivedRng { inner: pcg_new_raw(base), base: Ghost(base), pos: Ghost(0nat) }
    }

    /// Relies on rand_pcg::Pcg64Mcg::advance: it jumps the stream forward by
    /// `delta` outputs, in time logarithmic in `delta`, without drawing them.
    #[verifier::external_body]
    pub(crate) fn advance(&mut self, delta: u128)
        ensures
            final(self).stream_base() == old(self).stream_base(),
            final(self).position() == old(self).position() + delta,
    {
        self.inner.advance(delta);
    }

    /// Relies on rand_core::RngCore::next_u64 for rand_pcg::Pcg64Mcg: a draw
    /// returns the output at the current position and steps one forward.
    #[verifier::external_body]
    pub fn next_u64(&mut self) -> (r: u64)
        ensures
            r == pcg_stream(old(self).stream_base(), old(self).position()),
            final(self).stream_base() == old(self).stream_base(),
            final(self).position() == old(self).position() + 1,
    {
        self.inner.next_u64()
    }

    /// Draw the next `n` raw outputs, in stream order.
    pub fn take(&mut self, n: usize) -> (r: Vec<u64>)
        ensures
            final(self).stream_base() == old(self).stream_base(),
            final(self).position() == old(self).position() + n,
            r@ == stream_outputs(old(self).stream_base(), old(self).position(), n as nat),
    {
        let ghost base0 = self.stream_base();
        let ghost pos0 = self.position();
        let mut out: Vec<u64> = Vec::new();
        let mut i: usize = 0;
        while i < n
            invariant
                i <= n,
                self.stream_base() == base0,
                self.position() == pos0 + i,
                out@.len() == i,
                forall|j: int|
                    0 <= j < i ==> out@[j] == pcg_stream(base0, (pos0 + j) as nat),
            decreases n - i,
        {
            let x = self.next_u64();
            out.push(x);
            i = i + 1;
        }
        proof {
            assert(out@ =~= stream_outputs(base0, pos0, n as nat));
        }
        out
    }
}

/// Determinism: two generators standing at the same base and position go on
/// to produce the same raw outputs, however many are drawn.
pub proof fn lemma_same_state_same_outputs(a: DerivedRng, b: DerivedRng, n: nat)
    requires
        a.stream_base() == b.stream_base(),
        a.position() == b.position(),
    ensures
        stream_outputs(a.stream_base(), a.position(), n) == stream_outputs(
            b.stream_base(),
            b.position(),
            n,
        ),
{
}

} // verus!
