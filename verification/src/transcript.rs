//! The deterministic Fiat–Shamir transcript.
//!
//! The transcript is an ordered-append hash state: it only exposes "append a
//! labeled value" and "derive the challenge".  Every absorbed value is framed
//! with its label byte and its length, so no two distinct absorb sequences
//! feed the same bytes to the hash, and the absorb order is part of the
//! protocol contract: changing it changes the challenge.

use vstd::prelude::*;

use crate::curve::hash32;
use crate::curve::scalar_canonical;
use crate::curve::scalar_reduce;
use crate::curve::scalar_reduced;
use crate::curve::sha256_of;

verus! {

/// Label of the protocol's domain separator, absorbed first.
pub const LABEL_DOMAIN: u8 = 1;
/// Label of the source ciphertext chunk.
pub const LABEL_SRC_CIPHERTEXT: u8 = 2;
/// Label of the destination ciphertext chunk.
pub const LABEL_DST_CIPHERTEXT: u8 = 3;
/// Label of the source transfer public key.
pub const LABEL_SRC_PUBKEY: u8 = 4;
/// Label of the destination transfer public key.
pub const LABEL_DST_PUBKEY: u8 = 5;
/// Label of the proof's first commitment point.
pub const LABEL_COMMITMENT_Y0: u8 = 6;
/// Label of the proof's second commitment point.
pub const LABEL_COMMITMENT_Y1: u8 = 7;
/// Label of the proof's third commitment point.
pub const LABEL_COMMITMENT_Y2: u8 = 8;
/// Label of the challenge derivation.
pub const LABEL_CHALLENGE: u8 = 9;

/// The framed bytes one absorb step feeds to the hash: the running state,
/// the label byte, the value's length and the value itself.
pub open spec fn spec_frame(state: Seq<u8>, label: u8, data: Seq<u8>) -> Seq<u8> {
    state + seq![label, data.len() as u8] + data
}

/// The hash state after absorbing one labeled value.
pub open spec fn spec_absorb(state: Seq<u8>, label: u8, data: Seq<u8>) -> Seq<u8> {
    sha256_of(spec_frame(state, label, data))
}

/// The initial hash state: the domain separator absorbed into the empty
/// state.
pub open spec fn spec_transcript_init() -> Seq<u8> {
    spec_absorb(Seq::empty(), LABEL_DOMAIN, Seq::empty())
}

/// The challenge scalar derived from a final hash state: one more labeled
/// absorb, reduced into the scalar field.
pub open spec fn spec_challenge(state: Seq<u8>) -> Seq<u8> {
    scalar_reduced(spec_absorb(state, LABEL_CHALLENGE, Seq::empty()))
}

/// Appends every byte of a 32-byte value to a buffer.
pub(crate) fn push_bytes32(buf: &mut Vec<u8>, data: &[u8; 32])
    ensures
        final(buf)@ == old(buf)@ + data@,
{
    let mut i: usize = 0;
    while i < 32
        invariant
            i <= 32,
            buf@ == old(buf)@ + data@.take(i as int),
        decreases 32 - i,
    {
        buf.push(data[i]);
        i = i + 1;
    }
    assert(data@.take(32) == data@);
}

/// Appends every byte of a 64-byte value to a buffer.
pub(crate) fn push_bytes64(buf: &mut Vec<u8>, data: &[u8; 64])
    ensures
        final(buf)@ == old(buf)@ + data@,
{
    let mut i: usize = 0;
    while i < 64
        invariant
            i <= 64,
            buf@ == old(buf)@ + data@.take(i as int),
        decreases 64 - i,
    {
        buf.push(data[i]);
        i = i + 1;
    }
    assert(data@.take(64) == data@);
}

/// The running Fiat–Shamir hash state of one verification attempt.
///
/// Created fresh per attempt, fed the protocol values in their fixed order,
/// and consumed by the challenge derivation.
pub struct Transcript {
    state: [u8; 32],
}

impl View for Transcript {
    type V = Seq<u8>;

    closed spec fn view(&self) -> Seq<u8> {
        self.state@
    }
}

impl Transcript {
    /// A fresh transcript holding only the domain separator.
    pub fn new() -> (t: Transcript)
        ensures
            t@ == spec_transcript_init(),
    {
        let mut buf: Vec<u8> = Vec::new();
        buf.push(LABEL_DOMAIN);
        buf.push(0u8);
        let ghost frame = spec_frame(Seq::empty(), LABEL_DOMAIN, Seq::empty());
        assert(buf@ =~= frame);
        Transcript { state: hash32(&buf) }
    }

    /// Absorbs one labeled 32-byte value.
    pub fn append32(&mut self, label: u8, data: &[u8; 32])
        ensures
            final(self)@ == spec_absorb(old(self)@, label, data@),
    {
        let mut buf: Vec<u8> = Vec::new();
        push_bytes32(&mut buf, &self.state);
        buf.push(label);
        buf.push(32u8);
        push_bytes32(&mut buf, data);
        let ghost frame = spec_frame(self@, label, data@);
        assert(buf@ =~= frame);
        self.state = hash32(&buf);
    }

    /// Absorbs one labeled 64-byte value.
    pub fn append64(&mut self, label: u8, data: &[u8; 64])
        ensures
            final(self)@ == spec_absorb(old(self)@, label, data@),
    {
        let mut buf: Vec<u8> = Vec::new();
        push_bytes32(&mut buf, &self.state);
        buf.push(label);
        buf.push(64u8);
        push_bytes64(&mut buf, data);
        let ghost frame = spec_frame(self@, label, data@);
        assert(buf@ =~= frame);
        self.state = hash32(&buf);
    }

    /// Derives the challenge scalar and discards the transcript.
    ///
    /// The result is the labeled hash of the final state reduced into the
    /// scalar field, so it is always canonical.
    pub fn challenge_scalar(self) -> (r: [u8; 32])
        ensures
            r@ == spec_challenge(self@),
            scalar_canonical(r@),
    {
        let mut buf: Vec<u8> = Vec::new();
        push_bytes32(&mut buf, &self.state);
        buf.push(LABEL_CHALLENGE);
        buf.push(0u8);
        let ghost frame = spec_frame(self@, LABEL_CHALLENGE, Seq::empty());
        assert(buf@ =~= frame);
        scalar_reduce(&hash32(&buf))
    }
}

} // verus!
