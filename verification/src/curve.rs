//! Trusted boundary to the group and hash libraries.
//!
//! The engine does not implement elliptic-curve or hash primitives itself: it
//! consumes a curve/group library and the platform's SHA-256.  Each call goes
//! through exactly one wrapper below, whose contract names the outcome over
//! plain byte values; everything downstream is verified against those names.

use vstd::prelude::*;

use curve25519_dalek::ristretto::CompressedRistretto;
use curve25519_dalek::ristretto::RistrettoPoint;
use curve25519_dalek::scalar::Scalar;
use curve25519_dalek::traits::Identity;
use curve25519_dalek::traits::VartimeMultiscalarMul;

verus! {

/// The SHA-256 digest of a byte string: 32 bytes, a function of the input
/// alone.
pub uninterp spec fn sha256_of(data: Seq<u8>) -> Seq<u8>;

/// Whether 32 bytes are the canonical little-endian representative of a
/// residue modulo the group's scalar order.
pub uninterp spec fn scalar_canonical(b: Seq<u8>) -> bool;

/// The canonical encoding of the negation, modulo the scalar order, of the
/// scalar a canonical 32-byte string encodes.
pub uninterp spec fn scalar_neg(b: Seq<u8>) -> Seq<u8>;

/// The canonical encoding of a 256-bit little-endian integer reduced modulo
/// the scalar order.
pub uninterp spec fn scalar_reduced(b: Seq<u8>) -> Seq<u8>;

/// Whether 32 bytes are the canonical encoding of a group element.
pub uninterp spec fn point_decodable(b: Seq<u8>) -> bool;

/// Whether `sum(scalar_i * point_i)` over the encoded scalars and group
/// elements equals the group's identity element.
pub uninterp spec fn msm_is_zero(scalars: Seq<Seq<u8>>, points: Seq<Seq<u8>>) -> bool;

/// The byte views of a sequence of 32-byte strings.
pub open spec fn seq_views(s: Seq<[u8; 32]>) -> Seq<Seq<u8>> {
    s.map_values(|a: [u8; 32]| a@)
}

/// Relies on solana_program::hash::hash: returns the SHA-256 digest of the
/// input, 32 bytes, a function of the input bytes alone.
#[verifier::external_body]
pub(crate) fn hash32(data: &Vec<u8>) -> (r: [u8; 32])
    ensures
        r@ == sha256_of(data@),
{
    solana_program::hash::hash(data.as_slice()).to_bytes()
}

/// Relies on curve25519_dalek's Scalar::from_canonical_bytes: it returns a
/// scalar exactly when the 32 bytes are a canonical representative modulo
/// the group order.
#[verifier::external_body]
pub(crate) fn scalar_is_canonical(b: &[u8; 32]) -> (r: bool)
    ensures
        r == scalar_canonical(b@),
{
    let s: Option<Scalar> = Scalar::from_canonical_bytes(*b).into();
    s.is_some()
}

/// Relies on curve25519_dalek's negation for Scalar: the result is the
/// negation modulo the group order, and every scalar produced by the
/// library's arithmetic is kept in canonical (reduced) form.
#[verifier::external_body]
pub(crate) fn scalar_negate(b: &[u8; 32]) -> (r: [u8; 32])
    requires
        scalar_canonical(b@),
    ensures
        r@ == scalar_neg(b@),
        scalar_canonical(r@),
{
    let s: Option<Scalar> = Scalar::from_canonical_bytes(*b).into();
    (-s.unwrap()).to_bytes()
}

/// Relies on Scalar::from_bytes_mod_order: it reduces a 256-bit little-endian
/// integer modulo the group order and returns the canonical representative.
#[verifier::external_body]
pub(crate) fn scalar_reduce(b: &[u8; 32]) -> (r: [u8; 32])
    ensures
        r@ == scalar_reduced(b@),
        scalar_canonical(r@),
{
    Scalar::from_bytes_mod_order(*b).to_bytes()
}

/// Relies on CompressedRistretto::decompress: it succeeds exactly when the
/// 32 bytes are the canonical encoding of a group element.
#[verifier::external_body]
pub(crate) fn point_is_decodable(b: &[u8; 32]) -> (r: bool)
    ensures
        r == point_decodable(b@),
{
    CompressedRistretto(*b).decompress().is_some()
}

/// Relies on RistrettoPoint::vartime_multiscalar_mul, with
/// Scalar::from_canonical_bytes and CompressedRistretto::decompress only
/// converting the byte encodings on the way in: whether the multi-scalar
/// combination equals the identity element, a function of the encodings
/// alone.
#[verifier::external_body]
pub(crate) fn msm_is_identity(scalars: &Vec<[u8; 32]>, points: &Vec<[u8; 32]>) -> (r: bool)
    requires
        scalars@.len() == points@.len(),
        forall|i: int| 0 <= i < scalars@.len() ==> scalar_canonical(scalars@[i]@),
        forall|i: int| 0 <= i < points@.len() ==> point_decodable(points@[i]@),
    ensures
        r == msm_is_zero(seq_views(scalars@), seq_views(points@)),
{
    let ss: Vec<Scalar> = scalars
        .iter()
        .map(|b| Option::<Scalar>::from(Scalar::from_canonical_bytes(*b)).unwrap())
        .collect();
    let ps: Vec<RistrettoPoint> = points
        .iter()
        .map(|b| CompressedRistretto(*b).decompress().unwrap())
        .collect();
    let sum = RistrettoPoint::vartime_multiscalar_mul(ss.iter(), ps.iter());
    sum == RistrettoPoint::identity()
}

} // verus!
