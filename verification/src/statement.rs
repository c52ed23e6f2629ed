//! The statement builder and the single-invocation verifier.
//!
//! A submitted proof and the two ciphertext chunks map to an ordered list of
//! exactly eleven group elements and eleven scalars, three sub-statements in
//! one multi-scalar check: two public-key-correctness equations of three
//! terms each, and one ciphertext-equality equation of five terms.  Each
//! sub-statement holds when its linear combination is the identity element.

use vstd::prelude::*;

use crate::curve::msm_is_identity;
use crate::curve::msm_is_zero;
use crate::curve::point_decodable;
use crate::curve::point_is_decodable;
use crate::curve::scalar_canonical;
use crate::curve::scalar_is_canonical;
use crate::curve::scalar_neg;
use crate::curve::scalar_negate;
use crate::curve::scalar_reduce;
use crate::curve::scalar_reduced;
use crate::curve::seq_views;
use crate::errors::StealthError;
use crate::transcript::spec_challenge;
use crate::transcript::spec_transcript_init;
use crate::transcript::spec_absorb;
use crate::transcript::Transcript;
use crate::transcript::LABEL_COMMITMENT_Y0;
use crate::transcript::LABEL_COMMITMENT_Y1;
use crate::transcript::LABEL_COMMITMENT_Y2;
use crate::transcript::LABEL_DST_CIPHERTEXT;
use crate::transcript::LABEL_DST_PUBKEY;
use crate::transcript::LABEL_SRC_CIPHERTEXT;
use crate::transcript::LABEL_SRC_PUBKEY;
use crate::transfer_proof::ct_commitment;
use crate::transfer_proof::ct_halves;
use crate::transfer_proof::ct_handle;
use crate::transfer_proof::TransferData;

verus! {

/// The compressed encoding of the protocol's fixed auxiliary generator `H`,
/// the second base of the commitment scheme.
pub const COMPRESSED_H: [u8; 32] = [
    0x7a, 0x2d, 0xed, 0xd7, 0x5f, 0x9b, 0x56, 0xde, 0x5b, 0x75, 0xab, 0xce, 0xfb, 0x7c, 0x4f, 0x39,
    0x3c, 0xf5, 0x84, 0xaa, 0x63, 0x0f, 0xb8, 0x6c, 0x01, 0x94, 0x08, 0x59, 0xea, 0x33, 0xfb, 0x44,
];

/// The canonical little-endian encoding of the scalar one.
pub const SCALAR_ONE_BYTES: [u8; 32] = [
    1, 0, 0, 0, 0, 0, 0, 0, 0, 0, 0, 0, 0, 0, 0, 0, 0, 0, 0, 0, 0, 0, 0, 0, 0, 0, 0, 0, 0, 0, 0, 0,
];

/// Number of group elements (and of scalars) in the statement.
pub const STATEMENT_LEN: usize = 11;

/// The transcript state after absorbing, in the protocol's fixed order, the
/// source ciphertext chunk, the destination ciphertext chunk, the two
/// transfer public keys, and the proof's three commitment points.
pub open spec fn spec_transfer_transcript(t: TransferData) -> Seq<u8> {
    let s0 = spec_transcript_init();
    let s1 = spec_absorb(s0, LABEL_SRC_CIPHERTEXT, t.src_cipher_key_chunk_ct@);
    let s2 = spec_absorb(s1, LABEL_DST_CIPHERTEXT, t.dst_cipher_key_chunk_ct@);
    let s3 = spec_absorb(s2, LABEL_SRC_PUBKEY, t.transfer_public_keys.src_pubkey@);
    let s4 = spec_absorb(s3, LABEL_DST_PUBKEY, t.transfer_public_keys.dst_pubkey@);
    let s5 = spec_absorb(s4, LABEL_COMMITMENT_Y0, t.equality_proof.y_0@);
    let s6 = spec_absorb(s5, LABEL_COMMITMENT_Y1, t.equality_proof.y_1@);
    spec_absorb(s6, LABEL_COMMITMENT_Y2, t.equality_proof.y_2@)
}

/// The verification challenge of one transfer.
pub open spec fn spec_transfer_challenge(t: TransferData) -> Seq<u8> {
    spec_challenge(spec_transfer_transcript(t))
}

/// The scalar minus one, encoded canonically.
pub open spec fn spec_neg_one() -> Seq<u8> {
    scalar_neg(scalar_reduced(SCALAR_ONE_BYTES@))
}

/// The statement's ordered group elements.
pub open spec fn spec_points(t: TransferData) -> Seq<Seq<u8>> {
    seq![
        t.transfer_public_keys.src_pubkey@,
        COMPRESSED_H@,
        t.equality_proof.y_0@,
        t.transfer_public_keys.dst_pubkey@,
        ct_handle(t.dst_cipher_key_chunk_ct@),
        t.equality_proof.y_1@,
        ct_commitment(t.dst_cipher_key_chunk_ct@),
        ct_commitment(t.src_cipher_key_chunk_ct@),
        ct_handle(t.src_cipher_key_chunk_ct@),
        COMPRESSED_H@,
        t.equality_proof.y_2@,
    ]
}

/// The statement's ordered scalars: fixed linear combinations of the proof's
/// response scalars, the challenge, its negation, and minus one.
pub open spec fn spec_scalars(t: TransferData) -> Seq<Seq<u8>> {
    let c = spec_transfer_challenge(t);
    seq![
        t.equality_proof.sh_1@,
        scalar_neg(c),
        spec_neg_one(),
        t.equality_proof.rh_2@,
        scalar_neg(c),
        spec_neg_one(),
        c,
        scalar_neg(c),
        t.equality_proof.sh_1@,
        scalar_neg(t.equality_proof.rh_2@),
        spec_neg_one(),
    ]
}

/// Whether both response scalars canonicalize into the scalar field.  A
/// failure invalidates the entire relation, so the whole proof is aborted.
pub open spec fn spec_scalars_canonical(t: TransferData) -> bool {
    scalar_canonical(t.equality_proof.sh_1@) && scalar_canonical(t.equality_proof.rh_2@)
}

/// Whether every listed 32-byte string decodes into a group element.
pub open spec fn all_points_decodable(ps: Seq<Seq<u8>>) -> bool {
    forall|i: int| 0 <= i < ps.len() ==> point_decodable(ps[i])
}

/// Whether all three group-equation components of a statement hold: each
/// sub-statement's linear combination is the identity element.
pub open spec fn spec_statement_holds(points: Seq<Seq<u8>>, scalars: Seq<Seq<u8>>) -> bool {
    &&& msm_is_zero(scalars.subrange(0, 3), points.subrange(0, 3))
    &&& msm_is_zero(scalars.subrange(3, 6), points.subrange(3, 6))
    &&& msm_is_zero(scalars.subrange(6, 11), points.subrange(6, 11))
}

/// Whether one transfer's proof verifies: the response scalars are
/// canonical, every statement point decodes, and all three group equations
/// hold.
pub open spec fn spec_verifies(t: TransferData) -> bool {
    &&& spec_scalars_canonical(t)
    &&& all_points_decodable(spec_points(t))
    &&& spec_statement_holds(spec_points(t), spec_scalars(t))
}

/// The exact outcome of a single-invocation verification: each failure
/// names its cause, and success comes exactly on a verifying transfer.
pub open spec fn spec_verify_outcome(t: TransferData) -> Result<(), StealthError> {
    if !spec_scalars_canonical(t) {
        Err(StealthError::ScalarCanonicalizationFailure)
    } else if !all_points_decodable(spec_points(t)) {
        Err(StealthError::MalformedProof)
    } else if !spec_statement_holds(spec_points(t), spec_scalars(t)) {
        Err(StealthError::ProofVerificationFailed)
    } else {
        Ok(())
    }
}

/// Verification succeeds exactly when all three group-equation components
/// hold, for every transfer whose scalars canonicalize and whose points
/// decode; no component may be skipped or substituted.
pub proof fn lemma_verification_iff_components(t: TransferData)
    requires
        spec_scalars_canonical(t),
        all_points_decodable(spec_points(t)),
    ensures
        spec_verifies(t) <==> {
            &&& msm_is_zero(spec_scalars(t).subrange(0, 3), spec_points(t).subrange(0, 3))
            &&& msm_is_zero(spec_scalars(t).subrange(3, 6), spec_points(t).subrange(3, 6))
            &&& msm_is_zero(spec_scalars(t).subrange(6, 11), spec_points(t).subrange(6, 11))
        },
{
}

/// Builds the transcript of one transfer in the protocol's fixed order.
pub fn build_transfer_transcript(t: &TransferData) -> (tr: Transcript)
    ensures
        tr@ == spec_transfer_transcript(*t),
{
    let mut tr = Transcript::new();
    tr.append64(LABEL_SRC_CIPHERTEXT, &t.src_cipher_key_chunk_ct);
    tr.append64(LABEL_DST_CIPHERTEXT, &t.dst_cipher_key_chunk_ct);
    tr.append32(LABEL_SRC_PUBKEY, &t.transfer_public_keys.src_pubkey);
    tr.append32(LABEL_DST_PUBKEY, &t.transfer_public_keys.dst_pubkey);
    tr.append32(LABEL_COMMITMENT_Y0, &t.equality_proof.y_0);
    tr.append32(LABEL_COMMITMENT_Y1, &t.equality_proof.y_1);
    tr.append32(LABEL_COMMITMENT_Y2, &t.equality_proof.y_2);
    tr
}

/// One transfer's statement: the ordered point and scalar lists consumed by
/// the verification check, eleven entries each, every scalar canonical.
pub struct Statement {
    pub points: Vec<[u8; 32]>,
    pub scalars: Vec<[u8; 32]>,
}

impl Statement {
    /// Well-formedness: eleven entries on each side, every scalar canonical.
    pub open spec fn wf(&self) -> bool {
        &&& self.points@.len() == STATEMENT_LEN
        &&& self.scalars@.len() == STATEMENT_LEN
        &&& forall|i: int|
            0 <= i < self.scalars@.len() ==> scalar_canonical(#[trigger] self.scalars@[i]@)
    }

    /// Whether this statement is exactly the one derived from a transfer.
    pub open spec fn matches(&self, t: TransferData) -> bool {
        &&& seq_views(self.points@) == spec_points(t)
        &&& seq_views(self.scalars@) == spec_scalars(t)
    }
}

/// Maps a submitted transfer into its statement.  Every scalar must
/// canonicalize into the scalar field; one failure aborts the whole proof,
/// with no partial-slot recovery.
pub fn build_statement(t: &TransferData) -> (r: Result<Statement, StealthError>)
    ensures
        r is Ok <==> spec_scalars_canonical(*t),
        r is Err ==> r == Err::<Statement, StealthError>(StealthError::ScalarCanonicalizationFailure),
        r is Ok ==> r->Ok_0.wf() && r->Ok_0.matches(*t),
{
    if !scalar_is_canonical(&t.equality_proof.sh_1) {
        return Err(StealthError::ScalarCanonicalizationFailure);
    }
    if !scalar_is_canonical(&t.equality_proof.rh_2) {
        return Err(StealthError::ScalarCanonicalizationFailure);
    }
    let tr = build_transfer_transcript(t);
    let c = tr.challenge_scalar();
    let neg_c = scalar_negate(&c);
    let one_reduced = scalar_reduce(&SCALAR_ONE_BYTES);
    let neg_one = scalar_negate(&one_reduced);
    let neg_rh_2 = scalar_negate(&t.equality_proof.rh_2);
    let (src_comm, src_handle) = ct_halves(&t.src_cipher_key_chunk_ct);
    let (dst_comm, dst_handle) = ct_halves(&t.dst_cipher_key_chunk_ct);

    let mut points: Vec<[u8; 32]> = Vec::new();
    points.push(t.transfer_public_keys.src_pubkey);
    points.push(COMPRESSED_H);
    points.push(t.equality_proof.y_0);
    points.push(t.transfer_public_keys.dst_pubkey);
    points.push(dst_handle);
    points.push(t.equality_proof.y_1);
    points.push(dst_comm);
    points.push(src_comm);
    points.push(src_handle);
    points.push(COMPRESSED_H);
    points.push(t.equality_proof.y_2);

    let mut scalars: Vec<[u8; 32]> = Vec::new();
    scalars.push(t.equality_proof.sh_1);
    scalars.push(neg_c);
    scalars.push(neg_one);
    scalars.push(t.equality_proof.rh_2);
    scalars.push(neg_c);
    scalars.push(neg_one);
    scalars.push(c);
    scalars.push(neg_c);
    scalars.push(t.equality_proof.sh_1);
    scalars.push(neg_rh_2);
    scalars.push(neg_one);

    proof {
        assert(seq_views(points@) =~= spec_points(*t));
        assert(seq_views(scalars@) =~= spec_scalars(*t));
    }
    Ok(Statement { points, scalars })
}

/// Copies a contiguous slice of a 32-byte-entry list.
pub(crate) fn subvec32(v: &Vec<[u8; 32]>, from: usize, to: usize) -> (r: Vec<[u8; 32]>)
    requires
        from <= to <= v@.len(),
    ensures
        r@ == v@.subrange(from as int, to as int),
{
    let mut out: Vec<[u8; 32]> = Vec::new();
    let mut i: usize = from;
    while i < to
        invariant
            from <= i <= to <= v@.len(),
            out@ == v@.subrange(from as int, i as int),
        decreases to - i,
    {
        out.push(v[i]);
        assert(out@ =~= v@.subrange(from as int, i + 1));
        i = i + 1;
    }
    out
}

/// `seq_views` of a subrange is the subrange of `seq_views`.
pub proof fn lemma_seq_views_subrange(s: Seq<[u8; 32]>, from: int, to: int)
    requires
        0 <= from <= to <= s.len(),
    ensures
        seq_views(s.subrange(from, to)) == seq_views(s).subrange(from, to),
{
    assert(seq_views(s.subrange(from, to)) =~= seq_views(s).subrange(from, to));
}

/// Evaluates one sub-statement of a fully canonical, fully decodable
/// point/scalar list.
fn statement_component_holds(
    points: &Vec<[u8; 32]>,
    scalars: &Vec<[u8; 32]>,
    from: usize,
    to: usize,
) -> (r: bool)
    requires
        points@.len() == STATEMENT_LEN,
        scalars@.len() == STATEMENT_LEN,
        forall|i: int| 0 <= i < scalars@.len() ==> scalar_canonical(#[trigger] scalars@[i]@),
        from <= to <= STATEMENT_LEN,
        all_points_decodable(seq_views(points@)),
    ensures
        r == msm_is_zero(
            seq_views(scalars@).subrange(from as int, to as int),
            seq_views(points@).subrange(from as int, to as int),
        ),
{
    let ss = subvec32(scalars, from, to);
    let ps = subvec32(points, from, to);
    proof {
        lemma_seq_views_subrange(scalars@, from as int, to as int);
        lemma_seq_views_subrange(points@, from as int, to as int);
        assert(forall|i: int|
            0 <= i < ss@.len() ==> scalar_canonical(#[trigger] ss@[i]@)) by {
            assert(forall|i: int| 0 <= i < ss@.len() ==> ss@[i] == scalars@[from + i]);
        }
        assert(forall|i: int|
            0 <= i < ps@.len() ==> point_decodable(#[trigger] ps@[i]@)) by {
            assert(forall|i: int|
                0 <= i < ps@.len()
                    ==> #[trigger] ps@[i]@ == seq_views(points@)[from + i]);
        }
    }
    msm_is_identity(&ss, &ps)
}

/// Evaluates all three group-equation components of a fully canonical,
/// fully decodable point/scalar list.
pub fn statement_groups_hold(points: &Vec<[u8; 32]>, scalars: &Vec<[u8; 32]>) -> (r: bool)
    requires
        points@.len() == STATEMENT_LEN,
        scalars@.len() == STATEMENT_LEN,
        forall|i: int| 0 <= i < scalars@.len() ==> scalar_canonical(#[trigger] scalars@[i]@),
        all_points_decodable(seq_views(points@)),
    ensures
        r == spec_statement_holds(seq_views(points@), seq_views(scalars@)),
{
    let c0 = statement_component_holds(points, scalars, 0, 3);
    let c1 = statement_component_holds(points, scalars, 3, 6);
    let c2 = statement_component_holds(points, scalars, 6, 11);
    c0 && c1 && c2
}

/// Checks every statement point for decodability, in order.
fn all_points_decode(points: &Vec<[u8; 32]>) -> (r: bool)
    ensures
        r == all_points_decodable(seq_views(points@)),
{
    let n = points.len();
    let mut i: usize = 0;
    while i < n
        invariant
            i <= n == points@.len(),
            forall|j: int| 0 <= j < i ==> point_decodable(#[trigger] seq_views(points@)[j]),
        decreases n - i,
    {
        if !point_is_decodable(&points[i]) {
            assert(!point_decodable(seq_views(points@)[i as int]));
            return false;
        }
        i = i + 1;
    }
    true
}

/// Verifies one transfer in a single invocation: builds the statement and
/// checks all three group-equation components at once.
///
/// Succeeds exactly on the transfers whose proof verifies; each failure
/// names its cause: a scalar that does not canonicalize, a point that does
/// not decode, or group equations that do not hold.
pub fn verify_transfer(t: &TransferData) -> (r: Result<(), StealthError>)
    ensures
        r == spec_verify_outcome(*t),
        r is Ok <==> spec_verifies(*t),
        r == Err::<(), StealthError>(StealthError::ScalarCanonicalizationFailure)
            <==> !spec_scalars_canonical(*t),
        r == Err::<(), StealthError>(StealthError::MalformedProof)
            <==> spec_scalars_canonical(*t) && !all_points_decodable(spec_points(*t)),
        r == Err::<(), StealthError>(StealthError::ProofVerificationFailed) <==> {
            &&& spec_scalars_canonical(*t)
            &&& all_points_decodable(spec_points(*t))
            &&& !spec_statement_holds(spec_points(*t), spec_scalars(*t))
        },
{
    let stmt = match build_statement(t) {
        Ok(s) => s,
        Err(e) => {
            return Err(e);
        },
    };
    if !all_points_decode(&stmt.points) {
        return Err(StealthError::MalformedProof);
    }
    if statement_groups_hold(&stmt.points, &stmt.scalars) {
        Ok(())
    } else {
        Err(StealthError::ProofVerificationFailed)
    }
}

} // verus!
