//! The submitted transfer data and its equality proof.
//!
//! A transfer submits two ciphertext chunks (64 bytes each: a commitment and
//! a decryption handle), the two transfer public keys, and an equality proof
//! of three commitment points and two response scalars.  The proof is parsed
//! once from its fixed 160-byte encoding and immutable afterwards.

use vstd::prelude::*;

use crate::errors::StealthError;

verus! {

/// Length of the serialized equality proof: three commitment points and two
/// response scalars, 32 bytes each.
pub const EQUALITY_PROOF_LEN: usize = 160;

/// Reads a 32-byte value out of a byte string.
pub fn read_array32(bytes: &[u8], off: usize) -> (r: [u8; 32])
    requires
        off + 32 <= bytes@.len(),
    ensures
        r@ == bytes@.subrange(off as int, off as int + 32),
{
    let mut out: [u8; 32] = [0u8; 32];
    let n: usize = bytes.len();
    let mut i: usize = 0;
    while i < 32
        invariant
            i <= 32,
            off + 32 <= n == bytes@.len(),
            forall|j: int| 0 <= j < i ==> out@[j] == bytes@[off + j],
        decreases 32 - i,
    {
        out[i] = bytes[off + i];
        i = i + 1;
    }
    assert(out@ =~= bytes@.subrange(off as int, off as int + 32));
    out
}

/// The parsed zero-knowledge equality proof: commitments `Y_0`, `Y_1`, `Y_2`
/// and response scalars `sh_1`, `rh_2`.
pub struct EqualityProof {
    pub y_0: [u8; 32],
    pub y_1: [u8; 32],
    pub y_2: [u8; 32],
    pub sh_1: [u8; 32],
    pub rh_2: [u8; 32],
}

/// The serialized form of an equality proof.
pub open spec fn spec_proof_bytes(p: EqualityProof) -> Seq<u8> {
    p.y_0@ + p.y_1@ + p.y_2@ + p.sh_1@ + p.rh_2@
}

impl EqualityProof {
    /// Parses the fixed 160-byte encoding; any other length is a malformed
    /// proof.
    pub fn from_bytes(bytes: &[u8]) -> (r: Result<EqualityProof, StealthError>)
        ensures
            r is Ok <==> bytes@.len() == EQUALITY_PROOF_LEN,
            r is Err ==> r == Err::<EqualityProof, StealthError>(StealthError::MalformedProof),
            r is Ok ==> spec_proof_bytes(r->Ok_0) == bytes@,
    {
        if bytes.len() != EQUALITY_PROOF_LEN {
            return Err(StealthError::MalformedProof);
        }
        let p = EqualityProof {
            y_0: read_array32(bytes, 0),
            y_1: read_array32(bytes, 32),
            y_2: read_array32(bytes, 64),
            sh_1: read_array32(bytes, 96),
            rh_2: read_array32(bytes, 128),
        };
        assert(spec_proof_bytes(p) =~= bytes@);
        Ok(p)
    }

    /// Serializes the proof back into its 160-byte encoding.
    pub fn to_bytes(&self) -> (r: Vec<u8>)
        ensures
            r@ == spec_proof_bytes(*self),
    {
        let mut out: Vec<u8> = Vec::new();
        crate::transcript::push_bytes32(&mut out, &self.y_0);
        crate::transcript::push_bytes32(&mut out, &self.y_1);
        crate::transcript::push_bytes32(&mut out, &self.y_2);
        crate::transcript::push_bytes32(&mut out, &self.sh_1);
        crate::transcript::push_bytes32(&mut out, &self.rh_2);
        out
    }
}

/// The source and destination transfer public keys.
pub struct TransferPublicKeys {
    pub src_pubkey: [u8; 32],
    pub dst_pubkey: [u8; 32],
}

/// One transfer's submitted data: the two cipher-key chunk ciphertexts, the
/// public keys, and the equality proof.  Created off the hot path, consumed
/// once and never mutated.
pub struct TransferData {
    pub src_cipher_key_chunk_ct: [u8; 64],
    pub dst_cipher_key_chunk_ct: [u8; 64],
    pub transfer_public_keys: TransferPublicKeys,
    pub equality_proof: EqualityProof,
}

/// The payload of a fast-path chunk validation: the transfer data, checked
/// in a single invocation.
pub struct TransferChunkData {
    /// Transfer data: proof statement and masking factors.
    pub transfer: TransferData,
}

/// The payload of a slow-path chunk validation: the transfer data, checked
/// through the cranked verification pipeline.
pub struct TransferChunkSlowData {
    /// Transfer data: proof statement and masking factors.
    pub transfer: TransferData,
}

/// Whether two 32-byte values are equal.
pub fn arrays_equal_32(a: &[u8; 32], b: &[u8; 32]) -> (r: bool)
    ensures
        r == (a@ == b@),
{
    let mut i: usize = 0;
    while i < 32
        invariant
            i <= 32,
            forall|j: int| 0 <= j < i ==> a@[j] == b@[j],
        decreases 32 - i,
    {
        if a[i] != b[i] {
            return false;
        }
        i = i + 1;
    }
    assert(a@ =~= b@);
    true
}

/// Whether two 64-byte values are equal.
pub fn arrays_equal_64(a: &[u8; 64], b: &[u8; 64]) -> (r: bool)
    ensures
        r == (a@ == b@),
{
    let mut i: usize = 0;
    while i < 64
        invariant
            i <= 64,
            forall|j: int| 0 <= j < i ==> a@[j] == b@[j],
        decreases 64 - i,
    {
        if a[i] != b[i] {
            return false;
        }
        i = i + 1;
    }
    assert(a@ =~= b@);
    true
}

/// The commitment half of a 64-byte ciphertext chunk.
pub open spec fn ct_commitment(ct: Seq<u8>) -> Seq<u8> {
    ct.subrange(0, 32)
}

/// The decryption-handle half of a 64-byte ciphertext chunk.
pub open spec fn ct_handle(ct: Seq<u8>) -> Seq<u8> {
    ct.subrange(32, 64)
}

/// Splits a ciphertext chunk into its commitment and its handle.
pub fn ct_halves(ct: &[u8; 64]) -> (r: ([u8; 32], [u8; 32]))
    ensures
        r.0@ == ct_commitment(ct@),
        r.1@ == ct_handle(ct@),
{
    let s = ct.as_slice();
    (read_array32(s, 0), read_array32(s, 32))
}

} // verus!
