//! The command codec.
//!
//! Commands arrive as one tag byte followed by a fixed-layout payload.
//! Stored bytes are never reinterpreted without validation: every decoder
//! checks the length and every discriminant before it builds a value.

use vstd::prelude::*;

use crate::errors::StealthError;
use crate::machine::ConfigureMetadataData;
use crate::machine::OversightMethod;
use crate::transfer_proof::read_array32;
use crate::transfer_proof::spec_proof_bytes;
use crate::transfer_proof::EqualityProof;
use crate::transfer_proof::TransferData;
use crate::transfer_proof::TransferPublicKeys;

verus! {

broadcast use vstd::array::group_array_axioms;

/// Serialized size of a transfer-data payload.
pub const TRANSFER_DATA_LEN: usize = 352;

/// Serialized size of a metadata-configuration payload.
pub const CONFIGURE_METADATA_DATA_LEN: usize = 197;

/// The commands exposed at the boundary.
#[derive(Clone, Copy, Debug, PartialEq, Eq, Structural)]
pub enum StealthInstruction {
    /// Configures protected metadata for an asset.
    ConfigureMetadata,
    /// Initializes transfer state for protected metadata.
    InitTransfer,
    /// Finalizes transfer state and swaps the cipher texts.
    FiniTransfer,
    /// Validates an encrypted cipher-key chunk in one invocation.
    TransferChunk,
    /// Validates an encrypted cipher-key chunk through the cranked
    /// pipeline.
    TransferChunkSlow,
    /// Publishes an ElGamal public key for a wallet and an asset.
    PublishElgamalPubkey,
    /// Closes a published ElGamal public key.
    CloseElgamalPubkey,
}

/// The tag byte of each command.
pub open spec fn spec_instruction_tag(i: StealthInstruction) -> u8 {
    match i {
        StealthInstruction::ConfigureMetadata => 0,
        StealthInstruction::InitTransfer => 1,
        StealthInstruction::FiniTransfer => 2,
        StealthInstruction::TransferChunk => 3,
        StealthInstruction::TransferChunkSlow => 4,
        StealthInstruction::PublishElgamalPubkey => 5,
        StealthInstruction::CloseElgamalPubkey => 6,
    }
}

/// The command a tag byte names, if any.
pub open spec fn spec_decode_instruction_tag(b: u8) -> Option<StealthInstruction> {
    if b == 0 {
        Some(StealthInstruction::ConfigureMetadata)
    } else if b == 1 {
        Some(StealthInstruction::InitTransfer)
    } else if b == 2 {
        Some(StealthInstruction::FiniTransfer)
    } else if b == 3 {
        Some(StealthInstruction::TransferChunk)
    } else if b == 4 {
        Some(StealthInstruction::TransferChunkSlow)
    } else if b == 5 {
        Some(StealthInstruction::PublishElgamalPubkey)
    } else if b == 6 {
        Some(StealthInstruction::CloseElgamalPubkey)
    } else {
        None
    }
}

/// Tag decoding inverts tag encoding on every command.
pub proof fn lemma_instruction_tag_round_trip(i: StealthInstruction)
    ensures
        spec_decode_instruction_tag(spec_instruction_tag(i)) == Some(i),
{
}

/// Reads the command named by the first byte of a message.
pub fn decode_instruction_type(input: &[u8]) -> (r: Result<StealthInstruction, StealthError>)
    ensures
        input@.len() == 0 ==> r == Err::<StealthInstruction, StealthError>(
            StealthError::InvalidInstructionData,
        ),
        input@.len() > 0 ==> r == match spec_decode_instruction_tag(input@[0]) {
            Option::Some(i) => Ok::<StealthInstruction, StealthError>(i),
            Option::None => Err(StealthError::InvalidInstructionData),
        },
{
    if input.len() == 0 {
        return Err(StealthError::InvalidInstructionData);
    }
    let b = input[0];
    if b == 0 {
        Ok(StealthInstruction::ConfigureMetadata)
    } else if b == 1 {
        Ok(StealthInstruction::InitTransfer)
    } else if b == 2 {
        Ok(StealthInstruction::FiniTransfer)
    } else if b == 3 {
        Ok(StealthInstruction::TransferChunk)
    } else if b == 4 {
        Ok(StealthInstruction::TransferChunkSlow)
    } else if b == 5 {
        Ok(StealthInstruction::PublishElgamalPubkey)
    } else if b == 6 {
        Ok(StealthInstruction::CloseElgamalPubkey)
    } else {
        Err(StealthError::InvalidInstructionData)
    }
}

/// Appends a byte string to a buffer.
pub(crate) fn push_bytes(buf: &mut Vec<u8>, data: &[u8])
    ensures
        final(buf)@ == old(buf)@ + data@,
{
    let n = data.len();
    let mut i: usize = 0;
    while i < n
        invariant
            i <= n == data@.len(),
            buf@ == old(buf)@ + data@.take(i as int),
        decreases n - i,
    {
        buf.push(data[i]);
        i = i + 1;
    }
    assert(data@.take(n as int) =~= data@);
}

/// Frames a command: the tag byte, then the payload.
pub fn encode_instruction(instruction_type: StealthInstruction, payload: &Vec<u8>) -> (r: Vec<
    u8,
>)
    ensures
        r@ == seq![spec_instruction_tag(instruction_type)] + payload@,
{
    let mut out: Vec<u8> = Vec::new();
    let tag: u8 = match instruction_type {
        StealthInstruction::ConfigureMetadata => 0,
        StealthInstruction::InitTransfer => 1,
        StealthInstruction::FiniTransfer => 2,
        StealthInstruction::TransferChunk => 3,
        StealthInstruction::TransferChunkSlow => 4,
        StealthInstruction::PublishElgamalPubkey => 5,
        StealthInstruction::CloseElgamalPubkey => 6,
    };
    out.push(tag);
    push_bytes(&mut out, payload.as_slice());
    assert(out@ =~= seq![spec_instruction_tag(instruction_type)] + payload@);
    out
}

/// The discriminant byte of an oversight method.
pub open spec fn spec_method_byte(m: OversightMethod) -> u8 {
    match m {
        OversightMethod::NoOversight => 0,
        OversightMethod::Freeze => 1,
    }
}

/// The fixed layout of a metadata-configuration payload: key, encrypted
/// cipher key, URI, method discriminant.
pub open spec fn spec_configure_metadata_bytes(d: ConfigureMetadataData) -> Seq<u8> {
    d.elgamal_pk@ + d.encrypted_cipher_key@ + d.uri@ + seq![spec_method_byte(d.method)]
}

/// Reads a 64-byte value out of a byte string.
pub fn read_array64(bytes: &[u8], off: usize) -> (r: [u8; 64])
    requires
        off + 64 <= bytes@.len(),
    ensures
        r@ == bytes@.subrange(off as int, off as int + 64),
{
    let mut out: [u8; 64] = [0u8; 64];
    let n: usize = bytes.len();
    let mut i: usize = 0;
    while i < 64
        invariant
            i <= 64,
            off + 64 <= n == bytes@.len(),
            forall|j: int| 0 <= j < i ==> out@[j] == bytes@[off + j],
        decreases 64 - i,
    {
        out[i] = bytes[off + i];
        i = i + 1;
    }
    assert(out@ =~= bytes@.subrange(off as int, off as int + 64));
    out
}

/// Reads a URI field out of a byte string.
fn read_uri(bytes: &[u8], off: usize) -> (r: [u8; 100])
    requires
        off + 100 <= bytes@.len(),
    ensures
        r@ == bytes@.subrange(off as int, off as int + 100),
{
    let mut out: [u8; 100] = [0u8; 100];
    let n: usize = bytes.len();
    let mut i: usize = 0;
    while i < 100
        invariant
            i <= 100,
            off + 100 <= n == bytes@.len(),
            forall|j: int| 0 <= j < i ==> out@[j] == bytes@[off + j],
        decreases 100 - i,
    {
        out[i] = bytes[off + i];
        i = i + 1;
    }
    assert(out@ =~= bytes@.subrange(off as int, off as int + 100));
    out
}

impl ConfigureMetadataData {
    /// Serializes the payload into its fixed layout.
    pub fn to_bytes(&self) -> (r: Vec<u8>)
        ensures
            r@ == spec_configure_metadata_bytes(*self),
    {
        let mut out: Vec<u8> = Vec::new();
        push_bytes(&mut out, self.elgamal_pk.as_slice());
        push_bytes(&mut out, self.encrypted_cipher_key.as_slice());
        push_bytes(&mut out, self.uri.as_slice());
        let mb: u8 = match self.method {
            OversightMethod::NoOversight => 0,
            OversightMethod::Freeze => 1,
        };
        out.push(mb);
        assert(out@ =~= spec_configure_metadata_bytes(*self));
        out
    }

    /// Parses the fixed layout; a wrong length or an unknown method
    /// discriminant is refused.
    pub fn from_bytes(bytes: &[u8]) -> (r: Result<ConfigureMetadataData, StealthError>)
        ensures
            r is Ok <==> bytes@.len() == CONFIGURE_METADATA_DATA_LEN && (bytes@[196] == 0
                || bytes@[196] == 1),
            r is Err ==> r == Err::<ConfigureMetadataData, StealthError>(
                StealthError::InvalidInstructionData,
            ),
            r is Ok ==> spec_configure_metadata_bytes(r->Ok_0) == bytes@,
    {
        if bytes.len() != CONFIGURE_METADATA_DATA_LEN {
            return Err(StealthError::InvalidInstructionData);
        }
        let mb = bytes[196];
        let method = if mb == 0 {
            OversightMethod::NoOversight
        } else if mb == 1 {
            OversightMethod::Freeze
        } else {
            return Err(StealthError::InvalidInstructionData);
        };
        let d = ConfigureMetadataData {
            elgamal_pk: read_array32(bytes, 0),
            encrypted_cipher_key: read_array64(bytes, 32),
            uri: read_uri(bytes, 96),
            method,
        };
        assert(spec_configure_metadata_bytes(d) =~= bytes@);
        Ok(d)
    }
}

/// Two 32-byte values with equal views are equal.
proof fn lemma_bytes32_eq(a: [u8; 32], b: [u8; 32])
    requires
        a@ == b@,
    ensures
        a == b,
{
    assert(a =~= b);
}

/// Two 64-byte values with equal views are equal.
proof fn lemma_bytes64_eq(a: [u8; 64], b: [u8; 64])
    requires
        a@ == b@,
    ensures
        a == b,
{
    assert(a =~= b);
}

/// The metadata-configuration layout is injective: equal encodings carry
/// equal payloads, so decoding inverts encoding.
pub proof fn lemma_configure_metadata_bytes_injective(
    a: ConfigureMetadataData,
    b: ConfigureMetadataData,
)
    requires
        spec_configure_metadata_bytes(a) == spec_configure_metadata_bytes(b),
    ensures
        a == b,
{
    let ea = spec_configure_metadata_bytes(a);
    let eb = spec_configure_metadata_bytes(b);
    assert(ea.subrange(0, 32) =~= a.elgamal_pk@);
    assert(eb.subrange(0, 32) =~= b.elgamal_pk@);
    lemma_bytes32_eq(a.elgamal_pk, b.elgamal_pk);
    assert(ea.subrange(32, 96) =~= a.encrypted_cipher_key@);
    assert(eb.subrange(32, 96) =~= b.encrypted_cipher_key@);
    lemma_bytes64_eq(a.encrypted_cipher_key, b.encrypted_cipher_key);
    assert(ea.subrange(96, 196) =~= a.uri@);
    assert(eb.subrange(96, 196) =~= b.uri@);
    assert(a.uri =~= b.uri);
    assert(ea[196] == spec_method_byte(a.method));
    assert(eb[196] == spec_method_byte(b.method));
    assert(a.method == b.method);
}

/// The transfer-data layout is injective: equal encodings carry equal
/// payloads, so decoding inverts encoding.
pub proof fn lemma_transfer_data_bytes_injective(a: TransferData, b: TransferData)
    requires
        spec_transfer_data_bytes(a) == spec_transfer_data_bytes(b),
    ensures
        a == b,
{
    let ea = spec_transfer_data_bytes(a);
    let eb = spec_transfer_data_bytes(b);
    assert(ea.subrange(0, 64) =~= a.src_cipher_key_chunk_ct@);
    assert(eb.subrange(0, 64) =~= b.src_cipher_key_chunk_ct@);
    lemma_bytes64_eq(a.src_cipher_key_chunk_ct, b.src_cipher_key_chunk_ct);
    assert(ea.subrange(64, 128) =~= a.dst_cipher_key_chunk_ct@);
    assert(eb.subrange(64, 128) =~= b.dst_cipher_key_chunk_ct@);
    lemma_bytes64_eq(a.dst_cipher_key_chunk_ct, b.dst_cipher_key_chunk_ct);
    assert(ea.subrange(128, 160) =~= a.transfer_public_keys.src_pubkey@);
    assert(eb.subrange(128, 160) =~= b.transfer_public_keys.src_pubkey@);
    lemma_bytes32_eq(a.transfer_public_keys.src_pubkey, b.transfer_public_keys.src_pubkey);
    assert(ea.subrange(160, 192) =~= a.transfer_public_keys.dst_pubkey@);
    assert(eb.subrange(160, 192) =~= b.transfer_public_keys.dst_pubkey@);
    lemma_bytes32_eq(a.transfer_public_keys.dst_pubkey, b.transfer_public_keys.dst_pubkey);
    assert(ea.subrange(192, 224) =~= a.equality_proof.y_0@);
    assert(eb.subrange(192, 224) =~= b.equality_proof.y_0@);
    lemma_bytes32_eq(a.equality_proof.y_0, b.equality_proof.y_0);
    assert(ea.subrange(224, 256) =~= a.equality_proof.y_1@);
    assert(eb.subrange(224, 256) =~= b.equality_proof.y_1@);
    lemma_bytes32_eq(a.equality_proof.y_1, b.equality_proof.y_1);
    assert(ea.subrange(256, 288) =~= a.equality_proof.y_2@);
    assert(eb.subrange(256, 288) =~= b.equality_proof.y_2@);
    lemma_bytes32_eq(a.equality_proof.y_2, b.equality_proof.y_2);
    assert(ea.subrange(288, 320) =~= a.equality_proof.sh_1@);
    assert(eb.subrange(288, 320) =~= b.equality_proof.sh_1@);
    lemma_bytes32_eq(a.equality_proof.sh_1, b.equality_proof.sh_1);
    assert(ea.subrange(320, 352) =~= a.equality_proof.rh_2@);
    assert(eb.subrange(320, 352) =~= b.equality_proof.rh_2@);
    lemma_bytes32_eq(a.equality_proof.rh_2, b.equality_proof.rh_2);
}

/// The fixed layout of a transfer-data payload: the two ciphertext
/// chunks, the two public keys, and the equality proof.
pub open spec fn spec_transfer_data_bytes(t: TransferData) -> Seq<u8> {
    t.src_cipher_key_chunk_ct@ + t.dst_cipher_key_chunk_ct@
        + t.transfer_public_keys.src_pubkey@ + t.transfer_public_keys.dst_pubkey@
        + spec_proof_bytes(t.equality_proof)
}

impl TransferData {
    /// Serializes the payload into its fixed layout.
    pub fn to_bytes(&self) -> (r: Vec<u8>)
        ensures
            r@ == spec_transfer_data_bytes(*self),
    {
        let mut out: Vec<u8> = Vec::new();
        push_bytes(&mut out, self.src_cipher_key_chunk_ct.as_slice());
        push_bytes(&mut out, self.dst_cipher_key_chunk_ct.as_slice());
        push_bytes(&mut out, self.transfer_public_keys.src_pubkey.as_slice());
        push_bytes(&mut out, self.transfer_public_keys.dst_pubkey.as_slice());
        let pb = self.equality_proof.to_bytes();
        push_bytes(&mut out, pb.as_slice());
        assert(out@ =~= spec_transfer_data_bytes(*self));
        out
    }

    /// Parses the fixed layout; any other length is refused.
    pub fn from_bytes(bytes: &[u8]) -> (r: Result<TransferData, StealthError>)
        ensures
            r is Ok <==> bytes@.len() == TRANSFER_DATA_LEN,
            r is Err ==> r == Err::<TransferData, StealthError>(
                StealthError::InvalidInstructionData,
            ),
            r is Ok ==> spec_transfer_data_bytes(r->Ok_0) == bytes@,
    {
        if bytes.len() != TRANSFER_DATA_LEN {
            return Err(StealthError::InvalidInstructionData);
        }
        let t = TransferData {
            src_cipher_key_chunk_ct: read_array64(bytes, 0),
            dst_cipher_key_chunk_ct: read_array64(bytes, 64),
            transfer_public_keys: TransferPublicKeys {
                src_pubkey: read_array32(bytes, 128),
                dst_pubkey: read_array32(bytes, 160),
            },
            equality_proof: EqualityProof {
                y_0: read_array32(bytes, 192),
                y_1: read_array32(bytes, 224),
                y_2: read_array32(bytes, 256),
                sh_1: read_array32(bytes, 288),
                rh_2: read_array32(bytes, 320),
            },
        };
        assert(spec_transfer_data_bytes(t) =~= bytes@);
        Ok(t)
    }
}

} // verus!
