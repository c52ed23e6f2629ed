use stealth::codec::decode_instruction_type;
use stealth::codec::encode_instruction;
use stealth::codec::StealthInstruction;
use stealth::codec::CONFIGURE_METADATA_DATA_LEN;
use stealth::codec::TRANSFER_DATA_LEN;
use stealth::machine::ConfigureMetadataData;
use stealth::machine::OversightMethod;
use stealth::transfer_proof::EqualityProof;
use stealth::transfer_proof::TransferData;
use stealth::transfer_proof::TransferPublicKeys;
use stealth::StealthError;

fn sample_transfer() -> TransferData {
    let mut src = [0u8; 64];
    let mut dst = [0u8; 64];
    for i in 0..64 {
        src[i] = i as u8;
        dst[i] = (64 + i) as u8;
    }
    TransferData {
        src_cipher_key_chunk_ct: src,
        dst_cipher_key_chunk_ct: dst,
        transfer_public_keys: TransferPublicKeys {
            src_pubkey: [0xaa; 32],
            dst_pubkey: [0xbb; 32],
        },
        equality_proof: EqualityProof {
            y_0: [1; 32],
            y_1: [2; 32],
            y_2: [3; 32],
            sh_1: [4; 32],
            rh_2: [5; 32],
        },
    }
}

#[test]
fn instruction_tags_round_trip() {
    let all = [
        StealthInstruction::ConfigureMetadata,
        StealthInstruction::InitTransfer,
        StealthInstruction::FiniTransfer,
        StealthInstruction::TransferChunk,
        StealthInstruction::TransferChunkSlow,
        StealthInstruction::PublishElgamalPubkey,
        StealthInstruction::CloseElgamalPubkey,
    ];
    for (tag, kind) in all.iter().enumerate() {
        let framed = encode_instruction(*kind, &vec![0xde, 0xad]);
        assert_eq!(framed[0], tag as u8);
        assert_eq!(&framed[1..], &[0xde, 0xad]);
        assert_eq!(decode_instruction_type(&framed), Ok(*kind));
    }
}

#[test]
fn unknown_or_empty_instruction_bytes_are_refused() {
    assert_eq!(decode_instruction_type(&[]), Err(StealthError::InvalidInstructionData));
    assert_eq!(decode_instruction_type(&[7]), Err(StealthError::InvalidInstructionData));
    assert_eq!(decode_instruction_type(&[255, 0]), Err(StealthError::InvalidInstructionData));
}

#[test]
fn transfer_data_round_trips() {
    let td = sample_transfer();
    let bytes = td.to_bytes();
    assert_eq!(bytes.len(), TRANSFER_DATA_LEN);
    let back = TransferData::from_bytes(&bytes).expect("decode");
    assert_eq!(back.src_cipher_key_chunk_ct, td.src_cipher_key_chunk_ct);
    assert_eq!(back.dst_cipher_key_chunk_ct, td.dst_cipher_key_chunk_ct);
    assert_eq!(back.transfer_public_keys.src_pubkey, td.transfer_public_keys.src_pubkey);
    assert_eq!(back.transfer_public_keys.dst_pubkey, td.transfer_public_keys.dst_pubkey);
    assert_eq!(back.equality_proof.y_0, td.equality_proof.y_0);
    assert_eq!(back.equality_proof.y_1, td.equality_proof.y_1);
    assert_eq!(back.equality_proof.y_2, td.equality_proof.y_2);
    assert_eq!(back.equality_proof.sh_1, td.equality_proof.sh_1);
    assert_eq!(back.equality_proof.rh_2, td.equality_proof.rh_2);
}

#[test]
fn transfer_data_wrong_length_is_refused() {
    let td = sample_transfer();
    let mut bytes = td.to_bytes();
    bytes.push(0);
    assert_eq!(TransferData::from_bytes(&bytes).err(), Some(StealthError::InvalidInstructionData));
    assert_eq!(TransferData::from_bytes(&[]).err(), Some(StealthError::InvalidInstructionData));
}

#[test]
fn equality_proof_parses_only_its_exact_length() {
    let bytes = vec![3u8; 160];
    let p = EqualityProof::from_bytes(&bytes).expect("parse");
    assert_eq!(p.y_0, [3; 32]);
    assert_eq!(p.rh_2, [3; 32]);
    assert_eq!(EqualityProof::from_bytes(&vec![3u8; 159]).err(), Some(StealthError::MalformedProof));
    assert_eq!(EqualityProof::from_bytes(&vec![3u8; 161]).err(), Some(StealthError::MalformedProof));
}

#[test]
fn configure_metadata_round_trips() {
    let mut uri = [0u8; 100];
    uri[..22].copy_from_slice(b"ipfs://example-cipher/");
    let d = ConfigureMetadataData {
        elgamal_pk: [9; 32],
        encrypted_cipher_key: [8; 64],
        uri,
        method: OversightMethod::Freeze,
    };
    let bytes = d.to_bytes();
    assert_eq!(bytes.len(), CONFIGURE_METADATA_DATA_LEN);
    let back = ConfigureMetadataData::from_bytes(&bytes).expect("decode");
    assert_eq!(back.elgamal_pk, d.elgamal_pk);
    assert_eq!(back.encrypted_cipher_key, d.encrypted_cipher_key);
    assert_eq!(back.uri, d.uri);
    assert_eq!(back.method, OversightMethod::Freeze);
}

#[test]
fn configure_metadata_rejects_unknown_method() {
    let d = ConfigureMetadataData {
        elgamal_pk: [9; 32],
        encrypted_cipher_key: [8; 64],
        uri: [0; 100],
        method: OversightMethod::NoOversight,
    };
    let mut bytes = d.to_bytes();
    bytes[196] = 9;
    assert_eq!(
        ConfigureMetadataData::from_bytes(&bytes).err(),
        Some(StealthError::InvalidInstructionData)
    );
}
