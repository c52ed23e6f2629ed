use curve25519_dalek::ristretto::CompressedRistretto;
use curve25519_dalek::ristretto::RistrettoPoint;
use curve25519_dalek::scalar::Scalar;

use stealth::buffers::InputBuffer;
use stealth::buffers::InstructionBuffer;
use stealth::compute::ComputeBuffer;
use stealth::dsl::DSL_INSTRUCTION_BYTES_LEN;
use stealth::machine::close_transfer_buffer;
use stealth::machine::fini_transfer;
use stealth::machine::init_transfer;
use stealth::machine::transfer_chunk;
use stealth::machine::transfer_chunk_slow;
use stealth::machine::ConfigureMetadataData;
use stealth::machine::OversightMethod;
use stealth::machine::TransferState;
use stealth::machine::configure_metadata;
use stealth::pipeline::populate_instruction_buffer;
use stealth::pipeline::run_transfer_verification;
use stealth::plan::build_crank_plan;
use stealth::statement::build_statement;
use stealth::statement::build_transfer_transcript;
use stealth::statement::verify_transfer;
use stealth::statement::COMPRESSED_H;
use stealth::transfer_proof::EqualityProof;
use stealth::transfer_proof::TransferChunkData;
use stealth::transfer_proof::TransferChunkSlowData;
use stealth::transfer_proof::TransferData;
use stealth::transfer_proof::TransferPublicKeys;
use stealth::StealthError;

fn sc(n: u64) -> Scalar {
    Scalar::from(n)
}

fn point_h() -> RistrettoPoint {
    CompressedRistretto(COMPRESSED_H).decompress().expect("H must decode")
}

fn base() -> RistrettoPoint {
    curve25519_dalek::constants::RISTRETTO_BASEPOINT_POINT
}

fn cat64(a: [u8; 32], b: [u8; 32]) -> [u8; 64] {
    let mut out = [0u8; 64];
    out[..32].copy_from_slice(&a);
    out[32..].copy_from_slice(&b);
    out
}

/// A transfer whose equality proof satisfies all three group equations.
fn valid_transfer() -> TransferData {
    let h = point_h();
    let g = base();

    // Source key: P_src = a^-1 * H, so a * P_src = H.
    let a = sc(7);
    let p_src = a.invert() * h;
    // Destination key and its decryption handle under randomness r.
    let p_dst = sc(11) * g;
    let r = sc(13);
    let d_dst = r * p_dst;
    // An arbitrary source ciphertext chunk.
    let c_src = sc(21) * g;
    let d_src = sc(23) * g;
    // The re-encrypted chunk carrying the same plaintext.
    let c_dst = c_src - a * d_src + r * h;

    // Commitments from fresh masking scalars.
    let y1 = sc(17);
    let y2 = sc(19);
    let cap_y0 = y1 * p_src;
    let cap_y1 = y2 * p_dst;
    let cap_y2 = y1 * d_src - y2 * h;

    let mut td = TransferData {
        src_cipher_key_chunk_ct: cat64(c_src.compress().to_bytes(), d_src.compress().to_bytes()),
        dst_cipher_key_chunk_ct: cat64(c_dst.compress().to_bytes(), d_dst.compress().to_bytes()),
        transfer_public_keys: TransferPublicKeys {
            src_pubkey: p_src.compress().to_bytes(),
            dst_pubkey: p_dst.compress().to_bytes(),
        },
        equality_proof: EqualityProof {
            y_0: cap_y0.compress().to_bytes(),
            y_1: cap_y1.compress().to_bytes(),
            y_2: cap_y2.compress().to_bytes(),
            sh_1: [0u8; 32],
            rh_2: [0u8; 32],
        },
    };

    // The challenge binds the ciphertexts, keys and commitments; the
    // responses close the sigma protocol.
    let c_bytes = build_transfer_transcript(&td).challenge_scalar();
    let c = Option::<Scalar>::from(Scalar::from_canonical_bytes(c_bytes)).expect("canonical");
    td.equality_proof.sh_1 = (y1 + c * a).to_bytes();
    td.equality_proof.rh_2 = (y2 + c * r).to_bytes();
    td
}

fn metadata_for(td: &TransferData) -> stealth::machine::StealthMetadata {
    let data = ConfigureMetadataData {
        elgamal_pk: td.transfer_public_keys.src_pubkey,
        encrypted_cipher_key: td.src_cipher_key_chunk_ct,
        uri: [0u8; 100],
        method: OversightMethod::NoOversight,
    };
    configure_metadata(&data, 900, 1)
}

fn buffer_for(td: &TransferData) -> stealth::machine::CipherKeyTransferBuffer {
    let meta = metadata_for(td);
    init_transfer(
        1,
        &meta,
        2,
        Some(td.transfer_public_keys.dst_pubkey),
        td.dst_cipher_key_chunk_ct,
        5000,
    )
    .expect("init_transfer")
}

#[test]
fn valid_proof_verifies() {
    let td = valid_transfer();
    assert!(verify_transfer(&td).is_ok());
}

#[test]
fn flipped_response_scalar_fails_verification() {
    let base_td = valid_transfer();
    let c = Option::<Scalar>::from(Scalar::from_canonical_bytes(base_td.equality_proof.sh_1))
        .unwrap();
    let mut td = valid_transfer();
    td.equality_proof.sh_1 = (c + sc(1)).to_bytes();
    assert_eq!(verify_transfer(&td), Err(StealthError::ProofVerificationFailed));

    let mut td2 = valid_transfer();
    let r2 = Option::<Scalar>::from(Scalar::from_canonical_bytes(td2.equality_proof.rh_2))
        .unwrap();
    td2.equality_proof.rh_2 = (r2 + sc(1)).to_bytes();
    assert_eq!(verify_transfer(&td2), Err(StealthError::ProofVerificationFailed));
}

#[test]
fn non_canonical_scalar_aborts_whole_proof() {
    let mut td = valid_transfer();
    td.equality_proof.sh_1 = [0xffu8; 32];
    assert_eq!(verify_transfer(&td), Err(StealthError::ScalarCanonicalizationFailure));
    assert!(build_statement(&td).is_err());
}

#[test]
fn undecodable_point_is_malformed_proof() {
    let mut td = valid_transfer();
    td.equality_proof.y_0 = [0xffu8; 32];
    assert_eq!(verify_transfer(&td), Err(StealthError::MalformedProof));
}

#[test]
fn fast_path_chunk_moves_to_verified() {
    let td = valid_transfer();
    let meta = metadata_for(&td);
    let mut tb = buffer_for(&td);
    let res = transfer_chunk(&mut tb, 1, &meta, &TransferChunkData { transfer: td });
    assert!(res.is_ok());
    assert_eq!(tb.state, TransferState::Verified);
}

#[test]
fn fast_path_rejects_unauthorized_and_mismatched() {
    let td = valid_transfer();
    let meta = metadata_for(&td);
    let mut tb = buffer_for(&td);
    let res = transfer_chunk(&mut tb, 99, &meta, &TransferChunkData { transfer: valid_transfer() });
    assert_eq!(res, Err(StealthError::Unauthorized));
    assert_eq!(tb.state, TransferState::AwaitingVerification);

    let mut other = valid_transfer();
    other.dst_cipher_key_chunk_ct[0] ^= 1;
    let res2 = transfer_chunk(&mut tb, 1, &meta, &TransferChunkData { transfer: other });
    assert_eq!(res2, Err(StealthError::BufferMismatch));
    assert_eq!(tb.state, TransferState::AwaitingVerification);
}

#[test]
fn flipped_scalar_makes_finalize_fail() {
    let td = valid_transfer();
    let mut meta = metadata_for(&td);
    let mut tb = buffer_for(&td);
    let mut bad = valid_transfer();
    let s = Option::<Scalar>::from(Scalar::from_canonical_bytes(bad.equality_proof.sh_1))
        .unwrap();
    bad.equality_proof.sh_1 = (s + sc(1)).to_bytes();
    let res = transfer_chunk(&mut tb, 1, &meta, &TransferChunkData { transfer: bad });
    assert_eq!(res, Err(StealthError::ProofVerificationFailed));
    assert_eq!(tb.state, TransferState::AwaitingVerification);
    let fini = fini_transfer(&mut tb, 1, &mut meta, 0);
    assert_eq!(fini, Err(StealthError::NotReady));
    assert_eq!(meta.encrypted_cipher_key, td.src_cipher_key_chunk_ct);
}

#[test]
fn finalize_before_cursor_complete_is_not_ready() {
    let td = valid_transfer();
    let mut meta = metadata_for(&td);
    let mut tb = buffer_for(&td);
    let wallet_before = meta.wallet;
    let key_before = meta.encrypted_cipher_key;
    let fini = fini_transfer(&mut tb, 1, &mut meta, 1000);
    assert_eq!(fini, Err(StealthError::NotReady));
    assert_eq!(tb.state, TransferState::AwaitingVerification);
    assert_eq!(tb.escrow_lamports, 5000);
    assert_eq!(meta.wallet, wallet_before);
    assert_eq!(meta.encrypted_cipher_key, key_before);
}

#[test]
fn finalize_after_verification_swaps_key_material() {
    let td = valid_transfer();
    let mut meta = metadata_for(&td);
    let mut tb = buffer_for(&td);
    transfer_chunk(&mut tb, 1, &meta, &TransferChunkData { transfer: valid_transfer() })
        .expect("verification");
    let released = fini_transfer(&mut tb, 1, &mut meta, 1000).expect("finalize");
    assert_eq!(released, 6000);
    assert_eq!(tb.state, TransferState::Finalized);
    assert_eq!(tb.escrow_lamports, 0);
    assert_eq!(meta.wallet, 2);
    assert_eq!(meta.elgamal_pk, td.transfer_public_keys.dst_pubkey);
    assert_eq!(meta.encrypted_cipher_key, td.dst_cipher_key_chunk_ct);
}

#[test]
fn finalize_overflow_is_checked() {
    let td = valid_transfer();
    let mut meta = metadata_for(&td);
    let mut tb = buffer_for(&td);
    transfer_chunk(&mut tb, 1, &meta, &TransferChunkData { transfer: valid_transfer() })
        .expect("verification");
    let fini = fini_transfer(&mut tb, 1, &mut meta, u64::MAX);
    assert_eq!(fini, Err(StealthError::Overflow));
    assert_eq!(tb.state, TransferState::Verified);
}

#[test]
fn abandoning_reclaims_escrow() {
    let td = valid_transfer();
    let mut tb = buffer_for(&td);
    assert_eq!(close_transfer_buffer(&mut tb, 9), Err(StealthError::Unauthorized));
    let refund = close_transfer_buffer(&mut tb, 1).expect("close");
    assert_eq!(refund, 5000);
    assert_eq!(tb.state, TransferState::Abandoned);
    assert_eq!(close_transfer_buffer(&mut tb, 1), Err(StealthError::NotReady));
}

#[test]
fn init_transfer_requires_published_key() {
    let td = valid_transfer();
    let meta = metadata_for(&td);
    let res = init_transfer(1, &meta, 2, None, td.dst_cipher_key_chunk_ct, 0);
    assert_eq!(res.err(), Some(StealthError::NotReady));
    let res2 = init_transfer(3, &meta, 2, Some([0u8; 32]), td.dst_cipher_key_chunk_ct, 0);
    assert_eq!(res2.err(), Some(StealthError::Unauthorized));
}

#[test]
fn slow_path_pipeline_verifies_and_finalizes() {
    let td = valid_transfer();
    let mut meta = metadata_for(&td);
    let mut tb = buffer_for(&td);
    let res = run_transfer_verification(
        &mut tb,
        1,
        &meta,
        &TransferChunkSlowData { transfer: valid_transfer() },
        100,
        101,
        102,
        1_000_000,
    );
    assert!(res.is_ok());
    assert_eq!(tb.state, TransferState::Verified);
    let released = fini_transfer(&mut tb, 1, &mut meta, 0).expect("finalize");
    assert_eq!(released, 5000);
    assert_eq!(meta.encrypted_cipher_key, td.dst_cipher_key_chunk_ct);
}

#[test]
fn slow_path_rejects_flipped_scalar() {
    let td = valid_transfer();
    let meta = metadata_for(&td);
    let mut tb = buffer_for(&td);
    let mut bad = valid_transfer();
    let s = Option::<Scalar>::from(Scalar::from_canonical_bytes(bad.equality_proof.sh_1))
        .unwrap();
    bad.equality_proof.sh_1 = (s + sc(1)).to_bytes();
    let res = run_transfer_verification(
        &mut tb,
        1,
        &meta,
        &TransferChunkSlowData { transfer: bad },
        100,
        101,
        102,
        1_000_000,
    );
    assert_eq!(res, Err(StealthError::ProofVerificationFailed));
    assert_eq!(tb.state, TransferState::AwaitingVerification);
}

#[test]
fn crank_replay_is_noop_and_skip_is_rejected() {
    let td = valid_transfer();
    let stmt = build_statement(&td).expect("statement");
    let mut instr = InstructionBuffer::create(100, 1, DSL_INSTRUCTION_BYTES_LEN, 0);
    populate_instruction_buffer(&mut instr, 1, 800).expect("populate");
    let mut input = InputBuffer::create(101, 1, 0);
    input.write_statement(1, &stmt).expect("write input");
    let mut cb = ComputeBuffer::create(102, 1, &instr, &input, 0).expect("compute buffer");
    let plan = build_crank_plan(1_000_000);

    assert!(cb.crank(1, &instr, &input, 0, plan[0].count).is_ok());
    assert_eq!(cb.cursor, 16);
    // Re-issuing the already-completed batch is a no-op.
    assert!(cb.crank(1, &instr, &input, 0, plan[0].count).is_ok());
    assert_eq!(cb.cursor, 16);
    assert_eq!(cb.next_batch, 1);
    // Skipping ahead is rejected and the cursor does not move.
    assert_eq!(cb.crank(1, &instr, &input, 2, plan[2].count), Err(StealthError::NotReady));
    assert_eq!(cb.cursor, 16);
    // The next unperformed batch continues correctly.
    assert!(cb.crank(1, &instr, &input, 1, plan[1].count).is_ok());
    assert_eq!(cb.cursor, 32);
    assert_eq!(cb.next_batch, 2);
}

#[test]
fn crank_with_different_input_buffer_is_buffer_mismatch() {
    let td = valid_transfer();
    let stmt = build_statement(&td).expect("statement");
    let mut instr = InstructionBuffer::create(100, 1, DSL_INSTRUCTION_BYTES_LEN, 0);
    populate_instruction_buffer(&mut instr, 1, 800).expect("populate");
    let mut input = InputBuffer::create(101, 1, 0);
    input.write_statement(1, &stmt).expect("write input");
    let mut other_input = InputBuffer::create(555, 1, 0);
    other_input.write_statement(1, &stmt).expect("write input");
    let mut cb = ComputeBuffer::create(102, 1, &instr, &input, 0).expect("compute buffer");
    let plan = build_crank_plan(1_000_000);

    assert!(cb.crank(1, &instr, &input, 0, plan[0].count).is_ok());
    assert_eq!(cb.cursor, 16);
    let res = cb.crank(1, &instr, &other_input, 1, plan[1].count);
    assert_eq!(res, Err(StealthError::BufferMismatch));
    assert_eq!(cb.cursor, 16);
    assert_eq!(cb.next_batch, 1);
}

#[test]
fn crank_checks_ownership() {
    let td = valid_transfer();
    let stmt = build_statement(&td).expect("statement");
    let mut instr = InstructionBuffer::create(100, 1, DSL_INSTRUCTION_BYTES_LEN, 0);
    populate_instruction_buffer(&mut instr, 1, 800).expect("populate");
    let mut input = InputBuffer::create(101, 1, 0);
    input.write_statement(1, &stmt).expect("write input");
    let mut cb = ComputeBuffer::create(102, 1, &instr, &input, 0).expect("compute buffer");
    let res = cb.crank(9, &instr, &input, 0, 16);
    assert_eq!(res, Err(StealthError::Unauthorized));
    assert_eq!(cb.cursor, 0);
}

#[test]
fn full_crank_schedule_completes_with_passing_result() {
    let td = valid_transfer();
    let meta = metadata_for(&td);
    let mut tb = buffer_for(&td);
    let stmt = build_statement(&td).expect("statement");
    let mut instr = InstructionBuffer::create(100, 1, DSL_INSTRUCTION_BYTES_LEN, 0);
    populate_instruction_buffer(&mut instr, 1, 800).expect("populate");
    let mut input = InputBuffer::create(101, 1, 0);
    input.write_statement(1, &stmt).expect("write input");
    let mut cb = ComputeBuffer::create(102, 1, &instr, &input, 0).expect("compute buffer");
    let plan = build_crank_plan(1_000_000);
    assert_eq!(plan.len(), 26);
    for (i, batch) in plan.iter().enumerate() {
        assert!(!cb.done);
        cb.crank(1, &instr, &input, i, batch.count).expect("crank");
    }
    assert!(cb.done);
    assert_eq!(cb.result, Some(true));

    let res = transfer_chunk_slow(
        &mut tb,
        1,
        &meta,
        &TransferChunkSlowData { transfer: valid_transfer() },
        &instr,
        &input,
        &cb,
    );
    assert!(res.is_ok());
    assert_eq!(tb.state, TransferState::Verified);
}

#[test]
fn chunk_slow_before_completion_is_not_ready() {
    let td = valid_transfer();
    let meta = metadata_for(&td);
    let mut tb = buffer_for(&td);
    let stmt = build_statement(&td).expect("statement");
    let mut instr = InstructionBuffer::create(100, 1, DSL_INSTRUCTION_BYTES_LEN, 0);
    populate_instruction_buffer(&mut instr, 1, 800).expect("populate");
    let mut input = InputBuffer::create(101, 1, 0);
    input.write_statement(1, &stmt).expect("write input");
    let mut cb = ComputeBuffer::create(102, 1, &instr, &input, 0).expect("compute buffer");
    let plan = build_crank_plan(1_000_000);
    cb.crank(1, &instr, &input, 0, plan[0].count).expect("crank");
    let res = transfer_chunk_slow(
        &mut tb,
        1,
        &meta,
        &TransferChunkSlowData { transfer: valid_transfer() },
        &instr,
        &input,
        &cb,
    );
    assert_eq!(res, Err(StealthError::NotReady));
    assert_eq!(tb.state, TransferState::AwaitingVerification);
}
