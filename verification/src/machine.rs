//! The transfer-buffer state machine.
//!
//! A transfer moves through `AwaitingVerification → Verified → Finalized`,
//! with an `Abandoned` escape from any non-terminal state (the uninitialized
//! state is the absence of the buffer).  The cipher-key swap is gated on a
//! successful, complete verification: no partial metadata mutation ever
//! happens before the terminal step, so the asset's encrypted metadata is
//! only ever unchanged or fully transferred.

use vstd::prelude::*;

use crate::buffers::BufferKind;
use crate::buffers::InputBuffer;
use crate::buffers::InstructionBuffer;
use crate::compute::ComputeBuffer;
use crate::curve::point_decodable;
use crate::curve::seq_views;
use crate::dsl::build_dsl_bytes;
use crate::dsl::spec_dsl_bytes;
use crate::errors::StealthError;
use crate::statement::build_statement;
use crate::statement::spec_points;
use crate::statement::spec_scalars;
use crate::statement::spec_scalars_canonical;
use crate::statement::spec_statement_holds;
use crate::statement::spec_verifies;
use crate::statement::spec_verify_outcome;
use crate::statement::verify_transfer;
use crate::transfer_proof::arrays_equal_32;
use crate::transfer_proof::arrays_equal_64;
use crate::transfer_proof::TransferChunkData;
use crate::transfer_proof::TransferChunkSlowData;
use crate::transfer_proof::TransferData;

verus! {

/// Bytes of the fixed URI field of the protected metadata.
pub const URI_LEN: usize = 100;

/// How the asset is held in check while its metadata is protected.
#[derive(Clone, Copy, Debug, PartialEq, Eq, Structural)]
pub enum OversightMethod {
    NoOversight,
    Freeze,
}

/// The payload of a metadata configuration command.
pub struct ConfigureMetadataData {
    /// The ElGamal public key associated with the owner and this asset.
    pub elgamal_pk: [u8; 32],
    /// The cipher key of the encrypted asset, already encrypted under
    /// `elgamal_pk`, chunked small enough to decrypt cheaply.
    pub encrypted_cipher_key: [u8; 64],
    /// The URI of the encrypted asset, zero-padded.
    pub uri: [u8; 100],
    pub method: OversightMethod,
}

/// The asset's protected metadata.
pub struct StealthMetadata {
    pub mint: u64,
    /// The wallet that currently owns the asset and its cipher key.
    pub wallet: u64,
    pub elgamal_pk: [u8; 32],
    pub encrypted_cipher_key: [u8; 64],
    pub uri: [u8; 100],
    pub method: OversightMethod,
}

/// Configures the protected metadata of one asset.
pub fn configure_metadata(data: &ConfigureMetadataData, mint: u64, wallet: u64) -> (r:
    StealthMetadata)
    ensures
        r.mint == mint && r.wallet == wallet,
        r.elgamal_pk@ == data.elgamal_pk@,
        r.encrypted_cipher_key@ == data.encrypted_cipher_key@,
        r.uri@ == data.uri@,
        r.method == data.method,
{
    StealthMetadata {
        mint,
        wallet,
        elgamal_pk: data.elgamal_pk,
        encrypted_cipher_key: data.encrypted_cipher_key,
        uri: data.uri,
        method: data.method,
    }
}

/// The protocol state of one pending transfer.
#[derive(Clone, Copy, Debug, PartialEq, Eq, Structural)]
pub enum TransferState {
    AwaitingVerification,
    Verified,
    Finalized,
    Abandoned,
}

/// One pending ownership-transfer request: the staged re-encrypted cipher
/// key chunk and the protocol state gating the swap.
pub struct CipherKeyTransferBuffer {
    /// The authority that created the transfer and may crank, finalize or
    /// abandon it.
    pub authority: u64,
    pub mint: u64,
    /// The recipient wallet.
    pub recipient: u64,
    /// The recipient's published ElGamal public key.
    pub recipient_elgamal_pk: [u8; 32],
    /// The cipher key re-encrypted under the recipient's key, staged until
    /// verification completes.
    pub staged_cipher_key: [u8; 64],
    pub state: TransferState,
    /// The escrowed allocation cost, released at finalization or refunded
    /// on abandonment.
    pub escrow_lamports: u64,
}

/// Begins a transfer: requires the recipient's published public key,
/// stages the re-encrypted key chunk, and awaits verification.
pub fn init_transfer(
    authority: u64,
    meta: &StealthMetadata,
    recipient: u64,
    recipient_elgamal_pk: Option<[u8; 32]>,
    staged_cipher_key: [u8; 64],
    escrow_lamports: u64,
) -> (r: Result<CipherKeyTransferBuffer, StealthError>)
    ensures
        r == Err::<CipherKeyTransferBuffer, StealthError>(StealthError::Unauthorized)
            <==> authority != meta.wallet,
        authority == meta.wallet ==> (
            r == Err::<CipherKeyTransferBuffer, StealthError>(StealthError::NotReady)
                <==> recipient_elgamal_pk is None
        ),
        r is Ok <==> authority == meta.wallet && recipient_elgamal_pk is Some,
        r is Ok ==> {
            let tb = r->Ok_0;
            &&& tb.authority == authority
            &&& tb.mint == meta.mint
            &&& tb.recipient == recipient
            &&& tb.recipient_elgamal_pk == recipient_elgamal_pk->Some_0
            &&& tb.staged_cipher_key == staged_cipher_key
            &&& tb.state == TransferState::AwaitingVerification
            &&& tb.escrow_lamports == escrow_lamports
        },
{
    if authority != meta.wallet {
        return Err(StealthError::Unauthorized);
    }
    let pk = match recipient_elgamal_pk {
        Some(pk) => pk,
        None => {
            return Err(StealthError::NotReady);
        },
    };
    Ok(CipherKeyTransferBuffer {
        authority,
        mint: meta.mint,
        recipient,
        recipient_elgamal_pk: pk,
        staged_cipher_key,
        state: TransferState::AwaitingVerification,
        escrow_lamports,
    })
}

/// Whether submitted transfer data speaks of exactly the staged transfer:
/// the source ciphertext and key of the protected metadata, and the
/// destination ciphertext and key staged in the transfer buffer.
pub open spec fn transfer_matches(
    t: TransferData,
    meta: StealthMetadata,
    tb: CipherKeyTransferBuffer,
) -> bool {
    &&& t.src_cipher_key_chunk_ct@ == meta.encrypted_cipher_key@
    &&& t.transfer_public_keys.src_pubkey@ == meta.elgamal_pk@
    &&& t.transfer_public_keys.dst_pubkey@ == tb.recipient_elgamal_pk@
    &&& t.dst_cipher_key_chunk_ct@ == tb.staged_cipher_key@
}

/// Checks `transfer_matches` at run time.
fn check_transfer_matches(
    t: &TransferData,
    meta: &StealthMetadata,
    tb: &CipherKeyTransferBuffer,
) -> (r: bool)
    ensures
        r == transfer_matches(*t, *meta, *tb),
{
    let a = arrays_equal_64(&t.src_cipher_key_chunk_ct, &meta.encrypted_cipher_key);
    let b = arrays_equal_32(&t.transfer_public_keys.src_pubkey, &meta.elgamal_pk);
    let c = arrays_equal_32(&t.transfer_public_keys.dst_pubkey, &tb.recipient_elgamal_pk);
    let d = arrays_equal_64(&t.dst_cipher_key_chunk_ct, &tb.staged_cipher_key);
    a && b && c && d
}

/// The outcome of a fast-path chunk validation.
pub open spec fn spec_transfer_chunk_outcome(
    tb: CipherKeyTransferBuffer,
    caller: u64,
    meta: StealthMetadata,
    t: TransferData,
) -> Result<(), StealthError> {
    if caller != tb.authority {
        Err(StealthError::Unauthorized)
    } else if tb.state != TransferState::AwaitingVerification {
        Err(StealthError::NotReady)
    } else if !transfer_matches(t, meta, tb) {
        Err(StealthError::BufferMismatch)
    } else {
        spec_verify_outcome(t)
    }
}

/// Validates the staged chunk directly (fast path): verifies the whole
/// equality proof in one invocation and, on full success, moves the
/// transfer to `Verified`.  A failure leaves the buffer in its current
/// state.
pub fn transfer_chunk(
    tb: &mut CipherKeyTransferBuffer,
    caller: u64,
    meta: &StealthMetadata,
    data: &TransferChunkData,
) -> (r: Result<(), StealthError>)
    ensures
        r == spec_transfer_chunk_outcome(*old(tb), caller, *meta, data.transfer),
        r is Err ==> *final(tb) == *old(tb),
        r is Ok ==> spec_verifies(data.transfer) && *final(tb) == (CipherKeyTransferBuffer {
            state: TransferState::Verified,
            ..*old(tb)
        }),
{
    if caller != tb.authority {
        return Err(StealthError::Unauthorized);
    }
    if !matches!(tb.state, TransferState::AwaitingVerification) {
        return Err(StealthError::NotReady);
    }
    if !check_transfer_matches(&data.transfer, meta, tb) {
        return Err(StealthError::BufferMismatch);
    }
    match verify_transfer(&data.transfer) {
        Ok(()) => {
            tb.state = TransferState::Verified;
            Ok(())
        },
        Err(e) => Err(e),
    }
}

/// Whether a filled copy list holds exactly the given byte values.
pub open spec fn copies_match(opts: Seq<Option<[u8; 32]>>, vals: Seq<Seq<u8>>) -> bool {
    &&& opts.len() == vals.len()
    &&& forall|i: int|
        0 <= i < opts.len() ==> (#[trigger] opts[i]) is Some && opts[i]->Some_0@ == vals[i]
}

/// Checks `copies_match` against a concrete value list at run time.
fn check_copies_match(opts: &Vec<Option<[u8; 32]>>, vals: &Vec<[u8; 32]>) -> (r: bool)
    ensures
        r == copies_match(opts@, seq_views(vals@)),
{
    if opts.len() != vals.len() {
        return false;
    }
    let n = opts.len();
    let mut i: usize = 0;
    while i < n
        invariant
            i <= n == opts@.len() == vals@.len(),
            forall|j: int|
                0 <= j < i ==> (#[trigger] opts@[j]) is Some && opts@[j]->Some_0@
                    == seq_views(vals@)[j],
        decreases n - i,
    {
        match opts[i] {
            Some(b) => {
                if !arrays_equal_32(&b, &vals[i]) {
                    return false;
                }
            },
            None => {
                return false;
            },
        }
        i = i + 1;
    }
    true
}

/// Whether two byte stores are equal.
fn vec_u8_equal(a: &Vec<u8>, b: &Vec<u8>) -> (r: bool)
    ensures
        r == (a@ == b@),
{
    if a.len() != b.len() {
        return false;
    }
    let n = a.len();
    let mut i: usize = 0;
    while i < n
        invariant
            i <= n == a@.len() == b@.len(),
            forall|j: int| 0 <= j < i ==> a@[j] == b@[j],
        decreases n - i,
    {
        if a[i] != b[i] {
            return false;
        }
        i = i + 1;
    }
    assert(a@ =~= b@);
    true
}

/// Whether two 32-byte-entry lists are equal, view for view.
fn vec32_views_equal(a: &Vec<[u8; 32]>, b: &Vec<[u8; 32]>) -> (r: bool)
    ensures
        r == (seq_views(a@) == seq_views(b@)),
{
    if a.len() != b.len() {
        return false;
    }
    let n = a.len();
    let mut i: usize = 0;
    while i < n
        invariant
            i <= n == a@.len() == b@.len(),
            forall|j: int| 0 <= j < i ==> seq_views(a@)[j] == seq_views(b@)[j],
        decreases n - i,
    {
        if !arrays_equal_32(&a[i], &b[i]) {
            assert(seq_views(a@)[i as int] != seq_views(b@)[i as int]);
            return false;
        }
        i = i + 1;
    }
    assert(seq_views(a@) =~= seq_views(b@));
    true
}

/// Whether the instruction/input/compute buffer triple is exactly the one
/// a slow-path validation of transfer `t` may trust: the instruction
/// buffer holds the declared program, the compute buffer was created
/// against precisely this pair, and the input buffer holds the statement
/// of `t`.
pub open spec fn slow_linkage_ok(
    t: TransferData,
    instr: InstructionBuffer,
    input: InputBuffer,
    cb: ComputeBuffer,
) -> bool {
    &&& instr.kind == BufferKind::InstructionBufferV1 && instr.sealed
    &&& instr.data@ == spec_dsl_bytes()
    &&& input.kind == BufferKind::InputBufferV1 && input.sealed
    &&& cb.kind == BufferKind::ComputeBufferV1
    &&& cb.instruction_buffer == instr.id && cb.input_buffer == input.id
    &&& seq_views(input.points@) == spec_points(t)
    &&& seq_views(input.scalars@) == spec_scalars(t)
}

/// Whether a completed compute buffer's validated copies hold exactly the
/// statement of transfer `t`.
pub open spec fn slow_copies_ok(t: TransferData, cb: ComputeBuffer) -> bool {
    &&& copies_match(cb.decompressed_points@, spec_points(t))
    &&& copies_match(cb.scalar_copies@, spec_scalars(t))
}

/// The outcome of a slow-path chunk validation.
pub open spec fn spec_transfer_chunk_slow_outcome(
    tb: CipherKeyTransferBuffer,
    caller: u64,
    meta: StealthMetadata,
    t: TransferData,
    instr: InstructionBuffer,
    input: InputBuffer,
    cb: ComputeBuffer,
) -> Result<(), StealthError> {
    if caller != tb.authority {
        Err(StealthError::Unauthorized)
    } else if tb.state != TransferState::AwaitingVerification {
        Err(StealthError::NotReady)
    } else if !transfer_matches(t, meta, tb) {
        Err(StealthError::BufferMismatch)
    } else if !spec_scalars_canonical(t) {
        Err(StealthError::ScalarCanonicalizationFailure)
    } else if !slow_linkage_ok(t, instr, input, cb) {
        Err(StealthError::BufferMismatch)
    } else if !cb.done {
        Err(StealthError::NotReady)
    } else if !slow_copies_ok(t, cb) {
        Err(StealthError::BufferMismatch)
    } else if cb.result != Some(true) {
        Err(StealthError::ProofVerificationFailed)
    } else {
        Ok(())
    }
}

/// Submits one cranked verification for a transfer (slow path): requires
/// that the instruction/input/compute buffer triple exists, is correctly
/// linked, holds exactly this transfer's statement, and has been cranked
/// for all scheduled operations with a passing result; then moves the
/// transfer to `Verified`.
///
/// Success implies that the transfer's equality proof verifies.
pub fn transfer_chunk_slow(
    tb: &mut CipherKeyTransferBuffer,
    caller: u64,
    meta: &StealthMetadata,
    data: &TransferChunkSlowData,
    instr: &InstructionBuffer,
    input: &InputBuffer,
    cb: &ComputeBuffer,
) -> (r: Result<(), StealthError>)
    requires
        cb.wf(),
    ensures
        r == spec_transfer_chunk_slow_outcome(
            *old(tb),
            caller,
            *meta,
            data.transfer,
            *instr,
            *input,
            *cb,
        ),
        r is Err ==> *final(tb) == *old(tb),
        r is Ok ==> spec_verifies(data.transfer) && *final(tb) == (CipherKeyTransferBuffer {
            state: TransferState::Verified,
            ..*old(tb)
        }),
{
    if caller != tb.authority {
        return Err(StealthError::Unauthorized);
    }
    if !matches!(tb.state, TransferState::AwaitingVerification) {
        return Err(StealthError::NotReady);
    }
    if !check_transfer_matches(&data.transfer, meta, tb) {
        return Err(StealthError::BufferMismatch);
    }
    let stmt = match build_statement(&data.transfer) {
        Ok(s) => s,
        Err(e) => {
            return Err(e);
        },
    };
    let canonical_program = build_dsl_bytes();
    let instr_ok = matches!(instr.kind, BufferKind::InstructionBufferV1) && instr.sealed
        && vec_u8_equal(&instr.data, &canonical_program);
    let input_ok = matches!(input.kind, BufferKind::InputBufferV1) && input.sealed
        && vec32_views_equal(&input.points, &stmt.points)
        && vec32_views_equal(&input.scalars, &stmt.scalars);
    let cb_ok = matches!(cb.kind, BufferKind::ComputeBufferV1)
        && cb.instruction_buffer == instr.id && cb.input_buffer == input.id;
    if !(instr_ok && input_ok && cb_ok) {
        return Err(StealthError::BufferMismatch);
    }
    if !cb.done {
        return Err(StealthError::NotReady);
    }
    let copies_ok = check_copies_match(&cb.decompressed_points, &stmt.points)
        && check_copies_match(&cb.scalar_copies, &stmt.scalars);
    if !copies_ok {
        return Err(StealthError::BufferMismatch);
    }
    let passed = match cb.result {
        Some(v) => v,
        None => {
            proof {
                assert(false);
            }
            false
        },
    };
    if !passed {
        return Err(StealthError::ProofVerificationFailed);
    }
    proof {
        let t = data.transfer;
        assert(crate::compute::some_views(cb.decompressed_points@) =~= spec_points(t));
        assert(crate::compute::some_views(cb.scalar_copies@) =~= spec_scalars(t));
        assert forall|i: int| 0 <= i < spec_points(t).len() implies point_decodable(
            #[trigger] spec_points(t)[i],
        ) by {
            assert(cb.decompressed_points@[i] is Some);
            assert(cb.decompressed_points@[i]->Some_0@ == spec_points(t)[i]);
        }
        assert(spec_statement_holds(spec_points(t), spec_scalars(t)));
    }
    tb.state = TransferState::Verified;
    Ok(())
}

/// Finalizes a verified transfer: atomically writes the recipient's key
/// material into the protected metadata, moves ownership to the recipient,
/// releases the escrowed value onto the recipient's balance, and retires
/// the buffer.  Before the cursor-complete verification, it fails with
/// `NotReady` and leaves all state unchanged.
pub fn fini_transfer(
    tb: &mut CipherKeyTransferBuffer,
    caller: u64,
    meta: &mut StealthMetadata,
    recipient_balance: u64,
) -> (r: Result<u64, StealthError>)
    ensures
        r is Err ==> *final(tb) == *old(tb) && *final(meta) == *old(meta),
        r == Err::<u64, StealthError>(StealthError::Unauthorized) <==> caller != old(
            tb,
        ).authority,
        caller == old(tb).authority ==> (
            r == Err::<u64, StealthError>(StealthError::NotReady)
                <==> old(tb).state != TransferState::Verified
        ),
        caller == old(tb).authority && old(tb).state == TransferState::Verified ==> (
            r == Err::<u64, StealthError>(StealthError::Overflow)
                <==> recipient_balance + old(tb).escrow_lamports > u64::MAX
        ),
        r is Ok <==> caller == old(tb).authority && old(tb).state == TransferState::Verified
            && recipient_balance + old(tb).escrow_lamports <= u64::MAX,
        r is Ok ==> {
            &&& r == Ok::<u64, StealthError>(
                (recipient_balance + old(tb).escrow_lamports) as u64,
            )
            &&& *final(meta) == (StealthMetadata {
                wallet: old(tb).recipient,
                elgamal_pk: old(tb).recipient_elgamal_pk,
                encrypted_cipher_key: old(tb).staged_cipher_key,
                ..*old(meta)
            })
            &&& *final(tb) == (CipherKeyTransferBuffer {
                state: TransferState::Finalized,
                escrow_lamports: 0u64,
                ..*old(tb)
            })
        },
{
    if caller != tb.authority {
        return Err(StealthError::Unauthorized);
    }
    if !matches!(tb.state, TransferState::Verified) {
        return Err(StealthError::NotReady);
    }
    let released = match recipient_balance.checked_add(tb.escrow_lamports) {
        Some(v) => v,
        None => {
            return Err(StealthError::Overflow);
        },
    };
    meta.wallet = tb.recipient;
    meta.elgamal_pk = tb.recipient_elgamal_pk;
    meta.encrypted_cipher_key = tb.staged_cipher_key;
    tb.state = TransferState::Finalized;
    tb.escrow_lamports = 0;
    Ok(released)
}

/// Abandons a pending transfer: the owning authority reclaims the escrowed
/// allocation cost from any non-terminal state.
pub fn close_transfer_buffer(tb: &mut CipherKeyTransferBuffer, caller: u64) -> (r: Result<
    u64,
    StealthError,
>)
    ensures
        r is Err ==> *final(tb) == *old(tb),
        r == Err::<u64, StealthError>(StealthError::Unauthorized) <==> caller != old(
            tb,
        ).authority,
        caller == old(tb).authority ==> (
            r == Err::<u64, StealthError>(StealthError::NotReady)
                <==> old(tb).state == TransferState::Finalized || old(tb).state
                    == TransferState::Abandoned
        ),
        r is Ok <==> caller == old(tb).authority && old(tb).state != TransferState::Finalized
            && old(tb).state != TransferState::Abandoned,
        r is Ok ==> r == Ok::<u64, StealthError>(old(tb).escrow_lamports) && *final(tb) == (
        CipherKeyTransferBuffer {
            state: TransferState::Abandoned,
            escrow_lamports: 0u64,
            ..*old(tb)
        }),
{
    if caller != tb.authority {
        return Err(StealthError::Unauthorized);
    }
    if matches!(tb.state, TransferState::Finalized) || matches!(
        tb.state,
        TransferState::Abandoned,
    ) {
        return Err(StealthError::NotReady);
    }
    let refund = tb.escrow_lamports;
    tb.state = TransferState::Abandoned;
    tb.escrow_lamports = 0;
    Ok(refund)
}

} // verus!
