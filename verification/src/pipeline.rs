//! The end-to-end slow-path pipeline.
//!
//! The initiator writes the shared instruction buffer in bounded chunks,
//! allocates the per-transfer input buffer, cranks the compute buffer
//! through the fixed batch plan, and submits the completed verification.
//! The pipeline decides exactly as the single-invocation verifier does:
//! work is only split, never changed.

use vstd::prelude::*;

use crate::buffers::spec_write;
use crate::buffers::InputBuffer;
use crate::buffers::InstructionBuffer;
use crate::compute::all_some;
use crate::compute::op_window;
use crate::compute::spec_apply_op;
use crate::compute::spec_apply_ops;
use crate::compute::spec_batch_error;
use crate::compute::spec_crank_error;
use crate::compute::spec_op_enabled;
use crate::compute::ComputeBuffer;
use crate::compute::ComputeState;
use crate::curve::point_decodable;
use crate::curve::scalar_canonical;
use crate::curve::seq_views;
use crate::dsl::lemma_op_round_trip;
use crate::dsl::spec_decode_op;
use crate::dsl::spec_dsl_bytes;
use crate::dsl::spec_encode_op;
use crate::dsl::spec_op_at;
use crate::dsl::DslOp;
use crate::dsl::DSL_INSTRUCTION_BYTES_LEN;
use crate::dsl::DSL_INSTRUCTION_COUNT;
use crate::errors::StealthError;
use crate::machine::copies_match;
use crate::machine::transfer_chunk_slow;
use crate::machine::transfer_matches;
use crate::machine::CipherKeyTransferBuffer;
use crate::machine::StealthMetadata;
use crate::machine::TransferState;
use crate::plan::build_crank_plan;
use crate::plan::lemma_plan_partitions_op_count;
use crate::plan::lemma_sum_prefix_bound;
use crate::plan::lemma_sum_take_step;
use crate::plan::plan_counts;
use crate::plan::spec_plan_counts;
use crate::plan::spec_sum;
use crate::plan::validate_plan;
use crate::statement::all_points_decodable;
use crate::statement::build_statement;
use crate::statement::spec_points;
use crate::statement::spec_scalars;
use crate::statement::spec_scalars_canonical;
use crate::statement::spec_statement_holds;
use crate::statement::spec_verify_outcome;
use crate::statement::STATEMENT_LEN;
use crate::transfer_proof::TransferChunkSlowData;
use crate::transfer_proof::TransferData;

verus! {

/// Bytes written per chunk while populating the instruction buffer.
pub const DSL_WRITE_CHUNK: usize = 800;

/// A byte store after a string is written in consecutive `chunk`-byte
/// pieces, each at the running offset.
pub open spec fn spec_write_chunks(
    data: Seq<u8>,
    offset: int,
    bytes: Seq<u8>,
    chunk: nat,
) -> Seq<u8>
    decreases bytes.len(),
{
    if bytes.len() <= chunk || chunk == 0 {
        spec_write(data, offset, bytes)
    } else {
        spec_write_chunks(
            spec_write(data, offset, bytes.take(chunk as int)),
            offset + chunk,
            bytes.skip(chunk as int),
            chunk,
        )
    }
}

/// Writing a byte string onto the end of a store in bounded chunks
/// produces exactly the store that one single write produces.
pub proof fn lemma_chunked_write_byte_identical(
    data: Seq<u8>,
    offset: int,
    bytes: Seq<u8>,
    chunk: nat,
)
    requires
        chunk > 0,
        offset == data.len(),
    ensures
        spec_write_chunks(data, offset, bytes, chunk) == spec_write(data, offset, bytes),
    decreases bytes.len(),
{
    if bytes.len() <= chunk {
    } else {
        let head = bytes.take(chunk as int);
        let tail = bytes.skip(chunk as int);
        let d2 = spec_write(data, offset, head);
        assert(d2 =~= data + head);
        lemma_chunked_write_byte_identical(d2, offset + chunk, tail, chunk);
        assert(spec_write(d2, offset + chunk, tail) =~= spec_write(data, offset, bytes));
    }
}

/// Copies a byte range into a fresh store.
fn subvec_u8(v: &Vec<u8>, from: usize, to: usize) -> (r: Vec<u8>)
    requires
        from <= to <= v@.len(),
    ensures
        r@ == v@.subrange(from as int, to as int),
{
    let mut out: Vec<u8> = Vec::new();
    let mut i: usize = from;
    while i < to
        invariant
            from <= i <= to <= v@.len(),
            out@ == v@.subrange(from as int, i as int),
        decreases to - i,
    {
        out.push(v[i]);
        assert(out@ =~= v@.subrange(from as int, i + 1));
        i = i + 1;
    }
    out
}

/// Writes the fixed program into a fresh instruction buffer in
/// `chunk`-byte chunks, sealing it with the final write.  The stored
/// buffer is byte-identical for every chunk size, and identical to a
/// single write of the whole program.
pub fn populate_instruction_buffer(
    buf: &mut InstructionBuffer,
    caller: u64,
    chunk: usize,
) -> (r: Result<(), StealthError>)
    requires
        old(buf).wf(),
        old(buf).kind == crate::buffers::BufferKind::InstructionBufferV1,
        !old(buf).sealed,
        old(buf).data@.len() == 0,
        caller == old(buf).owner,
        old(buf).capacity >= DSL_INSTRUCTION_BYTES_LEN,
        chunk >= 1,
    ensures
        r is Ok,
        final(buf).wf(),
        final(buf).data@ == spec_dsl_bytes(),
        final(buf).sealed,
        final(buf).id == old(buf).id,
        final(buf).owner == old(buf).owner,
        final(buf).kind == old(buf).kind,
        final(buf).capacity == old(buf).capacity,
        final(buf).lamports == old(buf).lamports,
{
    let program = crate::dsl::build_dsl_bytes();
    let total = program.len();
    let mut off: usize = 0;
    while off < total
        invariant
            off <= total == DSL_INSTRUCTION_BYTES_LEN,
            program@ == spec_dsl_bytes(),
            chunk >= 1,
            caller == old(buf).owner,
            buf.wf(),
            buf.kind == crate::buffers::BufferKind::InstructionBufferV1,
            buf.capacity == old(buf).capacity >= DSL_INSTRUCTION_BYTES_LEN,
            buf.id == old(buf).id,
            buf.owner == old(buf).owner,
            buf.lamports == old(buf).lamports,
            buf.sealed == (off == total && off > 0),
            off < total ==> !buf.sealed,
            buf.data@ == spec_dsl_bytes().take(off as int),
        decreases total - off,
    {
        let end = if total - off < chunk {
            total
        } else {
            off + chunk
        };
        let piece = subvec_u8(&program, off, end);
        let sealing = end == total;
        let res = buf.write_bytes(caller, off, &piece, sealing);
        proof {
            assert(res is Ok);
            assert(spec_write(spec_dsl_bytes().take(off as int), off as int, piece@)
                =~= spec_dsl_bytes().take(end as int));
        }
        off = end;
    }
    if total == 0 {
        let empty: Vec<u8> = Vec::new();
        let res = buf.write_bytes(caller, 0, &empty, true);
        proof {
            assert(res is Ok);
        }
    }
    assert(buf.data@ =~= spec_dsl_bytes());
    Ok(())
}

/// The canonical program decodes, position for position, back into the
/// fixed operation stream.
pub proof fn lemma_dsl_bytes_decode(k: int)
    requires
        0 <= k < DSL_INSTRUCTION_COUNT,
    ensures
        spec_decode_op(op_window(spec_dsl_bytes(), k)) == Some(spec_op_at(k)),
{
    assert(op_window(spec_dsl_bytes(), k) =~= spec_encode_op(spec_op_at(k))) by {
        assert forall|j: int| 0 <= j < 4 implies op_window(spec_dsl_bytes(), k)[j]
            == spec_encode_op(spec_op_at(k))[j] by {
            let b = 4 * k + j;
            assert(b / 4 == k && b % 4 == j) by (nonlinear_arith)
                requires 0 <= j < 4 && b == 4 * k + j;
        }
    }
    lemma_op_round_trip(spec_op_at(k));
}

/// Every operation of the fixed program may execute against an input
/// buffer that holds a full statement of canonical scalars, as long as the
/// point the operation decompresses decodes.
pub proof fn lemma_canonical_op_enabled(input: InputBuffer, k: int)
    requires
        0 <= k < DSL_INSTRUCTION_COUNT,
        input.points@.len() == STATEMENT_LEN,
        input.scalars@.len() == STATEMENT_LEN,
        forall|i: int|
            0 <= i < input.scalars@.len() ==> scalar_canonical(#[trigger] input.scalars@[i]@),
        forall|i: int|
            0 <= i < input.points@.len() ==> point_decodable(#[trigger] input.points@[i]@),
    ensures
        spec_op_enabled(spec_op_at(k), input),
{
    if k < 88 {
        assert(0 <= k / 8 < 11 && 0 <= k % 8 < 8) by (nonlinear_arith)
            requires 0 <= k < 88;
    }
}

/// The first error of a scan over the fixed program is `None` when every
/// statement point decodes, and never anything but a malformed-proof abort
/// otherwise, provided the scalars are canonical.
pub proof fn lemma_canonical_batch_error(input: InputBuffer, start: int, count: nat)
    requires
        0 <= start,
        start + count <= DSL_INSTRUCTION_COUNT,
        input.points@.len() == STATEMENT_LEN,
        input.scalars@.len() == STATEMENT_LEN,
        forall|i: int|
            0 <= i < input.scalars@.len() ==> scalar_canonical(#[trigger] input.scalars@[i]@),
    ensures
        spec_batch_error(spec_dsl_bytes(), input, start, count) is None || spec_batch_error(
            spec_dsl_bytes(),
            input,
            start,
            count,
        ) == Some(StealthError::MalformedProof),
        (forall|i: int|
            0 <= i < input.points@.len() ==> point_decodable(#[trigger] input.points@[i]@))
            ==> spec_batch_error(spec_dsl_bytes(), input, start, count) is None,
    decreases count,
{
    if count != 0 {
        lemma_dsl_bytes_decode(start);
        let op = spec_op_at(start);
        if start < 88 {
            assert(0 <= start / 8 < 11 && 0 <= start % 8 < 8) by (nonlinear_arith)
                requires 0 <= start < 88;
        }
        match op {
            DslOp::DecompressPoint { point } => {
                if point_decodable(input.points@[point as int]@) {
                    lemma_canonical_batch_error(input, start + 1, (count - 1) as nat);
                }
            },
            _ => {
                assert(spec_op_enabled(op, input));
                lemma_canonical_batch_error(input, start + 1, (count - 1) as nat);
            },
        }
    }
}

/// The blank working state a compute buffer is created with.
pub open spec fn blank_state() -> ComputeState {
    ComputeState {
        decompressed_points: Seq::new(STATEMENT_LEN as nat, |i: int| None),
        scalar_copies: Seq::new(STATEMENT_LEN as nat, |i: int| None),
        result_groups: Seq::new(3, |g: int| false),
    }
}

/// The working state after the first `k` operations of the fixed program:
/// a point is decompressed once its eight operations have started, a
/// scalar copied and an accumulator initialized once its single operation
/// has run.
pub open spec fn partial_state(input: InputBuffer, k: int) -> ComputeState {
    ComputeState {
        decompressed_points: Seq::new(
            STATEMENT_LEN as nat,
            |i: int| if 8 * i < k { Some(input.points@[i]) } else { None },
        ),
        scalar_copies: Seq::new(
            STATEMENT_LEN as nat,
            |i: int| if 88 + i < k { Some(input.scalars@[i]) } else { None },
        ),
        result_groups: Seq::new(3, |g: int| 99 + g < k),
    }
}

/// Applying the first `k` operations of the fixed program to the blank
/// state reaches exactly the partial state `k`.
pub proof fn lemma_canonical_partial_state(input: InputBuffer, k: int)
    requires
        0 <= k <= DSL_INSTRUCTION_COUNT,
        input.points@.len() == STATEMENT_LEN,
        input.scalars@.len() == STATEMENT_LEN,
    ensures
        spec_apply_ops(blank_state(), spec_dsl_bytes(), input, 0, k as nat) == partial_state(
            input,
            k,
        ),
    decreases k,
{
    if k == 0 {
        let s = spec_apply_ops(blank_state(), spec_dsl_bytes(), input, 0, 0);
        assert(s.decompressed_points =~= partial_state(input, 0).decompressed_points);
        assert(s.scalar_copies =~= partial_state(input, 0).scalar_copies);
        assert(s.result_groups =~= partial_state(input, 0).result_groups);
    } else {
        lemma_canonical_partial_state(input, k - 1);
        crate::compute::lemma_apply_ops_snoc(
            blank_state(),
            spec_dsl_bytes(),
            input,
            0,
            (k - 1) as nat,
        );
        lemma_dsl_bytes_decode(k - 1);
        let prev = partial_state(input, k - 1);
        let cur = partial_state(input, k);
        let op = spec_op_at(k - 1);
        let stepped = spec_apply_op(prev, op, input);
        if k - 1 < 88 {
            let p = (k - 1) / 8;
            assert(0 <= p < 11 && 0 <= (k - 1) % 8 < 8 && 8 * p <= k - 1 < 8 * (p + 1))
                by (nonlinear_arith)
                requires 0 <= k - 1 < 88 && p == (k - 1) / 8;
            if (k - 1) % 8 == 0 {
                assert(8 * p == k - 1) by (nonlinear_arith)
                    requires 0 <= k - 1 && p == (k - 1) / 8 && (k - 1) % 8 == 0;
                assert(stepped.decompressed_points =~= cur.decompressed_points) by {
                    assert forall|i: int| 0 <= i < STATEMENT_LEN implies
                        stepped.decompressed_points[i] == cur.decompressed_points[i] by {
                        if i != p {
                            assert(8 * i != k - 1 && (8 * i < k <==> 8 * i < k - 1))
                                by (nonlinear_arith)
                                requires i != p && 8 * p == k - 1 && 0 <= i;
                        }
                    }
                }
            } else {
                assert(stepped.decompressed_points =~= cur.decompressed_points) by {
                    assert forall|i: int| 0 <= i < STATEMENT_LEN implies
                        stepped.decompressed_points[i] == cur.decompressed_points[i] by {
                        assert(8 * i != k - 1 && (8 * i < k <==> 8 * i < k - 1))
                            by (nonlinear_arith)
                            requires 0 <= i && 0 <= k - 1 && (k - 1) % 8 != 0;
                    }
                }
            }
            assert(stepped.scalar_copies =~= cur.scalar_copies);
            assert(stepped.result_groups =~= cur.result_groups);
        } else {
            assert(forall|i: int|
                0 <= i < STATEMENT_LEN ==> ((#[trigger] (8 * i)) < k <==> 8 * i < k - 1));
            assert(stepped.decompressed_points =~= cur.decompressed_points);
            assert(stepped.scalar_copies =~= cur.scalar_copies);
            assert(stepped.result_groups =~= cur.result_groups);
        }
        assert(stepped == cur);
    }
}

/// After the whole fixed program, every point is decompressed, every
/// scalar copied and every accumulator initialized, each to exactly the
/// input buffer's values.
pub proof fn lemma_canonical_full_state(input: InputBuffer)
    requires
        input.points@.len() == STATEMENT_LEN,
        input.scalars@.len() == STATEMENT_LEN,
    ensures
        ({
            let s = spec_apply_ops(
                blank_state(),
                spec_dsl_bytes(),
                input,
                0,
                DSL_INSTRUCTION_COUNT as nat,
            );
            &&& s.ready()
            &&& copies_match(s.decompressed_points, seq_views(input.points@))
            &&& copies_match(s.scalar_copies, seq_views(input.scalars@))
        }),
{
    lemma_canonical_partial_state(input, DSL_INSTRUCTION_COUNT as int);
    let s = partial_state(input, DSL_INSTRUCTION_COUNT as int);
    assert forall|i: int| 0 <= i < STATEMENT_LEN implies
        (#[trigger] s.decompressed_points[i]) == Some(input.points@[i]) by {
        assert(8 * i < DSL_INSTRUCTION_COUNT) by (nonlinear_arith)
            requires 0 <= i < 11;
    }
    assert(all_some(s.decompressed_points));
    assert(all_some(s.scalar_copies));
}

/// The outcome of one full slow-path run: structural validation precedes
/// any allocation, undecodable points surface while cranking, and the
/// remaining gates decide as the fast path does.
pub open spec fn spec_run_outcome(
    tb: CipherKeyTransferBuffer,
    caller: u64,
    meta: StealthMetadata,
    t: TransferData,
) -> Result<(), StealthError> {
    if !spec_scalars_canonical(t) {
        Err(StealthError::ScalarCanonicalizationFailure)
    } else if !all_points_decodable(spec_points(t)) {
        Err(StealthError::MalformedProof)
    } else if caller != tb.authority {
        Err(StealthError::Unauthorized)
    } else if tb.state != TransferState::AwaitingVerification {
        Err(StealthError::NotReady)
    } else if !transfer_matches(t, meta, tb) {
        Err(StealthError::BufferMismatch)
    } else if !spec_statement_holds(spec_points(t), spec_scalars(t)) {
        Err(StealthError::ProofVerificationFailed)
    } else {
        Ok(())
    }
}

/// For a transfer the gates admit, the staged pipeline decides exactly as
/// the single-invocation verifier: splitting the work changes nothing.
pub proof fn lemma_staged_agrees_with_direct(
    tb: CipherKeyTransferBuffer,
    caller: u64,
    meta: StealthMetadata,
    t: TransferData,
)
    requires
        caller == tb.authority,
        tb.state == TransferState::AwaitingVerification,
        transfer_matches(t, meta, tb),
    ensures
        spec_run_outcome(tb, caller, meta, t) == spec_verify_outcome(t),
{
}

/// Runs the whole slow path for one transfer: builds and validates the
/// statement before any buffer is allocated, populates the instruction
/// buffer in bounded chunks, writes the input buffer, cranks the compute
/// buffer through every batch of the fixed plan in order, and submits the
/// completed verification.
#[verifier::rlimit(60)]
pub fn run_transfer_verification(
    tb: &mut CipherKeyTransferBuffer,
    caller: u64,
    meta: &StealthMetadata,
    data: &TransferChunkSlowData,
    instruction_buffer_id: u64,
    input_buffer_id: u64,
    compute_buffer_id: u64,
    invocation_budget: u64,
) -> (r: Result<(), StealthError>)
    ensures
        r == spec_run_outcome(*old(tb), caller, *meta, data.transfer),
        r is Err ==> *final(tb) == *old(tb),
        r is Ok ==> *final(tb) == (CipherKeyTransferBuffer {
            state: TransferState::Verified,
            ..*old(tb)
        }),
{
    let ghost t = data.transfer;
    let stmt = match build_statement(&data.transfer) {
        Ok(s) => s,
        Err(e) => {
            return Err(e);
        },
    };
    let mut instr = InstructionBuffer::create(
        instruction_buffer_id,
        caller,
        DSL_INSTRUCTION_BYTES_LEN,
        0,
    );
    let populated = populate_instruction_buffer(&mut instr, caller, DSL_WRITE_CHUNK);
    match populated {
        Ok(()) => {},
        Err(e) => {
            proof {
                assert(false);
            }
            return Err(e);
        },
    }
    let mut input = InputBuffer::create(input_buffer_id, caller, 0);
    match input.write_statement(caller, &stmt) {
        Ok(()) => {},
        Err(e) => {
            proof {
                assert(false);
            }
            return Err(e);
        },
    }
    let mut cb = match ComputeBuffer::create(compute_buffer_id, caller, &instr, &input, 0) {
        Ok(c) => c,
        Err(e) => {
            proof {
                assert(spec_dsl_bytes().len() % 4 == 0);
                assert(crate::buffers::spec_compute_buffer_len(
                    STATEMENT_LEN as int,
                    STATEMENT_LEN as int,
                ) <= usize::MAX);
                assert(false);
            }
            return Err(e);
        },
    };
    let plan = build_crank_plan(invocation_budget);
    match validate_plan(&plan, DSL_INSTRUCTION_COUNT) {
        Ok(()) => {},
        Err(e) => {
            proof {
                lemma_plan_partitions_op_count();
                assert(false);
            }
            return Err(e);
        },
    }

    proof {
        assert(cb.state().decompressed_points =~= blank_state().decompressed_points);
        assert(cb.state().scalar_copies =~= blank_state().scalar_copies);
        assert(cb.state().result_groups =~= blank_state().result_groups);
        assert(cb.state() == blank_state());
    }
    let n = plan.len();
    let mut i: usize = 0;
    while i < n
        invariant
            n == 26 == plan@.len(),
            plan_counts(plan@) == spec_plan_counts(),
            i <= n,
            t == data.transfer,
            *tb == *old(tb),
            stmt.wf(),
            stmt.matches(t),
            instr.kind == crate::buffers::BufferKind::InstructionBufferV1,
            instr.sealed,
            instr.id == instruction_buffer_id,
            instr.data@ == spec_dsl_bytes(),
            input.kind == crate::buffers::BufferKind::InputBufferV1,
            input.sealed,
            input.id == input_buffer_id,
            input.points@ == stmt.points@,
            input.scalars@ == stmt.scalars@,
            cb.wf(),
            cb.kind == crate::buffers::BufferKind::ComputeBufferV1,
            cb.owner == caller,
            cb.instruction_buffer == instr.id,
            cb.input_buffer == input.id,
            cb.next_batch == i,
            cb.cursor == spec_sum(spec_plan_counts().take(i as int)),
            cb.cursor <= DSL_INSTRUCTION_COUNT,
            cb.done == (cb.cursor == DSL_INSTRUCTION_COUNT),
            cb.state() == spec_apply_ops(
                blank_state(),
                spec_dsl_bytes(),
                input,
                0,
                cb.cursor as nat,
            ),
        decreases n - i,
    {
        let count = plan[i].count;
        proof {
            assert(forall|j: int|
                0 <= j < spec_plan_counts().len() ==> spec_plan_counts()[j] >= 0);
            lemma_sum_take_step(spec_plan_counts(), i as int);
            lemma_sum_prefix_bound(spec_plan_counts(), i + 1);
            lemma_plan_partitions_op_count();
            assert(cb.cursor + count <= DSL_INSTRUCTION_COUNT);
            lemma_canonical_batch_error(input, cb.cursor as int, count as nat);
        }
        let ghost pre = cb;
        let cranked = cb.crank(caller, &instr, &input, i, count);
        match cranked {
            Ok(()) => {
                proof {
                    crate::compute::lemma_apply_ops_concat(
                        blank_state(),
                        spec_dsl_bytes(),
                        input,
                        0,
                        pre.cursor as nat,
                        count as nat,
                    );
                    assert(4 * (pre.cursor + count) == spec_dsl_bytes().len() <==> pre.cursor
                        + count == DSL_INSTRUCTION_COUNT);
                }
                i = i + 1;
            },
            Err(e) => {
                proof {
                    let err = spec_crank_error(
                        pre,
                        caller,
                        instr,
                        input,
                        i as int,
                        count as nat,
                    );
                    assert(err == Some(e));
                    let scan = spec_batch_error(
                        spec_dsl_bytes(),
                        input,
                        pre.cursor as int,
                        count as nat,
                    );
                    if scan is None {
                        // The only remaining failure would be an unready
                        // completion, but after an error-free final batch
                        // the state is the fully copied one.
                        if 4 * (pre.cursor + count) == spec_dsl_bytes().len() {
                            crate::compute::lemma_apply_ops_concat(
                                blank_state(),
                                spec_dsl_bytes(),
                                input,
                                0,
                                pre.cursor as nat,
                                count as nat,
                            );
                            lemma_canonical_full_state(input);
                            assert(pre.cursor + count == DSL_INSTRUCTION_COUNT);
                        }
                        assert(false);
                    }
                    assert(e == StealthError::MalformedProof);
                    assert(!(forall|j: int|
                        0 <= j < input.points@.len()
                            ==> point_decodable(#[trigger] input.points@[j]@)));
                    assert(!all_points_decodable(spec_points(t))) by {
                        let jw = choose|j: int|
                            0 <= j < input.points@.len()
                                && !point_decodable(input.points@[j]@);
                        assert(spec_points(t)[jw] == seq_views(input.points@)[jw]);
                    }
                }
                return Err(e);
            },
        }
    }
    proof {
        assert(spec_plan_counts().take(26) =~= spec_plan_counts());
        lemma_plan_partitions_op_count();
        assert(cb.cursor == DSL_INSTRUCTION_COUNT);
        assert(cb.done);
        lemma_canonical_full_state(input);
        assert(copies_match(cb.decompressed_points@, seq_views(input.points@)));
        assert(copies_match(cb.scalar_copies@, seq_views(input.scalars@)));
        assert forall|j: int| 0 <= j < spec_points(t).len() implies point_decodable(
            #[trigger] spec_points(t)[j],
        ) by {
            assert(cb.decompressed_points@[j] is Some);
            assert(cb.decompressed_points@[j]->Some_0@ == seq_views(input.points@)[j]);
            assert(seq_views(input.points@)[j] == spec_points(t)[j]);
        }
        assert(crate::machine::slow_linkage_ok(t, instr, input, cb));
        assert(crate::machine::slow_copies_ok(t, cb));
    }
    let outcome = transfer_chunk_slow(tb, caller, meta, data, &instr, &input, &cb);
    proof {
        let holds = spec_statement_holds(spec_points(t), spec_scalars(t));
        assert(crate::compute::some_views(cb.decompressed_points@) =~= spec_points(t));
        assert(crate::compute::some_views(cb.scalar_copies@) =~= spec_scalars(t));
        assert(cb.result == Some(holds));
        assert(outcome == spec_run_outcome(*old(tb), caller, *meta, t));
    }
    outcome
}

} // verus!
