//! The compute buffer and the crank that advances it.
//!
//! A compute buffer is the working memory of one verification run, bound at
//! creation to exactly one instruction-buffer/input-buffer pair.  Each crank
//! invocation resumes from the persisted step cursor, executes exactly its
//! scheduled batch of operations, and returns; the cursor is monotonically
//! non-decreasing, a replayed batch is a no-op, skipping ahead is rejected,
//! and a crank naming any other buffer pair is refused without moving the
//! cursor.  When the cursor reaches the total step count, the buffer holds
//! the pass/fail result of the three group equations.

use vstd::prelude::*;

use crate::buffers::compute_buffer_len;
use crate::buffers::BufferKind;
use crate::buffers::InputBuffer;
use crate::buffers::InstructionBuffer;
use crate::curve::point_decodable;
use crate::curve::point_is_decodable;
use crate::curve::scalar_canonical;
use crate::curve::scalar_is_canonical;
use crate::curve::seq_views;
use crate::dsl::decode_op_at;
use crate::dsl::spec_decode_op;
use crate::dsl::DslOp;
use crate::errors::StealthError;
use crate::statement::spec_statement_holds;
use crate::statement::statement_groups_hold;
use crate::statement::STATEMENT_LEN;

verus! {

/// The byte views of the filled entries of an option list.
pub open spec fn some_views(s: Seq<Option<[u8; 32]>>) -> Seq<Seq<u8>> {
    s.map_values(|o: Option<[u8; 32]>| o->Some_0@)
}

/// Whether every entry of an option list is filled.
pub open spec fn all_some(s: Seq<Option<[u8; 32]>>) -> bool {
    forall|i: int| 0 <= i < s.len() ==> s[i] is Some
}

/// The mathematical working state of a compute buffer: which points have
/// been decompressed, which scalars copied, which accumulators initialized.
pub struct ComputeState {
    pub decompressed_points: Seq<Option<[u8; 32]>>,
    pub scalar_copies: Seq<Option<[u8; 32]>>,
    pub result_groups: Seq<bool>,
}

impl ComputeState {
    /// Whether the state carries everything the final result needs.
    pub open spec fn ready(&self) -> bool {
        &&& all_some(self.decompressed_points)
        &&& all_some(self.scalar_copies)
        &&& forall|g: int| 0 <= g < self.result_groups.len() ==> self.result_groups[g]
    }
}

/// The four bytes encoding the operation at a program position.
pub open spec fn op_window(data: Seq<u8>, k: int) -> Seq<u8> {
    data.subrange(4 * k, 4 * k + 4)
}

/// Whether one operation may execute against an input buffer: its indices
/// are in range, a decompression finds a decodable point, and a scalar copy
/// finds a canonical scalar.
pub open spec fn spec_op_enabled(op: DslOp, input: InputBuffer) -> bool {
    match op {
        DslOp::DecompressPoint { point } => point < STATEMENT_LEN
            && input.points@.len() == STATEMENT_LEN
            && point_decodable(input.points@[point as int]@),
        DslOp::BuildTableStep { point, step } => point < STATEMENT_LEN && step < 7,
        DslOp::CopyScalar { scalar } => scalar < STATEMENT_LEN
            && input.scalars@.len() == STATEMENT_LEN
            && scalar_canonical(input.scalars@[scalar as int]@),
        DslOp::InitResult { group } => group < 3,
        DslOp::MulStep { group, step } => group < 3 && step < 64,
        DslOp::CombineStep { step } => step < 64,
    }
}

/// The error an operation aborts with when it cannot execute.
pub open spec fn spec_op_error(op: DslOp) -> StealthError {
    match op {
        DslOp::DecompressPoint { .. } => StealthError::MalformedProof,
        DslOp::CopyScalar { .. } => StealthError::ScalarCanonicalizationFailure,
        _ => StealthError::StepCountMismatch,
    }
}

/// The first error a batch of operations aborts with, if any: an
/// undecodable operation record, an index out of range, an undecodable
/// point, or a non-canonical scalar.
pub open spec fn spec_batch_error(
    data: Seq<u8>,
    input: InputBuffer,
    start: int,
    count: nat,
) -> Option<StealthError>
    decreases count,
{
    if count == 0 {
        None
    } else {
        match spec_decode_op(op_window(data, start)) {
            Option::None => Some(StealthError::StepCountMismatch),
            Option::Some(op) => if !spec_op_enabled(op, input) {
                Some(spec_op_error(op))
            } else {
                spec_batch_error(data, input, start + 1, (count - 1) as nat)
            },
        }
    }
}

/// The working state after one operation.
pub open spec fn spec_apply_op(s: ComputeState, op: DslOp, input: InputBuffer) -> ComputeState {
    match op {
        DslOp::DecompressPoint { point } => ComputeState {
            decompressed_points: s.decompressed_points.update(
                point as int,
                Some(input.points@[point as int]),
            ),
            ..s
        },
        DslOp::CopyScalar { scalar } => ComputeState {
            scalar_copies: s.scalar_copies.update(
                scalar as int,
                Some(input.scalars@[scalar as int]),
            ),
            ..s
        },
        DslOp::InitResult { group } => ComputeState {
            result_groups: s.result_groups.update(group as int, true),
            ..s
        },
        _ => s,
    }
}

/// The working state after a batch of operations, applied in order.
pub open spec fn spec_apply_ops(
    s: ComputeState,
    data: Seq<u8>,
    input: InputBuffer,
    start: int,
    count: nat,
) -> ComputeState
    decreases count,
{
    if count == 0 {
        s
    } else {
        spec_apply_ops(
            spec_apply_op(s, spec_decode_op(op_window(data, start))->Some_0, input),
            data,
            input,
            start + 1,
            (count - 1) as nat,
        )
    }
}

/// A batch extended by one operation applies that operation last.
pub proof fn lemma_apply_ops_snoc(
    s: ComputeState,
    data: Seq<u8>,
    input: InputBuffer,
    start: int,
    count: nat,
)
    ensures
        spec_apply_ops(s, data, input, start, (count + 1) as nat) == spec_apply_op(
            spec_apply_ops(s, data, input, start, count),
            spec_decode_op(op_window(data, start + count))->Some_0,
            input,
        ),
    decreases count,
{
    reveal_with_fuel(spec_apply_ops, 3);
    if count != 0 {
        lemma_apply_ops_snoc(
            spec_apply_op(s, spec_decode_op(op_window(data, start))->Some_0, input),
            data,
            input,
            start + 1,
            (count - 1) as nat,
        );
    }
}

/// Applying two consecutive batches equals applying one batch of their
/// combined length.
pub proof fn lemma_apply_ops_concat(
    s: ComputeState,
    data: Seq<u8>,
    input: InputBuffer,
    start: int,
    a: nat,
    b: nat,
)
    ensures
        spec_apply_ops(s, data, input, start, (a + b) as nat) == spec_apply_ops(
            spec_apply_ops(s, data, input, start, a),
            data,
            input,
            start + a,
            b,
        ),
    decreases a,
{
    if a != 0 {
        lemma_apply_ops_concat(
            spec_apply_op(s, spec_decode_op(op_window(data, start))->Some_0, input),
            data,
            input,
            start + 1,
            (a - 1) as nat,
            b,
        );
    }
}

/// Scanning past an error-free prefix finds the same first error.
pub proof fn lemma_batch_error_skip(
    data: Seq<u8>,
    input: InputBuffer,
    start: int,
    k: nat,
    count: nat,
)
    requires
        k <= count,
        spec_batch_error(data, input, start, k) is None,
    ensures
        spec_batch_error(data, input, start, count) == spec_batch_error(
            data,
            input,
            start + k,
            (count - k) as nat,
        ),
    decreases k,
{
    if k != 0 {
        lemma_batch_error_skip(data, input, start + 1, (k - 1) as nat, (count - 1) as nat);
    }
}

/// The full outcome of one crank attempt, `None` meaning success (a replay
/// no-op or an executed batch).
pub open spec fn spec_crank_error(
    cb: ComputeBuffer,
    caller: u64,
    instr: InstructionBuffer,
    input: InputBuffer,
    batch_index: int,
    count: nat,
) -> Option<StealthError> {
    if cb.kind != BufferKind::ComputeBufferV1 {
        Some(StealthError::NotReady)
    } else if caller != cb.owner {
        Some(StealthError::Unauthorized)
    } else if instr.id != cb.instruction_buffer || input.id != cb.input_buffer {
        Some(StealthError::BufferMismatch)
    } else if batch_index < cb.next_batch {
        None
    } else if batch_index > cb.next_batch {
        Some(StealthError::NotReady)
    } else if cb.next_batch == usize::MAX {
        Some(StealthError::Overflow)
    } else if 4 * (cb.cursor + count) > instr.data@.len() {
        Some(StealthError::NotReady)
    } else {
        match spec_batch_error(instr.data@, input, cb.cursor as int, count) {
            Option::Some(e) => Some(e),
            Option::None => {
                let stepped = spec_apply_ops(
                    cb.state(),
                    instr.data@,
                    input,
                    cb.cursor as int,
                    count,
                );
                if 4 * (cb.cursor + count) == instr.data@.len() && !stepped.ready() {
                    Some(StealthError::StepCountMismatch)
                } else {
                    None
                }
            },
        }
    }
}

/// The working memory of one verification run.
pub struct ComputeBuffer {
    pub id: u64,
    pub owner: u64,
    pub kind: BufferKind,
    /// The instruction buffer recorded at creation; cranks must name it.
    pub instruction_buffer: u64,
    /// The input buffer recorded at creation; cranks must name it.
    pub input_buffer: u64,
    /// Validated copies of the statement's decompressed points.
    pub decompressed_points: Vec<Option<[u8; 32]>>,
    /// Validated copies of the statement's scalars.
    pub scalar_copies: Vec<Option<[u8; 32]>>,
    /// Which sub-statement accumulators have been initialized.
    pub result_groups: Vec<bool>,
    /// The persisted step cursor, monotonically non-decreasing.
    pub cursor: usize,
    /// The index of the next unperformed batch.
    pub next_batch: usize,
    /// Whether the cursor has reached the total step count.
    pub done: bool,
    /// The pass/fail outcome, present exactly once done.
    pub result: Option<bool>,
    /// The allocation size, from the overflow-checked schema formula.
    pub allocation: usize,
    /// The allocation cost, refunded to the owner when the buffer closes.
    pub lamports: u64,
}

impl ComputeBuffer {
    /// The mathematical working state.
    pub open spec fn state(&self) -> ComputeState {
        ComputeState {
            decompressed_points: self.decompressed_points@,
            scalar_copies: self.scalar_copies@,
            result_groups: self.result_groups@,
        }
    }

    /// Well-formedness: fixed shapes, every stored copy validated, and the
    /// result present and faithful to the stored copies exactly once done.
    pub open spec fn wf(&self) -> bool {
        &&& self.decompressed_points@.len() == STATEMENT_LEN
        &&& self.scalar_copies@.len() == STATEMENT_LEN
        &&& self.result_groups@.len() == 3
        &&& forall|i: int|
            0 <= i < self.decompressed_points@.len()
                && (#[trigger] self.decompressed_points@[i]) is Some
                ==> point_decodable(self.decompressed_points@[i]->Some_0@)
        &&& forall|i: int|
            0 <= i < self.scalar_copies@.len() && (#[trigger] self.scalar_copies@[i]) is Some
                ==> scalar_canonical(self.scalar_copies@[i]->Some_0@)
        &&& !self.done ==> self.result is None
        &&& self.done ==> {
            &&& self.result is Some
            &&& self.state().ready()
            &&& self.result->Some_0 == spec_statement_holds(
                some_views(self.decompressed_points@),
                some_views(self.scalar_copies@),
            )
        }
    }
}

/// A list of `n` empty slots.
fn make_none_vec(n: usize) -> (r: Vec<Option<[u8; 32]>>)
    ensures
        r@.len() == n,
        forall|i: int| 0 <= i < n ==> (#[trigger] r@[i]) is None,
{
    let mut out: Vec<Option<[u8; 32]>> = Vec::new();
    let mut i: usize = 0;
    while i < n
        invariant
            i <= n,
            out@.len() == i,
            forall|j: int| 0 <= j < i ==> (#[trigger] out@[j]) is None,
        decreases n - i,
    {
        out.push(None);
        i = i + 1;
    }
    out
}

/// A copy of an option list.
fn clone_opt_vec(v: &Vec<Option<[u8; 32]>>) -> (r: Vec<Option<[u8; 32]>>)
    ensures
        r@ == v@,
{
    let mut out: Vec<Option<[u8; 32]>> = Vec::new();
    let n = v.len();
    let mut i: usize = 0;
    while i < n
        invariant
            i <= n == v@.len(),
            out@ == v@.take(i as int),
        decreases n - i,
    {
        out.push(v[i]);
        assert(out@ =~= v@.take(i + 1));
        i = i + 1;
    }
    assert(v@.take(n as int) =~= v@);
    out
}

/// A copy of a flag list.
fn clone_bool_vec(v: &Vec<bool>) -> (r: Vec<bool>)
    ensures
        r@ == v@,
{
    let mut out: Vec<bool> = Vec::new();
    let n = v.len();
    let mut i: usize = 0;
    while i < n
        invariant
            i <= n == v@.len(),
            out@ == v@.take(i as int),
        decreases n - i,
    {
        out.push(v[i]);
        assert(out@ =~= v@.take(i + 1));
        i = i + 1;
    }
    assert(v@.take(n as int) =~= v@);
    out
}

/// The filled values of a fully filled option list.
fn unwrap_all(v: &Vec<Option<[u8; 32]>>) -> (r: Vec<[u8; 32]>)
    requires
        all_some(v@),
    ensures
        r@.len() == v@.len(),
        seq_views(r@) == some_views(v@),
        forall|i: int| 0 <= i < v@.len() ==> (#[trigger] r@[i]) == v@[i]->Some_0,
{
    let mut out: Vec<[u8; 32]> = Vec::new();
    let n = v.len();
    let mut i: usize = 0;
    while i < n
        invariant
            i <= n == v@.len(),
            all_some(v@),
            out@.len() == i,
            forall|j: int| 0 <= j < i ==> (#[trigger] out@[j]) == v@[j]->Some_0,
        decreases n - i,
    {
        match v[i] {
            Some(b) => {
                out.push(b);
            },
            None => {
                proof {
                    assert(v@[i as int] is Some);
                }
                out.push([0u8; 32]);
            },
        }
        i = i + 1;
    }
    assert(seq_views(out@) =~= some_views(v@));
    out
}

/// Whether every slot of an option list is filled.
fn all_some_check(v: &Vec<Option<[u8; 32]>>) -> (r: bool)
    ensures
        r == all_some(v@),
{
    let n = v.len();
    let mut i: usize = 0;
    while i < n
        invariant
            i <= n == v@.len(),
            forall|j: int| 0 <= j < i ==> (#[trigger] v@[j]) is Some,
        decreases n - i,
    {
        if v[i].is_none() {
            return false;
        }
        i = i + 1;
    }
    true
}

/// Whether every flag of a list is set.
fn all_true_check(v: &Vec<bool>) -> (r: bool)
    ensures
        r == (forall|j: int| 0 <= j < v@.len() ==> v@[j]),
{
    let n = v.len();
    let mut i: usize = 0;
    while i < n
        invariant
            i <= n == v@.len(),
            forall|j: int| 0 <= j < i ==> v@[j],
        decreases n - i,
    {
        if !v[i] {
            return false;
        }
        i = i + 1;
    }
    true
}

impl ComputeBuffer {
    /// Creates a compute buffer bound to one sealed instruction buffer and
    /// one sealed input buffer, with its allocation size computed from the
    /// overflow-checked schema formula.
    pub fn create(
        id: u64,
        owner: u64,
        instr: &InstructionBuffer,
        input: &InputBuffer,
        lamports: u64,
    ) -> (r: Result<ComputeBuffer, StealthError>)
        ensures
            r == Err::<ComputeBuffer, StealthError>(StealthError::NotReady) <==> !(
                instr.kind == BufferKind::InstructionBufferV1 && input.kind
                    == BufferKind::InputBufferV1 && instr.sealed && input.sealed
            ),
            r == Err::<ComputeBuffer, StealthError>(StealthError::MalformedProof) <==> (
                instr.kind == BufferKind::InstructionBufferV1 && input.kind
                    == BufferKind::InputBufferV1 && instr.sealed && input.sealed
                && !(input.points@.len() == STATEMENT_LEN && input.scalars@.len()
                    == STATEMENT_LEN)
            ),
            r == Err::<ComputeBuffer, StealthError>(StealthError::StepCountMismatch) <==> (
                instr.kind == BufferKind::InstructionBufferV1 && input.kind
                    == BufferKind::InputBufferV1 && instr.sealed && input.sealed
                && input.points@.len() == STATEMENT_LEN && input.scalars@.len() == STATEMENT_LEN
                && instr.data@.len() % 4 != 0
            ),
            r is Ok <==> (
                instr.kind == BufferKind::InstructionBufferV1 && input.kind
                    == BufferKind::InputBufferV1 && instr.sealed && input.sealed
                && input.points@.len() == STATEMENT_LEN && input.scalars@.len() == STATEMENT_LEN
                && instr.data@.len() % 4 == 0
                && crate::buffers::spec_compute_buffer_len(
                    STATEMENT_LEN as int,
                    STATEMENT_LEN as int,
                ) <= usize::MAX
            ),
            r is Ok ==> {
                let cb = r->Ok_0;
                &&& cb.wf()
                &&& cb.id == id && cb.owner == owner && cb.lamports == lamports
                &&& cb.kind == BufferKind::ComputeBufferV1
                &&& cb.instruction_buffer == instr.id && cb.input_buffer == input.id
                &&& cb.cursor == 0 && cb.next_batch == 0
                &&& !cb.done && cb.result is None
                &&& forall|i: int|
                    0 <= i < STATEMENT_LEN ==> (#[trigger] cb.decompressed_points@[i]) is None
                &&& forall|i: int|
                    0 <= i < STATEMENT_LEN ==> (#[trigger] cb.scalar_copies@[i]) is None
                &&& forall|g: int| 0 <= g < 3 ==> !(#[trigger] cb.result_groups@[g])
                &&& cb.allocation == crate::buffers::spec_compute_buffer_len(
                    STATEMENT_LEN as int,
                    STATEMENT_LEN as int,
                )
            },
    {
        if !matches!(instr.kind, BufferKind::InstructionBufferV1)
            || !matches!(input.kind, BufferKind::InputBufferV1) || !instr.sealed
            || !input.sealed {
            return Err(StealthError::NotReady);
        }
        if input.points.len() != STATEMENT_LEN || input.scalars.len() != STATEMENT_LEN {
            return Err(StealthError::MalformedProof);
        }
        if instr.data.len() % 4 != 0 {
            return Err(StealthError::StepCountMismatch);
        }
        let allocation = match compute_buffer_len(STATEMENT_LEN, STATEMENT_LEN) {
            Ok(a) => a,
            Err(e) => {
                return Err(e);
            },
        };
        let mut groups: Vec<bool> = Vec::new();
        groups.push(false);
        groups.push(false);
        groups.push(false);
        Ok(ComputeBuffer {
            id,
            owner,
            kind: BufferKind::ComputeBufferV1,
            instruction_buffer: instr.id,
            input_buffer: input.id,
            decompressed_points: make_none_vec(STATEMENT_LEN),
            scalar_copies: make_none_vec(STATEMENT_LEN),
            result_groups: groups,
            cursor: 0,
            next_batch: 0,
            done: false,
            result: None,
            allocation,
            lamports,
        })
    }

    /// Closes the buffer: only the owner may, the kind tag is retired and
    /// the allocation cost is returned.
    pub fn close(&mut self, caller: u64) -> (r: Result<u64, StealthError>)
        ensures
            r is Err ==> *final(self) == *old(self),
            r == Err::<u64, StealthError>(StealthError::NotReady)
                <==> old(self).kind != BufferKind::ComputeBufferV1,
            r == Err::<u64, StealthError>(StealthError::Unauthorized)
                <==> old(self).kind == BufferKind::ComputeBufferV1
                    && caller != old(self).owner,
            r is Ok <==> old(self).kind == BufferKind::ComputeBufferV1
                && caller == old(self).owner,
            r is Ok ==> r == Ok::<u64, StealthError>(old(self).lamports)
                && final(self).kind == BufferKind::ClosedBuffer
                && final(self).lamports == 0,
    {
        if !matches!(self.kind, BufferKind::ComputeBufferV1) {
            return Err(StealthError::NotReady);
        }
        if caller != self.owner {
            return Err(StealthError::Unauthorized);
        }
        let refund = self.lamports;
        self.kind = BufferKind::ClosedBuffer;
        self.lamports = 0;
        Ok(refund)
    }

    /// Executes one scheduled batch of `count` operations as crank
    /// invocation number `batch_index`.
    ///
    /// Per-crank checks are deliberately minimal: ownership, equality of
    /// the referenced buffer pair with the recorded one, and the cursor
    /// bound.  A replayed batch is a no-op; a batch ahead of the cursor is
    /// rejected; a failure aborts only this invocation and leaves the
    /// buffer unchanged, so the caller may retry the same batch.
    #[verifier::rlimit(50)]
    pub fn crank(
        &mut self,
        caller: u64,
        instr: &InstructionBuffer,
        input: &InputBuffer,
        batch_index: usize,
        count: usize,
    ) -> (r: Result<(), StealthError>)
        requires
            old(self).wf(),
        ensures
            final(self).wf(),
            r is Err ==> *final(self) == *old(self),
            r is Err <==> spec_crank_error(
                *old(self),
                caller,
                *instr,
                *input,
                batch_index as int,
                count as nat,
            ) is Some,
            r is Err ==> r == Err::<(), StealthError>(
                spec_crank_error(
                    *old(self),
                    caller,
                    *instr,
                    *input,
                    batch_index as int,
                    count as nat,
                )->Some_0,
            ),
            r is Ok && batch_index < old(self).next_batch ==> *final(self) == *old(self),
            r is Ok && batch_index == old(self).next_batch ==> {
                &&& final(self).state() == spec_apply_ops(
                    old(self).state(),
                    instr.data@,
                    *input,
                    old(self).cursor as int,
                    count as nat,
                )
                &&& final(self).cursor == old(self).cursor + count
                &&& final(self).next_batch == old(self).next_batch + 1
                &&& final(self).done == (4 * (old(self).cursor + count) == instr.data@.len())
                &&& final(self).id == old(self).id
                &&& final(self).owner == old(self).owner
                &&& final(self).kind == old(self).kind
                &&& final(self).instruction_buffer == old(self).instruction_buffer
                &&& final(self).input_buffer == old(self).input_buffer
                &&& final(self).allocation == old(self).allocation
                &&& final(self).lamports == old(self).lamports
            },
    {
        if !matches!(self.kind, BufferKind::ComputeBufferV1) {
            return Err(StealthError::NotReady);
        }
        if caller != self.owner {
            return Err(StealthError::Unauthorized);
        }
        if instr.id != self.instruction_buffer || input.id != self.input_buffer {
            return Err(StealthError::BufferMismatch);
        }
        if batch_index < self.next_batch {
            return Ok(());
        }
        if batch_index > self.next_batch {
            return Err(StealthError::NotReady);
        }
        if self.next_batch == usize::MAX {
            return Err(StealthError::Overflow);
        }
        let data_len = instr.data.len();
        let end_ops = match self.cursor.checked_add(count) {
            Some(e) => e,
            None => {
                assert(4 * (self.cursor + count) > instr.data@.len());
                return Err(StealthError::NotReady);
            },
        };
        let end_bytes = match end_ops.checked_mul(4) {
            Some(e) => e,
            None => {
                assert(4 * (self.cursor + count) > instr.data@.len());
                return Err(StealthError::NotReady);
            },
        };
        if end_bytes > data_len {
            return Err(StealthError::NotReady);
        }

        let ghost data = instr.data@;
        let ghost start = self.cursor as int;
        let ghost s0 = self.state();
        let mut new_points = clone_opt_vec(&self.decompressed_points);
        let mut new_scalars = clone_opt_vec(&self.scalar_copies);
        let mut new_groups = clone_bool_vec(&self.result_groups);
        let base = self.cursor;
        let mut k: usize = 0;
        while k < count
            invariant
                k <= count,
                old(self).wf(),
                *self == *old(self),
                old(self).kind == BufferKind::ComputeBufferV1,
                caller == old(self).owner,
                instr.id == old(self).instruction_buffer,
                input.id == old(self).input_buffer,
                batch_index == old(self).next_batch,
                old(self).next_batch < usize::MAX,
                base == old(self).cursor,
                start == base as int,
                s0 == old(self).state(),
                data == instr.data@,
                end_ops == base + count,
                end_bytes == 4 * end_ops,
                data_len == data.len(),
                end_bytes <= data_len,
                4 * (base + count) <= data.len() <= usize::MAX,
                spec_batch_error(data, *input, start, k as nat) is None,
                (ComputeState {
                    decompressed_points: new_points@,
                    scalar_copies: new_scalars@,
                    result_groups: new_groups@,
                }) == spec_apply_ops(s0, data, *input, start, k as nat),
                new_points@.len() == STATEMENT_LEN,
                new_scalars@.len() == STATEMENT_LEN,
                new_groups@.len() == 3,
                forall|i: int|
                    0 <= i < new_points@.len() && (#[trigger] new_points@[i]) is Some
                        ==> point_decodable(new_points@[i]->Some_0@),
                forall|i: int|
                    0 <= i < new_scalars@.len() && (#[trigger] new_scalars@[i]) is Some
                        ==> scalar_canonical(new_scalars@[i]->Some_0@),
            decreases count - k,
        {
            proof {
                lemma_batch_error_skip(data, *input, start, k as nat, count as nat);
            }
            let ghost rest = (count - k) as nat;
            let op = match decode_op_at(&instr.data, base + k) {
                Some(op) => op,
                None => {
                    proof {
                        reveal_with_fuel(spec_batch_error, 2);
                        assert(spec_batch_error(data, *input, start + k, rest)
                            == Some(StealthError::StepCountMismatch));
                    }
                    return Err(StealthError::StepCountMismatch);
                },
            };
            match op {
                DslOp::DecompressPoint { point } => {
                    let pi = point as usize;
                    if pi >= STATEMENT_LEN || input.points.len() != STATEMENT_LEN {
                        proof {
                            reveal_with_fuel(spec_batch_error, 2);
                            assert(!spec_op_enabled(op, *input));
                            assert(spec_batch_error(data, *input, start + k, rest)
                                == Some(StealthError::MalformedProof));
                        }
                        return Err(StealthError::MalformedProof);
                    }
                    if !point_is_decodable(&input.points[pi]) {
                        proof {
                            reveal_with_fuel(spec_batch_error, 2);
                            assert(!spec_op_enabled(op, *input));
                            assert(spec_batch_error(data, *input, start + k, rest)
                                == Some(StealthError::MalformedProof));
                        }
                        return Err(StealthError::MalformedProof);
                    }
                    new_points.set(pi, Some(input.points[pi]));
                },
                DslOp::BuildTableStep { point, step } => {
                    if point as usize >= STATEMENT_LEN || step >= 7 {
                        proof {
                            reveal_with_fuel(spec_batch_error, 2);
                            assert(!spec_op_enabled(op, *input));
                            assert(spec_batch_error(data, *input, start + k, rest)
                                == Some(StealthError::StepCountMismatch));
                        }
                        return Err(StealthError::StepCountMismatch);
                    }
                },
                DslOp::CopyScalar { scalar } => {
                    let si = scalar as usize;
                    if si >= STATEMENT_LEN || input.scalars.len() != STATEMENT_LEN {
                        proof {
                            reveal_with_fuel(spec_batch_error, 2);
                            assert(!spec_op_enabled(op, *input));
                            assert(spec_batch_error(data, *input, start + k, rest)
                                == Some(StealthError::ScalarCanonicalizationFailure));
                        }
                        return Err(StealthError::ScalarCanonicalizationFailure);
                    }
                    if !scalar_is_canonical(&input.scalars[si]) {
                        proof {
                            reveal_with_fuel(spec_batch_error, 2);
                            assert(!spec_op_enabled(op, *input));
                            assert(spec_batch_error(data, *input, start + k, rest)
                                == Some(StealthError::ScalarCanonicalizationFailure));
                        }
                        return Err(StealthError::ScalarCanonicalizationFailure);
                    }
                    new_scalars.set(si, Some(input.scalars[si]));
                },
                DslOp::InitResult { group } => {
                    if group >= 3 {
                        proof {
                            reveal_with_fuel(spec_batch_error, 2);
                            assert(!spec_op_enabled(op, *input));
                            assert(spec_batch_error(data, *input, start + k, rest)
                                == Some(StealthError::StepCountMismatch));
                        }
                        return Err(StealthError::StepCountMismatch);
                    }
                    new_groups.set(group as usize, true);
                },
                DslOp::MulStep { group, step } => {
                    if group >= 3 || step >= 64 {
                        proof {
                            reveal_with_fuel(spec_batch_error, 2);
                            assert(!spec_op_enabled(op, *input));
                            assert(spec_batch_error(data, *input, start + k, rest)
                                == Some(StealthError::StepCountMismatch));
                        }
                        return Err(StealthError::StepCountMismatch);
                    }
                },
                DslOp::CombineStep { step } => {
                    if step >= 64 {
                        proof {
                            reveal_with_fuel(spec_batch_error, 2);
                            assert(!spec_op_enabled(op, *input));
                            assert(spec_batch_error(data, *input, start + k, rest)
                                == Some(StealthError::StepCountMismatch));
                        }
                        return Err(StealthError::StepCountMismatch);
                    }
                },
            }
            proof {
                reveal_with_fuel(spec_batch_error, 3);
                assert(spec_op_enabled(op, *input));
                lemma_apply_ops_snoc(s0, data, *input, start, k as nat);
                lemma_batch_error_skip(data, *input, start, k as nat, (k + 1) as nat);
                assert(spec_batch_error(data, *input, start + k, 1nat) is None);
            }
            k = k + 1;
        }

        let finishing = end_bytes == data_len;
        let mut verdict: Option<bool> = None;
        if finishing {
            if !all_some_check(&new_points) || !all_some_check(&new_scalars)
                || !all_true_check(&new_groups) {
                proof {
                    let stepped = spec_apply_ops(s0, data, *input, start, count as nat);
                    assert(new_points@ == stepped.decompressed_points);
                    assert(new_scalars@ == stepped.scalar_copies);
                    assert(new_groups@ == stepped.result_groups);
                    assert(!stepped.ready());
                }
                return Err(StealthError::StepCountMismatch);
            }
            let pts = unwrap_all(&new_points);
            let scs = unwrap_all(&new_scalars);
            proof {
                assert(forall|i: int|
                    0 <= i < scs@.len() ==> scalar_canonical(#[trigger] scs@[i]@));
                assert(forall|i: int|
                    0 <= i < seq_views(pts@).len()
                        ==> point_decodable(#[trigger] seq_views(pts@)[i]));
            }
            let holds = statement_groups_hold(&pts, &scs);
            verdict = Some(holds);
        }
        self.decompressed_points = new_points;
        self.scalar_copies = new_scalars;
        self.result_groups = new_groups;
        self.cursor = end_ops;
        self.next_batch = self.next_batch + 1;
        self.done = finishing;
        self.result = verdict;
        Ok(())
    }
}

} // verus!
