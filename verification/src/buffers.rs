//! The persisted instruction and input buffers.
//!
//! Buffers are modeled as explicit schemas with tag- and bounds-checked
//! accessors: every access checks the kind tag, every mutation checks the
//! owning authority, and every size combination is overflow-checked.  A
//! buffer is exclusively owned by its creating authority and may be closed
//! by it before finalization to reclaim the allocation cost.

use vstd::prelude::*;

use crate::dsl::DSL_INSTRUCTION_BYTES_LEN;
use crate::errors::StealthError;
use crate::statement::Statement;

verus! {

/// Discriminant of what a persisted buffer holds, validated on every
/// access; stored bytes are never trusted without this check.
#[derive(Clone, Copy, PartialEq, Eq, Structural)]
pub enum BufferKind {
    InstructionBufferV1,
    InputBufferV1,
    ComputeBufferV1,
    /// A reclaimed buffer; no further access is honoured.
    ClosedBuffer,
}

/// Bytes of the common buffer header: owner, kind tag and padding.
pub const BUFFER_HEADER_LEN: usize = 16;

/// Bytes of one precomputed multiplication lookup table: eight multiples
/// of a point, four coordinates of 32 bytes each.
pub const LOOKUP_TABLE_LEN: usize = 1024;

/// Allocation size of the shared instruction buffer.
pub const INSTRUCTION_BUFFER_LEN: usize = BUFFER_HEADER_LEN + DSL_INSTRUCTION_BYTES_LEN;

/// A byte store after writing `bytes` at `offset`: the prefix before the
/// write is kept, the suffix after it is kept where it exists, and the
/// store grows where the write runs past its end.
pub open spec fn spec_write(data: Seq<u8>, offset: int, bytes: Seq<u8>) -> Seq<u8> {
    if offset + bytes.len() <= data.len() {
        data.take(offset) + bytes + data.skip(offset + bytes.len())
    } else {
        data.take(offset) + bytes
    }
}

/// The reusable program of proof-check operations: written once through
/// chunked writes, sealed, then shared read-only by every transfer.
pub struct InstructionBuffer {
    pub id: u64,
    pub owner: u64,
    pub kind: BufferKind,
    /// Fixed allocation; writes beyond it are refused.
    pub capacity: usize,
    pub data: Vec<u8>,
    /// Once sealed, the opcode stream is immutable.
    pub sealed: bool,
    /// The allocation cost, refunded to the owner when the buffer closes.
    pub lamports: u64,
}

impl InstructionBuffer {
    pub open spec fn wf(&self) -> bool {
        self.data@.len() <= self.capacity
    }

    /// Allocates an empty, unsealed instruction buffer owned by `owner`.
    pub fn create(id: u64, owner: u64, capacity: usize, lamports: u64) -> (r: InstructionBuffer)
        ensures
            r.wf(),
            r.id == id && r.owner == owner && r.lamports == lamports,
            r.kind == BufferKind::InstructionBufferV1,
            r.capacity == capacity,
            r.data@ == Seq::<u8>::empty(),
            !r.sealed,
    {
        InstructionBuffer {
            id,
            owner,
            kind: BufferKind::InstructionBufferV1,
            capacity,
            data: Vec::new(),
            sealed: false,
            lamports,
        }
    }

    /// Writes one chunk at an offset, optionally sealing the buffer.
    ///
    /// Only the owner may write, only while the buffer is unsealed, only
    /// without leaving a gap, and only within the fixed allocation.
    pub fn write_bytes(
        &mut self,
        caller: u64,
        offset: usize,
        bytes: &Vec<u8>,
        seal: bool,
    ) -> (r: Result<(), StealthError>)
        requires
            old(self).wf(),
        ensures
            final(self).wf(),
            r is Err ==> *final(self) == *old(self),
            r == Err::<(), StealthError>(StealthError::NotReady) <==> (
                old(self).kind != BufferKind::InstructionBufferV1
                || (old(self).kind == BufferKind::InstructionBufferV1 && old(self).sealed)
                || (old(self).kind == BufferKind::InstructionBufferV1 && !old(self).sealed
                    && offset > old(self).data@.len())
            ),
            r == Err::<(), StealthError>(StealthError::Unauthorized) <==> (
                old(self).kind == BufferKind::InstructionBufferV1 && !old(self).sealed
                && offset <= old(self).data@.len() && caller != old(self).owner
            ),
            r == Err::<(), StealthError>(StealthError::Overflow) <==> (
                old(self).kind == BufferKind::InstructionBufferV1 && !old(self).sealed
                && offset <= old(self).data@.len() && caller == old(self).owner
                && offset + bytes@.len() > old(self).capacity
            ),
            r is Ok <==> (
                old(self).kind == BufferKind::InstructionBufferV1 && !old(self).sealed
                && offset <= old(self).data@.len() && caller == old(self).owner
                && offset + bytes@.len() <= old(self).capacity
            ),
            r is Ok ==> final(self).data@ == spec_write(old(self).data@, offset as int, bytes@)
                && final(self).sealed == seal
                && final(self).id == old(self).id
                && final(self).owner == old(self).owner
                && final(self).kind == old(self).kind
                && final(self).capacity == old(self).capacity
                && final(self).lamports == old(self).lamports,
    {
        if !matches!(self.kind, BufferKind::InstructionBufferV1) {
            return Err(StealthError::NotReady);
        }
        if self.sealed {
            return Err(StealthError::NotReady);
        }
        if offset > self.data.len() {
            return Err(StealthError::NotReady);
        }
        if caller != self.owner {
            return Err(StealthError::Unauthorized);
        }
        let end = match offset.checked_add(bytes.len()) {
            Some(e) => e,
            None => {
                return Err(StealthError::Overflow);
            },
        };
        if end > self.capacity {
            return Err(StealthError::Overflow);
        }
        let mut updated: Vec<u8> = Vec::new();
        let mut i: usize = 0;
        while i < offset
            invariant
                i <= offset <= old(self).data@.len(),
                *self == *old(self),
                updated@ == old(self).data@.take(i as int),
            decreases offset - i,
        {
            updated.push(self.data[i]);
            assert(updated@ =~= old(self).data@.take(i + 1));
            i = i + 1;
        }
        let mut j: usize = 0;
        let m = bytes.len();
        while j < m
            invariant
                j <= m == bytes@.len(),
                offset <= old(self).data@.len(),
                *self == *old(self),
                updated@ == old(self).data@.take(offset as int) + bytes@.take(j as int),
            decreases m - j,
        {
            updated.push(bytes[j]);
            assert(updated@ =~= old(self).data@.take(offset as int) + bytes@.take(j + 1));
            j = j + 1;
        }
        assert(bytes@.take(m as int) =~= bytes@);
        let n = self.data.len();
        if end < n {
            let mut k: usize = end;
            while k < n
                invariant
                    end <= k <= n,
                    n == old(self).data@.len(),
                    end == offset + bytes@.len(),
                    offset <= n,
                    *self == *old(self),
                    updated@ == old(self).data@.take(offset as int) + bytes@
                        + old(self).data@.subrange(end as int, k as int),
                decreases n - k,
            {
                updated.push(self.data[k]);
                assert(updated@ =~= old(self).data@.take(offset as int) + bytes@
                    + old(self).data@.subrange(end as int, k + 1));
                k = k + 1;
            }
            proof {
                assert(old(self).data@.subrange(end as int, n as int)
                    =~= old(self).data@.skip(end as int));
                assert(updated@ =~= spec_write(old(self).data@, offset as int, bytes@));
            }
        } else {
            proof {
                if end <= n {
                    assert(old(self).data@.skip(end as int) =~= Seq::<u8>::empty());
                }
                assert(updated@ =~= spec_write(old(self).data@, offset as int, bytes@));
            }
        }
        self.data = updated;
        self.sealed = seal;
        Ok(())
    }

    /// Closes the buffer: only the owner may, the kind tag is retired and
    /// the allocation cost is returned.
    pub fn close(&mut self, caller: u64) -> (r: Result<u64, StealthError>)
        ensures
            r is Err ==> *final(self) == *old(self),
            r == Err::<u64, StealthError>(StealthError::NotReady)
                <==> old(self).kind != BufferKind::InstructionBufferV1,
            r == Err::<u64, StealthError>(StealthError::Unauthorized)
                <==> old(self).kind == BufferKind::InstructionBufferV1
                    && caller != old(self).owner,
            r is Ok <==> old(self).kind == BufferKind::InstructionBufferV1
                && caller == old(self).owner,
            r is Ok ==> r == Ok::<u64, StealthError>(old(self).lamports)
                && *final(self) == (InstructionBuffer {
                    kind: BufferKind::ClosedBuffer,
                    lamports: 0u64,
                    ..*old(self)
                }),
    {
        if !matches!(self.kind, BufferKind::InstructionBufferV1) {
            return Err(StealthError::NotReady);
        }
        if caller != self.owner {
            return Err(StealthError::Unauthorized);
        }
        let refund = self.lamports;
        self.kind = BufferKind::ClosedBuffer;
        self.lamports = 0;
        Ok(refund)
    }
}

/// Copies a list of 32-byte entries.
pub(crate) fn clone_vec32(v: &Vec<[u8; 32]>) -> (r: Vec<[u8; 32]>)
    ensures
        r@ == v@,
{
    let mut out: Vec<[u8; 32]> = Vec::new();
    let n = v.len();
    let mut i: usize = 0;
    while i < n
        invariant
            i <= n == v@.len(),
            out@ == v@.take(i as int),
        decreases n - i,
    {
        out.push(v[i]);
        assert(out@ =~= v@.take(i + 1));
        i = i + 1;
    }
    assert(v@.take(n as int) =~= v@);
    out
}

/// One transfer's statement data: the ordered point and scalar lists the
/// compute buffer consumes.  Written once from a built statement, then
/// sealed.
pub struct InputBuffer {
    pub id: u64,
    pub owner: u64,
    pub kind: BufferKind,
    pub points: Vec<[u8; 32]>,
    pub scalars: Vec<[u8; 32]>,
    pub sealed: bool,
    /// The allocation cost, refunded to the owner when the buffer closes.
    pub lamports: u64,
}

impl InputBuffer {
    /// Allocates an empty, unsealed input buffer owned by `owner`.
    pub fn create(id: u64, owner: u64, lamports: u64) -> (r: InputBuffer)
        ensures
            r.id == id && r.owner == owner && r.lamports == lamports,
            r.kind == BufferKind::InputBufferV1,
            r.points@ == Seq::<[u8; 32]>::empty(),
            r.scalars@ == Seq::<[u8; 32]>::empty(),
            !r.sealed,
    {
        InputBuffer {
            id,
            owner,
            kind: BufferKind::InputBufferV1,
            points: Vec::new(),
            scalars: Vec::new(),
            sealed: false,
            lamports,
        }
    }

    /// Writes a built statement into the buffer and seals it.
    pub fn write_statement(&mut self, caller: u64, stmt: &Statement) -> (r: Result<
        (),
        StealthError,
    >)
        ensures
            r is Err ==> *final(self) == *old(self),
            r == Err::<(), StealthError>(StealthError::NotReady)
                <==> old(self).kind != BufferKind::InputBufferV1
                    || (old(self).kind == BufferKind::InputBufferV1 && old(self).sealed),
            r == Err::<(), StealthError>(StealthError::Unauthorized)
                <==> old(self).kind == BufferKind::InputBufferV1 && !old(self).sealed
                    && caller != old(self).owner,
            r is Ok <==> old(self).kind == BufferKind::InputBufferV1 && !old(self).sealed
                && caller == old(self).owner,
            r is Ok ==> final(self).points@ == stmt.points@
                && final(self).scalars@ == stmt.scalars@
                && final(self).sealed
                && final(self).id == old(self).id
                && final(self).owner == old(self).owner
                && final(self).kind == old(self).kind
                && final(self).lamports == old(self).lamports,
    {
        if !matches!(self.kind, BufferKind::InputBufferV1) {
            return Err(StealthError::NotReady);
        }
        if self.sealed {
            return Err(StealthError::NotReady);
        }
        if caller != self.owner {
            return Err(StealthError::Unauthorized);
        }
        self.points = clone_vec32(&stmt.points);
        self.scalars = clone_vec32(&stmt.scalars);
        self.sealed = true;
        Ok(())
    }

    /// Closes the buffer: only the owner may, the kind tag is retired and
    /// the allocation cost is returned.
    pub fn close(&mut self, caller: u64) -> (r: Result<u64, StealthError>)
        ensures
            r is Err ==> *final(self) == *old(self),
            r == Err::<u64, StealthError>(StealthError::NotReady)
                <==> old(self).kind != BufferKind::InputBufferV1,
            r == Err::<u64, StealthError>(StealthError::Unauthorized)
                <==> old(self).kind == BufferKind::InputBufferV1
                    && caller != old(self).owner,
            r is Ok <==> old(self).kind == BufferKind::InputBufferV1
                && caller == old(self).owner,
            r is Ok ==> r == Ok::<u64, StealthError>(old(self).lamports)
                && *final(self) == (InputBuffer {
                    kind: BufferKind::ClosedBuffer,
                    lamports: 0u64,
                    ..*old(self)
                }),
    {
        if !matches!(self.kind, BufferKind::InputBufferV1) {
            return Err(StealthError::NotReady);
        }
        if caller != self.owner {
            return Err(StealthError::Unauthorized);
        }
        let refund = self.lamports;
        self.kind = BufferKind::ClosedBuffer;
        self.lamports = 0;
        Ok(refund)
    }
}

/// The allocation size of an input buffer holding a statement of `n_points`
/// group elements and `n_scalars` scalars, with the engine's scratch slack.
pub open spec fn spec_input_buffer_len(n_points: int, n_scalars: int) -> int {
    BUFFER_HEADER_LEN + 32 * n_points + 32 * n_scalars + 128
}

/// Computes the input buffer allocation size, overflow-checked.
pub fn input_buffer_len(n_points: usize, n_scalars: usize) -> (r: Result<usize, StealthError>)
    ensures
        r is Ok <==> spec_input_buffer_len(n_points as int, n_scalars as int) <= usize::MAX,
        r is Ok ==> r == Ok::<usize, StealthError>(
            spec_input_buffer_len(n_points as int, n_scalars as int) as usize,
        ),
        r is Err ==> r == Err::<usize, StealthError>(StealthError::Overflow),
{
    let p = match n_points.checked_mul(32) {
        Some(v) => v,
        None => {
            return Err(StealthError::Overflow);
        },
    };
    let s = match n_scalars.checked_mul(32) {
        Some(v) => v,
        None => {
            return Err(StealthError::Overflow);
        },
    };
    let a = match p.checked_add(s) {
        Some(v) => v,
        None => {
            return Err(StealthError::Overflow);
        },
    };
    let b = match a.checked_add(BUFFER_HEADER_LEN + 128) {
        Some(v) => v,
        None => {
            return Err(StealthError::Overflow);
        },
    };
    Ok(b)
}

/// The allocation size of a compute buffer: the header, the three proof
/// groups of four 32-byte words, twelve 32-byte words of decompression
/// scratch, one 32-byte word per scalar, and one lookup table per point.
pub open spec fn spec_compute_buffer_len(n_points: int, n_scalars: int) -> int {
    BUFFER_HEADER_LEN + 3 * 32 * 4 + 32 * 12 + 32 * n_scalars + LOOKUP_TABLE_LEN * n_points
}

/// Computes the compute buffer allocation size, overflow-checked.
pub fn compute_buffer_len(n_points: usize, n_scalars: usize) -> (r: Result<usize, StealthError>)
    ensures
        r is Ok <==> spec_compute_buffer_len(n_points as int, n_scalars as int) <= usize::MAX,
        r is Ok ==> r == Ok::<usize, StealthError>(
            spec_compute_buffer_len(n_points as int, n_scalars as int) as usize,
        ),
        r is Err ==> r == Err::<usize, StealthError>(StealthError::Overflow),
{
    let t = match n_points.checked_mul(LOOKUP_TABLE_LEN) {
        Some(v) => v,
        None => {
            return Err(StealthError::Overflow);
        },
    };
    let s = match n_scalars.checked_mul(32) {
        Some(v) => v,
        None => {
            return Err(StealthError::Overflow);
        },
    };
    let a = match t.checked_add(s) {
        Some(v) => v,
        None => {
            return Err(StealthError::Overflow);
        },
    };
    let b = match a.checked_add(BUFFER_HEADER_LEN + 3 * 32 * 4 + 32 * 12) {
        Some(v) => v,
        None => {
            return Err(StealthError::Overflow);
        },
    };
    Ok(b)
}

} // verus!
