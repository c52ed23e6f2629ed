//! The fixed program of proof-check operations.
//!
//! The instruction buffer holds one immutable opcode stream, written once
//! and shared by every transfer.  Eleven statement inputs each take one
//! decompression and seven lookup-table build steps; then the eleven scalars
//! are copied and the three sub-statement accumulators initialized; then two
//! groups of sixty-four multiplication steps run, and sixty-four final
//! combination steps fold everything into the three results.

use vstd::prelude::*;

verus! {

/// Operations per statement input: one decompression, seven table steps.
pub const OPS_PER_INPUT: usize = 8;

/// Multiplication (or combination) steps per sub-statement group.
pub const STEPS_PER_GROUP: usize = 64;

/// The declared total operation count of the program.
pub const DSL_INSTRUCTION_COUNT: usize = 294;

/// Encoded size of one operation.
pub const DSL_OP_BYTES: usize = 4;

/// Encoded size of the whole program.
pub const DSL_INSTRUCTION_BYTES_LEN: usize = 1176;

/// One elementary proof-check operation.
#[derive(Clone, Copy, PartialEq, Eq, Structural)]
pub enum DslOp {
    /// Decompress statement point `point` into working memory.
    DecompressPoint { point: u8 },
    /// Build one eighth of the multiplication lookup table of point `point`.
    BuildTableStep { point: u8, step: u8 },
    /// Copy statement scalar `scalar` into working memory.
    CopyScalar { scalar: u8 },
    /// Initialize the accumulator of sub-statement `group` to the identity.
    InitResult { group: u8 },
    /// One multiplication step of sub-statement `group`.
    MulStep { group: u8, step: u8 },
    /// One final combination/accumulation step.
    CombineStep { step: u8 },
}

/// The operation at a program position.
pub open spec fn spec_op_at(i: int) -> DslOp {
    if i < 88 {
        if i % 8 == 0 {
            DslOp::DecompressPoint { point: (i / 8) as u8 }
        } else {
            DslOp::BuildTableStep { point: (i / 8) as u8, step: (i % 8 - 1) as u8 }
        }
    } else if i < 99 {
        DslOp::CopyScalar { scalar: (i - 88) as u8 }
    } else if i < 102 {
        DslOp::InitResult { group: (i - 99) as u8 }
    } else if i < 166 {
        DslOp::MulStep { group: 0, step: (i - 102) as u8 }
    } else if i < 230 {
        DslOp::MulStep { group: 1, step: (i - 166) as u8 }
    } else {
        DslOp::CombineStep { step: (i - 230) as u8 }
    }
}

/// The whole fixed program.
pub open spec fn spec_dsl_ops() -> Seq<DslOp> {
    Seq::new(DSL_INSTRUCTION_COUNT as nat, |i: int| spec_op_at(i))
}

/// The four-byte encoding of one operation.
pub open spec fn spec_encode_op(op: DslOp) -> Seq<u8> {
    match op {
        DslOp::DecompressPoint { point } => seq![1u8, point, 0u8, 0u8],
        DslOp::BuildTableStep { point, step } => seq![2u8, point, step, 0u8],
        DslOp::CopyScalar { scalar } => seq![3u8, scalar, 0u8, 0u8],
        DslOp::InitResult { group } => seq![4u8, group, 0u8, 0u8],
        DslOp::MulStep { group, step } => seq![5u8, group, step, 0u8],
        DslOp::CombineStep { step } => seq![6u8, step, 0u8, 0u8],
    }
}

/// Decoding of four bytes back into an operation; an unknown tag is
/// refused.
pub open spec fn spec_decode_op(b: Seq<u8>) -> Option<DslOp> {
    if b[0] == 1 {
        Some(DslOp::DecompressPoint { point: b[1] })
    } else if b[0] == 2 {
        Some(DslOp::BuildTableStep { point: b[1], step: b[2] })
    } else if b[0] == 3 {
        Some(DslOp::CopyScalar { scalar: b[1] })
    } else if b[0] == 4 {
        Some(DslOp::InitResult { group: b[1] })
    } else if b[0] == 5 {
        Some(DslOp::MulStep { group: b[1], step: b[2] })
    } else if b[0] == 6 {
        Some(DslOp::CombineStep { step: b[1] })
    } else {
        None
    }
}

/// Decoding inverts encoding on every operation.
pub proof fn lemma_op_round_trip(op: DslOp)
    ensures
        spec_decode_op(spec_encode_op(op)) == Some(op),
{
}

/// The byte stream of the whole program.
pub open spec fn spec_dsl_bytes() -> Seq<u8> {
    Seq::new(
        DSL_INSTRUCTION_BYTES_LEN as nat,
        |i: int| spec_encode_op(spec_op_at(i / 4))[i % 4],
    )
}

/// The operation at a program position.
pub fn op_at(i: usize) -> (r: DslOp)
    requires
        i < DSL_INSTRUCTION_COUNT,
    ensures
        r == spec_op_at(i as int),
{
    if i < 88 {
        let p = (i / 8) as u8;
        let m = i % 8;
        if m == 0 {
            DslOp::DecompressPoint { point: p }
        } else {
            DslOp::BuildTableStep { point: p, step: (m - 1) as u8 }
        }
    } else if i < 99 {
        DslOp::CopyScalar { scalar: (i - 88) as u8 }
    } else if i < 102 {
        DslOp::InitResult { group: (i - 99) as u8 }
    } else if i < 166 {
        DslOp::MulStep { group: 0, step: (i - 102) as u8 }
    } else if i < 230 {
        DslOp::MulStep { group: 1, step: (i - 166) as u8 }
    } else {
        DslOp::CombineStep { step: (i - 230) as u8 }
    }
}

/// Appends the four-byte encoding of one operation.
fn push_encoded_op(buf: &mut Vec<u8>, op: DslOp)
    ensures
        final(buf)@ == old(buf)@ + spec_encode_op(op),
{
    match op {
        DslOp::DecompressPoint { point } => {
            buf.push(1u8);
            buf.push(point);
            buf.push(0u8);
            buf.push(0u8);
        },
        DslOp::BuildTableStep { point, step } => {
            buf.push(2u8);
            buf.push(point);
            buf.push(step);
            buf.push(0u8);
        },
        DslOp::CopyScalar { scalar } => {
            buf.push(3u8);
            buf.push(scalar);
            buf.push(0u8);
            buf.push(0u8);
        },
        DslOp::InitResult { group } => {
            buf.push(4u8);
            buf.push(group);
            buf.push(0u8);
            buf.push(0u8);
        },
        DslOp::MulStep { group, step } => {
            buf.push(5u8);
            buf.push(group);
            buf.push(step);
            buf.push(0u8);
        },
        DslOp::CombineStep { step } => {
            buf.push(6u8);
            buf.push(step);
            buf.push(0u8);
            buf.push(0u8);
        },
    }
    assert(final(buf)@ =~= old(buf)@ + spec_encode_op(op));
}

/// Builds the byte stream of the whole fixed program.
pub fn build_dsl_bytes() -> (r: Vec<u8>)
    ensures
        r@ == spec_dsl_bytes(),
        r@.len() == DSL_INSTRUCTION_BYTES_LEN,
{
    let mut buf: Vec<u8> = Vec::new();
    let mut i: usize = 0;
    while i < DSL_INSTRUCTION_COUNT
        invariant
            i <= DSL_INSTRUCTION_COUNT,
            buf@.len() == 4 * i,
            buf@ == spec_dsl_bytes().take(4 * i as int),
        decreases DSL_INSTRUCTION_COUNT - i,
    {
        let op = op_at(i);
        push_encoded_op(&mut buf, op);
        proof {
            assert forall|j: int| 4 * i <= j < 4 * (i + 1) implies buf@[j] == spec_dsl_bytes()[j]
            by {
                assert(j / 4 == i && j % 4 == j - 4 * i) by (nonlinear_arith)
                    requires 4 * i <= j < 4 * (i + 1);
                assert(buf@[j] == spec_encode_op(op)[j - 4 * i]);
            }
            assert(buf@ =~= spec_dsl_bytes().take(4 * (i + 1)));
        }
        i = i + 1;
    }
    assert(buf@ =~= spec_dsl_bytes());
    buf
}

/// Reads and decodes the operation at a program position of an encoded
/// stream.
pub fn decode_op_at(bytes: &Vec<u8>, index: usize) -> (r: Option<DslOp>)
    requires
        4 * index + 4 <= bytes@.len(),
    ensures
        r == spec_decode_op(bytes@.subrange(4 * index as int, 4 * index as int + 4)),
{
    let n = bytes.len();
    assert(4 * index + 4 <= n);
    let base = 4 * index;
    let ghost window = bytes@.subrange(4 * index as int, 4 * index as int + 4);
    assert(bytes@[base as int] == window[0]);
    assert(bytes@[base + 1] == window[1]);
    assert(bytes@[base + 2] == window[2]);
    let b0 = bytes[base];
    let b1 = bytes[base + 1];
    let b2 = bytes[base + 2];
    if b0 == 1 {
        Some(DslOp::DecompressPoint { point: b1 })
    } else if b0 == 2 {
        Some(DslOp::BuildTableStep { point: b1, step: b2 })
    } else if b0 == 3 {
        Some(DslOp::CopyScalar { scalar: b1 })
    } else if b0 == 4 {
        Some(DslOp::InitResult { group: b1 })
    } else if b0 == 5 {
        Some(DslOp::MulStep { group: b1, step: b2 })
    } else if b0 == 6 {
        Some(DslOp::CombineStep { step: b1 })
    } else {
        None
    }
}

} // verus!
