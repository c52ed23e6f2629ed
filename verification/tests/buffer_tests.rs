use stealth::buffers::compute_buffer_len;
use stealth::compute::ComputeBuffer;
use stealth::statement::Statement;
use stealth::buffers::input_buffer_len;
use stealth::buffers::InputBuffer;
use stealth::buffers::InstructionBuffer;
use stealth::buffers::BUFFER_HEADER_LEN;
use stealth::buffers::LOOKUP_TABLE_LEN;
use stealth::dsl::build_dsl_bytes;
use stealth::dsl::DSL_INSTRUCTION_BYTES_LEN;
use stealth::pipeline::populate_instruction_buffer;
use stealth::StealthError;

#[test]
fn chunked_writes_equal_single_write() {
    // One buffer takes the program in 800-byte chunks.
    let mut chunked = InstructionBuffer::create(1, 7, DSL_INSTRUCTION_BYTES_LEN, 0);
    populate_instruction_buffer(&mut chunked, 7, 800).expect("chunked populate");

    // The other takes it in one single write.
    let program = build_dsl_bytes();
    let mut whole = InstructionBuffer::create(2, 7, DSL_INSTRUCTION_BYTES_LEN, 0);
    whole.write_bytes(7, 0, &program, true).expect("single write");

    assert_eq!(chunked.data, whole.data);
    assert!(chunked.sealed && whole.sealed);
}

#[test]
fn every_chunk_size_stores_identical_bytes() {
    let mut a = InstructionBuffer::create(1, 7, DSL_INSTRUCTION_BYTES_LEN, 0);
    populate_instruction_buffer(&mut a, 7, 800).expect("populate");
    let mut b = InstructionBuffer::create(2, 7, DSL_INSTRUCTION_BYTES_LEN, 0);
    populate_instruction_buffer(&mut b, 7, 97).expect("populate");
    let mut c = InstructionBuffer::create(3, 7, DSL_INSTRUCTION_BYTES_LEN, 0);
    populate_instruction_buffer(&mut c, 7, DSL_INSTRUCTION_BYTES_LEN).expect("populate");
    assert_eq!(a.data, b.data);
    assert_eq!(b.data, c.data);
}

#[test]
fn instruction_buffer_write_checks() {
    let mut buf = InstructionBuffer::create(1, 7, 16, 0);
    let bytes: Vec<u8> = vec![1, 2, 3, 4];
    // Only the owner writes.
    assert_eq!(buf.write_bytes(8, 0, &bytes, false), Err(StealthError::Unauthorized));
    // A write past the fixed allocation is refused.
    let big: Vec<u8> = vec![0; 17];
    assert_eq!(buf.write_bytes(7, 0, &big, false), Err(StealthError::Overflow));
    // A write that leaves a gap is refused.
    assert_eq!(buf.write_bytes(7, 4, &bytes, false), Err(StealthError::NotReady));
    assert!(buf.write_bytes(7, 0, &bytes, false).is_ok());
    // Overwriting within the stored bytes is a plain write.
    let patch: Vec<u8> = vec![9, 9];
    assert!(buf.write_bytes(7, 1, &patch, false).is_ok());
    assert_eq!(buf.data, vec![1, 9, 9, 4]);
    // A sealed buffer is immutable.
    assert!(buf.write_bytes(7, 4, &bytes, true).is_ok());
    assert_eq!(buf.write_bytes(7, 0, &bytes, false), Err(StealthError::NotReady));
}

#[test]
fn buffers_close_with_refund_once() {
    let mut instr = InstructionBuffer::create(1, 7, 16, 1234);
    assert_eq!(instr.close(9), Err(StealthError::Unauthorized));
    assert_eq!(instr.close(7), Ok(1234));
    assert_eq!(instr.close(7), Err(StealthError::NotReady));

    let mut input = InputBuffer::create(2, 7, 555);
    assert_eq!(input.close(7), Ok(555));
    assert_eq!(input.close(7), Err(StealthError::NotReady));
}

#[test]
fn compute_buffer_creation_validates_its_pair() {
    // Unsealed sources are refused.
    let instr = InstructionBuffer::create(1, 7, DSL_INSTRUCTION_BYTES_LEN, 0);
    let input = InputBuffer::create(2, 7, 0);
    assert_eq!(ComputeBuffer::create(3, 7, &instr, &input, 0).err(), Some(StealthError::NotReady));

    // A sealed input buffer that does not hold a full statement is refused.
    let mut instr = InstructionBuffer::create(1, 7, DSL_INSTRUCTION_BYTES_LEN, 0);
    populate_instruction_buffer(&mut instr, 7, 800).expect("populate");
    let mut input = InputBuffer::create(2, 7, 0);
    let short = Statement { points: vec![[0u8; 32]; 3], scalars: vec![[0u8; 32]; 3] };
    input.write_statement(7, &short).expect("write");
    assert_eq!(
        ComputeBuffer::create(3, 7, &instr, &input, 0).err(),
        Some(StealthError::MalformedProof)
    );

    // An opcode stream that is no whole number of operations is refused.
    let mut ragged = InstructionBuffer::create(4, 7, 16, 0);
    ragged.write_bytes(7, 0, &vec![1, 0, 0], true).expect("write");
    let mut full_input = InputBuffer::create(5, 7, 0);
    let full = Statement { points: vec![[0u8; 32]; 11], scalars: vec![[0u8; 32]; 11] };
    full_input.write_statement(7, &full).expect("write");
    assert_eq!(
        ComputeBuffer::create(6, 7, &ragged, &full_input, 0).err(),
        Some(StealthError::StepCountMismatch)
    );
}

#[test]
fn buffer_size_formulas() {
    // Header, statement points and scalars, engine scratch slack.
    assert_eq!(input_buffer_len(11, 11), Ok(BUFFER_HEADER_LEN + 32 * 11 + 32 * 11 + 128));
    // Header, three proof groups, decompression scratch, scalar copies,
    // one lookup table per point.
    assert_eq!(
        compute_buffer_len(11, 11),
        Ok(BUFFER_HEADER_LEN + 3 * 32 * 4 + 32 * 12 + 32 * 11 + LOOKUP_TABLE_LEN * 11)
    );
    assert_eq!(compute_buffer_len(usize::MAX, 1), Err(StealthError::Overflow));
    assert_eq!(input_buffer_len(usize::MAX, 1), Err(StealthError::Overflow));
}
