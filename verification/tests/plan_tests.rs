use stealth::dsl::build_dsl_bytes;
use stealth::dsl::DSL_INSTRUCTION_BYTES_LEN;
use stealth::dsl::DSL_INSTRUCTION_COUNT;
use stealth::plan::build_crank_plan;
use stealth::plan::validate_plan;
use stealth::plan::CRANK_INVOCATION_COUNT;
use stealth::StealthError;

#[test]
fn plan_partitions_declared_op_count_exactly() {
    let plan = build_crank_plan(1_000_000);
    assert_eq!(plan.len(), 26);
    assert_eq!(plan.len(), CRANK_INVOCATION_COUNT);
    let counts: Vec<usize> = plan.iter().map(|b| b.count).collect();
    let expected = [
        16, 16, 16, 16, 16, 22, 11, 11, 11, 11, 11, 9, 11, 11, 11, 11, 11, 9, 8, 8, 8, 8, 8, 8,
        8, 8,
    ];
    assert_eq!(counts.as_slice(), expected.as_slice());
    let total: usize = counts.iter().sum();
    assert_eq!(total, 5 * 16 + 22 + 2 * (5 * 11 + 9) + 8 * 8);
    assert_eq!(total, DSL_INSTRUCTION_COUNT);
    assert_eq!(total, 294);
}

#[test]
fn every_batch_carries_the_injected_budget() {
    let plan = build_crank_plan(777);
    for batch in plan.iter() {
        assert_eq!(batch.budget, 777);
    }
}

#[test]
fn plan_validation_asserts_totals_at_setup() {
    let plan = build_crank_plan(1_000_000);
    assert!(validate_plan(&plan, DSL_INSTRUCTION_COUNT).is_ok());
    assert_eq!(
        validate_plan(&plan, DSL_INSTRUCTION_COUNT + 1),
        Err(StealthError::StepCountMismatch)
    );
    assert_eq!(validate_plan(&plan, 0), Err(StealthError::StepCountMismatch));
}

#[test]
fn program_byte_stream_has_declared_size() {
    let bytes = build_dsl_bytes();
    assert_eq!(bytes.len(), DSL_INSTRUCTION_BYTES_LEN);
    assert_eq!(bytes.len(), 4 * DSL_INSTRUCTION_COUNT);
    // The stream opens with the decompression of the first input point.
    assert_eq!(&bytes[0..4], &[1, 0, 0, 0]);
    // Followed by its first lookup-table build step.
    assert_eq!(&bytes[4..8], &[2, 0, 0, 0]);
}
