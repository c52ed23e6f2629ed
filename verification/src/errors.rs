use vstd::prelude::*;

verus! {

/// Every way an operation of this crate can be refused.
///
/// A failure aborts only the current invocation: previously completed work
/// stays valid and no state is mutated by a failing call.
#[derive(Clone, Copy, Debug, PartialEq, Eq)]
pub enum StealthError {
    /// The submitted bytes do not parse into a valid equality proof: a wrong
    /// length, or a commitment that is not the encoding of a group element.
    MalformedProof,
    /// A derived scalar does not canonicalize into the group's scalar field.
    /// One bad component invalidates the whole relation, so the whole proof
    /// is aborted with no partial-slot recovery.
    ScalarCanonicalizationFailure,
    /// A submitted payload or crank references different data than what was
    /// recorded when the buffer was created (a different instruction or
    /// input buffer, or a statement other than the staged one).
    BufferMismatch,
    /// The scheduled operations and the declared operation total disagree,
    /// or the executed operation stream did not perform the declared
    /// schedule.  A structural bug, rejected before any result is trusted.
    StepCountMismatch,
    /// A caller other than the owning authority attempted to mutate, crank,
    /// finalize or close the state.
    Unauthorized,
    /// The state is not ready for the requested step: finalization before
    /// the step cursor reached the total step count, a crank ahead of the
    /// stored cursor, or a write into an already sealed buffer.
    NotReady,
    /// A checked arithmetic combination of amounts or sizes overflowed.
    Overflow,
    /// The proof parsed and every scalar canonicalized, but the group
    /// equations do not hold: verification failed.
    ProofVerificationFailed,
    /// A command's wire bytes carry no recognizable instruction.
    InvalidInstructionData,
}

} // verus!
