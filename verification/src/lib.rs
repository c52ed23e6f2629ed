//! A staged zero-knowledge equality-proof verification engine together with
//! the ownership-transfer protocol for encrypted asset metadata that relies
//! on it.
//!
//! The execution environment enforces a fixed compute ceiling per invocation,
//! while checking the equality proof needs far more group operations than one
//! invocation may spend.  The verification is therefore split into many
//! resumable invocations ("cranks") over persisted buffers: an immutable
//! instruction buffer holding the operation stream, a per-transfer input
//! buffer holding the statement, and a mutable compute buffer with a step
//! cursor.  The transfer of the encrypted cipher key only completes once the
//! whole computation has finished and succeeded.

pub mod addresses;
pub mod buffers;
pub mod codec;
pub mod compute;
pub mod curve;
pub mod dsl;
pub mod errors;
pub mod machine;
pub mod pipeline;
pub mod plan;
pub mod statement;
pub mod transcript;
pub mod transfer_proof;

pub use errors::StealthError;
