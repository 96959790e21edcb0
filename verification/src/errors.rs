//! Error taxonomy of the composition and verification core.
//!
//! Every failure is reported to the caller through one of these enums; the
//! only condition handled silently is duplicate-assumption suppression, which
//! is not an error.

use vstd::prelude::*;

verus! {

/// Failures of receipt-level operations: identity parsing, claim access,
/// verification and decoding.
#[derive(Clone, Copy, PartialEq, Eq, Structural, Debug)]
pub enum ReceiptError {
    /// A byte input had the wrong fixed size (for example an image id that is
    /// not 32 bytes).
    InvalidLength,
    /// A malformed hex string.
    InvalidHex,
    /// The claim value cannot be read from a seal-only (pruned) receipt.
    ClaimPruned,
    /// Full verification failed.
    VerificationFailed,
    /// The integrity check failed.
    IntegrityFailed,
    /// `from_bytes` was handed bytes that encode no receipt.
    DeserializeFailed,
}

/// A single finding of the composer's preflight check.
#[derive(Clone, Debug)]
pub enum PreflightIssue {
    /// A verification is expected for this claim key, but fewer assumptions
    /// with that key were supplied than expectations registered.
    MissingAssumption { image_id: Vec<u8>, journal_digest: Vec<u8> },
    /// An assumption with this claim key was supplied, but no expectation
    /// refers to it.
    UnusedAssumption { image_id: Vec<u8>, journal_digest: Vec<u8> },
    /// The expectation at this position carries an image id that is not 32
    /// bytes long.
    InvalidImageIdInExpectation { index: usize },
}

/// Failures of the composer state machine.
#[derive(Clone, Debug)]
pub enum CompositionError {
    /// A conditional (composite) receipt was offered as an assumption.
    IsComposite,
    /// A fake (test-only) receipt was offered as an assumption.
    IsFake,
    /// A receipt from a failed execution was offered as an assumption.
    FailedExit,
    /// The claim value cannot be read from the receipt.
    ClaimPruned,
    /// A byte input had the wrong fixed size.
    InvalidLength,
    /// The preflight check found issues and was asked to fail on them.
    PreflightFailed(Vec<PreflightIssue>),
    /// `Fake` cannot be requested as a proving mode.
    FakeNotProvable,
    /// The composer already produced a receipt and cannot be reused.
    ComposerConsumed,
    /// The prover backend failed; the message is the backend's own.
    ProverError(String),
    /// The prover backend failed in a way that suggests the guest's
    /// verification calls do not match the supplied assumptions.
    ClaimMismatchLikely(String),
}

/// Failures of receipt compression.
#[derive(Clone, Debug)]
pub enum CompressError {
    /// The receipt is already succinct.
    AlreadySuccinct,
    /// The receipt carries unresolved assumptions and none were supplied.
    UnresolvedAssumptions,
    /// A supplied assumption is itself conditional.
    ConditionalAssumption,
    /// The backend failed to compress; the message is the backend's own.
    CompressFailed(String),
}

} // verus!
