//! What can go wrong in the pipeline, and whether trying again can help.

use crate::security::VerificationError;
use vstd::prelude::*;

verus! {

/// Which of the cross-checked parameters disagrees with the stored packet.
#[derive(Debug, Clone, Copy, PartialEq, Eq, Structural)]
pub enum Mismatch {
    /// The destination chain differs.
    DestinationChain,
    /// The payload digest differs.
    PayloadHash,
}

/// Why a pipeline step failed.
#[derive(Debug, Clone, Copy, PartialEq, Eq, Structural)]
pub enum PipelineError {
    /// An event or its payload could not be read.
    DecodeError,
    /// No packet is stored under the assignment's identifier.
    PacketNotFound,
    /// The assignment contradicts the stored packet.
    ParamsMismatch(Mismatch),
    /// The confirmation depth was not reached within the attempts allowed.
    Timeout,
    /// The security strategy failed or refused.
    Verification(VerificationError),
    /// The storage layer could not be reached.
    StorageUnavailable,
    /// Another packet is already stored under the identifier.
    DuplicateKey,
}

/// What an operator can do about a failure.
#[derive(Debug, Clone, Copy, PartialEq, Eq, Structural)]
pub enum RetryAdvice {
    /// Not yet ready: the same request may succeed later.
    RetryLater,
    /// This evidence will never do; other evidence may.
    ResupplyEvidence,
    /// This request will never succeed.
    Never,
}

impl PipelineError {
    /// Whether trying again can help.
    ///
    /// A missing packet, a timeout and unreachable storage pass with time.
    /// A strategy's refusal of evidence is final for that evidence only,
    /// unless it is the configuration that is refused. Everything else is
    /// final.
    pub fn retry_advice(&self) -> (advice: RetryAdvice)
        ensures
            advice is RetryLater <==> (*self is PacketNotFound || *self is Timeout
                || *self is StorageUnavailable),
            advice is ResupplyEvidence <==> (*self matches PipelineError::Verification(e) && e
                != VerificationError::UnsupportedProofSystem && e
                != VerificationError::InvalidThreshold),
    {
        match self {
            PipelineError::PacketNotFound
            | PipelineError::Timeout
            | PipelineError::StorageUnavailable => RetryAdvice::RetryLater,
            PipelineError::Verification(VerificationError::UnsupportedProofSystem)
            | PipelineError::Verification(VerificationError::InvalidThreshold) => RetryAdvice::Never,
            PipelineError::Verification(_) => RetryAdvice::ResupplyEvidence,
            PipelineError::DecodeError
            | PipelineError::ParamsMismatch(_)
            | PipelineError::DuplicateKey => RetryAdvice::Never,
        }
    }
}

} // verus!
