//! Security strategies: how a node convinces itself that a packet may be
//! attested.
//!
//! Four strategies share one entry point. Each reads the data being attested
//! and the evidence supplied with the request, and answers with a verdict or
//! with the reason why the evidence could not be judged. None answers `true`
//! on evidence it could not read.

pub mod mpc;
pub mod oracle;
pub mod quorum;
pub mod signature;
pub mod zk_proof;

pub use mpc::{MpcProof, MpcVerifier};
pub use oracle::{OracleResponse, OracleVerifier};
pub use signature::SignatureVerifier;
pub use zk_proof::ZkProofVerifier;

use crate::bytes::Address;
use crate::security::quorum::{check_threshold, threshold_fits};
use vstd::prelude::*;

verus! {

/// Why a strategy could not reach a verdict, or why a configuration is refused.
#[derive(Debug, Clone, Copy, PartialEq, Eq, Structural)]
pub enum VerificationError {
    /// The evidence is not of the shape the strategy reads.
    MalformedEvidence,
    /// A signature's two scalars are out of range.
    InvalidSignature,
    /// A recovery identifier is not one of 0, 1, 2, 3.
    InvalidRecoveryId,
    /// No public key can be recovered from a signature.
    RecoveryFailed,
    /// The configured proof system has no checker.
    UnsupportedProofSystem,
    /// A quorum asks for more members than it names.
    InvalidThreshold,
    /// A cryptographic check could not be carried out.
    CheckFailed,
    /// The strategy judged the evidence and found it wanting.
    NotVerified,
}

/// Type of security verification this node performs.
#[derive(Debug, Clone, PartialEq, Eq)]
pub enum SecurityType {
    Signature { required_signers: Vec<Address>, threshold: usize },
    ZkProof { verification_key: Vec<u8>, proof_system: String },
    Oracle { providers: Vec<Address>, threshold: usize },
    Mpc { participants: Vec<Address>, threshold: usize },
}

impl SecurityType {
    /// Can the configured quorum be met: does it ask for no more members
    /// than it names? A proof strategy asks for no quorum.
    pub open spec fn is_valid(&self) -> bool {
        match *self {
            SecurityType::Signature { required_signers, threshold } => threshold_fits(
                required_signers@,
                threshold,
            ),
            SecurityType::ZkProof { .. } => true,
            SecurityType::Oracle { providers, threshold } => threshold_fits(providers@, threshold),
            SecurityType::Mpc { participants, threshold } => threshold_fits(
                participants@,
                threshold,
            ),
        }
    }

    /// Refuses a configuration whose quorum cannot be met.
    pub fn validate(&self) -> (checked: Result<(), VerificationError>)
        ensures
            checked == if self.is_valid() {
                Ok::<(), VerificationError>(())
            } else {
                Err(VerificationError::InvalidThreshold)
            },
    {
        match self {
            SecurityType::Signature { required_signers, threshold } => check_threshold(
                required_signers,
                *threshold,
            ),
            SecurityType::ZkProof { .. } => Ok(()),
            SecurityType::Oracle { providers, threshold } => check_threshold(providers, *threshold),
            SecurityType::Mpc { participants, threshold } => check_threshold(
                participants,
                *threshold,
            ),
        }
    }
}

/// The side-channel data supplied with a verification request.
#[derive(Debug, Clone, PartialEq, Eq)]
pub enum Evidence {
    /// Undecoded bytes, as the signature and proof strategies read them.
    Raw(Vec<u8>),
    /// Reports of oracle providers.
    OracleResponses(Vec<OracleResponse>),
    /// The transcript of a multi-party computation.
    Mpc(MpcProof),
}

/// Context for one verification attempt.
#[derive(Debug, Clone, PartialEq, Eq)]
pub struct VerificationContext {
    pub chain_id: u64,
    pub verifier_address: Address,
    pub evidence: Evidence,
    /// Seconds since the Unix epoch at the time of the attempt.
    pub current_time: u64,
}

/// The cryptographic checks that are left to a concrete scheme.
///
/// An implementation answers `Ok(true)` only for what it has checked and
/// accepts; the strategies hand every error on unchanged.
pub trait CryptoBackend {
    /// Checks a Groth16 proof against a verification key and public inputs.
    fn verify_groth16(&self, verification_key: &[u8], proof: &[u8], public_inputs: &[u8]) -> Result<
        bool,
        VerificationError,
    >;

    /// Checks a PLONK proof against a verification key and public inputs.
    fn verify_plonk(&self, verification_key: &[u8], proof: &[u8], public_inputs: &[u8]) -> Result<
        bool,
        VerificationError,
    >;

    /// Checks that `signature` is an aggregate signature over `message` made
    /// by at least `threshold` of `participants`.
    fn verify_threshold_signature(
        &self,
        participants: &Vec<Address>,
        threshold: usize,
        signature: &[u8],
        message: &[u8],
    ) -> Result<bool, VerificationError>;

    /// Checks that `result` is consistent with `commitments` under the
    /// protocol's correctness relation, as `proof` claims.
    fn verify_computation_proof(
        &self,
        proof: &[u8],
        commitments: &Vec<Vec<u8>>,
        result: &[u8],
    ) -> Result<bool, VerificationError>;
}

/// Common interface of all security verifiers.
pub trait SecurityVerifier {
    /// Judges `data` by the evidence in `context`.
    fn verify<B: CryptoBackend>(
        &self,
        data: &[u8],
        context: &VerificationContext,
        backend: &B,
    ) -> Result<bool, VerificationError>;
}

} // verus!
