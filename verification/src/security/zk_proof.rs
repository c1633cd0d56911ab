//! Zero-knowledge proofs.
//!
//! The evidence is `proof length (4 bytes, big-endian) ‖ proof ‖ public
//! inputs`. The proof system's name selects the checker; a name without a
//! checker is an error, never a verdict.

use crate::bytes::{be_value, read_u32_be};
use crate::security::{
    CryptoBackend,
    Evidence,
    SecurityVerifier,
    VerificationContext,
    VerificationError,
};
use vstd::prelude::*;
use vstd::string::StringExecFns;

verus! {

/// The length of the field that holds the proof's length.
pub const PROOF_LEN_FIELD: usize = 4;

/// The proof systems that have a checker.
#[derive(Debug, Clone, Copy, PartialEq, Eq, Structural)]
pub enum ProofSystem {
    Groth16,
    Plonk,
}

/// The proof system that goes by `name`, if any.
pub open spec fn proof_system_named(name: Seq<char>) -> Option<ProofSystem> {
    if name == "groth16"@ {
        Some(ProofSystem::Groth16)
    } else if name == "plonk"@ {
        Some(ProofSystem::Plonk)
    } else {
        None
    }
}

/// The proof length that the evidence announces.
pub open spec fn announced_proof_len(evidence: Seq<u8>) -> nat {
    be_value(evidence.subrange(0, PROOF_LEN_FIELD as int))
}

/// Does the evidence hold its length field and a proof of the announced
/// length?
pub open spec fn evidence_framed(evidence: Seq<u8>) -> bool {
    evidence.len() >= PROOF_LEN_FIELD && PROOF_LEN_FIELD + announced_proof_len(evidence)
        <= evidence.len()
}

/// The proof inside framed evidence.
pub open spec fn proof_of(evidence: Seq<u8>) -> Seq<u8> {
    evidence.subrange(PROOF_LEN_FIELD as int, PROOF_LEN_FIELD + announced_proof_len(evidence))
}

/// The public inputs inside framed evidence: all that follows the proof.
pub open spec fn public_inputs_of(evidence: Seq<u8>) -> Seq<u8> {
    evidence.subrange(PROOF_LEN_FIELD + announced_proof_len(evidence), evidence.len() as int)
}

/// Is `verdict` an answer of the backend's checker for `system` to the
/// key, the proof and the public inputs?
pub open spec fn checker_answers<B: CryptoBackend>(
    backend: &B,
    system: ProofSystem,
    verification_key: Seq<u8>,
    proof: Seq<u8>,
    public_inputs: Seq<u8>,
    verdict: Result<bool, VerificationError>,
) -> bool {
    match system {
        ProofSystem::Groth16 => exists|k: &[u8], p: &[u8], i: &[u8]|
            k@ == verification_key && p@ == proof && i@ == public_inputs && #[trigger] call_ensures(
                B::verify_groth16,
                (backend, k, p, i),
                verdict,
            ),
        ProofSystem::Plonk => exists|k: &[u8], p: &[u8], i: &[u8]|
            k@ == verification_key && p@ == proof && i@ == public_inputs && #[trigger] call_ensures(
                B::verify_plonk,
                (backend, k, p, i),
                verdict,
            ),
    }
}

/// Is `verdict` what the proof strategy makes of `evidence`?
///
/// Evidence that is not framed is malformed, and a proof system without a
/// checker is unsupported; neither reaches the backend. Otherwise the
/// verdict is the answer of the system's checker to the key, the proof and
/// the public inputs.
pub open spec fn proof_verdict<B: CryptoBackend>(
    backend: &B,
    verification_key: Seq<u8>,
    proof_system: Seq<char>,
    evidence: Seq<u8>,
    verdict: Result<bool, VerificationError>,
) -> bool {
    if !evidence_framed(evidence) {
        verdict == Err::<bool, VerificationError>(VerificationError::MalformedEvidence)
    } else {
        match proof_system_named(proof_system) {
            None => verdict == Err::<bool, VerificationError>(
                VerificationError::UnsupportedProofSystem,
            ),
            Some(system) => checker_answers(
                backend,
                system,
                verification_key,
                proof_of(evidence),
                public_inputs_of(evidence),
                verdict,
            ),
        }
    }
}

/// Zero-knowledge proof verification over a named proof system.
pub struct ZkProofVerifier {
    /// The verification key or parameters.
    verification_key: Vec<u8>,
    /// The proof system's name ("groth16", "plonk").
    proof_system: String,
}

impl ZkProofVerifier {
    /// The key that proofs are checked against.
    pub closed spec fn verification_key(&self) -> Seq<u8> {
        self.verification_key@
    }

    /// The configured proof system's name.
    pub closed spec fn proof_system_name(&self) -> Seq<char> {
        self.proof_system@
    }

    /// A verifier for the proof system called `proof_system`.
    pub fn new(verification_key: Vec<u8>, proof_system: String) -> (made: Self)
        ensures
            made.verification_key() == verification_key@,
            made.proof_system_name() == proof_system@,
    {
        Self { verification_key, proof_system }
    }

    /// The configured proof system, if it has a checker.
    pub fn proof_system(&self) -> (system: Result<ProofSystem, VerificationError>)
        ensures
            system == match proof_system_named(self.proof_system_name()) {
                Some(s) => Ok::<ProofSystem, VerificationError>(s),
                None => Err(VerificationError::UnsupportedProofSystem),
            },
    {
        if self.proof_system == String::from_str("groth16") {
            Ok(ProofSystem::Groth16)
        } else if self.proof_system == String::from_str("plonk") {
            Ok(ProofSystem::Plonk)
        } else {
            Err(VerificationError::UnsupportedProofSystem)
        }
    }

    /// Splits evidence into the proof and the public inputs.
    pub fn split_evidence(evidence: &[u8]) -> (parts: Result<(&[u8], &[u8]), VerificationError>)
        ensures
            parts is Ok <==> evidence_framed(evidence@),
            parts matches Ok((proof, public_inputs)) ==> proof@ == proof_of(evidence@)
                && public_inputs@ == public_inputs_of(evidence@),
            parts matches Err(e) ==> e == VerificationError::MalformedEvidence,
    {
        if evidence.len() < PROOF_LEN_FIELD {
            return Err(VerificationError::MalformedEvidence);
        }
        let proof_len = read_u32_be(&evidence[0..PROOF_LEN_FIELD]);
        let rest = evidence.len() - PROOF_LEN_FIELD;
        if proof_len as usize > rest {
            return Err(VerificationError::MalformedEvidence);
        }
        let proof_end = PROOF_LEN_FIELD + proof_len as usize;
        Ok((&evidence[PROOF_LEN_FIELD..proof_end], &evidence[proof_end..evidence.len()]))
    }

    /// Asks the checker of the configured proof system for its verdict on
    /// `proof` and `public_inputs` under the verification key.
    pub fn verify_proof<B: CryptoBackend>(
        &self,
        proof: &[u8],
        public_inputs: &[u8],
        backend: &B,
    ) -> (verdict: Result<bool, VerificationError>)
        ensures
            match proof_system_named(self.proof_system_name()) {
                None => verdict == Err::<bool, VerificationError>(
                    VerificationError::UnsupportedProofSystem,
                ),
                Some(system) => checker_answers(
                    backend,
                    system,
                    self.verification_key(),
                    proof@,
                    public_inputs@,
                    verdict,
                ),
            },
    {
        let key = self.verification_key.as_slice();
        match self.proof_system() {
            Ok(ProofSystem::Groth16) => {
                let verdict = backend.verify_groth16(key, proof, public_inputs);
                assert(call_ensures(B::verify_groth16, (backend, key, proof, public_inputs), verdict));
                verdict
            },
            Ok(ProofSystem::Plonk) => {
                let verdict = backend.verify_plonk(key, proof, public_inputs);
                assert(call_ensures(B::verify_plonk, (backend, key, proof, public_inputs), verdict));
                verdict
            },
            Err(e) => Err(e),
        }
    }

    /// The verdict on undecoded evidence: `verify_proof` on its two parts.
    pub fn verify_framed<B: CryptoBackend>(&self, evidence: &[u8], backend: &B) -> (verdict: Result<
        bool,
        VerificationError,
    >)
        ensures
            proof_verdict(
                backend,
                self.verification_key(),
                self.proof_system_name(),
                evidence@,
                verdict,
            ),
    {
        match Self::split_evidence(evidence) {
            Ok((proof, public_inputs)) => self.verify_proof(proof, public_inputs, backend),
            Err(e) => Err(e),
        }
    }
}

impl SecurityVerifier for ZkProofVerifier {
    /// The verdict of `verify_framed` on undecoded evidence; evidence of
    /// another kind is malformed.
    fn verify<B: CryptoBackend>(
        &self,
        data: &[u8],
        context: &VerificationContext,
        backend: &B,
    ) -> (verdict: Result<bool, VerificationError>)
        ensures
            match context.evidence {
                Evidence::Raw(bytes) => proof_verdict(
                    backend,
                    self.verification_key(),
                    self.proof_system_name(),
                    bytes@,
                    verdict,
                ),
                _ => verdict == Err::<bool, VerificationError>(
                    VerificationError::MalformedEvidence,
                ),
            },
    {
        match &context.evidence {
            Evidence::Raw(bytes) => self.verify_framed(bytes.as_slice(), backend),
            _ => Err(VerificationError::MalformedEvidence),
        }
    }
}

} // verus!
