//! Threshold multi-party computation.
//!
//! The transcript must carry the data being attested as its result and at
//! least `threshold` commitments. Only then are the two cryptographic
//! checks asked of the backend, and both must accept.

use crate::bytes::{bytes_eq, Address};
use crate::security::quorum::{check_threshold, threshold_fits};
use crate::security::{
    CryptoBackend,
    Evidence,
    SecurityVerifier,
    VerificationContext,
    VerificationError,
};
use vstd::prelude::*;

verus! {

/// The transcript of a multi-party computation.
#[derive(Debug, Clone, PartialEq, Eq)]
pub struct MpcProof {
    /// The aggregated result of the computation.
    pub result: Vec<u8>,
    /// Individual participant commitments.
    pub commitments: Vec<Vec<u8>>,
    /// Proof of correct computation.
    pub computation_proof: Vec<u8>,
    /// Threshold signature on the result.
    pub threshold_signature: Vec<u8>,
}

/// May the cryptographic checks be asked at all: is the transcript's result
/// the expected one, and are there at least `threshold` commitments?
pub open spec fn transcript_admissible(proof: MpcProof, expected_result: Seq<u8>, threshold: usize)
    -> bool {
    proof.result@ == expected_result && proof.commitments@.len() >= threshold
}

/// The verdict on a transcript, given what the two checks answered.
pub open spec fn mpc_verdict(
    admissible: bool,
    signature_check: Result<bool, VerificationError>,
    computation_check: Result<bool, VerificationError>,
) -> Result<bool, VerificationError> {
    if !admissible {
        Ok(false)
    } else {
        match signature_check {
            Err(e) => Err(e),
            Ok(signed) => match computation_check {
                Err(e) => Err(e),
                Ok(computed) => Ok(signed && computed),
            },
        }
    }
}

/// Is `answer` an answer of the backend to the question whether
/// `signature` is a threshold signature over `message` by `threshold` of
/// `participants`?
pub open spec fn threshold_signature_answers<B: CryptoBackend>(
    backend: &B,
    participants: Seq<Address>,
    threshold: usize,
    signature: Seq<u8>,
    message: Seq<u8>,
    answer: Result<bool, VerificationError>,
) -> bool {
    exists|ps: &Vec<Address>, s: &[u8], m: &[u8]|
        ps@ == participants && s@ == signature && m@ == message && #[trigger] call_ensures(
            B::verify_threshold_signature,
            (backend, ps, threshold, s, m),
            answer,
        )
}

/// Is `answer` an answer of the backend to the question whether the
/// transcript's computation proof holds of its commitments and result?
pub open spec fn computation_proof_answers<B: CryptoBackend>(
    backend: &B,
    proof: MpcProof,
    answer: Result<bool, VerificationError>,
) -> bool {
    exists|p: &[u8], r: &[u8]|
        p@ == proof.computation_proof@ && r@ == proof.result@ && #[trigger] call_ensures(
            B::verify_computation_proof,
            (backend, p, &proof.commitments, r),
            answer,
        )
}

/// Is `verdict` what the strategy makes of the transcript `proof`?
///
/// A transcript that is not admissible is rejected. For an admissible one
/// the verdict is `mpc_verdict` of the backend's two answers.
pub open spec fn transcript_verdict<B: CryptoBackend>(
    backend: &B,
    participants: Seq<Address>,
    threshold: usize,
    proof: MpcProof,
    expected_result: Seq<u8>,
    verdict: Result<bool, VerificationError>,
) -> bool {
    if !transcript_admissible(proof, expected_result, threshold) {
        verdict == Ok::<bool, VerificationError>(false)
    } else {
        exists|
            signature_check: Result<bool, VerificationError>,
            computation_check: Result<bool, VerificationError>,
        |
            threshold_signature_answers(
                backend,
                participants,
                threshold,
                proof.threshold_signature@,
                proof.result@,
                signature_check,
            ) && computation_proof_answers(backend, proof, computation_check) && verdict
                == #[trigger] mpc_verdict(true, signature_check, computation_check)
    }
}

/// Multi-party computation verification implementation.
pub struct MpcVerifier {
    /// Addresses of the participants.
    participants: Vec<Address>,
    /// Number of required participants.
    threshold: usize,
}

impl MpcVerifier {
    /// The participants of the computation.
    pub closed spec fn participants(&self) -> Seq<Address> {
        self.participants@
    }

    /// The number of participants that the verdict asks for.
    pub closed spec fn threshold(&self) -> usize {
        self.threshold
    }

    #[verifier::type_invariant]
    spec fn well_formed(&self) -> bool {
        threshold_fits(self.participants@, self.threshold)
    }

    /// A verifier over `participants`, refused where `threshold` is more
    /// than the number of different participants named.
    pub fn new(participants: Vec<Address>, threshold: usize) -> (made: Result<
        Self,
        VerificationError,
    >)
        ensures
            made is Ok <==> threshold_fits(participants@, threshold),
            made matches Ok(v) ==> v.participants() == participants@ && v.threshold() == threshold,
            made matches Err(e) ==> e == VerificationError::InvalidThreshold,
    {
        match check_threshold(&participants, threshold) {
            Ok(()) => Ok(Self { participants, threshold }),
            Err(e) => Err(e),
        }
    }

    /// The verdict on a transcript from the answers of the two checks.
    pub fn conclude(
        admissible: bool,
        signature_check: Result<bool, VerificationError>,
        computation_check: Result<bool, VerificationError>,
    ) -> (verdict: Result<bool, VerificationError>)
        ensures
            verdict == mpc_verdict(admissible, signature_check, computation_check),
    {
        if !admissible {
            return Ok(false);
        }
        match signature_check {
            Err(e) => Err(e),
            Ok(signed) => match computation_check {
                Err(e) => Err(e),
                Ok(computed) => Ok(signed && computed),
            },
        }
    }

    /// Is the transcript's result the expected one, with at least
    /// `threshold` commitments?
    pub fn admits(&self, proof: &MpcProof, expected_result: &[u8]) -> (admissible: bool)
        ensures
            admissible == transcript_admissible(*proof, expected_result@, self.threshold()),
    {
        bytes_eq(proof.result.as_slice(), expected_result) && proof.commitments.len()
            >= self.threshold
    }

    /// Verifies the transcript of a computation.
    ///
    /// A transcript that is not admissible is rejected without a question to
    /// the backend. For an admissible one the backend is asked for the
    /// threshold signature over the result and for the computation proof
    /// over the commitments, and the verdict is `conclude` of its answers.
    pub fn verify_computation<B: CryptoBackend>(
        &self,
        proof: &MpcProof,
        expected_result: &[u8],
        backend: &B,
    ) -> (verdict: Result<bool, VerificationError>)
        ensures
            transcript_verdict(
                backend,
                self.participants(),
                self.threshold(),
                *proof,
                expected_result@,
                verdict,
            ),
    {
        if !self.admits(proof, expected_result) {
            return Ok(false);
        }
        let signature = proof.threshold_signature.as_slice();
        let result = proof.result.as_slice();
        let signature_check = backend.verify_threshold_signature(
            &self.participants,
            self.threshold,
            signature,
            result,
        );
        assert(call_ensures(
            B::verify_threshold_signature,
            (backend, &self.participants, self.threshold, signature, result),
            signature_check,
        ));
        let computation_proof = proof.computation_proof.as_slice();
        let computation_check = backend.verify_computation_proof(
            computation_proof,
            &proof.commitments,
            result,
        );
        assert(call_ensures(
            B::verify_computation_proof,
            (backend, computation_proof, &proof.commitments, result),
            computation_check,
        ));
        let verdict = Self::conclude(true, signature_check, computation_check);
        assert(verdict == mpc_verdict(true, signature_check, computation_check));
        verdict
    }
}

impl SecurityVerifier for MpcVerifier {
    /// The verdict of `verify_computation` on a decoded transcript;
    /// evidence of another kind is malformed.
    fn verify<B: CryptoBackend>(
        &self,
        data: &[u8],
        context: &VerificationContext,
        backend: &B,
    ) -> (verdict: Result<bool, VerificationError>)
        ensures
            match context.evidence {
                Evidence::Mpc(proof) => transcript_verdict(
                    backend,
                    self.participants(),
                    self.threshold(),
                    proof,
                    data@,
                    verdict,
                ),
                _ => verdict == Err::<bool, VerificationError>(
                    VerificationError::MalformedEvidence,
                ),
            },
    {
        match &context.evidence {
            Evidence::Mpc(proof) => self.verify_computation(proof, data, backend),
            _ => Err(VerificationError::MalformedEvidence),
        }
    }
}

} // verus!
