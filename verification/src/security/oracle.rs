//! Quorum of fresh oracle reports.
//!
//! A report counts when its provider is one of the configured providers, it
//! is at most an hour old and it carries exactly the data being attested.
//! The `signature` field of a report is carried for a provider-signature
//! scheme; whether a report counts does not depend on it.

use crate::bytes::{bytes_eq, Address};
use crate::security::quorum::{check_threshold, contains_address, members, threshold_fits};
use crate::security::{
    CryptoBackend,
    Evidence,
    SecurityVerifier,
    VerificationContext,
    VerificationError,
};
use vstd::prelude::*;

verus! {

/// How old a report may be, in seconds.
pub const FRESHNESS_WINDOW: u64 = 3600;

/// One provider's report.
#[derive(Debug, Clone, PartialEq, Eq)]
pub struct OracleResponse {
    pub provider: Address,
    pub timestamp: u64,
    pub data: Vec<u8>,
    pub signature: Vec<u8>,
}

/// A report as a mathematical value.
pub struct OracleResponseView {
    pub provider: Seq<u8>,
    pub timestamp: u64,
    pub data: Seq<u8>,
    pub signature: Seq<u8>,
}

impl View for OracleResponse {
    type V = OracleResponseView;

    open spec fn view(&self) -> OracleResponseView {
        OracleResponseView {
            provider: self.provider@,
            timestamp: self.timestamp,
            data: self.data@,
            signature: self.signature@,
        }
    }
}

/// Does `response` count towards the quorum at `current_time`?
pub open spec fn response_valid(
    providers: Seq<Address>,
    response: OracleResponseView,
    expected_data: Seq<u8>,
    current_time: u64,
) -> bool {
    &&& members(providers).contains(response.provider)
    &&& current_time - response.timestamp <= FRESHNESS_WINDOW
    &&& response.data == expected_data
}

/// The number of `responses` that count.
pub open spec fn valid_responses(
    providers: Seq<Address>,
    responses: Seq<OracleResponse>,
    expected_data: Seq<u8>,
    current_time: u64,
) -> nat
    decreases responses.len(),
{
    if responses.len() == 0 {
        0
    } else {
        let earlier = valid_responses(providers, responses.drop_last(), expected_data, current_time);
        if response_valid(providers, responses.last()@, expected_data, current_time) {
            earlier + 1
        } else {
            earlier
        }
    }
}

/// A report made more than the freshness window before `current_time` does
/// not count, whatever else it holds.
pub proof fn lemma_stale_response_rejected(
    providers: Seq<Address>,
    response: OracleResponseView,
    expected_data: Seq<u8>,
    current_time: u64,
)
    requires
        response.timestamp + FRESHNESS_WINDOW < current_time,
    ensures
        !response_valid(providers, response, expected_data, current_time),
{
}

/// Oracle verification implementation.
pub struct OracleVerifier {
    /// Required oracle providers.
    providers: Vec<Address>,
    /// Minimum number of matching oracle responses required.
    threshold: usize,
}

impl OracleVerifier {
    /// The providers whose reports count.
    pub closed spec fn providers(&self) -> Seq<Address> {
        self.providers@
    }

    /// The number of reports that the verdict asks for.
    pub closed spec fn threshold(&self) -> usize {
        self.threshold
    }

    #[verifier::type_invariant]
    spec fn well_formed(&self) -> bool {
        threshold_fits(self.providers@, self.threshold)
    }

    /// A verifier over `providers`, refused where `threshold` is more than
    /// the number of different providers named.
    pub fn new(providers: Vec<Address>, threshold: usize) -> (made: Result<Self, VerificationError>)
        ensures
            made is Ok <==> threshold_fits(providers@, threshold),
            made matches Ok(v) ==> v.providers() == providers@ && v.threshold() == threshold,
            made matches Err(e) ==> e == VerificationError::InvalidThreshold,
    {
        match check_threshold(&providers, threshold) {
            Ok(()) => Ok(Self { providers, threshold }),
            Err(e) => Err(e),
        }
    }

    /// Does `response` count towards the quorum at `current_time`?
    pub fn verify_oracle_response(
        &self,
        response: &OracleResponse,
        expected_data: &[u8],
        current_time: u64,
    ) -> (valid: bool)
        ensures
            valid == response_valid(self.providers(), response@, expected_data@, current_time),
    {
        if !contains_address(&self.providers, &response.provider) {
            return false;
        }
        if current_time > response.timestamp && current_time - response.timestamp
            > FRESHNESS_WINDOW {
            return false;
        }
        bytes_eq(response.data.as_slice(), expected_data)
    }

    /// Do at least `threshold` of `responses` count at `current_time`?
    pub fn verify_responses(
        &self,
        data: &[u8],
        responses: &Vec<OracleResponse>,
        current_time: u64,
    ) -> (verdict: bool)
        ensures
            verdict == (valid_responses(self.providers(), responses@, data@, current_time)
                >= self.threshold()),
    {
        let mut counted: usize = 0;
        let mut i: usize = 0;
        while i < responses.len()
            invariant
                i <= responses@.len(),
                counted <= i,
                counted == valid_responses(
                    self.providers@,
                    responses@.subrange(0, i as int),
                    data@,
                    current_time,
                ),
            decreases responses@.len() - i,
        {
            assert(responses@.subrange(0, i + 1).drop_last() =~= responses@.subrange(0, i as int));
            if self.verify_oracle_response(&responses[i], data, current_time) {
                counted += 1;
            }
            i += 1;
        }
        assert(responses@.subrange(0, responses@.len() as int) =~= responses@);
        counted >= self.threshold
    }
}

impl SecurityVerifier for OracleVerifier {
    /// The verdict of `verify_responses` on decoded reports at the time of
    /// the attempt; evidence of another kind is malformed.
    fn verify<B: CryptoBackend>(
        &self,
        data: &[u8],
        context: &VerificationContext,
        backend: &B,
    ) -> (verdict: Result<bool, VerificationError>)
        ensures
            verdict == match context.evidence {
                Evidence::OracleResponses(responses) => Ok(
                    valid_responses(self.providers(), responses@, data@, context.current_time)
                        >= self.threshold(),
                ),
                _ => Err(VerificationError::MalformedEvidence),
            },
    {
        match &context.evidence {
            Evidence::OracleResponses(responses) => Ok(
                self.verify_responses(data, responses, context.current_time),
            ),
            _ => Err(VerificationError::MalformedEvidence),
        }
    }
}

} // verus!
