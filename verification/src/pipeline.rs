//! The two phases of the pipeline: capture a packet when it is sent, and
//! judge it when this node is assigned to it.

use crate::bytes::{bytes_eq, to_vec, Address};
use crate::context::DvnContext;
use crate::error::{Mismatch, PipelineError};
use crate::hash::keccak256;
use crate::packet::{calculate_message_id, AssignmentParams, AssignmentParamsView, Packet};
use crate::security::mpc::transcript_verdict;
use crate::security::oracle::valid_responses;
use crate::security::quorum::{contains_address, copy_addresses, members, threshold_fits};
use crate::security::signature::signature_verdict;
use crate::security::zk_proof::proof_verdict;
use crate::security::{
    CryptoBackend,
    Evidence,
    MpcVerifier,
    OracleVerifier,
    SecurityType,
    SecurityVerifier,
    SignatureVerifier,
    VerificationContext,
    VerificationError,
    ZkProofVerifier,
};
use crate::store::{put_outcome, StoredPacket, StoredPacketView};
use vstd::prelude::*;

verus! {

/// Is the node at `my_address` among the verifiers that an assignment
/// names, required or optional?
pub open spec fn selected(
    my_address: Address,
    required_dvns: Seq<Address>,
    optional_dvns: Seq<Address>,
) -> bool {
    members(required_dvns).contains(my_address@) || members(optional_dvns).contains(my_address@)
}

/// Is the node at `my_address` among the verifiers that an assignment
/// names, required or optional?
pub fn is_selected(
    my_address: &Address,
    required_dvns: &Vec<Address>,
    optional_dvns: &Vec<Address>,
) -> (chosen: bool)
    ensures
        chosen == selected(*my_address, required_dvns@, optional_dvns@),
{
    let is_required = contains_address(required_dvns, my_address);
    let is_optional = contains_address(optional_dvns, my_address);
    is_required || is_optional
}

/// What the cross-check of an assignment against the stored packet finds:
/// the destination chain is compared first, then the payload digest.
pub open spec fn params_check(stored: StoredPacketView, params: AssignmentParamsView) -> Result<
    (),
    PipelineError,
> {
    if stored.packet.destination_chain_id != params.destination_chain_id {
        Err(PipelineError::ParamsMismatch(Mismatch::DestinationChain))
    } else if stored.packet.payload_hash() != params.payload_hash {
        Err(PipelineError::ParamsMismatch(Mismatch::PayloadHash))
    } else {
        Ok(())
    }
}

/// Cross-checks the parameters of an assignment against the stored packet.
pub fn verify_packet_params(stored_packet: &StoredPacket, assign_params: &AssignmentParams) -> (checked:
    Result<(), PipelineError>)
    ensures
        checked == params_check(stored_packet@, assign_params@),
{
    if stored_packet.packet.destination_chain_id != assign_params.destination_chain_id {
        return Err(PipelineError::ParamsMismatch(Mismatch::DestinationChain));
    }
    let calculated_hash = keccak256(stored_packet.packet.message.as_slice());
    if !bytes_eq(calculated_hash.as_slice(), assign_params.payload_hash.as_slice()) {
        return Err(PipelineError::ParamsMismatch(Mismatch::PayloadHash));
    }
    Ok(())
}

/// Phase 1: stores a packet, with the options it was sent with and the time
/// of capture, under the identifier derived from it.
///
/// Capturing the same packet again changes nothing, whatever the options
/// and the time of the second capture.
pub fn store_packet(packet: Packet, options: Vec<u8>, timestamp: u64, ctx: &mut DvnContext) -> (done:
    Result<(), PipelineError>)
    ensures
        (final(ctx).store@, done) == put_outcome(
            old(ctx).store@,
            packet@.message_id(),
            StoredPacketView { packet: packet@, options: options@, timestamp },
        ),
        final(ctx).chain_id == old(ctx).chain_id,
        final(ctx).my_address == old(ctx).my_address,
        final(ctx).required_confirmations == old(ctx).required_confirmations,
        final(ctx).receive_lib == old(ctx).receive_lib,
        final(ctx).price_feed == old(ctx).price_feed,
        final(ctx).default_multiplier_bps == old(ctx).default_multiplier_bps,
        final(ctx).security_type == old(ctx).security_type,
{
    let message_id = calculate_message_id(&packet);
    let stored_packet = StoredPacket { packet, options, timestamp };
    ctx.store.put(message_id, stored_packet)
}

/// The outcome of the security step for what a strategy answered. Only
/// `Ok(true)` lets a packet through.
pub open spec fn security_outcome(verdict: Result<bool, VerificationError>) -> Result<
    (),
    PipelineError,
> {
    match verdict {
        Ok(true) => Ok(()),
        Ok(false) => Err(PipelineError::Verification(VerificationError::NotVerified)),
        Err(e) => Err(PipelineError::Verification(e)),
    }
}

/// The outcome of the security step for a strategy's verdict.
pub fn conclude_security(verdict: Result<bool, VerificationError>) -> (outcome: Result<
    (),
    PipelineError,
>)
    ensures
        outcome == security_outcome(verdict),
{
    match verdict {
        Ok(true) => Ok(()),
        Ok(false) => Err(PipelineError::Verification(VerificationError::NotVerified)),
        Err(e) => Err(PipelineError::Verification(e)),
    }
}

/// Is `verdict` what the configured strategy makes of `data` and
/// `evidence` at `current_time`?
///
/// A quorum that asks for more members than it names is refused before any
/// evidence is read, and evidence of a kind that the strategy does not read
/// is malformed. The signature and oracle strategies decide alone; the
/// other two decide with the backend's answers.
pub open spec fn strategy_verdict<B: CryptoBackend>(
    backend: &B,
    security_type: SecurityType,
    data: Seq<u8>,
    evidence: Evidence,
    current_time: u64,
    verdict: Result<bool, VerificationError>,
) -> bool {
    match security_type {
        SecurityType::Signature { required_signers, threshold } => verdict == if !threshold_fits(
            required_signers@,
            threshold,
        ) {
            Err::<bool, VerificationError>(VerificationError::InvalidThreshold)
        } else {
            match evidence {
                Evidence::Raw(bytes) => signature_verdict(
                    data,
                    bytes@,
                    required_signers@,
                    threshold,
                ),
                _ => Err(VerificationError::MalformedEvidence),
            }
        },
        SecurityType::Oracle { providers, threshold } => verdict == if !threshold_fits(
            providers@,
            threshold,
        ) {
            Err::<bool, VerificationError>(VerificationError::InvalidThreshold)
        } else {
            match evidence {
                Evidence::OracleResponses(responses) => Ok(
                    valid_responses(providers@, responses@, data, current_time) >= threshold,
                ),
                _ => Err(VerificationError::MalformedEvidence),
            }
        },
        SecurityType::Mpc { participants, threshold } => if !threshold_fits(
            participants@,
            threshold,
        ) {
            verdict == Err::<bool, VerificationError>(VerificationError::InvalidThreshold)
        } else {
            match evidence {
                Evidence::Mpc(proof) => transcript_verdict(
                    backend,
                    participants@,
                    threshold,
                    proof,
                    data,
                    verdict,
                ),
                _ => verdict == Err::<bool, VerificationError>(
                    VerificationError::MalformedEvidence,
                ),
            }
        },
        SecurityType::ZkProof { verification_key, proof_system } => match evidence {
            Evidence::Raw(bytes) => proof_verdict(
                backend,
                verification_key@,
                proof_system@,
                bytes@,
                verdict,
            ),
            _ => verdict == Err::<bool, VerificationError>(VerificationError::MalformedEvidence),
        },
    }
}

/// Runs the configured strategy on a packet's payload.
///
/// The strategy is built from the configuration, so a quorum that cannot be
/// met is refused here. The data attested is the packet's payload; the
/// context names the node's chain and the destination's verification
/// library. Only the verdict `true` lets a packet through.
pub fn verify_security<B: CryptoBackend>(
    packet: &Packet,
    evidence: Evidence,
    ctx: &DvnContext,
    current_time: u64,
    backend: &B,
) -> (outcome: Result<(), PipelineError>)
    ensures
        exists|verdict: Result<bool, VerificationError>|
            strategy_verdict(
                backend,
                ctx.security_type,
                packet.message@,
                evidence,
                current_time,
                verdict,
            ) && outcome == #[trigger] security_outcome(verdict),
{
    let verification_context = VerificationContext {
        chain_id: ctx.chain_id,
        verifier_address: ctx.receive_lib,
        evidence,
        current_time,
    };
    let data = packet.message.as_slice();
    let verified = match &ctx.security_type {
        SecurityType::Signature { required_signers, threshold } => {
            match SignatureVerifier::new(copy_addresses(required_signers), *threshold) {
                Ok(verifier) => verifier.verify(data, &verification_context, backend),
                Err(e) => Err(e),
            }
        },
        SecurityType::ZkProof { verification_key, proof_system } => {
            let verifier = ZkProofVerifier::new(
                to_vec(verification_key.as_slice()),
                proof_system.clone(),
            );
            verifier.verify(data, &verification_context, backend)
        },
        SecurityType::Oracle { providers, threshold } => {
            match OracleVerifier::new(copy_addresses(providers), *threshold) {
                Ok(verifier) => verifier.verify(data, &verification_context, backend),
                Err(e) => Err(e),
            }
        },
        SecurityType::Mpc { participants, threshold } => {
            match MpcVerifier::new(copy_addresses(participants), *threshold) {
                Ok(verifier) => verifier.verify(data, &verification_context, backend),
                Err(e) => Err(e),
            }
        },
    };
    conclude_security(verified)
}

} // verus!
