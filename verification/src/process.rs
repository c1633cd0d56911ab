//! Phase 2 as a state machine.
//!
//! Judging an assignment takes work that only the node's surroundings can
//! do: reading a transaction, asking the destination chain, waiting. The
//! machine holds the decisions. Its driver performs the action that a state
//! asks for and hands back what came of it as an event; an event that
//! answers no pending request changes nothing.

use crate::bytes::Address;
use crate::confirmation::{
    backoff_delay,
    delay_before,
    gate_decision,
    wait_for_confirmations,
    GateDecision,
    MAX_ATTEMPTS,
};
use crate::context::DvnContext;
use crate::error::PipelineError;
use crate::packet::{calculate_message_id_from_params, AssignmentParams, MessageId};
use crate::pipeline::{is_selected, params_check, selected, verify_packet_params};
use vstd::prelude::*;

verus! {

/// Where the judging of an assignment stands.
#[derive(Debug, Clone, Copy, PartialEq, Eq)]
pub enum ProcessState {
    /// A packet may have been captured; no assignment has been seen.
    Captured,
    /// This node is assigned; the assignment's parameters are awaited.
    AwaitingAssignment,
    /// The parameters match the stored packet; the destination's word on
    /// whether the message is verified already is awaited.
    AwaitingVerifiedState { message_id: MessageId, destination_chain_id: u32 },
    /// The poll numbered `attempt` of the destination chain is awaited.
    ConfirmationPending { message_id: MessageId, destination_chain_id: u32, attempt: u32 },
    /// The security strategy's outcome is awaited.
    SecurityPending { message_id: MessageId },
    /// The destination's answer to the submitted verification is awaited.
    AwaitingSubmission { message_id: MessageId },
    /// Done: the message is verified at the destination, or the destination
    /// has answered the submission with `verdict`.
    Attested { verdict: bool },
    /// Done: this node is not among the assigned verifiers.
    NotSelected,
    /// Done: the attempt has failed.
    Rejected(PipelineError),
}

/// What the driver reports to the machine.
#[derive(Debug, PartialEq, Eq)]
pub enum ProcessEvent {
    /// An assignment names these verifiers.
    Assigned { required_dvns: Vec<Address>, optional_dvns: Vec<Address> },
    /// The assignment's parameters, read from its transaction.
    AssignmentDecoded(AssignmentParams),
    /// The assignment's transaction is missing or cannot be read.
    AssignmentUnreadable,
    /// The destination's word on whether the message is verified already.
    VerifiedState(bool),
    /// A poll's report of the confirmations reached.
    Confirmations(u64),
    /// The outcome of the security strategy.
    SecurityChecked(Result<(), PipelineError>),
    /// The destination's answer to the submitted verification.
    Submitted(bool),
}

/// What the machine asks of its driver.
#[derive(Debug, Clone, Copy, PartialEq, Eq)]
pub enum ProcessAction {
    /// Wait for an assignment.
    AwaitAssignment,
    /// Read the assignment's transaction and decode its parameters.
    FetchAssignment,
    /// Ask the destination whether the message is verified already.
    QueryVerified { message_id: MessageId },
    /// Pause for `delay` time units, then poll the chain's confirmations.
    PollConfirmations { chain_id: u32, delay: u64 },
    /// Run the security strategy on the stored packet.
    VerifySecurity { message_id: MessageId },
    /// Submit the verification of the message to the destination.
    SubmitVerification { message_id: MessageId },
    /// Nothing is left to do: this is the result.
    Finish(Result<bool, PipelineError>),
}

/// A state as a mathematical value.
pub enum ProcessStateView {
    Captured,
    AwaitingAssignment,
    AwaitingVerifiedState { message_id: Seq<u8>, destination_chain_id: u32 },
    ConfirmationPending { message_id: Seq<u8>, destination_chain_id: u32, attempt: u32 },
    SecurityPending { message_id: Seq<u8> },
    AwaitingSubmission { message_id: Seq<u8> },
    Attested { verdict: bool },
    NotSelected,
    Rejected(PipelineError),
}

/// An action as a mathematical value.
pub enum ProcessActionView {
    AwaitAssignment,
    FetchAssignment,
    QueryVerified { message_id: Seq<u8> },
    PollConfirmations { chain_id: u32, delay: u64 },
    VerifySecurity { message_id: Seq<u8> },
    SubmitVerification { message_id: Seq<u8> },
    Finish(Result<bool, PipelineError>),
}

impl View for ProcessState {
    type V = ProcessStateView;

    open spec fn view(&self) -> ProcessStateView {
        match *self {
            ProcessState::Captured => ProcessStateView::Captured,
            ProcessState::AwaitingAssignment => ProcessStateView::AwaitingAssignment,
            ProcessState::AwaitingVerifiedState { message_id, destination_chain_id } =>
                ProcessStateView::AwaitingVerifiedState {
                message_id: message_id@,
                destination_chain_id,
            },
            ProcessState::ConfirmationPending { message_id, destination_chain_id, attempt } =>
                ProcessStateView::ConfirmationPending {
                message_id: message_id@,
                destination_chain_id,
                attempt,
            },
            ProcessState::SecurityPending { message_id } => ProcessStateView::SecurityPending {
                message_id: message_id@,
            },
            ProcessState::AwaitingSubmission { message_id } => ProcessStateView::AwaitingSubmission {
                message_id: message_id@,
            },
            ProcessState::Attested { verdict } => ProcessStateView::Attested { verdict },
            ProcessState::NotSelected => ProcessStateView::NotSelected,
            ProcessState::Rejected(e) => ProcessStateView::Rejected(e),
        }
    }
}

impl View for ProcessAction {
    type V = ProcessActionView;

    open spec fn view(&self) -> ProcessActionView {
        match *self {
            ProcessAction::AwaitAssignment => ProcessActionView::AwaitAssignment,
            ProcessAction::FetchAssignment => ProcessActionView::FetchAssignment,
            ProcessAction::QueryVerified { message_id } => ProcessActionView::QueryVerified {
                message_id: message_id@,
            },
            ProcessAction::PollConfirmations { chain_id, delay } =>
                ProcessActionView::PollConfirmations { chain_id, delay },
            ProcessAction::VerifySecurity { message_id } => ProcessActionView::VerifySecurity {
                message_id: message_id@,
            },
            ProcessAction::SubmitVerification { message_id } =>
                ProcessActionView::SubmitVerification { message_id: message_id@ },
            ProcessAction::Finish(result) => ProcessActionView::Finish(result),
        }
    }
}

/// The pause before the poll numbered `attempt`: none before the first.
pub open spec fn poll_delay(attempt: u32) -> u64 {
    if attempt == 0 {
        0
    } else {
        backoff_delay(attempt as nat) as u64
    }
}

/// What a state asks of the driver.
///
/// A wait for a poll beyond the cap asks for nothing more: it has timed out.
pub open spec fn pending_action(state: ProcessStateView) -> ProcessActionView {
    match state {
        ProcessStateView::Captured => ProcessActionView::AwaitAssignment,
        ProcessStateView::AwaitingAssignment => ProcessActionView::FetchAssignment,
        ProcessStateView::AwaitingVerifiedState { message_id, .. } =>
            ProcessActionView::QueryVerified { message_id },
        ProcessStateView::ConfirmationPending { destination_chain_id, attempt, .. } => if attempt
            < MAX_ATTEMPTS {
            ProcessActionView::PollConfirmations {
                chain_id: destination_chain_id,
                delay: poll_delay(attempt),
            }
        } else {
            ProcessActionView::Finish(Err(PipelineError::Timeout))
        },
        ProcessStateView::SecurityPending { message_id } => ProcessActionView::VerifySecurity {
            message_id,
        },
        ProcessStateView::AwaitingSubmission { message_id } =>
            ProcessActionView::SubmitVerification { message_id },
        ProcessStateView::Attested { verdict } => ProcessActionView::Finish(Ok(verdict)),
        ProcessStateView::NotSelected => ProcessActionView::Finish(Ok(false)),
        ProcessStateView::Rejected(e) => ProcessActionView::Finish(Err(e)),
    }
}

/// The state that follows `state` on `event`.
pub open spec fn next_state(state: ProcessStateView, event: ProcessEvent, ctx: DvnContext)
    -> ProcessStateView {
    match (state, event) {
        (ProcessStateView::Captured, ProcessEvent::Assigned { required_dvns, optional_dvns }) => {
            if selected(ctx.my_address, required_dvns@, optional_dvns@) {
                ProcessStateView::AwaitingAssignment
            } else {
                ProcessStateView::NotSelected
            }
        },
        (ProcessStateView::AwaitingAssignment, ProcessEvent::AssignmentDecoded(params)) => {
            let id = params@.message_id();
            if !ctx.store@.contains_key(id) {
                ProcessStateView::Rejected(PipelineError::PacketNotFound)
            } else {
                match params_check(ctx.store@[id], params@) {
                    Err(e) => ProcessStateView::Rejected(e),
                    Ok(()) => ProcessStateView::AwaitingVerifiedState {
                        message_id: id,
                        destination_chain_id: ctx.store@[id].packet.destination_chain_id,
                    },
                }
            }
        },
        (ProcessStateView::AwaitingAssignment, ProcessEvent::AssignmentUnreadable) => {
            ProcessStateView::Rejected(PipelineError::DecodeError)
        },
        (
            ProcessStateView::AwaitingVerifiedState { message_id, destination_chain_id },
            ProcessEvent::VerifiedState(already),
        ) => {
            if already {
                ProcessStateView::Attested { verdict: true }
            } else {
                ProcessStateView::ConfirmationPending {
                    message_id,
                    destination_chain_id,
                    attempt: 0,
                }
            }
        },
        (
            ProcessStateView::ConfirmationPending { message_id, destination_chain_id, attempt },
            ProcessEvent::Confirmations(confirmations),
        ) => {
            match gate_decision(attempt, confirmations, ctx.required_confirmations) {
                GateDecision::Confirmed => ProcessStateView::SecurityPending { message_id },
                GateDecision::Retry { attempt: next, .. } => ProcessStateView::ConfirmationPending {
                    message_id,
                    destination_chain_id,
                    attempt: next,
                },
                GateDecision::Timeout => ProcessStateView::Rejected(PipelineError::Timeout),
            }
        },
        (
            ProcessStateView::SecurityPending { message_id },
            ProcessEvent::SecurityChecked(outcome),
        ) => {
            match outcome {
                Ok(()) => ProcessStateView::AwaitingSubmission { message_id },
                Err(e) => ProcessStateView::Rejected(e),
            }
        },
        (ProcessStateView::AwaitingSubmission { .. }, ProcessEvent::Submitted(verdict)) => {
            ProcessStateView::Attested { verdict }
        },
        _ => state,
    }
}

impl ProcessState {
    /// What this state asks of the driver.
    pub fn action(&self) -> (action: ProcessAction)
        ensures
            action@ == pending_action(self@),
    {
        match *self {
            ProcessState::Captured => ProcessAction::AwaitAssignment,
            ProcessState::AwaitingAssignment => ProcessAction::FetchAssignment,
            ProcessState::AwaitingVerifiedState { message_id, .. } => ProcessAction::QueryVerified {
                message_id,
            },
            ProcessState::ConfirmationPending { destination_chain_id, attempt, .. } => {
                if attempt >= MAX_ATTEMPTS {
                    ProcessAction::Finish(Err(PipelineError::Timeout))
                } else if attempt == 0 {
                    ProcessAction::PollConfirmations { chain_id: destination_chain_id, delay: 0 }
                } else {
                    ProcessAction::PollConfirmations {
                        chain_id: destination_chain_id,
                        delay: delay_before(attempt),
                    }
                }
            },
            ProcessState::SecurityPending { message_id } => ProcessAction::VerifySecurity {
                message_id,
            },
            ProcessState::AwaitingSubmission { message_id } => ProcessAction::SubmitVerification {
                message_id,
            },
            ProcessState::Attested { verdict } => ProcessAction::Finish(Ok(verdict)),
            ProcessState::NotSelected => ProcessAction::Finish(Ok(false)),
            ProcessState::Rejected(e) => ProcessAction::Finish(Err(e)),
        }
    }
}

/// The state that follows `state` on `event`, by the node's configuration
/// and its store.
fn advance(state: ProcessState, event: ProcessEvent, ctx: &DvnContext) -> (next: ProcessState)
    ensures
        next@ == next_state(state@, event, *ctx),
{
    match state {
        ProcessState::Captured => match event {
            ProcessEvent::Assigned { required_dvns, optional_dvns } => {
                if is_selected(&ctx.my_address, &required_dvns, &optional_dvns) {
                    ProcessState::AwaitingAssignment
                } else {
                    ProcessState::NotSelected
                }
            },
            _ => state,
        },
        ProcessState::AwaitingAssignment => match event {
            ProcessEvent::AssignmentDecoded(params) => {
                let message_id = calculate_message_id_from_params(&params);
                match ctx.store.get(&message_id) {
                    None => ProcessState::Rejected(PipelineError::PacketNotFound),
                    Some(stored_packet) => match verify_packet_params(stored_packet, &params) {
                        Err(e) => ProcessState::Rejected(e),
                        Ok(()) => ProcessState::AwaitingVerifiedState {
                            message_id,
                            destination_chain_id: stored_packet.packet.destination_chain_id,
                        },
                    },
                }
            },
            ProcessEvent::AssignmentUnreadable => ProcessState::Rejected(
                PipelineError::DecodeError,
            ),
            _ => state,
        },
        ProcessState::AwaitingVerifiedState { message_id, destination_chain_id } => match event {
            ProcessEvent::VerifiedState(already) => {
                if already {
                    ProcessState::Attested { verdict: true }
                } else {
                    ProcessState::ConfirmationPending {
                        message_id,
                        destination_chain_id,
                        attempt: 0,
                    }
                }
            },
            _ => state,
        },
        ProcessState::ConfirmationPending { message_id, destination_chain_id, attempt } => match event {
            ProcessEvent::Confirmations(confirmations) => {
                match wait_for_confirmations(attempt, confirmations, ctx.required_confirmations) {
                    GateDecision::Confirmed => ProcessState::SecurityPending { message_id },
                    GateDecision::Retry { attempt: next, .. } => ProcessState::ConfirmationPending {
                        message_id,
                        destination_chain_id,
                        attempt: next,
                    },
                    GateDecision::Timeout => ProcessState::Rejected(PipelineError::Timeout),
                }
            },
            _ => state,
        },
        ProcessState::SecurityPending { message_id } => match event {
            ProcessEvent::SecurityChecked(outcome) => match outcome {
                Ok(()) => ProcessState::AwaitingSubmission { message_id },
                Err(e) => ProcessState::Rejected(e),
            },
            _ => state,
        },
        ProcessState::AwaitingSubmission { message_id } => match event {
            ProcessEvent::Submitted(verdict) => ProcessState::Attested { verdict },
            _ => state,
        },
        _ => state,
    }
}

/// Phase 2, one decision at a time: the state that follows `state` on
/// `event`, and what that state asks of the driver.
///
/// An assignment that does not name this node ends the attempt with the
/// result `false`. For one that does, the parameters must lead to a stored
/// packet and agree with it. A message that the destination holds verified
/// already is attested without further checks. Otherwise the confirmation
/// gate, the security strategy and the submission follow in this order, and
/// a failure of any of them ends the attempt.
pub fn process_packet(state: ProcessState, event: ProcessEvent, ctx: &DvnContext) -> (next: (
    ProcessState,
    ProcessAction,
))
    ensures
        next.0@ == next_state(state@, event, *ctx),
        next.1@ == pending_action(next.0@),
{
    let following = advance(state, event, ctx);
    let action = following.action();
    (following, action)
}

/// The security strategy is asked for only after the confirmation gate has
/// opened: a state that asks for it follows only a wait whose poll reported
/// the required depth, or is that same state left unchanged by an event
/// that answers nothing.
pub proof fn lemma_security_follows_gate(state: ProcessStateView, event: ProcessEvent, ctx: DvnContext)
    requires
        next_state(state, event, ctx) is SecurityPending,
    ensures
        state is SecurityPending || (state is ConfirmationPending && (event
            matches ProcessEvent::Confirmations(confirmations) && confirmations
            >= ctx.required_confirmations)),
{
}

/// A finished attempt stays finished: no event moves the machine out of
/// `Attested`, `NotSelected` or `Rejected`.
pub proof fn lemma_terminal_states_absorb(state: ProcessStateView, event: ProcessEvent, ctx: DvnContext)
    requires
        state is Attested || state is NotSelected || state is Rejected,
    ensures
        next_state(state, event, ctx) == state,
{
}

/// An assignment that contradicts the stored packet is rejected at once: the
/// machine goes from the wait for parameters straight to `Rejected`, and
/// asks for no security check.
pub proof fn lemma_mismatch_rejects(params: AssignmentParams, ctx: DvnContext)
    requires
        ctx.store@.contains_key(params@.message_id()),
        params_check(ctx.store@[params@.message_id()], params@) is Err,
    ensures
        next_state(
            ProcessStateView::AwaitingAssignment,
            ProcessEvent::AssignmentDecoded(params),
            ctx,
        ) matches ProcessStateView::Rejected(PipelineError::ParamsMismatch(_)),
{
}

} // verus!
