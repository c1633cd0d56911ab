//! Cross-chain packets and the canonical identifier derived from them.
//!
//! A message is identified by the digest of its 81-byte header followed by
//! the digest of its payload. The header is
//! `version (1) ‖ nonce (8) ‖ source chain (4) ‖ sender (32) ‖
//! destination chain (4) ‖ receiver (32)`, integers big-endian.

use crate::bytes::{be_bytes, lemma_be_bytes_len, push_bytes, push_u32_be, push_u64_be, Bytes32};
use crate::hash::{keccak256, keccak256_digest};
use vstd::prelude::*;

verus! {

/// The version byte that opens every packet header.
pub const PACKET_VERSION: u8 = 1;

/// The length of a packet header in bytes.
pub const PACKET_HEADER_LEN: usize = 81;

/// The identifier of a message: 32 bytes derived from its content.
pub type MessageId = [u8; 32];

/// A cross-chain message as sent on the source chain.
#[derive(Debug, Clone, PartialEq, Eq)]
pub struct Packet {
    pub nonce: u64,
    pub source_chain_id: u32,
    pub sender: Bytes32,
    pub destination_chain_id: u32,
    pub receiver: Bytes32,
    pub message: Vec<u8>,
}

/// The parameters of a verifier assignment: the packet's routing fields and
/// the digest of its payload, without the payload itself.
#[derive(Debug, Clone, PartialEq, Eq)]
pub struct AssignmentParams {
    pub nonce: u64,
    pub source_chain_id: u32,
    pub sender: Bytes32,
    pub destination_chain_id: u32,
    pub receiver: Bytes32,
    pub payload_hash: Bytes32,
}

/// A packet as a mathematical value.
pub struct PacketView {
    pub nonce: u64,
    pub source_chain_id: u32,
    pub sender: Seq<u8>,
    pub destination_chain_id: u32,
    pub receiver: Seq<u8>,
    pub message: Seq<u8>,
}

/// Assignment parameters as a mathematical value.
pub struct AssignmentParamsView {
    pub nonce: u64,
    pub source_chain_id: u32,
    pub sender: Seq<u8>,
    pub destination_chain_id: u32,
    pub receiver: Seq<u8>,
    pub payload_hash: Seq<u8>,
}

/// The header bytes for the given routing fields.
pub open spec fn header_bytes(
    nonce: u64,
    source_chain_id: u32,
    sender: Seq<u8>,
    destination_chain_id: u32,
    receiver: Seq<u8>,
) -> Seq<u8> {
    seq![PACKET_VERSION] + be_bytes(nonce as nat, 8) + be_bytes(source_chain_id as nat, 4) + sender
        + be_bytes(destination_chain_id as nat, 4) + receiver
}

/// The identifier of the message with the given header and payload digest.
pub open spec fn message_id(header: Seq<u8>, payload_hash: Seq<u8>) -> Seq<u8> {
    keccak256_digest(header + payload_hash)
}

impl PacketView {
    /// The packet's header.
    pub open spec fn header(self) -> Seq<u8> {
        header_bytes(
            self.nonce,
            self.source_chain_id,
            self.sender,
            self.destination_chain_id,
            self.receiver,
        )
    }

    /// The digest of the packet's payload.
    pub open spec fn payload_hash(self) -> Seq<u8> {
        keccak256_digest(self.message)
    }

    /// The packet's identifier.
    pub open spec fn message_id(self) -> Seq<u8> {
        message_id(self.header(), self.payload_hash())
    }
}

impl AssignmentParamsView {
    /// The header of the packet that the parameters speak of.
    pub open spec fn header(self) -> Seq<u8> {
        header_bytes(
            self.nonce,
            self.source_chain_id,
            self.sender,
            self.destination_chain_id,
            self.receiver,
        )
    }

    /// The identifier of the packet that the parameters speak of.
    pub open spec fn message_id(self) -> Seq<u8> {
        message_id(self.header(), self.payload_hash)
    }

    /// Do the parameters describe `packet`: the same routing fields, and the
    /// digest of its payload?
    pub open spec fn describes(self, packet: PacketView) -> bool {
        &&& self.nonce == packet.nonce
        &&& self.source_chain_id == packet.source_chain_id
        &&& self.sender == packet.sender
        &&& self.destination_chain_id == packet.destination_chain_id
        &&& self.receiver == packet.receiver
        &&& self.payload_hash == packet.payload_hash()
    }
}

impl View for Packet {
    type V = PacketView;

    open spec fn view(&self) -> PacketView {
        PacketView {
            nonce: self.nonce,
            source_chain_id: self.source_chain_id,
            sender: self.sender@,
            destination_chain_id: self.destination_chain_id,
            receiver: self.receiver@,
            message: self.message@,
        }
    }
}

impl View for AssignmentParams {
    type V = AssignmentParamsView;

    open spec fn view(&self) -> AssignmentParamsView {
        AssignmentParamsView {
            nonce: self.nonce,
            source_chain_id: self.source_chain_id,
            sender: self.sender@,
            destination_chain_id: self.destination_chain_id,
            receiver: self.receiver@,
            payload_hash: self.payload_hash@,
        }
    }
}

/// A header over 32-byte addresses is 81 bytes long.
pub proof fn lemma_header_len(
    nonce: u64,
    source_chain_id: u32,
    sender: Seq<u8>,
    destination_chain_id: u32,
    receiver: Seq<u8>,
)
    requires
        sender.len() == 32,
        receiver.len() == 32,
    ensures
        header_bytes(nonce, source_chain_id, sender, destination_chain_id, receiver).len()
            == PACKET_HEADER_LEN,
{
    lemma_be_bytes_len(nonce as nat, 8);
    lemma_be_bytes_len(source_chain_id as nat, 4);
    lemma_be_bytes_len(destination_chain_id as nat, 4);
}

/// Writes the header for the given routing fields.
fn encode_header(
    nonce: u64,
    source_chain_id: u32,
    sender: &Bytes32,
    destination_chain_id: u32,
    receiver: &Bytes32,
) -> (header: Vec<u8>)
    ensures
        header@ == header_bytes(nonce, source_chain_id, sender@, destination_chain_id, receiver@),
        header@.len() == PACKET_HEADER_LEN,
{
    let mut data: Vec<u8> = Vec::with_capacity(PACKET_HEADER_LEN);
    data.push(PACKET_VERSION);
    assert(data@ =~= seq![PACKET_VERSION]);
    push_u64_be(&mut data, nonce);
    push_u32_be(&mut data, source_chain_id);
    push_bytes(&mut data, sender.as_slice());
    push_u32_be(&mut data, destination_chain_id);
    push_bytes(&mut data, receiver.as_slice());
    proof {
        lemma_header_len(nonce, source_chain_id, sender@, destination_chain_id, receiver@);
    }
    data
}

/// The header of `packet`.
pub fn encode_packet_header(packet: &Packet) -> (header: Vec<u8>)
    ensures
        header@ == packet@.header(),
        header@.len() == PACKET_HEADER_LEN,
{
    encode_header(
        packet.nonce,
        packet.source_chain_id,
        &packet.sender,
        packet.destination_chain_id,
        &packet.receiver,
    )
}

/// The digest of a header followed by a payload digest.
fn digest_header_and_payload(header: Vec<u8>, payload_hash: &Bytes32) -> (id: MessageId)
    ensures
        id@ == message_id(header@, payload_hash@),
{
    let mut message_data = header;
    push_bytes(&mut message_data, payload_hash.as_slice());
    keccak256(message_data.as_slice())
}

/// The identifier of `packet`: the digest of its header followed by the
/// digest of its payload.
pub fn calculate_message_id(packet: &Packet) -> (id: MessageId)
    ensures
        id@ == packet@.message_id(),
{
    let packet_header = encode_packet_header(packet);
    let payload_hash = keccak256(packet.message.as_slice());
    digest_header_and_payload(packet_header, &payload_hash)
}

/// The identifier of the packet that `params` speak of: the digest of the
/// same header followed by the payload digest that `params` carry.
pub fn calculate_message_id_from_params(params: &AssignmentParams) -> (id: MessageId)
    ensures
        id@ == params@.message_id(),
{
    let header_data = encode_header(
        params.nonce,
        params.source_chain_id,
        &params.sender,
        params.destination_chain_id,
        &params.receiver,
    );
    digest_header_and_payload(header_data, &params.payload_hash)
}

/// The identifier depends on nothing but the packet's fields: packets that
/// agree field by field have the same identifier, whenever and wherever it
/// is computed.
pub proof fn lemma_message_id_deterministic(p: Packet, q: Packet)
    requires
        p@ == q@,
    ensures
        p@.message_id() == q@.message_id(),
{
}

/// Parameters that describe a packet give that packet's identifier.
pub proof fn lemma_message_id_cross_consistent(packet: Packet, params: AssignmentParams)
    requires
        params@.describes(packet@),
    ensures
        packet@.message_id() == params@.message_id(),
{
}

} // verus!
