//! Packet verification for a decentralized verifier network node.
//!
//! A node captures the packets sent on a source chain and, when it is
//! assigned to one, waits for the destination chain's confirmations, runs
//! its security strategy on the packet and attests the result.

pub mod bytes;
pub mod confirmation;
pub mod context;
pub mod error;
pub mod hash;
pub mod packet;
pub mod pipeline;
pub mod process;
pub mod security;
pub mod store;

pub use bytes::{Address, Bytes32};
pub use confirmation::{wait_for_confirmations, GateDecision, INITIAL_DELAY, MAX_ATTEMPTS};
pub use context::DvnContext;
pub use error::{Mismatch, PipelineError, RetryAdvice};
pub use packet::{
    calculate_message_id,
    calculate_message_id_from_params,
    encode_packet_header,
    AssignmentParams,
    MessageId,
    Packet,
};
pub use pipeline::{is_selected, store_packet, verify_packet_params, verify_security};
pub use process::{process_packet, ProcessAction, ProcessEvent, ProcessState};
pub use security::{
    CryptoBackend,
    Evidence,
    MpcProof,
    MpcVerifier,
    OracleResponse,
    OracleVerifier,
    SecurityType,
    SecurityVerifier,
    SignatureVerifier,
    VerificationContext,
    VerificationError,
    ZkProofVerifier,
};
pub use store::{PacketStore, StoredPacket};

use vstd::prelude::*;
use vstd::string::{StrSliceExecFns, StringExecFns};

verus! {

/// The path of the directory `data` under `base`: `base`, a separator
/// unless `base` is empty or ends in one, and `data`.
pub open spec fn data_dir_under(base: Seq<char>) -> Seq<char> {
    if base.len() == 0 {
        "data"@
    } else if base.last() == '/' {
        base + "data"@
    } else {
        base + "/data"@
    }
}

/// Where a node keeps its data unless told otherwise: the directory `data`
/// under the directory of the package's manifest.
pub fn default_data_dir(manifest_dir: &str) -> (dir: String)
    ensures
        dir@ == data_dir_under(manifest_dir@),
{
    let len = manifest_dir.unicode_len();
    if len == 0 {
        String::from_str("data")
    } else if manifest_dir.get_char(len - 1) == '/' {
        String::from_str(manifest_dir).concat("data")
    } else {
        String::from_str(manifest_dir).concat("/data")
    }
}

} // verus!
