//! A node's configuration and its packet store.

use crate::bytes::Address;
use crate::security::SecurityType;
use crate::store::PacketStore;
use vstd::prelude::*;

verus! {

/// What a node knows for its whole life: who it is, what it asks of a
/// packet, and the packets it has captured.
pub struct DvnContext {
    /// The chain that the node attests on.
    pub chain_id: u64,
    /// The node's own address, by which assignments name it.
    pub my_address: Address,
    /// The captured packets.
    pub store: PacketStore,
    /// The confirmation depth asked of the destination chain.
    pub required_confirmations: u64,
    /// The destination's verification library.
    pub receive_lib: Address,
    pub price_feed: Address,
    pub default_multiplier_bps: u16,
    /// The security strategy, one for the node.
    pub security_type: SecurityType,
}

impl DvnContext {
    /// A context over `store` with nothing configured: zero addresses, no
    /// confirmations asked, and a multi-party strategy without participants.
    pub fn new(chain_id: u64, store: PacketStore) -> (ctx: Self)
        ensures
            ctx.chain_id == chain_id,
            ctx.store@ == store@,
            ctx.my_address@ == Seq::new(20, |i: int| 0u8),
            ctx.receive_lib@ == Seq::new(20, |i: int| 0u8),
            ctx.price_feed@ == Seq::new(20, |i: int| 0u8),
            ctx.required_confirmations == 0,
            ctx.default_multiplier_bps == 0,
            ctx.security_type matches SecurityType::Mpc { participants, threshold }
                && participants@.len() == 0 && threshold == 0,
    {
        let zero: Address = [0u8; 20];
        assert(zero@ =~= Seq::new(20, |i: int| 0u8));
        Self {
            chain_id,
            my_address: zero,
            store,
            required_confirmations: 0,
            receive_lib: zero,
            price_feed: zero,
            default_multiplier_bps: 0,
            security_type: SecurityType::Mpc { participants: Vec::new(), threshold: 0 },
        }
    }
}

} // verus!
