//! The packet store: captured packets under their identifiers.

use crate::bytes::bytes_eq;
use crate::error::PipelineError;
use crate::packet::{MessageId, Packet, PacketView};
use vstd::prelude::*;

verus! {

/// A captured packet with the options it was sent with and the time of
/// capture, in seconds since the Unix epoch.
#[derive(Debug, Clone, PartialEq, Eq)]
pub struct StoredPacket {
    pub packet: Packet,
    pub options: Vec<u8>,
    pub timestamp: u64,
}

/// A stored packet as a mathematical value.
pub struct StoredPacketView {
    pub packet: PacketView,
    pub options: Seq<u8>,
    pub timestamp: u64,
}

impl View for StoredPacket {
    type V = StoredPacketView;

    open spec fn view(&self) -> StoredPacketView {
        StoredPacketView {
            packet: self.packet@,
            options: self.options@,
            timestamp: self.timestamp,
        }
    }
}

/// What `put` makes of a store: the store afterwards, and the answer.
///
/// A new identifier gets its entry. An identifier that already holds the same
/// packet keeps its entry as it is. One that holds another packet keeps it
/// too, and the answer is `DuplicateKey`.
pub open spec fn put_outcome(
    store: Map<Seq<u8>, StoredPacketView>,
    id: Seq<u8>,
    stored: StoredPacketView,
) -> (Map<Seq<u8>, StoredPacketView>, Result<(), PipelineError>) {
    if !store.contains_key(id) {
        (store.insert(id, stored), Ok(()))
    } else if store[id].packet == stored.packet {
        (store, Ok(()))
    } else {
        (store, Err(PipelineError::DuplicateKey))
    }
}

/// Storing the same packet under the same identifier a second time changes
/// nothing and is answered as the first time.
pub proof fn lemma_put_idempotent(
    store: Map<Seq<u8>, StoredPacketView>,
    id: Seq<u8>,
    stored: StoredPacketView,
)
    ensures
        put_outcome(put_outcome(store, id, stored).0, id, stored) == put_outcome(store, id, stored),
{
}

/// Storing a different packet under an identifier in use fails with
/// `DuplicateKey` and leaves the store as it was.
pub proof fn lemma_put_collision(
    store: Map<Seq<u8>, StoredPacketView>,
    id: Seq<u8>,
    stored: StoredPacketView,
)
    requires
        store.contains_key(id),
        store[id].packet != stored.packet,
    ensures
        put_outcome(store, id, stored) == (store, Err::<(), PipelineError>(PipelineError::DuplicateKey)),
{
}

/// Do the two packets agree field by field?
pub fn same_packet(a: &Packet, b: &Packet) -> (same: bool)
    ensures
        same == (a@ == b@),
{
    a.nonce == b.nonce && a.source_chain_id == b.source_chain_id && bytes_eq(
        a.sender.as_slice(),
        b.sender.as_slice(),
    ) && a.destination_chain_id == b.destination_chain_id && bytes_eq(
        a.receiver.as_slice(),
        b.receiver.as_slice(),
    ) && bytes_eq(a.message.as_slice(), b.message.as_slice())
}

struct StoreEntry {
    id: MessageId,
    stored: StoredPacket,
}

/// The map that a list of entries with different identifiers stands for.
spec fn entries_map(entries: Seq<StoreEntry>) -> Map<Seq<u8>, StoredPacketView>
    decreases entries.len(),
{
    if entries.len() == 0 {
        Map::empty()
    } else {
        entries_map(entries.drop_last()).insert(entries.last().id@, entries.last().stored@)
    }
}

spec fn ids_distinct(entries: Seq<StoreEntry>) -> bool {
    forall|i: int, j: int| 0 <= i < j < entries.len() ==> entries[i].id@ != entries[j].id@
}

proof fn lemma_entries_map_keys(entries: Seq<StoreEntry>, id: Seq<u8>)
    ensures
        entries_map(entries).contains_key(id) <==> exists|i: int|
            0 <= i < entries.len() && entries[i].id@ == id,
    decreases entries.len(),
{
    if entries.len() > 0 {
        lemma_entries_map_keys(entries.drop_last(), id);
        if entries_map(entries).contains_key(id) {
            if entries.last().id@ == id {
                assert(entries[entries.len() - 1].id@ == id);
            } else {
                let i = choose|i: int|
                    0 <= i < entries.drop_last().len() && entries.drop_last()[i].id@ == id;
                assert(entries[i].id@ == id);
            }
        }
        if exists|i: int| 0 <= i < entries.len() && entries[i].id@ == id {
            let i = choose|i: int| 0 <= i < entries.len() && entries[i].id@ == id;
            if i < entries.len() - 1 {
                assert(entries.drop_last()[i].id@ == id);
            }
        }
    }
}

proof fn lemma_entries_map_value(entries: Seq<StoreEntry>, i: int)
    requires
        ids_distinct(entries),
        0 <= i < entries.len(),
    ensures
        entries_map(entries).contains_key(entries[i].id@),
        entries_map(entries)[entries[i].id@] == entries[i].stored@,
    decreases entries.len(),
{
    if i < entries.len() - 1 {
        assert(ids_distinct(entries.drop_last())) by {
            assert forall|a: int, b: int| 0 <= a < b < entries.drop_last().len() implies entries.drop_last()[a].id@
                != entries.drop_last()[b].id@ by {
                assert(entries[a].id@ != entries[b].id@);
            }
        }
        lemma_entries_map_value(entries.drop_last(), i);
        assert(entries.drop_last()[i] == entries[i]);
        assert(entries[i].id@ != entries[entries.len() - 1].id@);
    }
}

/// Captured packets, each under the identifier derived from it.
pub struct PacketStore {
    entries: Vec<StoreEntry>,
}

impl View for PacketStore {
    type V = Map<Seq<u8>, StoredPacketView>;

    closed spec fn view(&self) -> Map<Seq<u8>, StoredPacketView> {
        entries_map(self.entries@)
    }
}

impl PacketStore {
    #[verifier::type_invariant]
    spec fn well_formed(&self) -> bool {
        ids_distinct(self.entries@)
    }

    /// An empty store.
    pub fn new() -> (store: Self)
        ensures
            store@ == Map::<Seq<u8>, StoredPacketView>::empty(),
    {
        Self { entries: Vec::new() }
    }

    /// The place of the entry under `id`, if there is one.
    fn position(&self, id: &MessageId) -> (place: Option<usize>)
        ensures
            match place {
                Some(i) => i < self.entries@.len() && self.entries@[i as int].id@ == id@,
                None => forall|j: int| 0 <= j < self.entries@.len() ==> self.entries@[j].id@ != id@,
            },
    {
        let mut i: usize = 0;
        while i < self.entries.len()
            invariant
                i <= self.entries@.len(),
                forall|j: int| 0 <= j < i ==> self.entries@[j].id@ != id@,
            decreases self.entries@.len() - i,
        {
            if bytes_eq(self.entries[i].id.as_slice(), id.as_slice()) {
                return Some(i);
            }
            i += 1;
        }
        None
    }

    /// The number of stored packets.
    pub fn len(&self) -> (count: usize)
        ensures
            count == self@.dom().len(),
            self@.dom().finite(),
    {
        proof {
            use_type_invariant(self);
            lemma_entries_map_len(self.entries@);
        }
        self.entries.len()
    }

    /// Is a packet stored under `id`?
    pub fn contains(&self, id: &MessageId) -> (found: bool)
        ensures
            found == self@.contains_key(id@),
    {
        proof {
            lemma_entries_map_keys(self.entries@, id@);
        }
        self.position(id).is_some()
    }

    /// The packet stored under `id`, if there is one.
    pub fn get(&self, id: &MessageId) -> (found: Option<&StoredPacket>)
        ensures
            match found {
                Some(stored) => self@.contains_key(id@) && self@[id@] == stored@,
                None => !self@.contains_key(id@),
            },
    {
        proof {
            use_type_invariant(self);
            lemma_entries_map_keys(self.entries@, id@);
        }
        match self.position(id) {
            Some(i) => {
                proof {
                    lemma_entries_map_value(self.entries@, i as int);
                }
                Some(&self.entries[i].stored)
            },
            None => None,
        }
    }

    /// Stores `stored` under `id`.
    ///
    /// A second `put` of the same packet under the same identifier is
    /// accepted and changes nothing; a different packet under an identifier
    /// in use is refused with `DuplicateKey`.
    pub fn put(&mut self, id: MessageId, stored: StoredPacket) -> (done: Result<(), PipelineError>)
        ensures
            (final(self)@, done) == put_outcome(old(self)@, id@, stored@),
    {
        proof {
            use_type_invariant(&*self);
            lemma_entries_map_keys(self.entries@, id@);
        }
        match self.position(&id) {
            Some(i) => {
                proof {
                    lemma_entries_map_value(self.entries@, i as int);
                }
                if same_packet(&self.entries[i].stored.packet, &stored.packet) {
                    Ok(())
                } else {
                    Err(PipelineError::DuplicateKey)
                }
            },
            None => {
                let mut entries: Vec<StoreEntry> = Vec::new();
                core::mem::swap(&mut entries, &mut self.entries);
                let ghost before = entries@;
                entries.push(StoreEntry { id, stored });
                proof {
                    assert(entries@.drop_last() =~= before);
                }
                self.entries = entries;
                Ok(())
            },
        }
    }
}

proof fn lemma_entries_map_len(entries: Seq<StoreEntry>)
    requires
        ids_distinct(entries),
    ensures
        entries_map(entries).dom().finite(),
        entries_map(entries).dom().len() == entries.len(),
    decreases entries.len(),
{
    if entries.len() > 0 {
        assert(ids_distinct(entries.drop_last())) by {
            assert forall|a: int, b: int| 0 <= a < b < entries.drop_last().len() implies entries.drop_last()[a].id@
                != entries.drop_last()[b].id@ by {
                assert(entries[a].id@ != entries[b].id@);
            }
        }
        lemma_entries_map_len(entries.drop_last());
        lemma_entries_map_keys(entries.drop_last(), entries.last().id@);
        assert(!entries_map(entries.drop_last()).contains_key(entries.last().id@)) by {
            if exists|i: int|
                0 <= i < entries.drop_last().len() && entries.drop_last()[i].id@
                    == entries.last().id@ {
                let i = choose|i: int|
                    0 <= i < entries.drop_last().len() && entries.drop_last()[i].id@
                        == entries.last().id@;
                assert(entries[i].id@ != entries[entries.len() - 1].id@);
            }
        }
    }
}

} // verus!
