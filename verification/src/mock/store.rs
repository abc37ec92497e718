//! The protocol store of the mock host.

use vstd::prelude::*;
use crate::channel::ChannelEnd;
use crate::client::{AnyClientState, AnyConsensusState};
use crate::commitment::{AcknowledgementCommitment, PacketCommitment, Receipt};
use crate::connection::ConnectionEnd;
use crate::height::Height;
use crate::identifier::{ClientId, ConnectionId, Sequence};
use crate::path::{ChannelEndPath, ChannelKey, ClientConsensusStatePath, ConsensusKey, PacketPath};
use crate::table::{Stored, Table};
use crate::timestamp::Timestamp;

verus! {

/// A table filed under port and channel.
pub type PortChannelIdMap<V> = Table<ChannelEndPath, V>;

/// What the mock host keeps of one client.
#[derive(Debug)]
pub struct MockClientRecord {
    /// The client state, which stands for the latest height only.
    pub client_state: Option<AnyClientState>,
    /// The consensus states of the client, by height.
    pub consensus_states: Table<Height, AnyConsensusState>,
}

/// What a client record holds.
pub struct MockClientRecordView {
    pub client_state: Option<AnyClientState>,
    pub consensus_states: Map<Height, AnyConsensusState>,
}

impl View for MockClientRecord {
    type V = MockClientRecordView;

    open spec fn view(&self) -> MockClientRecordView {
        MockClientRecordView {
            client_state: self.client_state,
            consensus_states: self.consensus_states@,
        }
    }
}

impl Clone for MockClientRecord {
    fn clone(&self) -> (r: MockClientRecord)
        ensures
            r@ == self@,
    {
        MockClientRecord {
            client_state: match &self.client_state {
                Some(cs) => Some(cs.clone()),
                None => None,
            },
            consensus_states: self.consensus_states.clone(),
        }
    }
}

impl Stored for MockClientRecord {
    fn duplicate(&self) -> (r: Self) {
        self.clone()
    }
}

impl MockClientRecord {
    /// A record with no client state and no consensus state.
    pub fn empty() -> (r: MockClientRecord)
        ensures
            r@ == (MockClientRecordView { client_state: None, consensus_states: Map::empty() }),
    {
        MockClientRecord { client_state: None, consensus_states: Table::new() }
    }
}

/// The channels that run over one connection.
#[derive(Debug)]
pub struct ChannelList {
    pub channels: Vec<ChannelEndPath>,
}

impl View for ChannelList {
    type V = Seq<ChannelKey>;

    open spec fn view(&self) -> Seq<ChannelKey> {
        Seq::new(self.channels@.len(), |i: int| self.channels@[i]@)
    }
}

impl Stored for ChannelList {
    fn duplicate(&self) -> (r: Self) {
        let mut out: Vec<ChannelEndPath> = Vec::new();
        let mut i: usize = 0;
        while i < self.channels.len()
            invariant
                i <= self.channels.len(),
                out@.len() == i,
                forall|j: int| 0 <= j < i ==> out@[j]@ == self.channels@[j]@,
            decreases self.channels.len() - i,
        {
            out.push(self.channels[i].clone());
            i += 1;
        }
        let r = ChannelList { channels: out };
        assert(r@ =~= self@);
        r
    }
}

/// Everything that the protocol has stored on the mock host.
#[derive(Debug)]
pub struct MockIbcStore {
    /// The clients, by identifier.
    pub clients: Table<ClientId, MockClientRecord>,
    /// The host time at which each consensus state was stored.
    pub client_processed_times: Table<ClientConsensusStatePath, Timestamp>,
    /// The host height at which each consensus state was stored.
    pub client_processed_heights: Table<ClientConsensusStatePath, Height>,
    /// The number that the next client gets.
    pub client_ids_counter: u64,
    /// The connection of each client.
    pub client_connections: Table<ClientId, ConnectionId>,
    /// The connection ends, by identifier.
    pub connections: Table<ConnectionId, ConnectionEnd>,
    /// The number that the next connection gets.
    pub connection_ids_counter: u64,
    /// The channels of each connection.
    pub connection_channels: Table<ConnectionId, ChannelList>,
    /// The number that the next channel gets.
    pub channel_ids_counter: u64,
    /// The channel ends.
    pub channels: PortChannelIdMap<ChannelEnd>,
    /// The sequence number of the next packet to be sent on each channel.
    pub next_sequence_send: PortChannelIdMap<Sequence>,
    /// The sequence number of the next packet to be received on each channel.
    pub next_sequence_recv: PortChannelIdMap<Sequence>,
    /// The sequence number of the next packet to be acknowledged on each
    /// channel.
    pub next_sequence_ack: PortChannelIdMap<Sequence>,
    /// The commitments of the acknowledgements written.
    pub packet_acknowledgement: Table<PacketPath, AcknowledgementCommitment>,
    /// The commitments of the packets sent and not yet settled.
    pub packet_commitment: Table<PacketPath, PacketCommitment>,
    /// The receipts of the packets received on unordered channels.
    pub packet_receipt: Table<PacketPath, Receipt>,
}

impl MockIbcStore {
    /// The latest state of each client that has one.
    pub open spec fn client_states(self) -> Map<ClientId, AnyClientState> {
        Map::new(
            |id: ClientId| self.clients@.contains_key(id) && self.clients@[id].client_state is Some,
            |id: ClientId| self.clients@[id].client_state.unwrap(),
        )
    }

    /// The consensus states of all clients.
    pub open spec fn consensus_states(self) -> Map<ConsensusKey, AnyConsensusState> {
        Map::new(
            |k: ConsensusKey|
                self.clients@.contains_key(k.0) && self.clients@[k.0].consensus_states.contains_key(
                    k.1,
                ),
            |k: ConsensusKey| self.clients@[k.0].consensus_states[k.1],
        )
    }

    /// The store that holds nothing.
    pub fn new() -> (r: MockIbcStore)
        ensures
            r.is_empty(),
    {
        MockIbcStore {
            clients: Table::new(),
            client_processed_times: Table::new(),
            client_processed_heights: Table::new(),
            client_ids_counter: 0,
            client_connections: Table::new(),
            connections: Table::new(),
            connection_ids_counter: 0,
            connection_channels: Table::new(),
            channel_ids_counter: 0,
            channels: Table::new(),
            next_sequence_send: Table::new(),
            next_sequence_recv: Table::new(),
            next_sequence_ack: Table::new(),
            packet_acknowledgement: Table::new(),
            packet_commitment: Table::new(),
            packet_receipt: Table::new(),
        }
    }

    /// Nothing is stored and every counter stands at zero.
    pub open spec fn is_empty(self) -> bool {
        &&& self.clients@ == Map::<ClientId, MockClientRecordView>::empty()
        &&& self.client_processed_times@ == Map::<ConsensusKey, Timestamp>::empty()
        &&& self.client_processed_heights@ == Map::<ConsensusKey, Height>::empty()
        &&& self.client_ids_counter == 0
        &&& self.client_connections@ == Map::<ClientId, ConnectionId>::empty()
        &&& self.connections@ == Map::<
            ConnectionId,
            crate::connection::ConnectionEndView,
        >::empty()
        &&& self.connection_ids_counter == 0
        &&& self.connection_channels@ == Map::<ConnectionId, Seq<ChannelKey>>::empty()
        &&& self.channel_ids_counter == 0
        &&& self.channels@ == Map::<ChannelKey, crate::channel::ChannelEndView>::empty()
        &&& self.next_sequence_send@ == Map::<ChannelKey, Sequence>::empty()
        &&& self.next_sequence_recv@ == Map::<ChannelKey, Sequence>::empty()
        &&& self.next_sequence_ack@ == Map::<ChannelKey, Sequence>::empty()
        &&& self.packet_acknowledgement@ == Map::<crate::path::PacketKey, Seq<u8>>::empty()
        &&& self.packet_commitment@ == Map::<crate::path::PacketKey, Seq<u8>>::empty()
        &&& self.packet_receipt@ == Map::<crate::path::PacketKey, Receipt>::empty()
    }

    /// What the protocol state does not show is the same in both stores: the
    /// records of the clients, those without a client state among them, the
    /// connection of each client and the channels of each connection.
    pub open spec fn same_beside_state(self, other: MockIbcStore) -> bool {
        &&& self.clients@ == other.clients@
        &&& self.client_connections@ == other.client_connections@
        &&& self.connection_channels@ == other.connection_channels@
    }

    /// Both stores hold the same.
    pub open spec fn same_contents(self, other: MockIbcStore) -> bool {
        &&& self.clients@ == other.clients@
        &&& self.client_processed_times@ == other.client_processed_times@
        &&& self.client_processed_heights@ == other.client_processed_heights@
        &&& self.client_ids_counter == other.client_ids_counter
        &&& self.client_connections@ == other.client_connections@
        &&& self.connections@ == other.connections@
        &&& self.connection_ids_counter == other.connection_ids_counter
        &&& self.connection_channels@ == other.connection_channels@
        &&& self.channel_ids_counter == other.channel_ids_counter
        &&& self.channels@ == other.channels@
        &&& self.next_sequence_send@ == other.next_sequence_send@
        &&& self.next_sequence_recv@ == other.next_sequence_recv@
        &&& self.next_sequence_ack@ == other.next_sequence_ack@
        &&& self.packet_acknowledgement@ == other.packet_acknowledgement@
        &&& self.packet_commitment@ == other.packet_commitment@
        &&& self.packet_receipt@ == other.packet_receipt@
    }
}

impl Default for MockIbcStore {
    fn default() -> (r: MockIbcStore)
        ensures
            r.is_empty(),
    {
        MockIbcStore::new()
    }
}

impl Clone for MockIbcStore {
    fn clone(&self) -> (r: MockIbcStore)
        ensures
            r.same_contents(*self),
    {
        MockIbcStore {
            clients: self.clients.clone(),
            client_processed_times: self.client_processed_times.clone(),
            client_processed_heights: self.client_processed_heights.clone(),
            client_ids_counter: self.client_ids_counter,
            client_connections: self.client_connections.clone(),
            connections: self.connections.clone(),
            connection_ids_counter: self.connection_ids_counter,
            connection_channels: self.connection_channels.clone(),
            channel_ids_counter: self.channel_ids_counter,
            channels: self.channels.clone(),
            next_sequence_send: self.next_sequence_send.clone(),
            next_sequence_recv: self.next_sequence_recv.clone(),
            next_sequence_ack: self.next_sequence_ack.clone(),
            packet_acknowledgement: self.packet_acknowledgement.clone(),
            packet_commitment: self.packet_commitment.clone(),
            packet_receipt: self.packet_receipt.clone(),
        }
    }
}

} // verus!
