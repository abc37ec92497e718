//! The protocol state of a host chain as a mathematical object: what the
//! contracts of the context interfaces and of the handlers speak of.

use vstd::prelude::*;
use crate::channel::ChannelEndView;
use crate::client::{AnyClientState, AnyConsensusState};
use crate::commitment::Receipt;
use crate::connection::ConnectionEndView;
use crate::error::{ChannelError, ClientError, ConnectionError, ContextError, PacketError};
use crate::events::IbcEventView;
use crate::height::Height;
use crate::identifier::{ClientId, ConnectionId, Sequence};
use crate::path::{ChannelKey, ConsensusKey, PacketKey};
use crate::timestamp::Timestamp;

verus! {

/// Everything that the protocol knows on one chain.
pub struct HostState {
    /// The height of the chain's latest block.
    pub host_height: Height,
    /// The time of the chain's latest block.
    pub host_timestamp: Timestamp,
    /// The latest state of each client.
    pub clients: Map<ClientId, AnyClientState>,
    /// The consensus states of each client, by height. Entries are added and
    /// never changed.
    pub consensus_states: Map<ConsensusKey, AnyConsensusState>,
    /// The host time at which each consensus state was stored.
    pub update_times: Map<ConsensusKey, Timestamp>,
    /// The host height at which each consensus state was stored.
    pub update_heights: Map<ConsensusKey, Height>,
    /// The number that the next client gets.
    pub client_counter: u64,
    pub connections: Map<ConnectionId, ConnectionEndView>,
    /// The number that the next connection gets.
    pub connection_counter: u64,
    pub channels: Map<ChannelKey, ChannelEndView>,
    /// The number that the next channel gets.
    pub channel_counter: u64,
    pub next_sequence_send: Map<ChannelKey, Sequence>,
    pub next_sequence_recv: Map<ChannelKey, Sequence>,
    pub next_sequence_ack: Map<ChannelKey, Sequence>,
    /// The commitments of packets sent and not yet settled.
    pub packet_commitments: Map<PacketKey, Seq<u8>>,
    /// The receipts of packets received on unordered channels.
    pub packet_receipts: Map<PacketKey, Receipt>,
    /// The commitments of acknowledgements written.
    pub packet_acknowledgements: Map<PacketKey, Seq<u8>>,
    /// The events reported so far, oldest first.
    pub events: Seq<IbcEventView>,
    /// The log lines written so far, oldest first.
    pub logs: Seq<Seq<char>>,
}

impl HostState {
    pub open spec fn client_state(self, id: ClientId) -> Result<AnyClientState, ContextError> {
        if self.clients.contains_key(id) {
            Ok(self.clients[id])
        } else {
            Err(ContextError::Client(ClientError::ClientNotFound))
        }
    }

    pub open spec fn consensus_state(self, key: ConsensusKey) -> Result<
        AnyConsensusState,
        ContextError,
    > {
        if self.consensus_states.contains_key(key) {
            Ok(self.consensus_states[key])
        } else {
            Err(ContextError::Client(ClientError::ConsensusStateNotFound))
        }
    }

    pub open spec fn client_update_time(self, key: ConsensusKey) -> Result<Timestamp, ContextError> {
        if self.update_times.contains_key(key) {
            Ok(self.update_times[key])
        } else {
            Err(ContextError::Client(ClientError::ProcessedTimeNotFound))
        }
    }

    pub open spec fn client_update_height(self, key: ConsensusKey) -> Result<Height, ContextError> {
        if self.update_heights.contains_key(key) {
            Ok(self.update_heights[key])
        } else {
            Err(ContextError::Client(ClientError::ProcessedHeightNotFound))
        }
    }

    pub open spec fn connection_end(self, id: ConnectionId) -> Result<
        ConnectionEndView,
        ContextError,
    > {
        if self.connections.contains_key(id) {
            Ok(self.connections[id])
        } else {
            Err(ContextError::Connection(ConnectionError::ConnectionNotFound))
        }
    }

    pub open spec fn channel_end(self, key: ChannelKey) -> Result<ChannelEndView, ContextError> {
        if self.channels.contains_key(key) {
            Ok(self.channels[key])
        } else {
            Err(ContextError::Channel(ChannelError::ChannelNotFound))
        }
    }

    pub open spec fn lookup_sequence(m: Map<ChannelKey, Sequence>, key: ChannelKey) -> Result<
        Sequence,
        ContextError,
    > {
        if m.contains_key(key) {
            Ok(m[key])
        } else {
            Err(ContextError::Packet(PacketError::SequenceNotFound))
        }
    }

    pub open spec fn packet_commitment(self, key: PacketKey) -> Result<Seq<u8>, ContextError> {
        if self.packet_commitments.contains_key(key) {
            Ok(self.packet_commitments[key])
        } else {
            Err(ContextError::Packet(PacketError::CommitmentNotFound))
        }
    }

    pub open spec fn packet_receipt(self, key: PacketKey) -> Result<Receipt, ContextError> {
        if self.packet_receipts.contains_key(key) {
            Ok(self.packet_receipts[key])
        } else {
            Err(ContextError::Packet(PacketError::ReceiptNotFound))
        }
    }

    pub open spec fn packet_acknowledgement(self, key: PacketKey) -> Result<Seq<u8>, ContextError> {
        if self.packet_acknowledgements.contains_key(key) {
            Ok(self.packet_acknowledgements[key])
        } else {
            Err(ContextError::Packet(PacketError::AcknowledgementNotFound))
        }
    }

    /// The state after `events` were reported and `logs` written.
    pub open spec fn reporting(self, events: Seq<IbcEventView>, logs: Seq<Seq<char>>) -> HostState {
        HostState { events: self.events + events, logs: self.logs + logs, ..self }
    }

    /// The state with what was reported and logged left aside: what is
    /// stored.
    pub open spec fn stored(self) -> HostState {
        HostState { events: Seq::empty(), logs: Seq::empty(), ..self }
    }
}

} // verus!
