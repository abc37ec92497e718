//! The mock host as a host chain: how it answers the engine's questions and
//! carries out its changes.

use vstd::prelude::*;
use crate::channel::ChannelEnd;
use crate::client::{AnyClientState, AnyConsensusState, AnyHeader, CommitmentRoot};
use crate::commitment::{AcknowledgementCommitment, PacketCommitment, Receipt};
use crate::connection::{CommitmentPrefix, ConnectionEnd};
use crate::context::{ExecutionContext, ProofValue, ProofValueView, ValidationContext};
use crate::error::{ChannelError, ClientError, ConnectionError, ContextError, PacketError};
use crate::events::{events_view, logs_view, IbcEvent};
use crate::height::Height;
use crate::host::{HostBlock, HostType};
use crate::identifier::{ChainId, ClientId, ConnectionId, Sequence};
use crate::mock::context::MockContext;
use crate::mock::store::{MockClientRecord, MockIbcStore};
use crate::path::{
    AckPath,
    ChannelEndPath,
    ClientConsensusStatePath,
    CommitmentPath,
    Path,
    PathView,
    ReceiptPath,
    SeqAckPath,
    SeqRecvPath,
    SeqSendPath,
};
use crate::state::HostState;
use crate::timestamp::{Duration, Timestamp};

verus! {

impl MockContext {
    /// The protocol state that the context holds: what is in its store, what
    /// it has reported and logged, and the height and time of its latest
    /// block.
    pub open spec fn spec_state(self) -> HostState {
        HostState {
            host_height: self.spec_latest_height(),
            host_timestamp: self.spec_latest_timestamp(),
            clients: self.ibc_store.client_states(),
            consensus_states: self.ibc_store.consensus_states(),
            update_times: self.ibc_store.client_processed_times@,
            update_heights: self.ibc_store.client_processed_heights@,
            client_counter: self.ibc_store.client_ids_counter,
            connections: self.ibc_store.connections@,
            connection_counter: self.ibc_store.connection_ids_counter,
            channels: self.ibc_store.channels@,
            channel_counter: self.ibc_store.channel_ids_counter,
            next_sequence_send: self.ibc_store.next_sequence_send@,
            next_sequence_recv: self.ibc_store.next_sequence_recv@,
            next_sequence_ack: self.ibc_store.next_sequence_ack@,
            packet_commitments: self.ibc_store.packet_commitment@,
            packet_receipts: self.ibc_store.packet_receipt@,
            packet_acknowledgements: self.ibc_store.packet_acknowledgement@,
            events: events_view(self.events@),
            logs: logs_view(self.logs@),
        }
    }

    /// The host side of the context, which the store operations leave alone.
    pub open spec fn same_host(self, other: MockContext) -> bool {
        &&& self.host_chain_type == other.host_chain_type
        &&& self.host_chain_id == other.host_chain_id
        &&& self.max_history_size == other.max_history_size
        &&& self.block_time == other.block_time
        &&& self.history == other.history
    }

    /// The host side of the context.
    pub open spec fn spec_host(self) -> MockHost {
        MockHost {
            host_chain_type: self.host_chain_type,
            host_chain_id: self.host_chain_id,
            max_history_size: self.max_history_size,
            block_time: self.block_time,
            history: self.history,
        }
    }
}

/// The host side of a mock context: the chain that it stands for and the
/// blocks that it keeps.
pub struct MockHost {
    pub host_chain_type: HostType,
    pub host_chain_id: ChainId,
    pub max_history_size: u64,
    pub block_time: Duration,
    pub history: Vec<HostBlock>,
}

impl MockIbcStore {
    /// Sets the client state of `client_id`, making a record for the client
    /// where there is none.
    pub fn set_client_state(&mut self, client_id: ClientId, client_state: AnyClientState)
        ensures
            final(self).client_states() == old(self).client_states().insert(
                client_id,
                client_state,
            ),
            final(self).consensus_states() == old(self).consensus_states(),
            final(self).same_but_clients(*old(self)),
    {
        let mut record = match self.clients.remove(&client_id) {
            Some(record) => record,
            None => MockClientRecord::empty(),
        };
        record.client_state = Some(client_state);
        self.clients.insert(client_id, record);
        assert(self.client_states() =~= old(self).client_states().insert(client_id, client_state));
        assert(self.consensus_states() =~= old(self).consensus_states());
    }

    /// Sets the consensus state of `client_id` at `height`, making a record
    /// for the client where there is none.
    pub fn set_consensus_state(
        &mut self,
        client_id: ClientId,
        height: Height,
        consensus_state: AnyConsensusState,
    )
        ensures
            final(self).client_states() == old(self).client_states(),
            final(self).consensus_states() == old(self).consensus_states().insert(
                (client_id, height),
                consensus_state,
            ),
            final(self).same_but_clients(*old(self)),
    {
        let mut record = match self.clients.remove(&client_id) {
            Some(record) => record,
            None => MockClientRecord::empty(),
        };
        record.consensus_states.insert(height, consensus_state);
        self.clients.insert(client_id, record);
        assert(self.client_states() =~= old(self).client_states());
        assert(self.consensus_states() =~= old(self).consensus_states().insert(
            (client_id, height),
            consensus_state,
        ));
    }

    /// Everything but the client records is the same in both.
    pub open spec fn same_but_clients(self, other: MockIbcStore) -> bool {
        &&& self.client_processed_times == other.client_processed_times
        &&& self.client_processed_heights == other.client_processed_heights
        &&& self.client_ids_counter == other.client_ids_counter
        &&& self.client_connections == other.client_connections
        &&& self.connections == other.connections
        &&& self.connection_ids_counter == other.connection_ids_counter
        &&& self.connection_channels == other.connection_channels
        &&& self.channel_ids_counter == other.channel_ids_counter
        &&& self.channels == other.channels
        &&& self.next_sequence_send == other.next_sequence_send
        &&& self.next_sequence_recv == other.next_sequence_recv
        &&& self.next_sequence_ack == other.next_sequence_ack
        &&& self.packet_acknowledgement == other.packet_acknowledgement
        &&& self.packet_commitment == other.packet_commitment
        &&& self.packet_receipt == other.packet_receipt
    }
}

/// The mock host answers from its store. It carries no verifier for clients
/// other than the stand-in: it accepts none of their proofs and headers.
impl ValidationContext for MockContext {
    type Host = MockHost;

    open spec fn inv(&self) -> bool {
        self.well_formed()
    }

    open spec fn state(&self) -> HostState {
        self.spec_state()
    }

    open spec fn host_side(&self) -> MockHost {
        self.spec_host()
    }

    open spec fn proves_membership(
        &self,
        root: Seq<u8>,
        prefix: Seq<char>,
        proof: Seq<u8>,
        path: PathView,
        value: ProofValueView,
    ) -> bool {
        false
    }

    open spec fn proves_absence(
        &self,
        root: Seq<u8>,
        prefix: Seq<char>,
        proof: Seq<u8>,
        path: PathView,
    ) -> bool {
        false
    }

    open spec fn accepts_header(
        &self,
        client_state: AnyClientState,
        trusted: AnyConsensusState,
        header: AnyHeader,
    ) -> bool {
        false
    }

    /// The delay counted in block times, rounded up; none where blocks take
    /// no time.
    open spec fn spec_block_delay(&self, delay: Duration) -> u64 {
        if self.block_time.nanos == 0 {
            0
        } else if delay.nanos % self.block_time.nanos == 0 {
            delay.nanos / self.block_time.nanos
        } else {
            (delay.nanos / self.block_time.nanos + 1) as u64
        }
    }

    fn host_height(&self) -> (r: Height) {
        self.latest_height()
    }

    fn block_delay(&self, delay: &Duration) -> (r: u64) {
        let block: u64 = self.block_time.as_nanos();
        if block == 0 {
            0
        } else if delay.as_nanos() % block == 0 {
            delay.as_nanos() / block
        } else {
            assert(delay.nanos / block < u64::MAX) by (nonlinear_arith)
                requires
                    block >= 1,
                    delay.nanos % block != 0,
                    delay.nanos <= u64::MAX,
            ;
            delay.as_nanos() / block + 1
        }
    }

    fn host_timestamp(&self) -> (r: Timestamp) {
        self.latest_timestamp()
    }

    fn client_state(&self, client_id: &ClientId) -> (r: Result<AnyClientState, ContextError>) {
        match self.ibc_store.clients.get(client_id) {
            Some(record) => match &record.client_state {
                Some(cs) => Ok(cs.clone()),
                None => Err(ContextError::Client(ClientError::ClientNotFound)),
            },
            None => Err(ContextError::Client(ClientError::ClientNotFound)),
        }
    }

    fn consensus_state(&self, path: &ClientConsensusStatePath) -> (r: Result<
        AnyConsensusState,
        ContextError,
    >) {
        match self.ibc_store.clients.get(&path.client_id) {
            Some(record) => match record.consensus_states.get(&path.height) {
                Some(cs) => Ok(*cs),
                None => Err(ContextError::Client(ClientError::ConsensusStateNotFound)),
            },
            None => Err(ContextError::Client(ClientError::ConsensusStateNotFound)),
        }
    }

    fn client_update_time(&self, path: &ClientConsensusStatePath) -> (r: Result<
        Timestamp,
        ContextError,
    >) {
        match self.ibc_store.client_processed_times.get(path) {
            Some(t) => Ok(*t),
            None => Err(ContextError::Client(ClientError::ProcessedTimeNotFound)),
        }
    }

    fn client_update_height(&self, path: &ClientConsensusStatePath) -> (r: Result<
        Height,
        ContextError,
    >) {
        match self.ibc_store.client_processed_heights.get(path) {
            Some(h) => Ok(*h),
            None => Err(ContextError::Client(ClientError::ProcessedHeightNotFound)),
        }
    }

    fn client_counter(&self) -> (r: u64) {
        self.ibc_store.client_ids_counter
    }

    fn connection_end(&self, connection_id: &ConnectionId) -> (r: Result<
        ConnectionEnd,
        ContextError,
    >) {
        match self.ibc_store.connections.get(connection_id) {
            Some(end) => Ok(end.clone()),
            None => Err(ContextError::Connection(ConnectionError::ConnectionNotFound)),
        }
    }

    fn connection_counter(&self) -> (r: u64) {
        self.ibc_store.connection_ids_counter
    }

    fn channel_end(&self, path: &ChannelEndPath) -> (r: Result<ChannelEnd, ContextError>) {
        match self.ibc_store.channels.get(path) {
            Some(end) => Ok(end.clone()),
            None => Err(ContextError::Channel(ChannelError::ChannelNotFound)),
        }
    }

    fn channel_counter(&self) -> (r: u64) {
        self.ibc_store.channel_ids_counter
    }

    fn get_next_sequence_send(&self, path: &SeqSendPath) -> (r: Result<Sequence, ContextError>) {
        match self.ibc_store.next_sequence_send.get(path) {
            Some(s) => Ok(*s),
            None => Err(ContextError::Packet(PacketError::SequenceNotFound)),
        }
    }

    fn get_next_sequence_recv(&self, path: &SeqRecvPath) -> (r: Result<Sequence, ContextError>) {
        match self.ibc_store.next_sequence_recv.get(path) {
            Some(s) => Ok(*s),
            None => Err(ContextError::Packet(PacketError::SequenceNotFound)),
        }
    }

    fn get_next_sequence_ack(&self, path: &SeqAckPath) -> (r: Result<Sequence, ContextError>) {
        match self.ibc_store.next_sequence_ack.get(path) {
            Some(s) => Ok(*s),
            None => Err(ContextError::Packet(PacketError::SequenceNotFound)),
        }
    }

    fn get_packet_commitment(&self, path: &CommitmentPath) -> (r: Result<
        PacketCommitment,
        ContextError,
    >) {
        match self.ibc_store.packet_commitment.get(path) {
            Some(c) => Ok(*c),
            None => Err(ContextError::Packet(PacketError::CommitmentNotFound)),
        }
    }

    fn get_packet_receipt(&self, path: &ReceiptPath) -> (r: Result<Receipt, ContextError>) {
        match self.ibc_store.packet_receipt.get(path) {
            Some(receipt) => Ok(*receipt),
            None => Err(ContextError::Packet(PacketError::ReceiptNotFound)),
        }
    }

    fn get_packet_acknowledgement(&self, path: &AckPath) -> (r: Result<
        AcknowledgementCommitment,
        ContextError,
    >) {
        match self.ibc_store.packet_acknowledgement.get(path) {
            Some(c) => Ok(*c),
            None => Err(ContextError::Packet(PacketError::AcknowledgementNotFound)),
        }
    }

    fn verify_membership(
        &self,
        root: &CommitmentRoot,
        prefix: &CommitmentPrefix,
        proof: &Vec<u8>,
        path: &Path,
        value: &ProofValue,
    ) -> (r: bool) {
        false
    }

    fn verify_non_membership(
        &self,
        root: &CommitmentRoot,
        prefix: &CommitmentPrefix,
        proof: &Vec<u8>,
        path: &Path,
    ) -> (r: bool) {
        false
    }

    fn verify_header(
        &self,
        client_state: &AnyClientState,
        trusted: &AnyConsensusState,
        header: &AnyHeader,
    ) -> (r: bool) {
        false
    }
}

impl ExecutionContext for MockContext {
    fn store_client_state(&mut self, client_id: ClientId, client_state: AnyClientState)
        ensures
            final(self).same_host(*old(self)),
    {
        self.ibc_store.set_client_state(client_id, client_state);
    }

    fn store_consensus_state(
        &mut self,
        path: ClientConsensusStatePath,
        consensus_state: AnyConsensusState,
    )
        ensures
            final(self).same_host(*old(self)),
    {
        self.ibc_store.set_consensus_state(path.client_id, path.height, consensus_state);
    }

    fn store_update_time(&mut self, path: ClientConsensusStatePath, timestamp: Timestamp)
        ensures
            final(self).same_host(*old(self)),
    {
        self.ibc_store.client_processed_times.insert(path, timestamp);
    }

    fn store_update_height(&mut self, path: ClientConsensusStatePath, height: Height)
        ensures
            final(self).same_host(*old(self)),
    {
        self.ibc_store.client_processed_heights.insert(path, height);
    }

    fn increase_client_counter(&mut self)
        ensures
            final(self).same_host(*old(self)),
    {
        self.ibc_store.client_ids_counter = self.ibc_store.client_ids_counter + 1;
    }

    fn store_connection(&mut self, connection_id: ConnectionId, connection_end: ConnectionEnd)
        ensures
            final(self).same_host(*old(self)),
    {
        self.ibc_store.connections.insert(connection_id, connection_end);
    }

    fn increase_connection_counter(&mut self)
        ensures
            final(self).same_host(*old(self)),
    {
        self.ibc_store.connection_ids_counter = self.ibc_store.connection_ids_counter + 1;
    }

    fn store_channel(&mut self, path: ChannelEndPath, channel_end: ChannelEnd)
        ensures
            final(self).same_host(*old(self)),
    {
        self.ibc_store.channels.insert(path, channel_end);
    }

    fn increase_channel_counter(&mut self)
        ensures
            final(self).same_host(*old(self)),
    {
        self.ibc_store.channel_ids_counter = self.ibc_store.channel_ids_counter + 1;
    }

    fn store_next_sequence_send(&mut self, path: SeqSendPath, sequence: Sequence)
        ensures
            final(self).same_host(*old(self)),
    {
        self.ibc_store.next_sequence_send.insert(path, sequence);
    }

    fn store_next_sequence_recv(&mut self, path: SeqRecvPath, sequence: Sequence)
        ensures
            final(self).same_host(*old(self)),
    {
        self.ibc_store.next_sequence_recv.insert(path, sequence);
    }

    fn store_next_sequence_ack(&mut self, path: SeqAckPath, sequence: Sequence)
        ensures
            final(self).same_host(*old(self)),
    {
        self.ibc_store.next_sequence_ack.insert(path, sequence);
    }

    fn store_packet_commitment(&mut self, path: CommitmentPath, commitment: PacketCommitment)
        ensures
            final(self).same_host(*old(self)),
    {
        self.ibc_store.packet_commitment.insert(path, commitment);
    }

    fn delete_packet_commitment(&mut self, path: &CommitmentPath)
        ensures
            final(self).same_host(*old(self)),
    {
        let _ = self.ibc_store.packet_commitment.remove(path);
    }

    fn store_packet_receipt(&mut self, path: ReceiptPath, receipt: Receipt)
        ensures
            final(self).same_host(*old(self)),
    {
        self.ibc_store.packet_receipt.insert(path, receipt);
    }

    fn store_packet_acknowledgement(&mut self, path: AckPath, commitment: AcknowledgementCommitment)
        ensures
            final(self).same_host(*old(self)),
    {
        self.ibc_store.packet_acknowledgement.insert(path, commitment);
    }

    fn delete_packet_acknowledgement(&mut self, path: &AckPath)
        ensures
            final(self).same_host(*old(self)),
    {
        let _ = self.ibc_store.packet_acknowledgement.remove(path);
    }

    fn emit_ibc_event(&mut self, event: IbcEvent)
        ensures
            final(self).same_host(*old(self)),
    {
        self.events.push(event);
        assert(events_view(self.events@) =~= events_view(old(self).events@).push(event@));
    }

    fn log_message(&mut self, message: String)
        ensures
            final(self).same_host(*old(self)),
    {
        self.logs.push(message);
        assert(logs_view(self.logs@) =~= logs_view(old(self).logs@).push(message@));
    }
}

} // verus!
