//! What the engine asks of the chain that hosts it: a read-only view of the
//! protocol state for validating a message, and the means to change that
//! state for executing it.

use vstd::prelude::*;
use crate::channel::{ChannelEnd, ChannelEndView};
use crate::client::{AnyClientState, AnyConsensusState, AnyHeader, CommitmentRoot};
use crate::commitment::{AcknowledgementCommitment, PacketCommitment, Receipt};
use crate::connection::{CommitmentPrefix, ConnectionEnd, ConnectionEndView};
use crate::error::ContextError;
use crate::events::IbcEvent;
use crate::height::Height;
use crate::identifier::{ClientId, ConnectionId, Sequence};
use crate::path::{
    AckPath,
    ChannelEndPath,
    ClientConsensusStatePath,
    CommitmentPath,
    Path,
    PathView,
    ReceiptPath,
    SeqAckPath,
    SeqRecvPath,
    SeqSendPath,
};
use crate::state::HostState;
use crate::timestamp::{Duration, Timestamp};

verus! {

/// A value that a proof says the counterparty has stored.
#[derive(Debug, PartialEq, Eq)]
pub enum ProofValue {
    Connection(ConnectionEnd),
    Channel(ChannelEnd),
    Commitment(PacketCommitment),
    Acknowledgement(AcknowledgementCommitment),
    NextSequenceRecv(Sequence),
}

/// What a proved value holds.
pub enum ProofValueView {
    Connection(ConnectionEndView),
    Channel(ChannelEndView),
    Commitment(Seq<u8>),
    Acknowledgement(Seq<u8>),
    NextSequenceRecv(Sequence),
}

impl View for ProofValue {
    type V = ProofValueView;

    open spec fn view(&self) -> ProofValueView {
        match self {
            ProofValue::Connection(e) => ProofValueView::Connection(e@),
            ProofValue::Channel(e) => ProofValueView::Channel(e@),
            ProofValue::Commitment(c) => ProofValueView::Commitment(c@),
            ProofValue::Acknowledgement(c) => ProofValueView::Acknowledgement(c@),
            ProofValue::NextSequenceRecv(s) => ProofValueView::NextSequenceRecv(*s),
        }
    }
}

/// The read-only side of a host chain. Nothing here changes the state.
///
/// Clients of the stand-in type take every proof and header as given. For the
/// other client types the host supplies the checks that need cryptography;
/// each is a fixed function of what is handed to it.
pub trait ValidationContext {
    /// What the host keeps beside the protocol state.
    type Host;

    /// Whether the host's own bookkeeping is in order.
    spec fn inv(&self) -> bool;

    /// The protocol state that the host holds.
    spec fn state(&self) -> HostState;

    /// What the host keeps beside the protocol state: its own chain, and
    /// whatever else the writing side leaves alone.
    spec fn host_side(&self) -> Self::Host;

    /// Whether `proof` shows, against `root`, that the counterparty has
    /// stored `value` at `path` under `prefix`.
    spec fn proves_membership(
        &self,
        root: Seq<u8>,
        prefix: Seq<char>,
        proof: Seq<u8>,
        path: PathView,
        value: ProofValueView,
    ) -> bool;

    /// Whether `proof` shows, against `root`, that the counterparty has
    /// stored nothing at `path` under `prefix`.
    spec fn proves_absence(
        &self,
        root: Seq<u8>,
        prefix: Seq<char>,
        proof: Seq<u8>,
        path: PathView,
    ) -> bool;

    /// Whether `header` follows from the consensus state `trusted` for a
    /// client in the state `client_state`.
    spec fn accepts_header(
        &self,
        client_state: AnyClientState,
        trusted: AnyConsensusState,
        header: AnyHeader,
    ) -> bool;

    /// The number of blocks that the host expects to produce within `delay`.
    spec fn spec_block_delay(&self, delay: Duration) -> u64;

    fn host_height(&self) -> (r: Height)
        requires
            self.inv(),
        ensures
            r == self.state().host_height,
    ;

    /// The number of blocks that the host expects to produce within `delay`.
    fn block_delay(&self, delay: &Duration) -> (r: u64)
        requires
            self.inv(),
        ensures
            r == self.spec_block_delay(*delay),
    ;

    fn host_timestamp(&self) -> (r: Timestamp)
        requires
            self.inv(),
        ensures
            r == self.state().host_timestamp,
    ;

    fn client_state(&self, client_id: &ClientId) -> (r: Result<AnyClientState, ContextError>)
        requires
            self.inv(),
        ensures
            r == self.state().client_state(*client_id),
    ;

    fn consensus_state(&self, path: &ClientConsensusStatePath) -> (r: Result<
        AnyConsensusState,
        ContextError,
    >)
        requires
            self.inv(),
        ensures
            r == self.state().consensus_state(path@),
    ;

    fn client_update_time(&self, path: &ClientConsensusStatePath) -> (r: Result<
        Timestamp,
        ContextError,
    >)
        requires
            self.inv(),
        ensures
            r == self.state().client_update_time(path@),
    ;

    fn client_update_height(&self, path: &ClientConsensusStatePath) -> (r: Result<
        Height,
        ContextError,
    >)
        requires
            self.inv(),
        ensures
            r == self.state().client_update_height(path@),
    ;

    fn client_counter(&self) -> (r: u64)
        requires
            self.inv(),
        ensures
            r == self.state().client_counter,
    ;

    fn connection_end(&self, connection_id: &ConnectionId) -> (r: Result<
        ConnectionEnd,
        ContextError,
    >)
        requires
            self.inv(),
        ensures
            match r {
                Ok(end) => self.state().connection_end(*connection_id) == Ok::<
                    ConnectionEndView,
                    ContextError,
                >(end@),
                Err(e) => self.state().connection_end(*connection_id) == Err::<
                    ConnectionEndView,
                    ContextError,
                >(e),
            },
    ;

    fn connection_counter(&self) -> (r: u64)
        requires
            self.inv(),
        ensures
            r == self.state().connection_counter,
    ;

    fn channel_end(&self, path: &ChannelEndPath) -> (r: Result<ChannelEnd, ContextError>)
        requires
            self.inv(),
        ensures
            match r {
                Ok(end) => self.state().channel_end(path@) == Ok::<ChannelEndView, ContextError>(
                    end@,
                ),
                Err(e) => self.state().channel_end(path@) == Err::<ChannelEndView, ContextError>(
                    e,
                ),
            },
    ;

    fn channel_counter(&self) -> (r: u64)
        requires
            self.inv(),
        ensures
            r == self.state().channel_counter,
    ;

    fn get_next_sequence_send(&self, path: &SeqSendPath) -> (r: Result<Sequence, ContextError>)
        requires
            self.inv(),
        ensures
            r == HostState::lookup_sequence(self.state().next_sequence_send, path@),
    ;

    fn get_next_sequence_recv(&self, path: &SeqRecvPath) -> (r: Result<Sequence, ContextError>)
        requires
            self.inv(),
        ensures
            r == HostState::lookup_sequence(self.state().next_sequence_recv, path@),
    ;

    fn get_next_sequence_ack(&self, path: &SeqAckPath) -> (r: Result<Sequence, ContextError>)
        requires
            self.inv(),
        ensures
            r == HostState::lookup_sequence(self.state().next_sequence_ack, path@),
    ;

    fn get_packet_commitment(&self, path: &CommitmentPath) -> (r: Result<
        PacketCommitment,
        ContextError,
    >)
        requires
            self.inv(),
        ensures
            match r {
                Ok(c) => self.state().packet_commitment(path@) == Ok::<Seq<u8>, ContextError>(c@),
                Err(e) => self.state().packet_commitment(path@) == Err::<Seq<u8>, ContextError>(e),
            },
    ;

    fn get_packet_receipt(&self, path: &ReceiptPath) -> (r: Result<Receipt, ContextError>)
        requires
            self.inv(),
        ensures
            r == self.state().packet_receipt(path@),
    ;

    fn get_packet_acknowledgement(&self, path: &AckPath) -> (r: Result<
        AcknowledgementCommitment,
        ContextError,
    >)
        requires
            self.inv(),
        ensures
            match r {
                Ok(c) => self.state().packet_acknowledgement(path@) == Ok::<Seq<u8>, ContextError>(
                    c@,
                ),
                Err(e) => self.state().packet_acknowledgement(path@) == Err::<
                    Seq<u8>,
                    ContextError,
                >(e),
            },
    ;

    /// Checks a proof of membership for a client that is not a stand-in.
    fn verify_membership(
        &self,
        root: &CommitmentRoot,
        prefix: &CommitmentPrefix,
        proof: &Vec<u8>,
        path: &Path,
        value: &ProofValue,
    ) -> (r: bool)
        requires
            self.inv(),
        ensures
            r == self.proves_membership(root@, prefix.key@, proof@, path@, value@),
    ;

    /// Checks a proof of absence for a client that is not a stand-in.
    fn verify_non_membership(
        &self,
        root: &CommitmentRoot,
        prefix: &CommitmentPrefix,
        proof: &Vec<u8>,
        path: &Path,
    ) -> (r: bool)
        requires
            self.inv(),
        ensures
            r == self.proves_absence(root@, prefix.key@, proof@, path@),
    ;

    /// Checks a header for a client that is not a stand-in.
    fn verify_header(
        &self,
        client_state: &AnyClientState,
        trusted: &AnyConsensusState,
        header: &AnyHeader,
    ) -> (r: bool)
        requires
            self.inv(),
        ensures
            r == self.accepts_header(*client_state, *trusted, *header),
    ;
}

/// The writing side of a host chain. Each operation changes one thing and
/// leaves the rest of the state as it was, and the host side with it.
pub trait ExecutionContext: ValidationContext {
    fn store_client_state(&mut self, client_id: ClientId, client_state: AnyClientState)
        requires
            old(self).inv(),
        ensures
            final(self).inv(),
            final(self).host_side() == old(self).host_side(),
            final(self).state() == (HostState {
                clients: old(self).state().clients.insert(client_id, client_state),
                ..old(self).state()
            }),
    ;

    fn store_consensus_state(
        &mut self,
        path: ClientConsensusStatePath,
        consensus_state: AnyConsensusState,
    )
        requires
            old(self).inv(),
        ensures
            final(self).inv(),
            final(self).host_side() == old(self).host_side(),
            final(self).state() == (HostState {
                consensus_states: old(self).state().consensus_states.insert(
                    path@,
                    consensus_state,
                ),
                ..old(self).state()
            }),
    ;

    /// Records the host time at which the consensus state was stored.
    fn store_update_time(&mut self, path: ClientConsensusStatePath, timestamp: Timestamp)
        requires
            old(self).inv(),
        ensures
            final(self).inv(),
            final(self).host_side() == old(self).host_side(),
            final(self).state() == (HostState {
                update_times: old(self).state().update_times.insert(path@, timestamp),
                ..old(self).state()
            }),
    ;

    /// Records the host height at which the consensus state was stored.
    fn store_update_height(&mut self, path: ClientConsensusStatePath, height: Height)
        requires
            old(self).inv(),
        ensures
            final(self).inv(),
            final(self).host_side() == old(self).host_side(),
            final(self).state() == (HostState {
                update_heights: old(self).state().update_heights.insert(path@, height),
                ..old(self).state()
            }),
    ;

    fn increase_client_counter(&mut self)
        requires
            old(self).inv(),
            old(self).state().client_counter < u64::MAX,
        ensures
            final(self).inv(),
            final(self).host_side() == old(self).host_side(),
            final(self).state() == (HostState {
                client_counter: (old(self).state().client_counter + 1) as u64,
                ..old(self).state()
            }),
    ;

    fn store_connection(&mut self, connection_id: ConnectionId, connection_end: ConnectionEnd)
        requires
            old(self).inv(),
        ensures
            final(self).inv(),
            final(self).host_side() == old(self).host_side(),
            final(self).state() == (HostState {
                connections: old(self).state().connections.insert(
                    connection_id,
                    connection_end@,
                ),
                ..old(self).state()
            }),
    ;

    fn increase_connection_counter(&mut self)
        requires
            old(self).inv(),
            old(self).state().connection_counter < u64::MAX,
        ensures
            final(self).inv(),
            final(self).host_side() == old(self).host_side(),
            final(self).state() == (HostState {
                connection_counter: (old(self).state().connection_counter + 1) as u64,
                ..old(self).state()
            }),
    ;

    fn store_channel(&mut self, path: ChannelEndPath, channel_end: ChannelEnd)
        requires
            old(self).inv(),
        ensures
            final(self).inv(),
            final(self).host_side() == old(self).host_side(),
            final(self).state() == (HostState {
                channels: old(self).state().channels.insert(path@, channel_end@),
                ..old(self).state()
            }),
    ;

    fn increase_channel_counter(&mut self)
        requires
            old(self).inv(),
            old(self).state().channel_counter < u64::MAX,
        ensures
            final(self).inv(),
            final(self).host_side() == old(self).host_side(),
            final(self).state() == (HostState {
                channel_counter: (old(self).state().channel_counter + 1) as u64,
                ..old(self).state()
            }),
    ;

    fn store_next_sequence_send(&mut self, path: SeqSendPath, sequence: Sequence)
        requires
            old(self).inv(),
        ensures
            final(self).inv(),
            final(self).host_side() == old(self).host_side(),
            final(self).state() == (HostState {
                next_sequence_send: old(self).state().next_sequence_send.insert(path@, sequence),
                ..old(self).state()
            }),
    ;

    fn store_next_sequence_recv(&mut self, path: SeqRecvPath, sequence: Sequence)
        requires
            old(self).inv(),
        ensures
            final(self).inv(),
            final(self).host_side() == old(self).host_side(),
            final(self).state() == (HostState {
                next_sequence_recv: old(self).state().next_sequence_recv.insert(path@, sequence),
                ..old(self).state()
            }),
    ;

    fn store_next_sequence_ack(&mut self, path: SeqAckPath, sequence: Sequence)
        requires
            old(self).inv(),
        ensures
            final(self).inv(),
            final(self).host_side() == old(self).host_side(),
            final(self).state() == (HostState {
                next_sequence_ack: old(self).state().next_sequence_ack.insert(path@, sequence),
                ..old(self).state()
            }),
    ;

    fn store_packet_commitment(&mut self, path: CommitmentPath, commitment: PacketCommitment)
        requires
            old(self).inv(),
        ensures
            final(self).inv(),
            final(self).host_side() == old(self).host_side(),
            final(self).state() == (HostState {
                packet_commitments: old(self).state().packet_commitments.insert(
                    path@,
                    commitment@,
                ),
                ..old(self).state()
            }),
    ;

    fn delete_packet_commitment(&mut self, path: &CommitmentPath)
        requires
            old(self).inv(),
        ensures
            final(self).inv(),
            final(self).host_side() == old(self).host_side(),
            final(self).state() == (HostState {
                packet_commitments: old(self).state().packet_commitments.remove(path@),
                ..old(self).state()
            }),
    ;

    fn store_packet_receipt(&mut self, path: ReceiptPath, receipt: Receipt)
        requires
            old(self).inv(),
        ensures
            final(self).inv(),
            final(self).host_side() == old(self).host_side(),
            final(self).state() == (HostState {
                packet_receipts: old(self).state().packet_receipts.insert(path@, receipt),
                ..old(self).state()
            }),
    ;

    fn store_packet_acknowledgement(&mut self, path: AckPath, commitment: AcknowledgementCommitment)
        requires
            old(self).inv(),
        ensures
            final(self).inv(),
            final(self).host_side() == old(self).host_side(),
            final(self).state() == (HostState {
                packet_acknowledgements: old(self).state().packet_acknowledgements.insert(
                    path@,
                    commitment@,
                ),
                ..old(self).state()
            }),
    ;

    fn delete_packet_acknowledgement(&mut self, path: &AckPath)
        requires
            old(self).inv(),
        ensures
            final(self).inv(),
            final(self).host_side() == old(self).host_side(),
            final(self).state() == (HostState {
                packet_acknowledgements: old(self).state().packet_acknowledgements.remove(path@),
                ..old(self).state()
            }),
    ;

    /// Reports an event.
    fn emit_ibc_event(&mut self, event: IbcEvent)
        requires
            old(self).inv(),
        ensures
            final(self).inv(),
            final(self).host_side() == old(self).host_side(),
            final(self).state() == (HostState {
                events: old(self).state().events.push(event@),
                ..old(self).state()
            }),
    ;

    /// Writes a line to the log.
    fn log_message(&mut self, message: String)
        requires
            old(self).inv(),
        ensures
            final(self).inv(),
            final(self).host_side() == old(self).host_side(),
            final(self).state() == (HostState {
                logs: old(self).state().logs.push(message@),
                ..old(self).state()
            }),
    ;
}

} // verus!
