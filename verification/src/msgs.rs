//! The messages that a relayer submits to the engine.

use vstd::prelude::*;
use crate::channel::{Acknowledgement, Order, Packet, Version as ChannelVersion};
use crate::client::{AnyClientState, AnyConsensusState, ClientMessage};
use crate::connection::{Counterparty as ConnectionCounterparty, Version as ConnectionVersion};
use crate::height::Height;
use crate::identifier::{ChannelId, ClientId, ConnectionId, PortId, Sequence, Signer};
use crate::timestamp::Duration;

verus! {

/// Asks for a new client with the given initial state.
#[derive(Debug, PartialEq, Eq)]
pub struct MsgCreateClient {
    pub client_state: AnyClientState,
    pub consensus_state: AnyConsensusState,
    pub signer: Signer,
}

/// Hands a header, or evidence of misbehaviour, to a client.
#[derive(Debug, PartialEq, Eq)]
pub struct MsgUpdateClient {
    pub client_id: ClientId,
    pub client_message: ClientMessage,
    pub signer: Signer,
}

/// The messages of the client layer.
#[derive(Debug, PartialEq, Eq)]
pub enum ClientMsg {
    CreateClient(MsgCreateClient),
    UpdateClient(MsgUpdateClient),
}

/// The first step of a connection handshake, on chain A.
#[derive(Debug, PartialEq, Eq)]
pub struct MsgConnectionOpenInit {
    pub client_id_on_a: ClientId,
    pub counterparty: ConnectionCounterparty,
    pub version: Option<ConnectionVersion>,
    pub delay_period: Duration,
    pub signer: Signer,
}

/// The second step of a connection handshake, on chain B.
#[derive(Debug, PartialEq, Eq)]
pub struct MsgConnectionOpenTry {
    /// The connection end that chain B has itself set up in `Init`, where
    /// both chains began a handshake at once.
    pub previous_connection_id: Option<ConnectionId>,
    pub client_id_on_b: ClientId,
    pub counterparty: ConnectionCounterparty,
    pub versions_on_a: Vec<ConnectionVersion>,
    pub proof_conn_end_on_a: Vec<u8>,
    pub proof_height_on_a: Height,
    pub delay_period: Duration,
    pub signer: Signer,
}

/// The third step of a connection handshake, on chain A.
#[derive(Debug, PartialEq, Eq)]
pub struct MsgConnectionOpenAck {
    pub conn_id_on_a: ConnectionId,
    pub conn_id_on_b: ConnectionId,
    pub version: ConnectionVersion,
    pub proof_conn_end_on_b: Vec<u8>,
    pub proof_height_on_b: Height,
    pub signer: Signer,
}

/// The last step of a connection handshake, on chain B.
#[derive(Debug, PartialEq, Eq)]
pub struct MsgConnectionOpenConfirm {
    pub conn_id_on_b: ConnectionId,
    pub proof_conn_end_on_a: Vec<u8>,
    pub proof_height_on_a: Height,
    pub signer: Signer,
}

/// The messages of the connection layer.
#[derive(Debug, PartialEq, Eq)]
pub enum ConnectionMsg {
    OpenInit(MsgConnectionOpenInit),
    OpenTry(MsgConnectionOpenTry),
    OpenAck(MsgConnectionOpenAck),
    OpenConfirm(MsgConnectionOpenConfirm),
}

/// The first step of a channel handshake, on chain A.
#[derive(Debug, PartialEq, Eq)]
pub struct MsgChannelOpenInit {
    pub port_id_on_a: PortId,
    pub connection_hops_on_a: Vec<ConnectionId>,
    pub port_id_on_b: PortId,
    pub ordering: Order,
    pub version_proposal: ChannelVersion,
    pub signer: Signer,
}

/// The second step of a channel handshake, on chain B.
#[derive(Debug, PartialEq, Eq)]
pub struct MsgChannelOpenTry {
    pub port_id_on_b: PortId,
    pub connection_hops_on_b: Vec<ConnectionId>,
    pub port_id_on_a: PortId,
    pub chan_id_on_a: ChannelId,
    pub version_supported_on_a: ChannelVersion,
    pub proof_chan_end_on_a: Vec<u8>,
    pub proof_height_on_a: Height,
    pub ordering: Order,
    pub signer: Signer,
}

/// The third step of a channel handshake, on chain A.
#[derive(Debug, PartialEq, Eq)]
pub struct MsgChannelOpenAck {
    pub port_id_on_a: PortId,
    pub chan_id_on_a: ChannelId,
    pub chan_id_on_b: ChannelId,
    pub version_on_b: ChannelVersion,
    pub proof_chan_end_on_b: Vec<u8>,
    pub proof_height_on_b: Height,
    pub signer: Signer,
}

/// The last step of a channel handshake, on chain B.
#[derive(Debug, PartialEq, Eq)]
pub struct MsgChannelOpenConfirm {
    pub port_id_on_b: PortId,
    pub chan_id_on_b: ChannelId,
    pub proof_chan_end_on_a: Vec<u8>,
    pub proof_height_on_a: Height,
    pub signer: Signer,
}

/// Closes a channel from this end.
#[derive(Debug, PartialEq, Eq)]
pub struct MsgChannelCloseInit {
    pub port_id_on_a: PortId,
    pub chan_id_on_a: ChannelId,
    pub signer: Signer,
}

/// Closes this end of a channel that the other end has closed.
#[derive(Debug, PartialEq, Eq)]
pub struct MsgChannelCloseConfirm {
    pub port_id_on_b: PortId,
    pub chan_id_on_b: ChannelId,
    pub proof_chan_end_on_a: Vec<u8>,
    pub proof_height_on_a: Height,
    pub signer: Signer,
}

/// The messages of the channel layer.
#[derive(Debug, PartialEq, Eq)]
pub enum ChannelMsg {
    OpenInit(MsgChannelOpenInit),
    OpenTry(MsgChannelOpenTry),
    OpenAck(MsgChannelOpenAck),
    OpenConfirm(MsgChannelOpenConfirm),
    CloseInit(MsgChannelCloseInit),
    CloseConfirm(MsgChannelCloseConfirm),
}

/// Delivers a packet to the chain it was sent to, with a proof that the
/// sending chain has committed to it.
#[derive(Debug, PartialEq, Eq)]
pub struct MsgRecvPacket {
    pub packet: Packet,
    pub proof_commitment_on_a: Vec<u8>,
    pub proof_height_on_a: Height,
    pub signer: Signer,
}

impl MsgRecvPacket {
    pub fn new(
        packet: Packet,
        proof_commitment_on_a: Vec<u8>,
        proof_height_on_a: Height,
        signer: Signer,
    ) -> (r: MsgRecvPacket)
        ensures
            r == (MsgRecvPacket { packet, proof_commitment_on_a, proof_height_on_a, signer }),
    {
        MsgRecvPacket { packet, proof_commitment_on_a, proof_height_on_a, signer }
    }
}

/// Brings the acknowledgement of a packet back to the chain that sent it,
/// with a proof that the receiving chain has written it.
#[derive(Debug, PartialEq, Eq)]
pub struct MsgAcknowledgement {
    pub packet: Packet,
    pub acknowledgement: Acknowledgement,
    pub proof_acked_on_b: Vec<u8>,
    pub proof_height_on_b: Height,
    pub signer: Signer,
}

/// Tells the chain that sent a packet that the packet was not received in
/// time, with a proof of that.
#[derive(Debug, PartialEq, Eq)]
pub struct MsgTimeout {
    pub packet: Packet,
    pub next_seq_recv_on_b: Sequence,
    pub proof_unreceived_on_b: Vec<u8>,
    pub proof_height_on_b: Height,
    pub signer: Signer,
}

/// Tells the chain that sent a packet that the packet was not received before
/// the other end of the channel closed, with proofs of both.
#[derive(Debug, PartialEq, Eq)]
pub struct MsgTimeoutOnClose {
    pub packet: Packet,
    pub next_seq_recv_on_b: Sequence,
    pub proof_unreceived_on_b: Vec<u8>,
    pub proof_close_on_b: Vec<u8>,
    pub proof_height_on_b: Height,
    pub signer: Signer,
}

/// The messages of the packet layer.
#[derive(Debug, PartialEq, Eq)]
pub enum PacketMsg {
    Recv(MsgRecvPacket),
    Ack(MsgAcknowledgement),
    Timeout(MsgTimeout),
    TimeoutOnClose(MsgTimeoutOnClose),
}

/// Any message that the engine handles.
#[derive(Debug, PartialEq, Eq)]
pub enum MsgEnvelope {
    Client(ClientMsg),
    Connection(ConnectionMsg),
    Channel(ChannelMsg),
    Packet(PacketMsg),
}

} // verus!
