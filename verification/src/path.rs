//! The places of the protocol store: what a stored value is filed under, and
//! what a proof about the counterparty's store speaks of.

use vstd::prelude::*;
use crate::height::Height;
use crate::identifier::{ChannelId, ClientId, ConnectionId, PortId, Sequence};
use crate::table::{Key, Stored};

verus! {

/// What names a channel end: a port and a channel.
pub type ChannelKey = (Seq<char>, ChannelId);

/// What names a packet: a port, a channel and a sequence number.
pub type PacketKey = (Seq<char>, ChannelId, Sequence);

/// What names a consensus state: a client and a height.
pub type ConsensusKey = (ClientId, Height);

/// The place of a consensus state, and of the time and height at which it
/// was processed.
#[derive(Clone, Copy, Debug, PartialEq, Eq, Structural)]
pub struct ClientConsensusStatePath {
    pub client_id: ClientId,
    pub height: Height,
}

impl View for ClientConsensusStatePath {
    type V = ConsensusKey;

    open spec fn view(&self) -> ConsensusKey {
        (self.client_id, self.height)
    }
}

impl ClientConsensusStatePath {
    pub fn new(client_id: &ClientId, height: &Height) -> (r: ClientConsensusStatePath)
        ensures
            r@ == (*client_id, *height),
    {
        ClientConsensusStatePath { client_id: *client_id, height: *height }
    }
}

impl Stored for ClientConsensusStatePath {
    fn duplicate(&self) -> (r: Self) {
        *self
    }
}

impl Key for ClientConsensusStatePath {
    fn same(&self, other: &Self) -> (r: bool) {
        self.client_id.same(&other.client_id) && self.height.same(&other.height)
    }
}

/// The place of a channel end and of the channel's sequence counters.
#[derive(Debug, PartialEq, Eq)]
pub struct ChannelEndPath {
    pub port_id: PortId,
    pub channel_id: ChannelId,
}

impl View for ChannelEndPath {
    type V = ChannelKey;

    open spec fn view(&self) -> ChannelKey {
        (self.port_id@, self.channel_id)
    }
}

impl ChannelEndPath {
    pub fn new(port_id: &PortId, channel_id: &ChannelId) -> (r: ChannelEndPath)
        ensures
            r@ == (port_id@, *channel_id),
    {
        ChannelEndPath { port_id: port_id.clone(), channel_id: *channel_id }
    }
}

impl Clone for ChannelEndPath {
    fn clone(&self) -> (r: ChannelEndPath)
        ensures
            r == *self,
    {
        ChannelEndPath { port_id: self.port_id.clone(), channel_id: self.channel_id }
    }
}

impl Stored for ChannelEndPath {
    fn duplicate(&self) -> (r: Self) {
        self.clone()
    }
}

impl Key for ChannelEndPath {
    fn same(&self, other: &Self) -> (r: bool) {
        self.port_id.same(&other.port_id) && self.channel_id.same(&other.channel_id)
    }
}

/// The place of a channel's counter of packets sent.
pub type SeqSendPath = ChannelEndPath;

/// The place of a channel's counter of packets received.
pub type SeqRecvPath = ChannelEndPath;

/// The place of a channel's counter of packets acknowledged.
pub type SeqAckPath = ChannelEndPath;

/// The place of what is stored for one packet.
#[derive(Debug, PartialEq, Eq)]
pub struct PacketPath {
    pub port_id: PortId,
    pub channel_id: ChannelId,
    pub sequence: Sequence,
}

impl View for PacketPath {
    type V = PacketKey;

    open spec fn view(&self) -> PacketKey {
        (self.port_id@, self.channel_id, self.sequence)
    }
}

impl PacketPath {
    pub fn new(port_id: &PortId, channel_id: &ChannelId, sequence: Sequence) -> (r: PacketPath)
        ensures
            r@ == (port_id@, *channel_id, sequence),
    {
        PacketPath { port_id: port_id.clone(), channel_id: *channel_id, sequence }
    }
}

impl Clone for PacketPath {
    fn clone(&self) -> (r: PacketPath)
        ensures
            r == *self,
    {
        PacketPath {
            port_id: self.port_id.clone(),
            channel_id: self.channel_id,
            sequence: self.sequence,
        }
    }
}

impl Stored for PacketPath {
    fn duplicate(&self) -> (r: Self) {
        self.clone()
    }
}

impl Key for PacketPath {
    fn same(&self, other: &Self) -> (r: bool) {
        self.port_id.same(&other.port_id) && self.channel_id.same(&other.channel_id)
            && self.sequence.value == other.sequence.value
    }
}

/// The place of a packet commitment.
pub type CommitmentPath = PacketPath;

/// The place of an acknowledgement commitment.
pub type AckPath = PacketPath;

/// The place of a packet receipt.
pub type ReceiptPath = PacketPath;

/// A place in a chain's protocol store.
#[derive(Debug, PartialEq, Eq)]
pub enum Path {
    ClientState(ClientId),
    ClientConsensusState(ClientConsensusStatePath),
    Connection(ConnectionId),
    ChannelEnd(ChannelEndPath),
    SeqSend(SeqSendPath),
    SeqRecv(SeqRecvPath),
    SeqAck(SeqAckPath),
    Commitment(CommitmentPath),
    Ack(AckPath),
    Receipt(ReceiptPath),
}

/// What a place in a chain's protocol store is named by.
pub enum PathView {
    ClientState(ClientId),
    ClientConsensusState(ConsensusKey),
    Connection(ConnectionId),
    ChannelEnd(ChannelKey),
    SeqSend(ChannelKey),
    SeqRecv(ChannelKey),
    SeqAck(ChannelKey),
    Commitment(PacketKey),
    Ack(PacketKey),
    Receipt(PacketKey),
}

impl View for Path {
    type V = PathView;

    open spec fn view(&self) -> PathView {
        match self {
            Path::ClientState(id) => PathView::ClientState(*id),
            Path::ClientConsensusState(p) => PathView::ClientConsensusState(p@),
            Path::Connection(id) => PathView::Connection(*id),
            Path::ChannelEnd(p) => PathView::ChannelEnd(p@),
            Path::SeqSend(p) => PathView::SeqSend(p@),
            Path::SeqRecv(p) => PathView::SeqRecv(p@),
            Path::SeqAck(p) => PathView::SeqAck(p@),
            Path::Commitment(p) => PathView::Commitment(p@),
            Path::Ack(p) => PathView::Ack(p@),
            Path::Receipt(p) => PathView::Receipt(p@),
        }
    }
}

} // verus!
