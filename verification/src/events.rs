//! What the handlers report of their work.

use vstd::prelude::*;
use crate::channel::{Acknowledgement, Order, Packet, PacketView};
use crate::height::Height;
use crate::identifier::{ChannelId, ClientId, ClientType, ConnectionId};

verus! {

/// The layer that a message was for; one such event goes before each event
/// that a handler reports.
#[derive(Clone, Copy, Debug, PartialEq, Eq, Structural)]
pub enum MessageEvent {
    Client,
    Connection,
    Channel,
    Module,
}

/// What a client event tells.
#[derive(Clone, Copy, Debug, PartialEq, Eq, Structural)]
pub struct ClientAttributes {
    pub client_id: ClientId,
    pub client_type: ClientType,
    pub consensus_height: Height,
}

/// What a connection event tells.
#[derive(Clone, Copy, Debug, PartialEq, Eq, Structural)]
pub struct ConnectionAttributes {
    pub connection_id: ConnectionId,
    pub client_id: ClientId,
    pub counterparty_connection_id: Option<ConnectionId>,
    pub counterparty_client_id: ClientId,
}

/// What a channel event tells.
pub struct ChannelAttributes {
    pub port_id: Seq<char>,
    pub channel_id: ChannelId,
    pub counterparty_port_id: Seq<char>,
    pub counterparty_channel_id: Option<ChannelId>,
    pub connection_id: ConnectionId,
    pub version: Seq<char>,
}

/// What a channel event tells, as it is kept.
#[derive(Debug, PartialEq, Eq)]
pub struct ChannelEventData {
    pub port_id: String,
    pub channel_id: ChannelId,
    pub counterparty_port_id: String,
    pub counterparty_channel_id: Option<ChannelId>,
    pub connection_id: ConnectionId,
    pub version: String,
}

impl View for ChannelEventData {
    type V = ChannelAttributes;

    open spec fn view(&self) -> ChannelAttributes {
        ChannelAttributes {
            port_id: self.port_id@,
            channel_id: self.channel_id,
            counterparty_port_id: self.counterparty_port_id@,
            counterparty_channel_id: self.counterparty_channel_id,
            connection_id: self.connection_id,
            version: self.version@,
        }
    }
}

impl Clone for ChannelEventData {
    fn clone(&self) -> (r: ChannelEventData)
        ensures
            r@ == self@,
    {
        ChannelEventData {
            port_id: self.port_id.clone(),
            channel_id: self.channel_id,
            counterparty_port_id: self.counterparty_port_id.clone(),
            counterparty_channel_id: self.counterparty_channel_id,
            connection_id: self.connection_id,
            version: self.version.clone(),
        }
    }
}

/// What a packet event tells.
pub struct PacketAttributes {
    pub packet: PacketView,
    pub ordering: Order,
    pub connection_id: ConnectionId,
}

/// What a packet event tells, as it is kept.
#[derive(Debug, PartialEq, Eq)]
pub struct PacketEventData {
    pub packet: Packet,
    pub ordering: Order,
    pub connection_id: ConnectionId,
}

impl View for PacketEventData {
    type V = PacketAttributes;

    open spec fn view(&self) -> PacketAttributes {
        PacketAttributes {
            packet: self.packet@,
            ordering: self.ordering,
            connection_id: self.connection_id,
        }
    }
}

impl Clone for PacketEventData {
    fn clone(&self) -> (r: PacketEventData)
        ensures
            r@ == self@,
    {
        PacketEventData {
            packet: self.packet.clone(),
            ordering: self.ordering,
            connection_id: self.connection_id,
        }
    }
}

/// What the event of a written acknowledgement tells.
pub struct AcknowledgementAttributes {
    pub packet: PacketView,
    pub acknowledgement: Seq<u8>,
    pub connection_id: ConnectionId,
}

/// What the event of a written acknowledgement tells, as it is kept.
#[derive(Debug, PartialEq, Eq)]
pub struct AcknowledgementEventData {
    pub packet: Packet,
    pub acknowledgement: Acknowledgement,
    pub connection_id: ConnectionId,
}

impl View for AcknowledgementEventData {
    type V = AcknowledgementAttributes;

    open spec fn view(&self) -> AcknowledgementAttributes {
        AcknowledgementAttributes {
            packet: self.packet@,
            acknowledgement: self.acknowledgement@,
            connection_id: self.connection_id,
        }
    }
}

impl Clone for AcknowledgementEventData {
    fn clone(&self) -> (r: AcknowledgementEventData)
        ensures
            r@ == self@,
    {
        AcknowledgementEventData {
            packet: self.packet.clone(),
            acknowledgement: self.acknowledgement.clone(),
            connection_id: self.connection_id,
        }
    }
}

/// An event that an application module hands to the engine to report.
#[derive(Debug, PartialEq, Eq)]
pub struct ModuleEvent {
    pub kind: String,
    pub detail: String,
}

impl View for ModuleEvent {
    type V = (Seq<char>, Seq<char>);

    open spec fn view(&self) -> (Seq<char>, Seq<char>) {
        (self.kind@, self.detail@)
    }
}

impl Clone for ModuleEvent {
    fn clone(&self) -> (r: ModuleEvent)
        ensures
            r@ == self@,
    {
        ModuleEvent { kind: self.kind.clone(), detail: self.detail.clone() }
    }
}

/// An event of the protocol.
#[derive(Debug, PartialEq, Eq)]
pub enum IbcEvent {
    CreateClient(ClientAttributes),
    UpdateClient(ClientAttributes),
    ClientMisbehaviour(ClientAttributes),
    OpenInitConnection(ConnectionAttributes),
    OpenTryConnection(ConnectionAttributes),
    OpenAckConnection(ConnectionAttributes),
    OpenConfirmConnection(ConnectionAttributes),
    OpenInitChannel(ChannelEventData),
    OpenTryChannel(ChannelEventData),
    OpenAckChannel(ChannelEventData),
    OpenConfirmChannel(ChannelEventData),
    CloseInitChannel(ChannelEventData),
    CloseConfirmChannel(ChannelEventData),
    ChannelClosed(ChannelEventData),
    SendPacket(PacketEventData),
    ReceivePacket(PacketEventData),
    WriteAcknowledgement(AcknowledgementEventData),
    AcknowledgePacket(PacketEventData),
    TimeoutPacket(PacketEventData),
    Message(MessageEvent),
    Module(ModuleEvent),
}

/// What an event of the protocol tells.
pub enum IbcEventView {
    CreateClient(ClientAttributes),
    UpdateClient(ClientAttributes),
    ClientMisbehaviour(ClientAttributes),
    OpenInitConnection(ConnectionAttributes),
    OpenTryConnection(ConnectionAttributes),
    OpenAckConnection(ConnectionAttributes),
    OpenConfirmConnection(ConnectionAttributes),
    OpenInitChannel(ChannelAttributes),
    OpenTryChannel(ChannelAttributes),
    OpenAckChannel(ChannelAttributes),
    OpenConfirmChannel(ChannelAttributes),
    CloseInitChannel(ChannelAttributes),
    CloseConfirmChannel(ChannelAttributes),
    ChannelClosed(ChannelAttributes),
    SendPacket(PacketAttributes),
    ReceivePacket(PacketAttributes),
    WriteAcknowledgement(AcknowledgementAttributes),
    AcknowledgePacket(PacketAttributes),
    TimeoutPacket(PacketAttributes),
    Message(MessageEvent),
    Module((Seq<char>, Seq<char>)),
}

impl View for IbcEvent {
    type V = IbcEventView;

    open spec fn view(&self) -> IbcEventView {
        match self {
            IbcEvent::CreateClient(a) => IbcEventView::CreateClient(*a),
            IbcEvent::UpdateClient(a) => IbcEventView::UpdateClient(*a),
            IbcEvent::ClientMisbehaviour(a) => IbcEventView::ClientMisbehaviour(*a),
            IbcEvent::OpenInitConnection(a) => IbcEventView::OpenInitConnection(*a),
            IbcEvent::OpenTryConnection(a) => IbcEventView::OpenTryConnection(*a),
            IbcEvent::OpenAckConnection(a) => IbcEventView::OpenAckConnection(*a),
            IbcEvent::OpenConfirmConnection(a) => IbcEventView::OpenConfirmConnection(*a),
            IbcEvent::OpenInitChannel(a) => IbcEventView::OpenInitChannel(a@),
            IbcEvent::OpenTryChannel(a) => IbcEventView::OpenTryChannel(a@),
            IbcEvent::OpenAckChannel(a) => IbcEventView::OpenAckChannel(a@),
            IbcEvent::OpenConfirmChannel(a) => IbcEventView::OpenConfirmChannel(a@),
            IbcEvent::CloseInitChannel(a) => IbcEventView::CloseInitChannel(a@),
            IbcEvent::CloseConfirmChannel(a) => IbcEventView::CloseConfirmChannel(a@),
            IbcEvent::ChannelClosed(a) => IbcEventView::ChannelClosed(a@),
            IbcEvent::SendPacket(a) => IbcEventView::SendPacket(a@),
            IbcEvent::ReceivePacket(a) => IbcEventView::ReceivePacket(a@),
            IbcEvent::WriteAcknowledgement(a) => IbcEventView::WriteAcknowledgement(a@),
            IbcEvent::AcknowledgePacket(a) => IbcEventView::AcknowledgePacket(a@),
            IbcEvent::TimeoutPacket(a) => IbcEventView::TimeoutPacket(a@),
            IbcEvent::Message(m) => IbcEventView::Message(*m),
            IbcEvent::Module(m) => IbcEventView::Module(m@),
        }
    }
}

impl Clone for IbcEvent {
    fn clone(&self) -> (r: IbcEvent)
        ensures
            r@ == self@,
    {
        match self {
            IbcEvent::CreateClient(a) => IbcEvent::CreateClient(*a),
            IbcEvent::UpdateClient(a) => IbcEvent::UpdateClient(*a),
            IbcEvent::ClientMisbehaviour(a) => IbcEvent::ClientMisbehaviour(*a),
            IbcEvent::OpenInitConnection(a) => IbcEvent::OpenInitConnection(*a),
            IbcEvent::OpenTryConnection(a) => IbcEvent::OpenTryConnection(*a),
            IbcEvent::OpenAckConnection(a) => IbcEvent::OpenAckConnection(*a),
            IbcEvent::OpenConfirmConnection(a) => IbcEvent::OpenConfirmConnection(*a),
            IbcEvent::OpenInitChannel(a) => IbcEvent::OpenInitChannel(a.clone()),
            IbcEvent::OpenTryChannel(a) => IbcEvent::OpenTryChannel(a.clone()),
            IbcEvent::OpenAckChannel(a) => IbcEvent::OpenAckChannel(a.clone()),
            IbcEvent::OpenConfirmChannel(a) => IbcEvent::OpenConfirmChannel(a.clone()),
            IbcEvent::CloseInitChannel(a) => IbcEvent::CloseInitChannel(a.clone()),
            IbcEvent::CloseConfirmChannel(a) => IbcEvent::CloseConfirmChannel(a.clone()),
            IbcEvent::ChannelClosed(a) => IbcEvent::ChannelClosed(a.clone()),
            IbcEvent::SendPacket(a) => IbcEvent::SendPacket(a.clone()),
            IbcEvent::ReceivePacket(a) => IbcEvent::ReceivePacket(a.clone()),
            IbcEvent::WriteAcknowledgement(a) => IbcEvent::WriteAcknowledgement(a.clone()),
            IbcEvent::AcknowledgePacket(a) => IbcEvent::AcknowledgePacket(a.clone()),
            IbcEvent::TimeoutPacket(a) => IbcEvent::TimeoutPacket(a.clone()),
            IbcEvent::Message(m) => IbcEvent::Message(*m),
            IbcEvent::Module(m) => IbcEvent::Module(m.clone()),
        }
    }
}

/// What a list of events tells.
pub open spec fn events_view(events: Seq<IbcEvent>) -> Seq<IbcEventView> {
    Seq::new(events.len(), |i: int| events[i]@)
}

/// What a list of module events tells, as events of the protocol.
pub open spec fn module_events_view(events: Seq<ModuleEvent>) -> Seq<IbcEventView> {
    Seq::new(events.len(), |i: int| IbcEventView::Module(events[i]@))
}

/// What a list of log lines says.
pub open spec fn logs_view(logs: Seq<String>) -> Seq<Seq<char>> {
    Seq::new(logs.len(), |i: int| logs[i]@)
}

} // verus!
