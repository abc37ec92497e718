//! Channel ends, and the packets and acknowledgements that travel over a
//! channel.

use vstd::prelude::*;
use crate::commitment::TimeoutHeight;
use crate::identifier::{ChannelId, ConnectionId, PortId, Sequence};
use crate::table::Stored;
use crate::timestamp::Timestamp;

verus! {

/// How far a channel has come. `Closed` is final.
#[derive(Clone, Copy, Debug, PartialEq, Eq, Structural)]
pub enum State {
    Init,
    TryOpen,
    Open,
    Closed,
}

impl State {
    /// The place of the state in the life of a channel.
    pub open spec fn rank(self) -> int {
        match self {
            State::Init => 1,
            State::TryOpen => 2,
            State::Open => 3,
            State::Closed => 4,
        }
    }
}

/// Whether packets must arrive in the order in which they were sent. The
/// ordering of a channel is fixed when the channel is made.
#[derive(Clone, Copy, Debug, PartialEq, Eq, Structural)]
pub enum Order {
    Unordered,
    Ordered,
}

impl Default for Order {
    fn default() -> (r: Order)
        ensures
            r == Order::Unordered,
    {
        Order::Unordered
    }
}

/// The version that the application modules at both ends agree on.
#[derive(Debug, PartialEq, Eq)]
pub struct Version {
    pub name: String,
}

impl View for Version {
    type V = Seq<char>;

    open spec fn view(&self) -> Seq<char> {
        self.name@
    }
}

impl Version {
    pub fn new(name: String) -> (r: Version)
        ensures
            r.name == name,
    {
        Version { name }
    }
}

impl Clone for Version {
    fn clone(&self) -> (r: Version)
        ensures
            r == *self,
    {
        Version { name: self.name.clone() }
    }
}

/// The other end of a channel, as this end knows it.
#[derive(Debug, PartialEq, Eq)]
pub struct Counterparty {
    pub port_id: PortId,
    pub channel_id: Option<ChannelId>,
}

impl Counterparty {
    pub fn new(port_id: PortId, channel_id: Option<ChannelId>) -> (r: Counterparty)
        ensures
            r == (Counterparty { port_id, channel_id }),
    {
        Counterparty { port_id, channel_id }
    }
}

impl Clone for Counterparty {
    fn clone(&self) -> (r: Counterparty)
        ensures
            r == *self,
    {
        Counterparty { port_id: self.port_id.clone(), channel_id: self.channel_id }
    }
}

/// A copy of a list of connection identifiers.
pub fn copy_hops(hops: &Vec<ConnectionId>) -> (r: Vec<ConnectionId>)
    ensures
        r@ == hops@,
{
    let mut out: Vec<ConnectionId> = Vec::new();
    let mut i: usize = 0;
    while i < hops.len()
        invariant
            i <= hops.len(),
            out@ == hops@.subrange(0, i as int),
        decreases hops.len() - i,
    {
        out.push(hops[i]);
        i += 1;
        assert(out@ =~= hops@.subrange(0, i as int));
    }
    assert(hops@.subrange(0, hops@.len() as int) =~= hops@);
    out
}

/// A copy of a byte string.
pub fn copy_bytes(bytes: &Vec<u8>) -> (r: Vec<u8>)
    ensures
        r@ == bytes@,
{
    let mut out: Vec<u8> = Vec::new();
    let mut i: usize = 0;
    while i < bytes.len()
        invariant
            i <= bytes.len(),
            out@ == bytes@.subrange(0, i as int),
        decreases bytes.len() - i,
    {
        out.push(bytes[i]);
        i += 1;
        assert(out@ =~= bytes@.subrange(0, i as int));
    }
    assert(bytes@.subrange(0, bytes@.len() as int) =~= bytes@);
    out
}

/// One end of a channel.
#[derive(Debug, PartialEq, Eq)]
pub struct ChannelEnd {
    pub state: State,
    pub ordering: Order,
    pub counterparty: Counterparty,
    pub connection_hops: Vec<ConnectionId>,
    pub version: Version,
}

/// What a channel end holds.
pub struct ChannelEndView {
    pub state: State,
    pub ordering: Order,
    pub counterparty_port_id: Seq<char>,
    pub counterparty_channel_id: Option<ChannelId>,
    pub connection_hops: Seq<ConnectionId>,
    pub version: Seq<char>,
}

impl View for ChannelEnd {
    type V = ChannelEndView;

    open spec fn view(&self) -> ChannelEndView {
        ChannelEndView {
            state: self.state,
            ordering: self.ordering,
            counterparty_port_id: self.counterparty.port_id@,
            counterparty_channel_id: self.counterparty.channel_id,
            connection_hops: self.connection_hops@,
            version: self.version@,
        }
    }
}

impl Clone for ChannelEnd {
    fn clone(&self) -> (r: ChannelEnd)
        ensures
            r@ == self@,
    {
        ChannelEnd {
            state: self.state,
            ordering: self.ordering,
            counterparty: self.counterparty.clone(),
            connection_hops: copy_hops(&self.connection_hops),
            version: self.version.clone(),
        }
    }
}

impl Stored for ChannelEnd {
    fn duplicate(&self) -> (r: Self) {
        self.clone()
    }
}

impl ChannelEnd {
    pub fn new(
        state: State,
        ordering: Order,
        counterparty: Counterparty,
        connection_hops: Vec<ConnectionId>,
        version: Version,
    ) -> (r: ChannelEnd)
        ensures
            r == (ChannelEnd { state, ordering, counterparty, connection_hops, version }),
    {
        ChannelEnd { state, ordering, counterparty, connection_hops, version }
    }

    pub fn state_matches(&self, state: State) -> (r: bool)
        ensures
            r == (self.state == state),
    {
        match (self.state, state) {
            (State::Init, State::Init) => true,
            (State::TryOpen, State::TryOpen) => true,
            (State::Open, State::Open) => true,
            (State::Closed, State::Closed) => true,
            _ => false,
        }
    }

    pub fn is_open(&self) -> (r: bool)
        ensures
            r == (self.state == State::Open),
    {
        self.state_matches(State::Open)
    }

    pub fn is_ordered(&self) -> (r: bool)
        ensures
            r == (self.ordering == Order::Ordered),
    {
        match self.ordering {
            Order::Ordered => true,
            Order::Unordered => false,
        }
    }

    /// Whether the other end is the given port and channel.
    pub fn counterparty_matches(&self, port_id: &PortId, channel_id: &ChannelId) -> (r: bool)
        ensures
            r == (self@.counterparty_port_id == port_id@ && self@.counterparty_channel_id == Some(
                *channel_id,
            )),
    {
        match self.counterparty.channel_id {
            Some(id) => id.counter == channel_id.counter && self.counterparty.port_id.id
                == port_id.id,
            None => false,
        }
    }

    /// The same end in another state.
    pub fn with_state(self, state: State) -> (r: ChannelEnd)
        ensures
            r@ == (ChannelEndView { state, ..self@ }),
    {
        ChannelEnd {
            state,
            ordering: self.ordering,
            counterparty: self.counterparty,
            connection_hops: self.connection_hops,
            version: self.version,
        }
    }
}

/// A packet: data on its way from a channel end on chain A to the channel end
/// on chain B that it is connected to. Nothing of it changes once it is sent.
#[derive(Debug, PartialEq, Eq)]
pub struct Packet {
    pub seq_on_a: Sequence,
    pub port_id_on_a: PortId,
    pub chan_id_on_a: ChannelId,
    pub port_id_on_b: PortId,
    pub chan_id_on_b: ChannelId,
    pub data: Vec<u8>,
    pub timeout_height_on_b: TimeoutHeight,
    pub timeout_timestamp_on_b: Timestamp,
}

/// What a packet holds.
pub struct PacketView {
    pub seq_on_a: Sequence,
    pub port_id_on_a: Seq<char>,
    pub chan_id_on_a: ChannelId,
    pub port_id_on_b: Seq<char>,
    pub chan_id_on_b: ChannelId,
    pub data: Seq<u8>,
    pub timeout_height_on_b: TimeoutHeight,
    pub timeout_timestamp_on_b: Timestamp,
}

impl View for Packet {
    type V = PacketView;

    open spec fn view(&self) -> PacketView {
        PacketView {
            seq_on_a: self.seq_on_a,
            port_id_on_a: self.port_id_on_a@,
            chan_id_on_a: self.chan_id_on_a,
            port_id_on_b: self.port_id_on_b@,
            chan_id_on_b: self.chan_id_on_b,
            data: self.data@,
            timeout_height_on_b: self.timeout_height_on_b,
            timeout_timestamp_on_b: self.timeout_timestamp_on_b,
        }
    }
}

impl Clone for Packet {
    fn clone(&self) -> (r: Packet)
        ensures
            r@ == self@,
    {
        Packet {
            seq_on_a: self.seq_on_a,
            port_id_on_a: self.port_id_on_a.clone(),
            chan_id_on_a: self.chan_id_on_a,
            port_id_on_b: self.port_id_on_b.clone(),
            chan_id_on_b: self.chan_id_on_b,
            data: copy_bytes(&self.data),
            timeout_height_on_b: self.timeout_height_on_b,
            timeout_timestamp_on_b: self.timeout_timestamp_on_b,
        }
    }
}

impl PacketView {
    /// Whether the packet sets no timeout at all.
    pub open spec fn no_timeout(self) -> bool {
        self.timeout_height_on_b == TimeoutHeight::Never && !self.timeout_timestamp_on_b.spec_is_set()
    }
}

/// What the receiving application answers to a packet.
#[derive(Debug, PartialEq, Eq)]
pub struct Acknowledgement {
    pub bytes: Vec<u8>,
}

impl View for Acknowledgement {
    type V = Seq<u8>;

    open spec fn view(&self) -> Seq<u8> {
        self.bytes@
    }
}

impl Clone for Acknowledgement {
    fn clone(&self) -> (r: Acknowledgement)
        ensures
            r@ == self@,
    {
        Acknowledgement { bytes: copy_bytes(&self.bytes) }
    }
}

impl Acknowledgement {
    /// Wraps the bytes of an acknowledgement, which must not be empty.
    pub fn try_from_bytes(bytes: Vec<u8>) -> (r: Option<Acknowledgement>)
        ensures
            bytes@.len() == 0 ==> r is None,
            bytes@.len() > 0 ==> r == Some(Acknowledgement { bytes }),
    {
        if bytes.len() == 0 {
            None
        } else {
            Some(Acknowledgement { bytes })
        }
    }

    pub fn as_bytes(&self) -> (r: &Vec<u8>)
        ensures
            r@ == self@,
    {
        &self.bytes
    }
}

} // verus!
