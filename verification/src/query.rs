//! What a host offers to those who ask about its protocol state: proofs of
//! what it has stored, and listings of clients, connections, channels and
//! packets. All of it is read from the state that the handlers change.

use vstd::prelude::*;
use crate::channel::{ChannelEnd, ChannelEndView};
use crate::client::{AnyClientState, AnyConsensusState, Status};
use crate::connection::{ConnectionEnd, ConnectionEndView};
use crate::context::ValidationContext;
use crate::error::ContextError;
use crate::handler::common::spec_client_status;
use crate::height::Height;
use crate::identifier::{ChannelId, ClientId, ClientType, ConnectionId, PortId, Sequence};
use crate::path::{AckPath, ChannelEndPath, ChannelKey, CommitmentPath, PacketKey, Path};
use crate::state::HostState;
use crate::channel::Order;
use crate::table::{distinct_keys, entries_map, entry_for, lemma_entry_in_map, Key, Stored};

verus! {

/// A connection end with the identifier that it is stored under.
#[derive(Debug, PartialEq, Eq)]
pub struct IdentifiedConnectionEnd {
    pub connection_id: ConnectionId,
    pub connection_end: ConnectionEnd,
}

impl View for IdentifiedConnectionEnd {
    type V = (ConnectionId, ConnectionEndView);

    open spec fn view(&self) -> (ConnectionId, ConnectionEndView) {
        (self.connection_id, self.connection_end@)
    }
}

/// A channel end with the port and channel that it is stored under.
#[derive(Debug, PartialEq, Eq)]
pub struct IdentifiedChannelEnd {
    pub port_id: PortId,
    pub channel_id: ChannelId,
    pub channel_end: ChannelEnd,
}

impl View for IdentifiedChannelEnd {
    type V = (ChannelKey, ChannelEndView);

    open spec fn view(&self) -> (ChannelKey, ChannelEndView) {
        ((self.port_id@, self.channel_id), self.channel_end@)
    }
}

/// Whether the entries stand by rising height: each entry stands at a
/// height that comes strictly before that of the next.
pub open spec fn by_rising_height<T>(list: Seq<(Height, T)>) -> bool {
    forall|i: int, j: int|
        0 <= i < j < list.len() ==> (#[trigger] list[i]).0.spec_lt((#[trigger] list[j]).0)
}

/// Whether the heights rise: each comes strictly before the next.
pub open spec fn rising(heights: Seq<Height>) -> bool {
    forall|i: int, j: int|
        0 <= i < j < heights.len() ==> (#[trigger] heights[i]).spec_lt(#[trigger] heights[j])
}

/// Whether no two entries stand at the same height.
pub open spec fn distinct_heights<T>(list: Seq<(Height, T)>) -> bool {
    forall|i: int, j: int|
        0 <= i < j < list.len() ==> (#[trigger] list[i]).0 != (#[trigger] list[j]).0
}

/// Puts entries in the order of their heights. The result holds the entries
/// of `list` and no others; where no two of them stand at the same height,
/// the heights of the result rise strictly.
pub fn sort_by_height<T: Copy>(list: &Vec<(Height, T)>) -> (r: Vec<(Height, T)>)
    ensures
        r@.len() == list@.len(),
        forall|i: int| 0 <= i < r@.len() ==> list@.contains(#[trigger] r@[i]),
        forall|j: int| 0 <= j < list@.len() ==> r@.contains(#[trigger] list@[j]),
        forall|i: int, j: int|
            0 <= i < j < r@.len() ==> (#[trigger] r@[i]).0.spec_le((#[trigger] r@[j]).0),
        distinct_heights(list@) ==> by_rising_height(r@),
{
    let mut out: Vec<(Height, T)> = Vec::new();
    let mut i: usize = 0;
    while i < list.len()
        invariant
            i <= list@.len(),
            out@.len() == i,
            forall|a: int|
                0 <= a < out@.len() ==> exists|j: int|
                    0 <= j < i && list@[j] == #[trigger] out@[a],
            forall|j: int| 0 <= j < i ==> out@.contains(#[trigger] list@[j]),
            forall|a: int, b: int|
                0 <= a < b < out@.len() ==> (#[trigger] out@[a]).0.spec_le((#[trigger] out@[b]).0),
            distinct_heights(list@) ==> by_rising_height(out@),
        decreases list@.len() - i,
    {
        let entry = list[i];
        let mut at: usize = 0;
        while at < out.len() && !entry.0.lt(&out[at].0)
            invariant
                at <= out@.len(),
                forall|a: int| 0 <= a < at ==> (#[trigger] out@[a]).0.spec_le(entry.0),
            decreases out@.len() - at,
        {
            at += 1;
        }
        let ghost before = out@;
        out.insert(at, entry);
        proof {
            let after = out@;
            assert forall|a: int| 0 <= a < after.len() implies exists|j: int|
                0 <= j < i + 1 && list@[j] == #[trigger] after[a] by {
                if a < at {
                    assert(after[a] == before[a]);
                    let j = choose|j: int| 0 <= j < i && list@[j] == before[a];
                    assert(list@[j] == after[a]);
                } else if a == at {
                    assert(list@[i as int] == after[a]);
                } else {
                    assert(after[a] == before[a - 1]);
                    let j = choose|j: int| 0 <= j < i && list@[j] == before[a - 1];
                    assert(list@[j] == after[a]);
                }
            }
            assert forall|j: int| 0 <= j < i + 1 implies after.contains(#[trigger] list@[j]) by {
                if j < i {
                    let a = choose|a: int| 0 <= a < before.len() && before[a] == list@[j];
                    if a < at {
                        assert(after[a] == list@[j]);
                    } else {
                        assert(after[a + 1] == list@[j]);
                    }
                } else {
                    assert(after[at as int] == list@[j]);
                }
            }
            assert forall|a: int, b: int| 0 <= a < b < after.len() implies (#[trigger] after[a]).0.spec_le(
                (#[trigger] after[b]).0,
            ) by {
                if b < at {
                    assert(after[a] == before[a] && after[b] == before[b]);
                } else if b == at {
                    assert(after[a] == before[a]);
                } else if a < at {
                    assert(after[a] == before[a] && after[b] == before[b - 1]);
                } else if a == at {
                    assert(after[b] == before[b - 1]);
                    assert(before[at as int].0.spec_le(before[b - 1].0));
                } else {
                    assert(after[a] == before[a - 1] && after[b] == before[b - 1]);
                }
            }
            if distinct_heights(list@) {
                assert forall|a: int, b: int| 0 <= a < b < after.len() implies (#[trigger] after[a]).0.spec_lt(
                    (#[trigger] after[b]).0,
                ) by {
                    let ja = choose|j: int| 0 <= j < i + 1 && list@[j] == after[a];
                    let jb = choose|j: int| 0 <= j < i + 1 && list@[j] == after[b];
                    if b < at {
                        assert(after[a] == before[a] && after[b] == before[b]);
                    } else if b == at {
                        assert(after[a] == before[a]);
                        let j = choose|j: int| 0 <= j < i && list@[j] == before[a];
                        assert(list@[j].0 != list@[i as int].0);
                    } else if a < at {
                        assert(after[a] == before[a] && after[b] == before[b - 1]);
                    } else if a == at {
                        assert(after[b] == before[b - 1]);
                        assert(before[at as int].0.spec_le(before[b - 1].0));
                    } else {
                        assert(after[a] == before[a - 1] && after[b] == before[b - 1]);
                    }
                }
            }
        }
        i += 1;
    }
    out
}

/// Whether `list` names each entry of `m` that is wanted, with its value,
/// and each once.
pub open spec fn lists<K, V>(list: Seq<(K, V)>, m: Map<K, V>, wanted: spec_fn(K, V) -> bool) -> bool {
    &&& forall|i: int|
        0 <= i < list.len() ==> m.contains_key((#[trigger] list[i]).0) && m[list[i].0] == list[i].1
            && wanted(list[i].0, list[i].1)
    &&& forall|k: K|
        m.contains_key(k) && wanted(k, m[k]) ==> exists|i: int|
            0 <= i < list.len() && (#[trigger] list[i]).0 == k
    &&& forall|i: int, j: int|
        0 <= i < j < list.len() ==> (#[trigger] list[i]).0 != (#[trigger] list[j]).0
}

/// Whether `keys` names each key of `m` that is wanted, and each once.
pub open spec fn lists_keys<K, V>(keys: Seq<K>, m: Map<K, V>, wanted: spec_fn(K, V) -> bool) -> bool {
    &&& forall|i: int|
        0 <= i < keys.len() ==> m.contains_key(#[trigger] keys[i]) && wanted(keys[i], m[keys[i]])
    &&& forall|k: K|
        m.contains_key(k) && wanted(k, m[k]) ==> exists|i: int|
            0 <= i < keys.len() && #[trigger] keys[i] == k
    &&& forall|i: int, j: int| 0 <= i < j < keys.len() ==> #[trigger] keys[i] != #[trigger] keys[j]
}

/// Those of `s` that are to be kept, in their order.
pub open spec fn select<T>(s: Seq<T>, keep: spec_fn(T) -> bool) -> Seq<T>
    decreases s.len(),
{
    if s.len() == 0 {
        Seq::empty()
    } else if keep(s.last()) {
        select(s.drop_last(), keep).push(s.last())
    } else {
        select(s.drop_last(), keep)
    }
}

/// The entries of `e` that are wanted, by their views, in their order.
pub open spec fn chosen<K: Key, V: Stored>(
    e: Seq<(K, V)>,
    wanted: spec_fn(K::V, V::V) -> bool,
) -> Seq<(K::V, V::V)>
    decreases e.len(),
{
    if e.len() == 0 {
        Seq::empty()
    } else if wanted(e.last().0@, e.last().1@) {
        chosen(e.drop_last(), wanted).push((e.last().0@, e.last().1@))
    } else {
        chosen(e.drop_last(), wanted)
    }
}

/// Whether `pair` is the view of one of the first `j` entries of `e`.
pub open spec fn among_first<K: Key, V: Stored>(e: Seq<(K, V)>, pair: (K::V, V::V), j: int) -> bool {
    exists|b: int| 0 <= b < j && b < e.len() && pair == (#[trigger] e[b].0@, e[b].1@)
}

/// Each of the chosen entries is an entry that is wanted, and those chosen
/// before it are entries that come before it.
pub proof fn lemma_chosen_from<K: Key, V: Stored>(
    e: Seq<(K, V)>,
    wanted: spec_fn(K::V, V::V) -> bool,
    i: int,
) -> (j: int)
    requires
        0 <= i < chosen(e, wanted).len(),
    ensures
        0 <= j < e.len(),
        chosen(e, wanted)[i] == (e[j].0@, e[j].1@),
        wanted(e[j].0@, e[j].1@),
        forall|a: int| 0 <= a < i ==> among_first(e, #[trigger] chosen(e, wanted)[a], j),
    decreases e.len(),
{
    let rest = chosen(e.drop_last(), wanted);
    let full = chosen(e, wanted);
    if wanted(e.last().0@, e.last().1@) && i == rest.len() {
        let j = e.len() - 1;
        assert forall|a: int| 0 <= a < i implies among_first(e, #[trigger] full[a], j) by {
            let b = lemma_chosen_from(e.drop_last(), wanted, a);
            assert(e.drop_last()[b] == e[b]);
            assert(full[a] == rest[a]);
            assert(full[a] == (e[b].0@, e[b].1@));
        }
        j
    } else {
        let j = lemma_chosen_from(e.drop_last(), wanted, i);
        assert(e.drop_last()[j] == e[j]);
        assert forall|a: int| 0 <= a < i implies among_first(e, #[trigger] full[a], j) by {
            assert(full[a] == rest[a]);
            assert(among_first(e.drop_last(), rest[a], j));
            let b = choose|b: int|
                0 <= b < j && b < e.drop_last().len() && rest[a] == (
                    #[trigger] e.drop_last()[b].0@,
                    e.drop_last()[b].1@,
                );
            assert(e.drop_last()[b] == e[b]);
            assert(full[a] == (e[b].0@, e[b].1@));
        }
        j
    }
}

/// Each entry that is wanted is among the chosen.
pub proof fn lemma_chosen_has<K: Key, V: Stored>(
    e: Seq<(K, V)>,
    wanted: spec_fn(K::V, V::V) -> bool,
    j: int,
) -> (i: int)
    requires
        0 <= j < e.len(),
        wanted(e[j].0@, e[j].1@),
    ensures
        0 <= i < chosen(e, wanted).len(),
        chosen(e, wanted)[i] == (e[j].0@, e[j].1@),
    decreases e.len(),
{
    let rest = chosen(e.drop_last(), wanted);
    if j == e.len() - 1 {
        rest.len() as int
    } else {
        let i = lemma_chosen_has(e.drop_last(), wanted, j);
        assert(e.drop_last()[j] == e[j]);
        i
    }
}

/// The chosen entries of a table's listing name each wanted entry of the
/// table, and each once.
pub proof fn lemma_chosen_lists<K: Key, V: Stored>(
    e: Seq<(K, V)>,
    wanted: spec_fn(K::V, V::V) -> bool,
)
    requires
        distinct_keys(e),
    ensures
        lists(chosen(e, wanted), entries_map(e), wanted),
{
    let list = chosen(e, wanted);
    let m = entries_map(e);
    assert forall|i: int| 0 <= i < list.len() implies m.contains_key((#[trigger] list[i]).0)
        && m[list[i].0] == list[i].1 && wanted(list[i].0, list[i].1) by {
        let j = lemma_chosen_from(e, wanted, i);
        lemma_entry_in_map(e, j);
    }
    assert forall|k: K::V| m.contains_key(k) && wanted(k, m[k]) implies exists|i: int|
        0 <= i < list.len() && (#[trigger] list[i]).0 == k by {
        let j = choose|j: int| entry_for(e, k, j);
        lemma_entry_in_map(e, j);
        let i = lemma_chosen_has(e, wanted, j);
        assert(list[i].0 == k);
    }
    assert forall|i: int, j: int| 0 <= i < j < list.len() implies (#[trigger] list[i]).0 != (
    #[trigger] list[j]).0 by {
        let b = lemma_chosen_from(e, wanted, j);
        assert(among_first(e, list[i], b));
        let a = choose|a: int|
            0 <= a < b && a < e.len() && list[i] == (#[trigger] e[a].0@, e[a].1@);
        assert(e[a].0@ != e[b].0@);
    }
}

/// The views of a list of identified connection ends.
pub open spec fn connections_view(list: Seq<IdentifiedConnectionEnd>) -> Seq<
    (ConnectionId, ConnectionEndView),
> {
    Seq::new(list.len(), |i: int| list[i]@)
}

/// The views of a list of identified channel ends.
pub open spec fn channels_view(list: Seq<IdentifiedChannelEnd>) -> Seq<(ChannelKey, ChannelEndView)> {
    Seq::new(list.len(), |i: int| list[i]@)
}

/// The views of a list of packet paths.
pub open spec fn paths_view(list: Seq<CommitmentPath>) -> Seq<PacketKey> {
    Seq::new(list.len(), |i: int| list[i]@)
}

/// Whether a packet with the sequence number `sequence` is still to be
/// received on the channel: on an unordered channel no receipt is stored for
/// it; on an ordered channel it is not below the number that is due.
pub open spec fn spec_unreceived_packet(
    s: HostState,
    key: ChannelKey,
    ordering: Order,
    sequence: Sequence,
) -> bool {
    match ordering {
        Order::Unordered => !s.packet_receipts.contains_key((key.0, key.1, sequence)),
        Order::Ordered => s.next_sequence_recv.contains_key(key) && s.next_sequence_recv[key].value
            <= sequence.value,
    }
}

/// A host that can show proofs of what it has stored.
pub trait ProvableContext {
    /// The proof for what is stored at `path`, as of the block at `height`.
    fn get_proof(&self, height: Height, path: &Path) -> Option<Vec<u8>>;
}

/// A host that can be asked about its protocol state.
pub trait QueryContext: ProvableContext + ValidationContext {
    /// All clients with their states.
    fn client_states(&self) -> (r: Result<Vec<(ClientId, AnyClientState)>, ContextError>)
        requires
            self.inv(),
        ensures
            r matches Ok(list) && lists(
                list@,
                self.state().clients,
                |id: ClientId, cs: AnyClientState| true,
            ),
    ;

    /// All consensus states of a client, with their heights, by rising
    /// height.
    fn consensus_states(&self, client_id: &ClientId) -> (r: Result<
        Vec<(Height, AnyConsensusState)>,
        ContextError,
    >)
        requires
            self.inv(),
        ensures
            r matches Ok(list) && lists(
                Seq::new(list@.len(), |i: int| ((*client_id, list@[i].0), list@[i].1)),
                self.state().consensus_states,
                |key: (ClientId, Height), cs: AnyConsensusState| key.0 == *client_id,
            ) && by_rising_height(list@),
    ;

    /// The heights at which consensus states of a client are stored, each
    /// once, the lowest first.
    fn consensus_state_heights(&self, client_id: &ClientId) -> (r: Result<
        Vec<Height>,
        ContextError,
    >)
        requires
            self.inv(),
        ensures
            r matches Ok(heights) && lists_keys(
                Seq::new(heights@.len(), |i: int| (*client_id, heights@[i])),
                self.state().consensus_states,
                |key: (ClientId, Height), cs: AnyConsensusState| key.0 == *client_id,
            ) && rising(heights@),
    ;

    /// The status of a client.
    fn client_status(&self, client_id: &ClientId) -> (r: Result<Status, ContextError>)
        requires
            self.inv(),
        ensures
            match self.state().client_state(*client_id) {
                Err(e) => r == Err::<Status, ContextError>(e),
                Ok(cs) => r == Ok::<Status, ContextError>(
                    spec_client_status(self.state(), *client_id, cs),
                ),
            },
    ;

    /// The client types that the host supports.
    fn allowed_clients(&self) -> (r: Vec<ClientType>)
        ensures
            r@ == seq![ClientType::Mock, ClientType::Tendermint],
    ;

    /// All connection ends.
    fn connection_ends(&self) -> (r: Result<Vec<IdentifiedConnectionEnd>, ContextError>)
        requires
            self.inv(),
        ensures
            r matches Ok(list) && lists(
                connections_view(list@),
                self.state().connections,
                |id: ConnectionId, end: ConnectionEndView| true,
            ),
    ;

    /// The connections of a client.
    fn client_connection_ends(&self, client_id: &ClientId) -> (r: Result<
        Vec<ConnectionId>,
        ContextError,
    >)
        requires
            self.inv(),
        ensures
            r matches Ok(ids) && lists_keys(
                ids@,
                self.state().connections,
                |id: ConnectionId, end: ConnectionEndView| end.client_id == *client_id,
            ),
    ;

    /// All channel ends.
    fn channel_ends(&self) -> (r: Result<Vec<IdentifiedChannelEnd>, ContextError>)
        requires
            self.inv(),
        ensures
            r matches Ok(list) && lists(
                channels_view(list@),
                self.state().channels,
                |key: ChannelKey, end: ChannelEndView| true,
            ),
    ;

    /// The channel ends that run over a connection.
    fn connection_channel_ends(&self, connection_id: &ConnectionId) -> (r: Result<
        Vec<IdentifiedChannelEnd>,
        ContextError,
    >)
        requires
            self.inv(),
        ensures
            r matches Ok(list) && lists(
                channels_view(list@),
                self.state().channels,
                |key: ChannelKey, end: ChannelEndView|
                    end.connection_hops.len() >= 1 && end.connection_hops[0] == *connection_id,
            ),
    ;

    /// The places of the packet commitments of a channel end.
    fn packet_commitments(&self, channel_end_path: &ChannelEndPath) -> (r: Result<
        Vec<CommitmentPath>,
        ContextError,
    >)
        requires
            self.inv(),
        ensures
            r matches Ok(paths) && lists_keys(
                paths_view(paths@),
                self.state().packet_commitments,
                |key: PacketKey, c: Seq<u8>| (key.0, key.1) == channel_end_path@,
            ),
    ;

    /// The places of the acknowledgements of a channel end: of those of the
    /// given sequence numbers that are acknowledged, in the given order, or of
    /// all where no sequence numbers are given.
    fn packet_acknowledgements(
        &self,
        channel_end_path: &ChannelEndPath,
        sequences: &Vec<Sequence>,
    ) -> (r: Result<Vec<AckPath>, ContextError>)
        requires
            self.inv(),
        ensures
            r matches Ok(paths) && if sequences@.len() == 0 {
                lists_keys(
                    paths_view(paths@),
                    self.state().packet_acknowledgements,
                    |key: PacketKey, c: Seq<u8>| (key.0, key.1) == channel_end_path@,
                )
            } else {
                paths_view(paths@) == Seq::new(
                    select(
                        sequences@,
                        |s: Sequence|
                            self.state().packet_acknowledgements.contains_key(
                                (channel_end_path@.0, channel_end_path@.1, s),
                            ),
                    ).len(),
                    |i: int|
                        (
                            channel_end_path@.0,
                            channel_end_path@.1,
                            select(
                                sequences@,
                                |s: Sequence|
                                    self.state().packet_acknowledgements.contains_key(
                                        (channel_end_path@.0, channel_end_path@.1, s),
                                    ),
                            )[i],
                        ),
                )
            },
    ;

    /// Those of the given sequence numbers whose packets are not received
    /// on the channel end, in the given order.
    fn unreceived_packets(&self, channel_end_path: &ChannelEndPath, sequences: &Vec<Sequence>) -> (r:
        Result<Vec<Sequence>, ContextError>)
        requires
            self.inv(),
        ensures
            match self.state().channel_end(channel_end_path@) {
                Err(e) => r == Err::<Vec<Sequence>, ContextError>(e),
                Ok(end) => r matches Ok(kept) && kept@ == select(
                    sequences@,
                    |s: Sequence|
                        spec_unreceived_packet(self.state(), channel_end_path@, end.ordering, s),
                ),
            },
    ;

    /// The sequence numbers of the packets that are sent from the channel
    /// end and not settled: those of the given sequence numbers, in the given
    /// order, or all where no sequence numbers are given.
    fn unreceived_acks(&self, channel_end_path: &ChannelEndPath, sequences: &Vec<Sequence>) -> (r:
        Result<Vec<Sequence>, ContextError>)
        requires
            self.inv(),
        ensures
            r matches Ok(kept) && if sequences@.len() == 0 {
                lists_keys(
                    Seq::new(
                        kept@.len(),
                        |i: int| (channel_end_path@.0, channel_end_path@.1, kept@[i]),
                    ),
                    self.state().packet_commitments,
                    |key: PacketKey, c: Seq<u8>| (key.0, key.1) == channel_end_path@,
                )
            } else {
                kept@ == select(
                    sequences@,
                    |s: Sequence|
                        self.state().packet_commitments.contains_key(
                            (channel_end_path@.0, channel_end_path@.1, s),
                        ),
                )
            },
    ;
}

} // verus!
