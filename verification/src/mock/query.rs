//! The mock host as a host that can be asked about its state.

use vstd::prelude::*;
use crate::channel::{ChannelEndView, Order};
use crate::client::{AnyClientState, AnyConsensusState, Status};
use crate::connection::ConnectionEndView;
use crate::context::ValidationContext;
use crate::error::ContextError;
use crate::handler::common::client_status;
use crate::height::Height;
use crate::identifier::{ClientId, ClientType, ConnectionId, Sequence};
use crate::mock::context::MockContext;
use crate::mock::store::MockClientRecordView;
use crate::path::{AckPath, ChannelEndPath, ChannelKey, CommitmentPath, PacketKey, PacketPath, Path};
use crate::query::{
    channels_view,
    chosen,
    connections_view,
    lemma_chosen_lists,
    lists_keys,
    paths_view,
    select,
    sort_by_height,
    spec_unreceived_packet,
    IdentifiedChannelEnd,
    IdentifiedConnectionEnd,
    ProvableContext,
    QueryContext,
};
use crate::table::{Key, Stored, Table};

verus! {

/// The mock host shows an empty proof for whatever is asked of a block that
/// it keeps: its counterparties are stand-in clients, which look at no proof.
impl ProvableContext for MockContext {
    fn get_proof(&self, height: Height, path: &Path) -> (r: Option<Vec<u8>>)
        ensures
            r matches Some(proof) ==> proof@.len() == 0,
            r is Some <==> self.history@.len() >= 1 && height.revision_height
                <= self.spec_latest_height().revision_height && self.spec_latest_height().revision_height
                - height.revision_height < self.history@.len(),
    {
        if self.history.len() == 0 {
            return None;
        }
        let latest = self.history[self.history.len() - 1].height().revision_height();
        assert(self.blocks().last() == self.history@.last()@);
        let target = height.revision_height();
        if target > latest || latest - target >= self.history.len() as u64 {
            None
        } else {
            Some(Vec::new())
        }
    }
}

/// The sequence numbers of the packets that a table holds something for on
/// one channel end.
pub fn channel_paths<V: Stored>(table: &Table<PacketPath, V>, channel_end_path: &ChannelEndPath) -> (r:
    Vec<PacketPath>)
    ensures
        lists_keys(
            paths_view(r@),
            table@,
            |key: PacketKey, v: V::V| (key.0, key.1) == channel_end_path@,
        ),
{
    let ghost wanted = |key: PacketKey, v: V::V| (key.0, key.1) == channel_end_path@;
    let ghost e = table.entries();
    let n = table.len();
    let mut out: Vec<PacketPath> = Vec::new();
    let mut i: usize = 0;
    while i < n
        invariant
            i <= n == e.len(),
            e == table.entries(),
            wanted == |key: PacketKey, v: V::V| (key.0, key.1) == channel_end_path@,
            out@.len() == chosen(e.subrange(0, i as int), wanted).len(),
            forall|k: int|
                0 <= k < out@.len() ==> (#[trigger] out@[k])@ == chosen(
                    e.subrange(0, i as int),
                    wanted,
                )[k].0,
        decreases n - i,
    {
        let (key, _) = table.entry_at(i);
        proof {
            assert(e.subrange(0, i + 1).drop_last() =~= e.subrange(0, i as int));
            assert(e.subrange(0, i + 1).last() == e[i as int]);
        }
        if key.port_id.same(&channel_end_path.port_id) && key.channel_id.same(
            &channel_end_path.channel_id,
        ) {
            out.push(key.clone());
        }
        i += 1;
    }
    proof {
        assert(e.subrange(0, n as int) =~= e);
        lemma_chosen_lists(e, wanted);
        let c = chosen(e, wanted);
        assert(paths_view(out@) =~= Seq::new(c.len(), |k: int| c[k].0));
        assert forall|k: PacketKey| table@.contains_key(k) && wanted(k, table@[k]) implies exists|
            a: int,
        | 0 <= a < paths_view(out@).len() && #[trigger] paths_view(out@)[a] == k by {
            let a = choose|a: int| 0 <= a < c.len() && (#[trigger] c[a]).0 == k;
            assert(paths_view(out@)[a] == k);
        }
        assert forall|a: int, b: int| 0 <= a < b < paths_view(out@).len() implies #[trigger] paths_view(
            out@,
        )[a] != #[trigger] paths_view(out@)[b] by {
            assert(c[a].0 != c[b].0);
        }
        assert forall|a: int| 0 <= a < paths_view(out@).len() implies table@.contains_key(
            #[trigger] paths_view(out@)[a],
        ) && wanted(paths_view(out@)[a], table@[paths_view(out@)[a]]) by {
            assert(table@.contains_key(c[a].0));
        }
    }
    out
}

/// Those of the given sequence numbers for whose packets a table holds
/// something on one channel end, in the given order.
pub fn held_sequences<V: Stored>(
    table: &Table<PacketPath, V>,
    channel_end_path: &ChannelEndPath,
    sequences: &Vec<Sequence>,
) -> (r: Vec<Sequence>)
    ensures
        r@ == select(
            sequences@,
            |s: Sequence| table@.contains_key((channel_end_path@.0, channel_end_path@.1, s)),
        ),
{
    let ghost keep = |s: Sequence|
        table@.contains_key((channel_end_path@.0, channel_end_path@.1, s));
    let mut out: Vec<Sequence> = Vec::new();
    let mut i: usize = 0;
    while i < sequences.len()
        invariant
            i <= sequences.len(),
            keep == |s: Sequence|
                table@.contains_key((channel_end_path@.0, channel_end_path@.1, s)),
            out@ == select(sequences@.subrange(0, i as int), keep),
        decreases sequences.len() - i,
    {
        let s = sequences[i];
        proof {
            assert(sequences@.subrange(0, i + 1).drop_last() =~= sequences@.subrange(0, i as int));
            assert(sequences@.subrange(0, i + 1).last() == s);
        }
        if table.contains_key(
            &PacketPath::new(&channel_end_path.port_id, &channel_end_path.channel_id, s),
        ) {
            out.push(s);
        }
        i += 1;
    }
    assert(sequences@.subrange(0, sequences@.len() as int) =~= sequences@);
    out
}

impl QueryContext for MockContext {
    fn client_states(&self) -> (r: Result<Vec<(ClientId, AnyClientState)>, ContextError>) {
        let table = &self.ibc_store.clients;
        let ghost wanted = |id: ClientId, record: MockClientRecordView| record.client_state is Some;
        let ghost e = table.entries();
        let n = table.len();
        let mut out: Vec<(ClientId, AnyClientState)> = Vec::new();
        let mut i: usize = 0;
        while i < n
            invariant
                i <= n == e.len(),
                e == table.entries(),
                wanted == |id: ClientId, record: MockClientRecordView| record.client_state is Some,
                out@.len() == chosen(e.subrange(0, i as int), wanted).len(),
                forall|k: int|
                    0 <= k < out@.len() ==> (#[trigger] out@[k]).0 == chosen(
                        e.subrange(0, i as int),
                        wanted,
                    )[k].0 && Some(out@[k].1) == chosen(
                        e.subrange(0, i as int),
                        wanted,
                    )[k].1.client_state,
            decreases n - i,
        {
            let (id, record) = table.entry_at(i);
            proof {
                assert(e.subrange(0, i + 1).drop_last() =~= e.subrange(0, i as int));
                assert(e.subrange(0, i + 1).last() == e[i as int]);
            }
            match &record.client_state {
                Some(cs) => {
                    out.push((*id, cs.clone()));
                },
                None => {},
            }
            i += 1;
        }
        proof {
            assert(e.subrange(0, n as int) =~= e);
            lemma_chosen_lists(e, wanted);
            let c = chosen(e, wanted);
            let m = self.state().clients;
            let all = |id: ClientId, cs: AnyClientState| true;
            assert forall|a: int| 0 <= a < out@.len() implies m.contains_key(
                (#[trigger] out@[a]).0,
            ) && m[out@[a].0] == out@[a].1 && all(out@[a].0, out@[a].1) by {
                assert(table@.contains_key(c[a].0));
            }
            assert forall|k: ClientId| m.contains_key(k) && all(k, m[k]) implies exists|a: int|
                0 <= a < out@.len() && (#[trigger] out@[a]).0 == k by {
                let a = choose|a: int| 0 <= a < c.len() && (#[trigger] c[a]).0 == k;
                assert(out@[a].0 == k);
            }
            assert forall|a: int, b: int| 0 <= a < b < out@.len() implies (#[trigger] out@[a]).0
                != (#[trigger] out@[b]).0 by {
                assert(c[a].0 != c[b].0);
            }
        }
        Ok(out)
    }

    fn consensus_states(&self, client_id: &ClientId) -> (r: Result<
        Vec<(Height, AnyConsensusState)>,
        ContextError,
    >) {
        let mut found: Vec<(Height, AnyConsensusState)> = Vec::new();
        let ghost mine = |key: (ClientId, Height), cs: AnyConsensusState| key.0 == *client_id;
        match self.ibc_store.clients.get(client_id) {
            None => {},
            Some(record) => {
                let table = &record.consensus_states;
                let ghost wanted = |h: Height, cs: AnyConsensusState| true;
                let ghost e = table.entries();
                let n = table.len();
                let mut i: usize = 0;
                while i < n
                    invariant
                        i <= n == e.len(),
                        e == table.entries(),
                        wanted == |h: Height, cs: AnyConsensusState| true,
                        found@ == chosen(e.subrange(0, i as int), wanted),
                    decreases n - i,
                {
                    let (h, cs) = table.entry_at(i);
                    proof {
                        assert(e.subrange(0, i + 1).drop_last() =~= e.subrange(0, i as int));
                        assert(e.subrange(0, i + 1).last() == e[i as int]);
                    }
                    found.push((*h, *cs));
                    i += 1;
                }
                proof {
                    assert(e.subrange(0, n as int) =~= e);
                    lemma_chosen_lists(e, wanted);
                }
            },
        }
        proof {
            assert forall|a: int, b: int| 0 <= a < b < found@.len() implies (#[trigger] found@[a]).0
                != (#[trigger] found@[b]).0 by {
                assert(found@[a].0 != found@[b].0);
            }
        }
        let out = sort_by_height(&found);
        proof {
            let list = Seq::new(out@.len(), |i: int| ((*client_id, out@[i].0), out@[i].1));
            let m = self.state().consensus_states;
            assert forall|a: int| 0 <= a < list.len() implies m.contains_key(
                (#[trigger] list[a]).0,
            ) && m[list[a].0] == list[a].1 && mine(list[a].0, list[a].1) by {
                assert(found@.contains(out@[a]));
                let j = choose|j: int| 0 <= j < found@.len() && found@[j] == out@[a];
                assert(out@[a].0 == list[a].0.1);
            }
            assert forall|k: (ClientId, Height)| m.contains_key(k) && mine(k, m[k]) implies exists|
                a: int,
            | 0 <= a < list.len() && (#[trigger] list[a]).0 == k by {
                let table = self.ibc_store.clients@[k.0].consensus_states;
                let j = choose|j: int| 0 <= j < found@.len() && (#[trigger] found@[j]).0 == k.1;
                assert(out@.contains(found@[j]));
                let a = choose|a: int| 0 <= a < out@.len() && out@[a] == found@[j];
                assert(list[a].0 == k);
            }
            assert forall|a: int, b: int| 0 <= a < b < list.len() implies (#[trigger] list[a]).0
                != (#[trigger] list[b]).0 by {
                assert(out@[a].0.spec_lt(out@[b].0));
            }
        }
        Ok(out)
    }

    fn consensus_state_heights(&self, client_id: &ClientId) -> (r: Result<
        Vec<Height>,
        ContextError,
    >) {
        let states = match self.consensus_states(client_id) {
            Ok(states) => states,
            Err(e) => {
                return Err(e);
            },
        };
        let mut out: Vec<Height> = Vec::new();
        let mut i: usize = 0;
        while i < states.len()
            invariant
                i <= states.len(),
                out@.len() == i,
                forall|k: int| 0 <= k < i ==> #[trigger] out@[k] == states@[k].0,
            decreases states.len() - i,
        {
            out.push(states[i].0);
            i += 1;
        }
        proof {
            assert forall|a: int, b: int| 0 <= a < b < out@.len() implies (#[trigger] out@[a]).spec_lt(
                #[trigger] out@[b],
            ) by {
                assert(states@[a].0.spec_lt(states@[b].0));
            }
            let list = Seq::new(states@.len(), |i: int| ((*client_id, states@[i].0), states@[i].1));
            let keys = Seq::new(out@.len(), |i: int| (*client_id, out@[i]));
            let m = self.state().consensus_states;
            let mine = |key: (ClientId, Height), cs: AnyConsensusState| key.0 == *client_id;
            assert forall|a: int| 0 <= a < keys.len() implies m.contains_key(#[trigger] keys[a])
                && mine(keys[a], m[keys[a]]) by {
                assert(list[a].0 == keys[a]);
            }
            assert forall|k: (ClientId, Height)| m.contains_key(k) && mine(k, m[k]) implies exists|
                a: int,
            | 0 <= a < keys.len() && #[trigger] keys[a] == k by {
                let a = choose|a: int| 0 <= a < list.len() && (#[trigger] list[a]).0 == k;
                assert(keys[a] == k);
            }
            assert forall|a: int, b: int| 0 <= a < b < keys.len() implies #[trigger] keys[a]
                != #[trigger] keys[b] by {
                assert(list[a].0 != list[b].0);
            }
        }
        Ok(out)
    }

    fn client_status(&self, client_id: &ClientId) -> (r: Result<Status, ContextError>) {
        let client_state = self.client_state(client_id)?;
        Ok(client_status(self, client_id, &client_state))
    }

    fn allowed_clients(&self) -> (r: Vec<ClientType>) {
        let mut out: Vec<ClientType> = Vec::new();
        out.push(ClientType::Mock);
        out.push(ClientType::Tendermint);
        assert(out@ =~= seq![ClientType::Mock, ClientType::Tendermint]);
        out
    }

    fn connection_ends(&self) -> (r: Result<Vec<IdentifiedConnectionEnd>, ContextError>) {
        let table = &self.ibc_store.connections;
        let ghost wanted = |id: ConnectionId, end: ConnectionEndView| true;
        let ghost e = table.entries();
        let n = table.len();
        let mut out: Vec<IdentifiedConnectionEnd> = Vec::new();
        let mut i: usize = 0;
        while i < n
            invariant
                i <= n == e.len(),
                e == table.entries(),
                wanted == |id: ConnectionId, end: ConnectionEndView| true,
                connections_view(out@) == chosen(e.subrange(0, i as int), wanted),
            decreases n - i,
        {
            let (id, end) = table.entry_at(i);
            proof {
                assert(e.subrange(0, i + 1).drop_last() =~= e.subrange(0, i as int));
                assert(e.subrange(0, i + 1).last() == e[i as int]);
            }
            let ghost before = connections_view(out@);
            out.push(IdentifiedConnectionEnd { connection_id: *id, connection_end: end.clone() });
            assert(connections_view(out@) =~= before.push((e[i as int].0@, e[i as int].1@)));
            i += 1;
        }
        proof {
            assert(e.subrange(0, n as int) =~= e);
            lemma_chosen_lists(e, wanted);
        }
        Ok(out)
    }

    fn client_connection_ends(&self, client_id: &ClientId) -> (r: Result<
        Vec<ConnectionId>,
        ContextError,
    >) {
        let table = &self.ibc_store.connections;
        let ghost wanted = |id: ConnectionId, end: ConnectionEndView| end.client_id == *client_id;
        let ghost e = table.entries();
        let n = table.len();
        let mut out: Vec<ConnectionId> = Vec::new();
        let mut i: usize = 0;
        while i < n
            invariant
                i <= n == e.len(),
                e == table.entries(),
                wanted == |id: ConnectionId, end: ConnectionEndView| end.client_id == *client_id,
                out@.len() == chosen(e.subrange(0, i as int), wanted).len(),
                forall|k: int|
                    0 <= k < out@.len() ==> #[trigger] out@[k] == chosen(
                        e.subrange(0, i as int),
                        wanted,
                    )[k].0,
            decreases n - i,
        {
            let (id, end) = table.entry_at(i);
            proof {
                assert(e.subrange(0, i + 1).drop_last() =~= e.subrange(0, i as int));
                assert(e.subrange(0, i + 1).last() == e[i as int]);
            }
            if end.client_id.same(client_id) {
                out.push(*id);
            }
            i += 1;
        }
        proof {
            assert(e.subrange(0, n as int) =~= e);
            lemma_chosen_lists(e, wanted);
            let c = chosen(e, wanted);
            let m = self.state().connections;
            assert forall|a: int| 0 <= a < out@.len() implies m.contains_key(#[trigger] out@[a])
                && wanted(out@[a], m[out@[a]]) by {
                assert(m.contains_key(c[a].0));
            }
            assert forall|k: ConnectionId| m.contains_key(k) && wanted(k, m[k]) implies exists|
                a: int,
            | 0 <= a < out@.len() && #[trigger] out@[a] == k by {
                let a = choose|a: int| 0 <= a < c.len() && (#[trigger] c[a]).0 == k;
                assert(out@[a] == k);
            }
            assert forall|a: int, b: int| 0 <= a < b < out@.len() implies #[trigger] out@[a]
                != #[trigger] out@[b] by {
                assert(c[a].0 != c[b].0);
            }
        }
        Ok(out)
    }

    fn channel_ends(&self) -> (r: Result<Vec<IdentifiedChannelEnd>, ContextError>) {
        let table = &self.ibc_store.channels;
        let ghost wanted = |key: ChannelKey, end: ChannelEndView| true;
        let ghost e = table.entries();
        let n = table.len();
        let mut out: Vec<IdentifiedChannelEnd> = Vec::new();
        let mut i: usize = 0;
        while i < n
            invariant
                i <= n == e.len(),
                e == table.entries(),
                wanted == |key: ChannelKey, end: ChannelEndView| true,
                channels_view(out@) == chosen(e.subrange(0, i as int), wanted),
            decreases n - i,
        {
            let (path, end) = table.entry_at(i);
            proof {
                assert(e.subrange(0, i + 1).drop_last() =~= e.subrange(0, i as int));
                assert(e.subrange(0, i + 1).last() == e[i as int]);
            }
            let ghost before = channels_view(out@);
            out.push(
                IdentifiedChannelEnd {
                    port_id: path.port_id.clone(),
                    channel_id: path.channel_id,
                    channel_end: end.clone(),
                },
            );
            assert(channels_view(out@) =~= before.push((e[i as int].0@, e[i as int].1@)));
            i += 1;
        }
        proof {
            assert(e.subrange(0, n as int) =~= e);
            lemma_chosen_lists(e, wanted);
        }
        Ok(out)
    }

    fn connection_channel_ends(&self, connection_id: &ConnectionId) -> (r: Result<
        Vec<IdentifiedChannelEnd>,
        ContextError,
    >) {
        let table = &self.ibc_store.channels;
        let ghost wanted = |key: ChannelKey, end: ChannelEndView|
            end.connection_hops.len() >= 1 && end.connection_hops[0] == *connection_id;
        let ghost e = table.entries();
        let n = table.len();
        let mut out: Vec<IdentifiedChannelEnd> = Vec::new();
        let mut i: usize = 0;
        while i < n
            invariant
                i <= n == e.len(),
                e == table.entries(),
                wanted == |key: ChannelKey, end: ChannelEndView|
                    end.connection_hops.len() >= 1 && end.connection_hops[0] == *connection_id,
                channels_view(out@) == chosen(e.subrange(0, i as int), wanted),
            decreases n - i,
        {
            let (path, end) = table.entry_at(i);
            proof {
                assert(e.subrange(0, i + 1).drop_last() =~= e.subrange(0, i as int));
                assert(e.subrange(0, i + 1).last() == e[i as int]);
            }
            if end.connection_hops.len() >= 1 && end.connection_hops[0].same(connection_id) {
                let ghost before = channels_view(out@);
                out.push(
                    IdentifiedChannelEnd {
                        port_id: path.port_id.clone(),
                        channel_id: path.channel_id,
                        channel_end: end.clone(),
                    },
                );
                assert(channels_view(out@) =~= before.push((e[i as int].0@, e[i as int].1@)));
            }
            i += 1;
        }
        proof {
            assert(e.subrange(0, n as int) =~= e);
            lemma_chosen_lists(e, wanted);
        }
        Ok(out)
    }

    fn packet_commitments(&self, channel_end_path: &ChannelEndPath) -> (r: Result<
        Vec<CommitmentPath>,
        ContextError,
    >) {
        Ok(channel_paths(&self.ibc_store.packet_commitment, channel_end_path))
    }

    fn packet_acknowledgements(
        &self,
        channel_end_path: &ChannelEndPath,
        sequences: &Vec<Sequence>,
    ) -> (r: Result<Vec<AckPath>, ContextError>) {
        if sequences.len() == 0 {
            return Ok(channel_paths(&self.ibc_store.packet_acknowledgement, channel_end_path));
        }
        let kept = held_sequences(
            &self.ibc_store.packet_acknowledgement,
            channel_end_path,
            sequences,
        );
        let mut out: Vec<AckPath> = Vec::new();
        let mut i: usize = 0;
        while i < kept.len()
            invariant
                i <= kept.len(),
                out@.len() == i,
                forall|k: int|
                    0 <= k < i ==> (#[trigger] out@[k])@ == (
                        channel_end_path@.0,
                        channel_end_path@.1,
                        kept@[k],
                    ),
            decreases kept.len() - i,
        {
            out.push(
                PacketPath::new(&channel_end_path.port_id, &channel_end_path.channel_id, kept[i]),
            );
            i += 1;
        }
        assert(paths_view(out@) =~= Seq::new(
            kept@.len(),
            |i: int| (channel_end_path@.0, channel_end_path@.1, kept@[i]),
        ));
        Ok(out)
    }

    fn unreceived_packets(&self, channel_end_path: &ChannelEndPath, sequences: &Vec<Sequence>) -> (r:
        Result<Vec<Sequence>, ContextError>) {
        let end = self.channel_end(channel_end_path)?;
        let ordering = end.ordering;
        let ghost keep = |s: Sequence|
            spec_unreceived_packet(self.state(), channel_end_path@, ordering, s);
        let next = match self.ibc_store.next_sequence_recv.get(channel_end_path) {
            Some(next) => Some(*next),
            None => None,
        };
        let mut out: Vec<Sequence> = Vec::new();
        let mut i: usize = 0;
        while i < sequences.len()
            invariant
                i <= sequences.len(),
                keep == |s: Sequence|
                    spec_unreceived_packet(self.state(), channel_end_path@, ordering, s),
                next is Some == self.state().next_sequence_recv.contains_key(channel_end_path@),
                next matches Some(n) ==> n == self.state().next_sequence_recv[channel_end_path@],
                out@ == select(sequences@.subrange(0, i as int), keep),
            decreases sequences.len() - i,
        {
            let s = sequences[i];
            proof {
                assert(sequences@.subrange(0, i + 1).drop_last() =~= sequences@.subrange(
                    0,
                    i as int,
                ));
                assert(sequences@.subrange(0, i + 1).last() == s);
            }
            let unreceived = match ordering {
                Order::Unordered => !self.ibc_store.packet_receipt.contains_key(
                    &PacketPath::new(&channel_end_path.port_id, &channel_end_path.channel_id, s),
                ),
                Order::Ordered => match next {
                    Some(n) => n.value <= s.value,
                    None => false,
                },
            };
            if unreceived {
                out.push(s);
            }
            i += 1;
        }
        assert(sequences@.subrange(0, sequences@.len() as int) =~= sequences@);
        Ok(out)
    }

    fn unreceived_acks(&self, channel_end_path: &ChannelEndPath, sequences: &Vec<Sequence>) -> (r:
        Result<Vec<Sequence>, ContextError>) {
        if sequences.len() == 0 {
            let paths = channel_paths(&self.ibc_store.packet_commitment, channel_end_path);
            let mut out: Vec<Sequence> = Vec::new();
            let mut i: usize = 0;
            while i < paths.len()
                invariant
                    i <= paths.len(),
                    out@.len() == i,
                    forall|k: int| 0 <= k < i ==> #[trigger] out@[k] == paths@[k].sequence,
                decreases paths.len() - i,
            {
                out.push(paths[i].sequence);
                i += 1;
            }
            proof {
                let keys = Seq::new(
                    out@.len(),
                    |i: int| (channel_end_path@.0, channel_end_path@.1, out@[i]),
                );
                let m = self.state().packet_commitments;
                let wanted = |key: PacketKey, c: Seq<u8>| (key.0, key.1) == channel_end_path@;
                assert forall|a: int| 0 <= a < keys.len() implies keys[a] == paths_view(
                    paths@,
                )[a] by {
                    assert(m.contains_key(paths_view(paths@)[a]));
                    assert(wanted(paths_view(paths@)[a], m[paths_view(paths@)[a]]));
                }
                assert(keys =~= paths_view(paths@));
            }
            return Ok(out);
        }
        Ok(held_sequences(&self.ibc_store.packet_commitment, channel_end_path, sequences))
    }
}

} // verus!
