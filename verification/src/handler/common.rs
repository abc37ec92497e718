//! The checks that several handlers share.

use vstd::prelude::*;
use crate::channel::{ChannelEnd, ChannelEndView, Packet, PacketView, State as ChannelState};
use crate::commitment::{compute_packet_commitment, spec_packet_commitment};
use crate::client::{AnyClientState, AnyConsensusState, Status};
use crate::connection::{CommitmentPrefix, ConnectionEnd, ConnectionEndView, State as ConnectionState};
use crate::context::{ExecutionContext, ProofValue, ProofValueView, ValidationContext};
use crate::events::{logs_view, module_events_view, IbcEvent};
use crate::router::ModuleExtras;
use crate::error::{ChannelError, ClientError, ConnectionError, ContextError, PacketError};
use crate::height::Height;
use crate::identifier::{ChannelId, ClientId, ConnectionId, PortId};
use crate::path::{
    ChannelEndPath,
    ChannelKey,
    ClientConsensusStatePath,
    CommitmentPath,
    Path,
    PathView,
};
use crate::state::HostState;

verus! {

/// The view of what a lookup gave, or its failure.
pub open spec fn result_view<T: View>(r: Result<T, ContextError>) -> Result<T::V, ContextError> {
    match r {
        Ok(v) => Ok(v@),
        Err(e) => Err(e),
    }
}

/// The channel end stored under `key`, which must be open.
pub open spec fn spec_open_channel(s: HostState, key: ChannelKey) -> Result<
    ChannelEndView,
    ContextError,
> {
    match s.channel_end(key) {
        Err(e) => Err(e),
        Ok(end) => if end.state == ChannelState::Open {
            Ok(end)
        } else {
            Err(ContextError::Channel(ChannelError::StateMismatch))
        },
    }
}

/// The open channel end stored under `key`, whose other end must be the
/// given port and channel.
pub open spec fn spec_packet_channel(
    s: HostState,
    key: ChannelKey,
    counterparty_port: Seq<char>,
    counterparty_channel: ChannelId,
) -> Result<ChannelEndView, ContextError> {
    match spec_open_channel(s, key) {
        Err(e) => Err(e),
        Ok(end) => if end.counterparty_port_id == counterparty_port
            && end.counterparty_channel_id == Some(counterparty_channel) {
            Ok(end)
        } else {
            Err(ContextError::Packet(PacketError::CounterpartyMismatch))
        },
    }
}

/// The one connection that a channel runs over.
pub open spec fn spec_first_hop(end: ChannelEndView) -> Result<ConnectionId, ContextError> {
    if end.connection_hops.len() == 1 {
        Ok(end.connection_hops[0])
    } else {
        Err(ContextError::Channel(ChannelError::InvalidConnectionHops))
    }
}

/// The connection end stored under `id`, which must be open.
pub open spec fn spec_open_connection(s: HostState, id: ConnectionId) -> Result<
    ConnectionEndView,
    ContextError,
> {
    match s.connection_end(id) {
        Err(e) => Err(e),
        Ok(end) => if end.state == ConnectionState::Open {
            Ok(end)
        } else {
            Err(ContextError::Channel(ChannelError::ConnectionNotOpen))
        },
    }
}

/// The open connection that the channel end runs over.
pub open spec fn spec_channel_connection(s: HostState, end: ChannelEndView) -> Result<
    (ConnectionId, ConnectionEndView),
    ContextError,
> {
    match spec_first_hop(end) {
        Err(e) => Err(e),
        Ok(id) => match spec_open_connection(s, id) {
            Err(e) => Err(e),
            Ok(conn) => Ok((id, conn)),
        },
    }
}

/// The status of the client `id`, whose state is `cs`: frozen if a freeze
/// height is set; else expired if the consensus state at its latest height is
/// gone or older than the trusting period; else active.
pub open spec fn spec_client_status(s: HostState, id: ClientId, cs: AnyClientState) -> Status {
    if cs.spec_is_frozen() {
        Status::Frozen
    } else if !s.consensus_states.contains_key((id, cs.spec_latest_height())) {
        Status::Expired
    } else {
        cs.spec_status(
            s.consensus_states[(id, cs.spec_latest_height())].spec_timestamp(),
            s.host_timestamp,
        )
    }
}

/// The state of the client `id`, which must be active.
pub open spec fn spec_active_client(s: HostState, id: ClientId) -> Result<
    AnyClientState,
    ContextError,
> {
    match s.client_state(id) {
        Err(e) => Err(e),
        Ok(cs) => match spec_client_status(s, id, cs) {
            Status::Active => Ok(cs),
            Status::Frozen => Err(ContextError::Client(ClientError::ClientFrozen)),
            Status::Expired => Err(ContextError::Client(ClientError::ClientExpired)),
        },
    }
}

/// What a proof taken at `proof_height` is checked against: the state of the
/// client, which must be active and have reached that height, and its
/// consensus state at that height.
pub open spec fn spec_proof_client(s: HostState, id: ClientId, proof_height: Height) -> Result<
    (AnyClientState, AnyConsensusState),
    ContextError,
> {
    match spec_active_client(s, id) {
        Err(e) => Err(e),
        Ok(cs) => if cs.spec_latest_height().spec_lt(proof_height) {
            Err(ContextError::Client(ClientError::InvalidProofHeight))
        } else if !s.consensus_states.contains_key((id, proof_height)) {
            Err(ContextError::Client(ClientError::VerificationFailure))
        } else {
            Ok((cs, s.consensus_states[(id, proof_height)]))
        },
    }
}

/// Whether the delay period of the connection has passed since the
/// consensus state at `proof_height` was stored: the host's clock must have
/// reached the time of storing plus the delay, and the host's height the
/// height of storing plus the blocks that the delay stands for.
pub open spec fn spec_delay_passed<Ctx: ValidationContext>(
    ctx: &Ctx,
    conn: ConnectionEndView,
    proof_height: Height,
) -> Result<(), ContextError> {
    let s = ctx.state();
    let key = (conn.client_id, proof_height);
    match s.client_update_time(key) {
        Err(e) => Err(e),
        Ok(stored_at) => match s.client_update_height(key) {
            Err(e) => Err(e),
            Ok(stored_height) => {
                let blocks = ctx.spec_block_delay(conn.delay_period);
                if s.host_timestamp.nanos < stored_at.nanos + conn.delay_period.nanos {
                    Err(ContextError::Connection(ConnectionError::DelayNotPassed))
                } else if stored_height.revision_height + blocks > u64::MAX || s.host_height.spec_lt(
                    stored_height.spec_add(blocks),
                ) {
                    Err(ContextError::Connection(ConnectionError::DelayNotPassed))
                } else {
                    Ok(())
                }
            },
        },
    }
}

/// Whether the proof that the counterparty has stored `value` at `path` is
/// taken: a stand-in client takes every proof; for any other client the host
/// decides.
pub open spec fn spec_membership<Ctx: ValidationContext>(
    ctx: &Ctx,
    client_state: AnyClientState,
    consensus_state: AnyConsensusState,
    prefix: Seq<char>,
    proof: Seq<u8>,
    path: PathView,
    value: ProofValueView,
) -> bool {
    match client_state {
        AnyClientState::Mock(_) => true,
        AnyClientState::Tendermint(_) => ctx.proves_membership(
            consensus_state.spec_root(),
            prefix,
            proof,
            path,
            value,
        ),
    }
}

/// Whether the proof that the counterparty has stored nothing at `path` is
/// taken: a stand-in client takes every proof; for any other client the host
/// decides.
pub open spec fn spec_absence<Ctx: ValidationContext>(
    ctx: &Ctx,
    client_state: AnyClientState,
    consensus_state: AnyConsensusState,
    prefix: Seq<char>,
    proof: Seq<u8>,
    path: PathView,
) -> bool {
    match client_state {
        AnyClientState::Mock(_) => true,
        AnyClientState::Tendermint(_) => ctx.proves_absence(
            consensus_state.spec_root(),
            prefix,
            proof,
            path,
        ),
    }
}

/// Whether the host still holds the commitment to the packet that it sent:
/// a commitment must be stored for the packet, and it must be the commitment
/// to this packet's data and timeouts.
pub open spec fn spec_commitment_stored(s: HostState, packet: PacketView) -> Result<
    (),
    ContextError,
> {
    match s.packet_commitment((packet.port_id_on_a, packet.chan_id_on_a, packet.seq_on_a)) {
        Err(e) => Err(e),
        Ok(stored) => if stored == spec_packet_commitment(
            packet.data,
            packet.timeout_height_on_b,
            packet.timeout_timestamp_on_b,
        ) {
            Ok(())
        } else {
            Err(ContextError::Packet(PacketError::CommitmentMismatch))
        },
    }
}

/// What a module's verdict on a packet comes to for the handler.
pub open spec fn spec_module_verdict(answer: Result<(), PacketError>) -> Result<(), ContextError> {
    match answer {
        Ok(_) => Ok(()),
        Err(e) => Err(ContextError::Packet(e)),
    }
}

/// What a module's verdict on a packet comes to for the handler.
pub fn module_verdict(answer: Result<(), PacketError>) -> (r: Result<(), ContextError>)
    ensures
        r == spec_module_verdict(answer),
{
    match answer {
        Ok(_) => Ok(()),
        Err(e) => Err(ContextError::Packet(e)),
    }
}

/// Checks that the host still holds the commitment to the packet.
pub fn commitment_stored<Ctx: ValidationContext>(ctx: &Ctx, packet: &Packet) -> (r: Result<
    (),
    ContextError,
>)
    requires
        ctx.inv(),
    ensures
        r == spec_commitment_stored(ctx.state(), packet@),
{
    let stored = ctx.get_packet_commitment(
        &CommitmentPath::new(&packet.port_id_on_a, &packet.chan_id_on_a, packet.seq_on_a),
    )?;
    let expected = compute_packet_commitment(
        &packet.data,
        &packet.timeout_height_on_b,
        &packet.timeout_timestamp_on_b,
    );
    if stored.same(&expected) {
        Ok(())
    } else {
        Err(ContextError::Packet(PacketError::CommitmentMismatch))
    }
}

/// Looks up the channel end under the port and channel, which must be open.
pub fn open_channel<Ctx: ValidationContext>(ctx: &Ctx, port_id: &PortId, channel_id: &ChannelId) -> (r:
    Result<ChannelEnd, ContextError>)
    requires
        ctx.inv(),
    ensures
        result_view(r) == spec_open_channel(ctx.state(), (port_id@, *channel_id)),
{
    let end = ctx.channel_end(&ChannelEndPath::new(port_id, channel_id))?;
    if end.is_open() {
        Ok(end)
    } else {
        Err(ContextError::Channel(ChannelError::StateMismatch))
    }
}

/// Looks up the open channel end under the port and channel, whose other end
/// must be the given port and channel.
pub fn packet_channel<Ctx: ValidationContext>(
    ctx: &Ctx,
    port_id: &PortId,
    channel_id: &ChannelId,
    counterparty_port: &PortId,
    counterparty_channel: &ChannelId,
) -> (r: Result<ChannelEnd, ContextError>)
    requires
        ctx.inv(),
    ensures
        result_view(r) == spec_packet_channel(
            ctx.state(),
            (port_id@, *channel_id),
            counterparty_port@,
            *counterparty_channel,
        ),
{
    let end = open_channel(ctx, port_id, channel_id)?;
    if end.counterparty_matches(counterparty_port, counterparty_channel) {
        Ok(end)
    } else {
        Err(ContextError::Packet(PacketError::CounterpartyMismatch))
    }
}

/// The channel end that a packet which the host sent is settled on. The
/// commitment to the packet is looked for first: a packet that is settled
/// already is turned down for its missing commitment, whatever has become of
/// the channel since. Then the channel end must be stored and open, and have
/// the receiver's end as its counterparty.
pub open spec fn spec_sent_packet_channel(s: HostState, packet: PacketView) -> Result<
    ChannelEndView,
    ContextError,
> {
    match spec_commitment_stored(s, packet) {
        Err(e) => Err(e),
        Ok(_) => spec_packet_channel(
            s,
            (packet.port_id_on_a, packet.chan_id_on_a),
            packet.port_id_on_b,
            packet.chan_id_on_b,
        ),
    }
}

/// Looks up the channel end that a packet which the host sent is settled
/// on, after checking that the host still holds the commitment to the packet.
pub fn sent_packet_channel<Ctx: ValidationContext>(ctx: &Ctx, packet: &Packet) -> (r: Result<
    ChannelEnd,
    ContextError,
>)
    requires
        ctx.inv(),
    ensures
        result_view(r) == spec_sent_packet_channel(ctx.state(), packet@),
{
    commitment_stored(ctx, packet)?;
    packet_channel(
        ctx,
        &packet.port_id_on_a,
        &packet.chan_id_on_a,
        &packet.port_id_on_b,
        &packet.chan_id_on_b,
    )
}

/// The one connection that a channel runs over.
pub fn first_hop(end: &ChannelEnd) -> (r: Result<ConnectionId, ContextError>)
    ensures
        r == spec_first_hop(end@),
{
    if end.connection_hops.len() == 1 {
        Ok(end.connection_hops[0])
    } else {
        Err(ContextError::Channel(ChannelError::InvalidConnectionHops))
    }
}

/// Looks up the connection that the channel end runs over, which must be
/// open.
pub fn channel_connection<Ctx: ValidationContext>(ctx: &Ctx, end: &ChannelEnd) -> (r: Result<
    (ConnectionId, ConnectionEnd),
    ContextError,
>)
    requires
        ctx.inv(),
    ensures
        match r {
            Ok((id, conn)) => spec_channel_connection(ctx.state(), end@) == Ok::<
                (ConnectionId, ConnectionEndView),
                ContextError,
            >((id, conn@)),
            Err(e) => spec_channel_connection(ctx.state(), end@) == Err::<
                (ConnectionId, ConnectionEndView),
                ContextError,
            >(e),
        },
{
    let id = first_hop(end)?;
    let conn = ctx.connection_end(&id)?;
    if conn.is_open() {
        Ok((id, conn))
    } else {
        Err(ContextError::Channel(ChannelError::ConnectionNotOpen))
    }
}

/// Derives the status of a client from what the host has stored.
pub fn client_status<Ctx: ValidationContext>(
    ctx: &Ctx,
    client_id: &ClientId,
    client_state: &AnyClientState,
) -> (r: Status)
    requires
        ctx.inv(),
    ensures
        r == spec_client_status(ctx.state(), *client_id, *client_state),
{
    if client_state.is_frozen() {
        return Status::Frozen;
    }
    let latest = client_state.latest_height();
    match ctx.consensus_state(&ClientConsensusStatePath::new(client_id, &latest)) {
        Ok(consensus_state) => client_state.status(
            consensus_state.timestamp(),
            ctx.host_timestamp(),
        ),
        Err(_) => Status::Expired,
    }
}

/// Looks up the state of a client, which must be active.
pub fn active_client<Ctx: ValidationContext>(ctx: &Ctx, client_id: &ClientId) -> (r: Result<
    AnyClientState,
    ContextError,
>)
    requires
        ctx.inv(),
    ensures
        r == spec_active_client(ctx.state(), *client_id),
{
    let client_state = ctx.client_state(client_id)?;
    match client_status(ctx, client_id, &client_state) {
        Status::Active => Ok(client_state),
        Status::Frozen => Err(ContextError::Client(ClientError::ClientFrozen)),
        Status::Expired => Err(ContextError::Client(ClientError::ClientExpired)),
    }
}

/// Looks up what a proof taken at `proof_height` is checked against.
pub fn proof_client<Ctx: ValidationContext>(
    ctx: &Ctx,
    client_id: &ClientId,
    proof_height: &Height,
) -> (r: Result<(AnyClientState, AnyConsensusState), ContextError>)
    requires
        ctx.inv(),
    ensures
        r == spec_proof_client(ctx.state(), *client_id, *proof_height),
{
    let client_state = active_client(ctx, client_id)?;
    if client_state.latest_height().lt(proof_height) {
        return Err(ContextError::Client(ClientError::InvalidProofHeight));
    }
    match ctx.consensus_state(&ClientConsensusStatePath::new(client_id, proof_height)) {
        Ok(consensus_state) => Ok((client_state, consensus_state)),
        Err(_) => Err(ContextError::Client(ClientError::VerificationFailure)),
    }
}

/// Checks that the delay period of the connection has passed for a proof
/// taken at `proof_height`.
pub fn delay_passed<Ctx: ValidationContext>(
    ctx: &Ctx,
    conn: &ConnectionEnd,
    proof_height: &Height,
) -> (r: Result<(), ContextError>)
    requires
        ctx.inv(),
    ensures
        r == spec_delay_passed(ctx, conn@, *proof_height),
{
    let path = ClientConsensusStatePath::new(&conn.client_id, proof_height);
    let stored_at = ctx.client_update_time(&path)?;
    let stored_height = ctx.client_update_height(&path)?;
    let blocks = ctx.block_delay(&conn.delay_period);
    let now = ctx.host_timestamp();
    let delay = conn.delay_period.as_nanos();
    if delay > u64::MAX - stored_at.nanoseconds() || now.nanoseconds() < stored_at.nanoseconds()
        + delay {
        return Err(ContextError::Connection(ConnectionError::DelayNotPassed));
    }
    if blocks > u64::MAX - stored_height.revision_height() {
        return Err(ContextError::Connection(ConnectionError::DelayNotPassed));
    }
    if ctx.host_height().lt(&stored_height.add(blocks)) {
        return Err(ContextError::Connection(ConnectionError::DelayNotPassed));
    }
    Ok(())
}

/// Checks a proof that the counterparty has stored `value` at `path`.
pub fn check_membership<Ctx: ValidationContext>(
    ctx: &Ctx,
    client_state: &AnyClientState,
    consensus_state: &AnyConsensusState,
    prefix: &CommitmentPrefix,
    proof: &Vec<u8>,
    path: &Path,
    value: &ProofValue,
) -> (r: bool)
    requires
        ctx.inv(),
    ensures
        r == spec_membership(
            ctx,
            *client_state,
            *consensus_state,
            prefix.key@,
            proof@,
            path@,
            value@,
        ),
{
    match client_state {
        AnyClientState::Mock(_) => true,
        AnyClientState::Tendermint(_) => ctx.verify_membership(
            &consensus_state.root(),
            prefix,
            proof,
            path,
            value,
        ),
    }
}

/// Checks a proof that the counterparty has stored nothing at `path`.
pub fn check_absence<Ctx: ValidationContext>(
    ctx: &Ctx,
    client_state: &AnyClientState,
    consensus_state: &AnyConsensusState,
    prefix: &CommitmentPrefix,
    proof: &Vec<u8>,
    path: &Path,
) -> (r: bool)
    requires
        ctx.inv(),
    ensures
        r == spec_absence(ctx, *client_state, *consensus_state, prefix.key@, proof@, path@),
{
    match client_state {
        AnyClientState::Mock(_) => true,
        AnyClientState::Tendermint(_) => ctx.verify_non_membership(
            &consensus_state.root(),
            prefix,
            proof,
            path,
        ),
    }
}

/// Reports the events and writes the log lines that a module handed over.
pub fn emit_module_extras<Ctx: ExecutionContext>(ctx: &mut Ctx, extras: ModuleExtras)
    requires
        old(ctx).inv(),
    ensures
        final(ctx).inv(),
        final(ctx).host_side() == old(ctx).host_side(),
        final(ctx).state() == old(ctx).state().reporting(
            module_events_view(extras.events@),
            logs_view(extras.log@),
        ),
{
    let ghost start = ctx.state();
    let ghost side = ctx.host_side();
    let ghost all_events = extras.events@;
    let ghost all_logs = extras.log@;
    let ModuleExtras { events, log } = extras;
    let mut events = events;
    let mut log = log;
    assert(start.reporting(Seq::empty(), Seq::empty()) =~= start) by {
        assert(start.events + Seq::<crate::events::IbcEventView>::empty() =~= start.events);
        assert(start.logs + Seq::<Seq<char>>::empty() =~= start.logs);
    }
    // Events are taken from the back of the list, so they are first put in
    // reverse order.
    let mut reversed: Vec<crate::events::ModuleEvent> = Vec::new();
    while events.len() > 0
        invariant
            events@.len() + reversed@.len() == all_events.len(),
            forall|j: int| 0 <= j < events@.len() ==> events@[j] == all_events[j],
            forall|j: int|
                0 <= j < reversed@.len() ==> reversed@[j] == all_events[all_events.len() - 1 - j],
        decreases events@.len(),
    {
        let e = events.pop().unwrap();
        reversed.push(e);
    }
    let ghost mut done: int = 0;
    while reversed.len() > 0
        invariant
            ctx.inv(),
            ctx.host_side() == side,
            0 <= done <= all_events.len(),
            reversed@.len() == all_events.len() - done,
            forall|j: int|
                0 <= j < reversed@.len() ==> reversed@[j] == all_events[all_events.len() - 1 - j],
            ctx.state() == start.reporting(
                module_events_view(all_events.subrange(0, done)),
                Seq::empty(),
            ),
        decreases reversed@.len(),
    {
        let e = reversed.pop().unwrap();
        assert(e == all_events[done]);
        let ghost before = ctx.state();
        ctx.emit_ibc_event(IbcEvent::Module(e));
        proof {
            assert(module_events_view(all_events.subrange(0, done + 1)) =~= module_events_view(
                all_events.subrange(0, done),
            ).push(crate::events::IbcEventView::Module(e@)));
            assert(start.events + module_events_view(all_events.subrange(0, done + 1))
                =~= before.events.push(crate::events::IbcEventView::Module(e@)));
            done = done + 1;
        }
    }
    assert(all_events.subrange(0, all_events.len() as int) =~= all_events);
    let mut reversed_log: Vec<String> = Vec::new();
    while log.len() > 0
        invariant
            log@.len() + reversed_log@.len() == all_logs.len(),
            forall|j: int| 0 <= j < log@.len() ==> log@[j] == all_logs[j],
            forall|j: int|
                0 <= j < reversed_log@.len() ==> reversed_log@[j] == all_logs[all_logs.len() - 1
                    - j],
        decreases log@.len(),
    {
        let line = log.pop().unwrap();
        reversed_log.push(line);
    }
    let ghost mut written: int = 0;
    while reversed_log.len() > 0
        invariant
            ctx.inv(),
            ctx.host_side() == side,
            0 <= written <= all_logs.len(),
            reversed_log@.len() == all_logs.len() - written,
            forall|j: int|
                0 <= j < reversed_log@.len() ==> reversed_log@[j] == all_logs[all_logs.len() - 1
                    - j],
            ctx.state() == start.reporting(
                module_events_view(all_events),
                logs_view(all_logs.subrange(0, written)),
            ),
        decreases reversed_log@.len(),
    {
        let line = reversed_log.pop().unwrap();
        assert(line == all_logs[written]);
        let ghost before = ctx.state();
        ctx.log_message(line);
        proof {
            assert(logs_view(all_logs.subrange(0, written + 1)) =~= logs_view(
                all_logs.subrange(0, written),
            ).push(line@));
            assert(start.logs + logs_view(all_logs.subrange(0, written + 1)) =~= before.logs.push(
                line@,
            ));
            written = written + 1;
        }
    }
    assert(all_logs.subrange(0, all_logs.len() as int) =~= all_logs);
}

} // verus!
