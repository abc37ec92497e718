//! What holds of the handlers whatever the host, the module and the
//! relayer do.

use vstd::prelude::*;
use crate::channel::{ChannelEndView, Order, PacketView, State as ChannelState};
use crate::client::{AnyClientState, AnyConsensusState, ClientMessage};
use crate::context::ValidationContext;
use crate::error::{ChannelError, ClientError, ContextError, PacketError};
use crate::events::IbcEventView;
use crate::handler::acknowledgement::{
    spec_ack_apply,
    spec_ack_execute_check,
    spec_ack_validate,
    spec_acknowledged,
};
use crate::handler::channel::{
    spec_advance_validate,
    spec_new_channel,
    spec_store_channel,
    Advance,
    Step,
};
use crate::handler::client::{
    spec_header_outcome,
    spec_update_apply,
    spec_update_execute_check,
    spec_update_validate,
    UpdateOutcome,
};
use crate::commitment::{sha256, spec_packet_commitment, Receipt};
use crate::context::ProofValueView;
use crate::handler::common::{
    spec_active_client,
    spec_channel_connection,
    spec_delay_passed,
    spec_membership,
    spec_packet_channel,
    spec_proof_client,
};
use crate::path::PathView;
use crate::handler::recv_packet::{
    recv_events,
    spec_recv_apply,
    spec_recv_execute_check,
    spec_recv_validate,
    spec_received,
};
use crate::handler::send_packet::{spec_send_apply, spec_send_validate};
use crate::handler::timeout::{
    spec_timed_out_to,
    spec_timeout_apply,
    spec_timeout_execute_check,
    spec_timeout_on_close_validate,
    spec_timeout_validate,
};
use crate::height::Height;
use crate::identifier::{ClientId, ConnectionId, Sequence};
use crate::path::{ChannelKey, ConsensusKey, PacketKey};
use crate::state::HostState;
use crate::timestamp::{Expiry, Timestamp};

verus! {

/// A packet for a port and channel under which no channel end is stored is
/// not taken for receiving.
pub proof fn law_recv_needs_channel<Ctx: ValidationContext>(
    ctx: &Ctx,
    packet: PacketView,
    proof: Seq<u8>,
    proof_height: Height,
)
    requires
        !ctx.state().channels.contains_key((packet.port_id_on_b, packet.chan_id_on_b)),
    ensures
        spec_recv_validate(ctx, packet, proof, proof_height) == Err::<(), ContextError>(
            ContextError::Channel(ChannelError::ChannelNotFound),
        ),
{
}

/// Whether channel, connection and client are in order for receiving the
/// packet with the proof `proof`, taken at `proof_height`: the channel end is
/// open and has the sender's end as its counterparty; its one connection is
/// open; the connection's client is active, has reached the proof's height
/// and holds a consensus state there; the connection's delay has passed; and
/// the proof shows the sender's commitment to the packet, which for a
/// stand-in client every proof does.
pub open spec fn ready_to_receive<Ctx: ValidationContext>(
    ctx: &Ctx,
    packet: PacketView,
    proof: Seq<u8>,
    proof_height: Height,
) -> bool {
    match spec_packet_channel(
        ctx.state(),
        (packet.port_id_on_b, packet.chan_id_on_b),
        packet.port_id_on_a,
        packet.chan_id_on_a,
    ) {
        Err(_) => false,
        Ok(end) => match spec_channel_connection(ctx.state(), end) {
            Err(_) => false,
            Ok((_, conn)) => spec_delay_passed(ctx, conn, proof_height) is Ok && match spec_proof_client(
                ctx.state(),
                conn.client_id,
                proof_height,
            ) {
                Err(_) => false,
                Ok((client_state, consensus_state)) => spec_membership(
                    ctx,
                    client_state,
                    consensus_state,
                    conn.counterparty_prefix,
                    proof,
                    PathView::Commitment(
                        (packet.port_id_on_a, packet.chan_id_on_a, packet.seq_on_a),
                    ),
                    ProofValueView::Commitment(
                        spec_packet_commitment(
                            packet.data,
                            packet.timeout_height_on_b,
                            packet.timeout_timestamp_on_b,
                        ),
                    ),
                ),
            },
        },
    }
}

/// Whether the packet is the one to be received next on its channel, which
/// the state `s` holds: on an unordered channel no receipt is stored for the
/// packet; on an ordered channel the packet is the one that is due, and the
/// number due can be counted on; and on either no acknowledgement is written
/// for the packet yet.
pub open spec fn due_to_be_received(s: HostState, packet: PacketView) -> bool {
    let key = (packet.port_id_on_b, packet.chan_id_on_b);
    let packet_key = (packet.port_id_on_b, packet.chan_id_on_b, packet.seq_on_a);
    &&& s.channels.contains_key(key)
    &&& !s.packet_acknowledgements.contains_key(packet_key)
    &&& match s.channels[key].ordering {
        Order::Unordered => !s.packet_receipts.contains_key(packet_key),
        Order::Ordered => s.next_sequence_recv.contains_key(key) && s.next_sequence_recv[key]
            == packet.seq_on_a && packet.seq_on_a.value < u64::MAX,
    }
}

/// A packet is taken for receiving where everything is in order: channel,
/// connection and client are ready and the proof is taken; no timeout of the
/// packet has passed on the host; and the packet is the one to be received
/// next, on an ordered channel as on an unordered one.
pub proof fn law_recv_happy_path<Ctx: ValidationContext>(
    ctx: &Ctx,
    packet: PacketView,
    proof: Seq<u8>,
    proof_height: Height,
)
    requires
        ready_to_receive(ctx, packet, proof, proof_height),
        !packet.timeout_height_on_b.spec_has_expired(ctx.state().host_height),
        ctx.state().host_timestamp.spec_check_expiry(packet.timeout_timestamp_on_b)
            != Expiry::Expired,
        due_to_be_received(ctx.state(), packet),
    ensures
        spec_recv_validate(ctx, packet, proof, proof_height) == Ok::<(), ContextError>(()),
        spec_recv_execute_check(ctx.state(), packet) is Ok,
        spec_recv_execute_check(ctx.state(), packet)->Ok_0.0 == ctx.state().channels[(
            packet.port_id_on_b,
            packet.chan_id_on_b,
        )].ordering,
{
}

/// What receiving a packet stores. The acknowledgement that the module
/// answered with is written for the packet. On an unordered channel a receipt
/// is stored for the packet and the number due stays; on an ordered channel
/// the number due is counted on by one and no receipt is stored. Nothing else
/// of what the protocol stores is changed.
pub proof fn law_recv_stores(
    s: HostState,
    packet: PacketView,
    ordering: Order,
    connection_id: ConnectionId,
    ack: Seq<u8>,
    module_events: Seq<IbcEventView>,
    module_logs: Seq<Seq<char>>,
)
    ensures
        ({
            let after = spec_recv_apply(
                s,
                packet,
                ordering,
                connection_id,
                ack,
                module_events,
                module_logs,
            );
            let key = (packet.port_id_on_b, packet.chan_id_on_b);
            let packet_key = (packet.port_id_on_b, packet.chan_id_on_b, packet.seq_on_a);
            &&& after.packet_acknowledgements == s.packet_acknowledgements.insert(
                packet_key,
                sha256(ack),
            )
            &&& ordering == Order::Unordered ==> after.packet_receipts == s.packet_receipts.insert(
                packet_key,
                Receipt::Received,
            ) && after.next_sequence_recv == s.next_sequence_recv
            &&& ordering == Order::Ordered ==> after.next_sequence_recv
                == s.next_sequence_recv.insert(key, packet.seq_on_a.spec_next())
                && after.packet_receipts == s.packet_receipts
            &&& after.channels == s.channels
            &&& after.connections == s.connections
            &&& after.clients == s.clients
            &&& after.consensus_states == s.consensus_states
            &&& after.packet_commitments == s.packet_commitments
            &&& after.next_sequence_send == s.next_sequence_send
            &&& after.next_sequence_ack == s.next_sequence_ack
            &&& after.host_height == s.host_height
            &&& after.host_timestamp == s.host_timestamp
        }),
{
}

/// A packet for which a receipt is stored on an unordered channel was
/// received, and is not received again: validation and execution both turn
/// it down.
pub proof fn law_receipt_bars_receive<Ctx: ValidationContext>(
    ctx: &Ctx,
    packet: PacketView,
    proof: Seq<u8>,
    proof_height: Height,
)
    requires
        ctx.state().channels.contains_key((packet.port_id_on_b, packet.chan_id_on_b)),
        ctx.state().channels[(packet.port_id_on_b, packet.chan_id_on_b)].ordering
            == Order::Unordered,
        ctx.state().packet_receipts.contains_key(
            (packet.port_id_on_b, packet.chan_id_on_b, packet.seq_on_a),
        ),
    ensures
        spec_recv_validate(ctx, packet, proof, proof_height) is Err,
        spec_recv_execute_check(ctx.state(), packet) is Err,
{
}

/// A receive reports four events, in this order: a message event of the
/// channel layer, the receiving of the packet, a message event of the channel
/// layer, the writing of the acknowledgement. After them come the events of
/// the module, if it handed any over.
pub proof fn law_recv_reports_in_order(
    s: HostState,
    packet: PacketView,
    ordering: Order,
    connection_id: ConnectionId,
    ack: Seq<u8>,
    module_events: Seq<IbcEventView>,
    module_logs: Seq<Seq<char>>,
)
    ensures
        ({
            let after = spec_recv_apply(
                s,
                packet,
                ordering,
                connection_id,
                ack,
                module_events,
                module_logs,
            );
            &&& after.events == s.events + recv_events(packet, ordering, connection_id, ack)
                + module_events
            &&& recv_events(packet, ordering, connection_id, ack).len() == 4
            &&& module_events.len() == 0 ==> after.events.len() == s.events.len() + 4
            &&& after.events[s.events.len() as int] is Message
            &&& after.events[s.events.len() as int + 1] is ReceivePacket
            &&& after.events[s.events.len() as int + 2] is Message
            &&& after.events[s.events.len() as int + 3] is WriteAcknowledgement
        }),
{
}

/// A packet whose timeout timestamp has passed on the host is not taken for
/// receiving, whatever else holds: not even where channel, connection and
/// client are in order.
pub proof fn law_recv_after_timeout_fails<Ctx: ValidationContext>(
    ctx: &Ctx,
    packet: PacketView,
    proof: Seq<u8>,
    proof_height: Height,
)
    requires
        packet.timeout_timestamp_on_b.spec_is_set(),
        ctx.state().host_timestamp.spec_after(packet.timeout_timestamp_on_b),
    ensures
        spec_recv_validate(ctx, packet, proof, proof_height) is Err,
        spec_packet_channel(
            ctx.state(),
            (packet.port_id_on_b, packet.chan_id_on_b),
            packet.port_id_on_a,
            packet.chan_id_on_a,
        ) matches Ok(end) && spec_channel_connection(ctx.state(), end) is Ok
            && !packet.timeout_height_on_b.spec_has_expired(ctx.state().host_height)
            ==> spec_recv_validate(ctx, packet, proof, proof_height) == Err::<(), ContextError>(
            ContextError::Packet(PacketError::TimeoutElapsed),
        ),
{
}

/// A packet whose timeout timestamp lies before the time of a consensus
/// state that the host has stored is not taken for receiving, as long as the
/// host's clock is not behind that consensus state.
pub proof fn law_recv_timeout_before_consensus_time<Ctx: ValidationContext>(
    ctx: &Ctx,
    packet: PacketView,
    proof: Seq<u8>,
    proof_height: Height,
    consensus_time: Timestamp,
)
    requires
        packet.timeout_timestamp_on_b.spec_is_set(),
        consensus_time.spec_after(packet.timeout_timestamp_on_b),
        consensus_time.nanos <= ctx.state().host_timestamp.nanos,
    ensures
        spec_recv_validate(ctx, packet, proof, proof_height) is Err,
{
    law_recv_after_timeout_fails(ctx, packet, proof, proof_height);
}

/// Once a packet has been received, a packet with the same sequence number
/// for the same port and channel is not taken again, whatever it carries and
/// whatever proof comes with it. On an unordered channel the receipt stands
/// against it; on an ordered channel its sequence number is no longer due.
pub proof fn law_no_second_receive<Ctx: ValidationContext>(
    before: HostState,
    received: PacketView,
    after: &Ctx,
    again: PacketView,
    proof: Seq<u8>,
    proof_height: Height,
)
    requires
        spec_received(before, received, after.state()),
        again.port_id_on_b == received.port_id_on_b,
        again.chan_id_on_b == received.chan_id_on_b,
        again.seq_on_a == received.seq_on_a,
    ensures
        spec_recv_validate(after, again, proof, proof_height) is Err,
        spec_recv_execute_check(after.state(), again) is Err,
{
    let (ordering, connection_id) = spec_recv_execute_check(before, received)->Ok_0;
    let (ack, module_events, module_logs) = choose|
        ack: Seq<u8>,
        module_events: Seq<IbcEventView>,
        module_logs: Seq<Seq<char>>,
    |
        after.state() == #[trigger] spec_recv_apply(
            before,
            received,
            ordering,
            connection_id,
            ack,
            module_events,
            module_logs,
        );
    let key = (received.port_id_on_b, received.chan_id_on_b, received.seq_on_a);
    assert(after.state().packet_acknowledgements.contains_key(key));
    assert(after.state().channels == before.channels);
}

/// On an ordered channel a packet is not taken before the packets that come
/// before it: a packet whose sequence number lies beyond the one that is due
/// fails validation.
pub proof fn law_ordered_receive_in_sequence<Ctx: ValidationContext>(
    ctx: &Ctx,
    packet: PacketView,
    proof: Seq<u8>,
    proof_height: Height,
)
    requires
        ctx.state().channels.contains_key((packet.port_id_on_b, packet.chan_id_on_b)),
        ctx.state().channels[(packet.port_id_on_b, packet.chan_id_on_b)].ordering
            == Order::Ordered,
        ctx.state().next_sequence_recv.contains_key((packet.port_id_on_b, packet.chan_id_on_b))
            ==> ctx.state().next_sequence_recv[(packet.port_id_on_b, packet.chan_id_on_b)]
            != packet.seq_on_a,
    ensures
        spec_recv_validate(ctx, packet, proof, proof_height) is Err,
        spec_recv_execute_check(ctx.state(), packet) is Err,
{
}

/// A packet is settled once. After its acknowledgement has been taken, a
/// timeout of the same packet fails, in validation and in execution, on an
/// open channel and on the closing of the other end, because no commitment
/// is found; so does a second acknowledgement.
pub proof fn law_ack_excludes_timeout<Ctx: ValidationContext>(
    before: HostState,
    packet: PacketView,
    after: &Ctx,
    next_seq_recv_on_b: Sequence,
    proof: Seq<u8>,
    proof_height: Height,
)
    requires
        spec_acknowledged(before, packet, after.state()),
    ensures
        spec_timeout_execute_check(after.state(), packet) == Err::<
            (ChannelEndView, ConnectionId),
            ContextError,
        >(ContextError::Packet(PacketError::CommitmentNotFound)),
        spec_timeout_validate(after, packet, next_seq_recv_on_b, proof, proof_height) == Err::<
            (),
            ContextError,
        >(ContextError::Packet(PacketError::CommitmentNotFound)),
        forall|proof_close: Seq<u8>|
            #[trigger] spec_timeout_on_close_validate(
                after,
                packet,
                next_seq_recv_on_b,
                proof,
                proof_close,
                proof_height,
            ) == Err::<(), ContextError>(
                ContextError::Packet(PacketError::CommitmentNotFound),
            ),
        spec_ack_execute_check(after.state(), packet) == Err::<
            (Order, ConnectionId),
            ContextError,
        >(ContextError::Packet(PacketError::CommitmentNotFound)),
{
    let (ordering, connection_id) = spec_ack_execute_check(before, packet)->Ok_0;
    let (module_events, module_logs) = choose|
        module_events: Seq<IbcEventView>,
        module_logs: Seq<Seq<char>>,
    |
        after.state() == #[trigger] spec_ack_apply(
            before,
            packet,
            ordering,
            connection_id,
            module_events,
            module_logs,
        );
    let key = (packet.port_id_on_a, packet.chan_id_on_a, packet.seq_on_a);
    assert(!after.state().packet_commitments.contains_key(key));
    assert(after.state().channels == before.channels);
}

/// A packet is settled once. After it has timed out, its acknowledgement is
/// not taken, in validation and in execution, because no commitment is
/// found; that an ordered channel is closed by then does not come into it.
/// Nor is a second timeout taken.
pub proof fn law_timeout_excludes_ack<Ctx: ValidationContext>(
    before: HostState,
    packet: PacketView,
    after: &Ctx,
    ack: Seq<u8>,
    proof: Seq<u8>,
    proof_height: Height,
)
    requires
        spec_timed_out_to(before, packet, after.state()),
    ensures
        spec_ack_validate(after, packet, ack, proof, proof_height) == Err::<(), ContextError>(
            ContextError::Packet(PacketError::CommitmentNotFound),
        ),
        spec_ack_execute_check(after.state(), packet) == Err::<
            (Order, ConnectionId),
            ContextError,
        >(ContextError::Packet(PacketError::CommitmentNotFound)),
        spec_timeout_execute_check(after.state(), packet) == Err::<
            (ChannelEndView, ConnectionId),
            ContextError,
        >(ContextError::Packet(PacketError::CommitmentNotFound)),
{
    let (end, connection_id) = spec_timeout_execute_check(before, packet)->Ok_0;
    let (module_events, module_logs) = choose|
        module_events: Seq<IbcEventView>,
        module_logs: Seq<Seq<char>>,
    |
        after.state() == #[trigger] spec_timeout_apply(
            before,
            packet,
            end,
            connection_id,
            module_events,
            module_logs,
        );
    let key = (packet.port_id_on_a, packet.chan_id_on_a, packet.seq_on_a);
    assert(!after.state().packet_commitments.contains_key(key));
    if end.ordering == Order::Unordered {
        assert(after.state().channels == before.channels);
    }
}

/// A packet whose acknowledgement the host has written was received, and is
/// not received again: validation and execution both turn it down.
pub proof fn law_acknowledged_packet_is_not_received<Ctx: ValidationContext>(
    ctx: &Ctx,
    packet: PacketView,
    proof: Seq<u8>,
    proof_height: Height,
)
    requires
        ctx.state().packet_acknowledgements.contains_key(
            (packet.port_id_on_b, packet.chan_id_on_b, packet.seq_on_a),
        ),
    ensures
        spec_recv_validate(ctx, packet, proof, proof_height) is Err,
        spec_recv_execute_check(ctx.state(), packet) is Err,
{
}

/// A packet whose commitment the host no longer holds is settled: neither
/// an acknowledgement nor a timeout of it is taken, in validation or in
/// execution, and the reason given is that no commitment is found.
pub proof fn law_settled_packet_takes_nothing<Ctx: ValidationContext>(
    ctx: &Ctx,
    packet: PacketView,
    ack: Seq<u8>,
    next_seq_recv_on_b: Sequence,
    proof: Seq<u8>,
    proof_close: Seq<u8>,
    proof_height: Height,
)
    requires
        !ctx.state().packet_commitments.contains_key(
            (packet.port_id_on_a, packet.chan_id_on_a, packet.seq_on_a),
        ),
    ensures
        spec_ack_validate(ctx, packet, ack, proof, proof_height) == Err::<(), ContextError>(
            ContextError::Packet(PacketError::CommitmentNotFound),
        ),
        spec_timeout_validate(ctx, packet, next_seq_recv_on_b, proof, proof_height) == Err::<
            (),
            ContextError,
        >(ContextError::Packet(PacketError::CommitmentNotFound)),
        spec_timeout_on_close_validate(
            ctx,
            packet,
            next_seq_recv_on_b,
            proof,
            proof_close,
            proof_height,
        ) == Err::<(), ContextError>(ContextError::Packet(PacketError::CommitmentNotFound)),
        spec_ack_execute_check(ctx.state(), packet) == Err::<(Order, ConnectionId), ContextError>(
            ContextError::Packet(PacketError::CommitmentNotFound),
        ),
        spec_timeout_execute_check(ctx.state(), packet) == Err::<
            (ChannelEndView, ConnectionId),
            ContextError,
        >(ContextError::Packet(PacketError::CommitmentNotFound)),
{
}

/// A frozen client takes nothing any more: every client message for it is
/// turned down with the error of a frozen client, whatever the message holds.
pub proof fn law_frozen_client_takes_no_update<Ctx: ValidationContext>(
    ctx: &Ctx,
    id: ClientId,
    message: ClientMessage,
)
    requires
        ctx.state().clients.contains_key(id),
        ctx.state().clients[id].spec_is_frozen(),
    ensures
        spec_update_validate(ctx, id, message) == Err::<(), ContextError>(
            ContextError::Client(ClientError::ClientFrozen),
        ),
        spec_update_execute_check(ctx.state(), id, message) == Err::<
            AnyClientState,
            ContextError,
        >(ContextError::Client(ClientError::ClientFrozen)),
{
}

/// A frozen client backs no proof: whatever the proof and its height, the
/// lookup of what to check it against fails with the error of a frozen
/// client.
pub proof fn law_frozen_client_backs_no_proof(s: HostState, id: ClientId, proof_height: Height)
    requires
        s.clients.contains_key(id),
        s.clients[id].spec_is_frozen(),
    ensures
        spec_proof_client(s, id, proof_height) == Err::<
            (AnyClientState, AnyConsensusState),
            ContextError,
        >(ContextError::Client(ClientError::ClientFrozen)),
{
}

/// A packet that comes over a connection whose client is frozen is not
/// taken for receiving; where nothing else stands against it before the
/// client is looked at, the error is that of a frozen client.
pub proof fn law_frozen_client_receives_nothing<Ctx: ValidationContext>(
    ctx: &Ctx,
    packet: PacketView,
    proof: Seq<u8>,
    proof_height: Height,
)
    requires
        spec_packet_channel(
            ctx.state(),
            (packet.port_id_on_b, packet.chan_id_on_b),
            packet.port_id_on_a,
            packet.chan_id_on_a,
        ) matches Ok(end) && spec_channel_connection(ctx.state(), end) matches Ok((_, conn))
            && ctx.state().clients.contains_key(conn.client_id)
            && ctx.state().clients[conn.client_id].spec_is_frozen(),
    ensures
        spec_recv_validate(ctx, packet, proof, proof_height) is Err,
        !packet.timeout_height_on_b.spec_has_expired(ctx.state().host_height)
            && ctx.state().host_timestamp.spec_check_expiry(packet.timeout_timestamp_on_b)
            != Expiry::Expired ==> spec_recv_validate(
            ctx,
            packet,
            proof,
            proof_height,
        ) == Err::<(), ContextError>(ContextError::Client(ClientError::ClientFrozen)),
{
}

/// Misbehaviour freezes the client and adds no consensus state: after
/// evidence of misbehaviour was taken, or a header that contradicts what the
/// client holds or falls back behind it, the client is frozen and holds the
/// consensus states it held before.
pub proof fn law_misbehaviour_freezes(s: HostState, id: ClientId, message: ClientMessage)
    requires
        spec_update_execute_check(s, id, message) is Ok,
        message matches ClientMessage::Header(header) ==> spec_header_outcome(
            s,
            id,
            s.clients[id],
            header,
        ) == UpdateOutcome::Freeze,
    ensures
        ({
            let after = spec_update_apply(s, id, s.clients[id], message);
            &&& after.clients.contains_key(id)
            &&& after.clients[id].spec_is_frozen()
            &&& after.consensus_states == s.consensus_states
            &&& spec_active_client(after, id) == Err::<AnyClientState, ContextError>(
                ContextError::Client(ClientError::ClientFrozen),
            )
        }),
{
}

/// Freezing is final: no client message that is taken, for whichever
/// client, unfreezes a client that is frozen.
pub proof fn law_frozen_stays_frozen(
    s: HostState,
    frozen: ClientId,
    id: ClientId,
    message: ClientMessage,
)
    requires
        s.clients.contains_key(frozen),
        s.clients[frozen].spec_is_frozen(),
        spec_update_execute_check(s, id, message) is Ok,
    ensures
        ({
            let after = spec_update_apply(s, id, s.clients[id], message);
            after.clients.contains_key(frozen) && after.clients[frozen].spec_is_frozen()
        }),
{
}

/// The consensus states of a client are only ever added to: a client message
/// that is taken leaves every consensus state that was stored as it was, and
/// the latest height of the client does not fall.
pub proof fn law_consensus_history_append_only(
    s: HostState,
    id: ClientId,
    message: ClientMessage,
    key: ConsensusKey,
)
    requires
        spec_update_execute_check(s, id, message) is Ok,
        s.consensus_states.contains_key(key),
    ensures
        ({
            let after = spec_update_apply(s, id, s.clients[id], message);
            &&& after.consensus_states.contains_key(key)
            &&& after.consensus_states[key] == s.consensus_states[key]
            &&& after.clients.contains_key(id)
            &&& s.clients[id].spec_latest_height().spec_le(after.clients[id].spec_latest_height())
        }),
{
}

/// A channel never moves back, and its ordering never changes: a later step
/// of a handshake is only taken for a channel end that is not closed, and
/// the end that it stores has the same ordering, the same counterparty port
/// and the same connection, in a state that is not behind the state before.
pub proof fn law_channel_never_regresses<Ctx: ValidationContext>(
    ctx: &Ctx,
    key: ChannelKey,
    advance: Advance,
    version_on_b: Seq<char>,
    proof: Seq<u8>,
    proof_height: Height,
)
    requires
        spec_advance_validate(ctx, key, advance, version_on_b, proof, proof_height) is Ok,
    ensures
        ({
            let before = ctx.state().channels[key];
            let after = spec_advance_validate(
                ctx,
                key,
                advance,
                version_on_b,
                proof,
                proof_height,
            )->Ok_0;
            &&& ctx.state().channels.contains_key(key)
            &&& before.state != ChannelState::Closed
            &&& before.state.rank() <= after.state.rank()
            &&& after.ordering == before.ordering
            &&& after.counterparty_port_id == before.counterparty_port_id
            &&& after.connection_hops == before.connection_hops
        }),
{
}

/// `Closed` is final. For a channel end that is closed, no step of a
/// handshake is taken, no packet is sent, received, acknowledged or timed
/// out; so no handler opens it again.
pub proof fn law_closed_is_final<Ctx: ValidationContext>(
    ctx: &Ctx,
    key: ChannelKey,
    advance: Advance,
    version_on_b: Seq<char>,
    packet: PacketView,
    ack: Seq<u8>,
    next_seq_recv_on_b: Sequence,
    proof: Seq<u8>,
    proof_height: Height,
)
    requires
        ctx.state().channels.contains_key(key),
        ctx.state().channels[key].state == ChannelState::Closed,
    ensures
        spec_advance_validate(ctx, key, advance, version_on_b, proof, proof_height) == Err::<
            ChannelEndView,
            ContextError,
        >(ContextError::Channel(ChannelError::StateMismatch)),
        (packet.port_id_on_b, packet.chan_id_on_b) == key ==> spec_recv_validate(
            ctx,
            packet,
            proof,
            proof_height,
        ) is Err && spec_recv_execute_check(ctx.state(), packet) is Err,
        (packet.port_id_on_a, packet.chan_id_on_a) == key ==> {
            &&& spec_send_validate(ctx.state(), packet) is Err
            &&& spec_ack_validate(ctx, packet, ack, proof, proof_height) is Err
            &&& spec_ack_execute_check(ctx.state(), packet) is Err
            &&& spec_timeout_validate(ctx, packet, next_seq_recv_on_b, proof, proof_height) is Err
            &&& spec_timeout_execute_check(ctx.state(), packet) is Err
        },
{
}

/// A step that stores a channel end touches no other channel end, and a
/// channel end that is made new takes the place of none, as long as every
/// channel end lies under an identifier that the host has given out.
pub proof fn law_channel_steps_are_local(
    s: HostState,
    step: Step,
    key: ChannelKey,
    end: ChannelEndView,
    module_events: Seq<IbcEventView>,
    module_logs: Seq<Seq<char>>,
    other: ChannelKey,
)
    requires
        s.channels.contains_key(other),
        other != key,
    ensures
        spec_store_channel(s, step, key, end, module_events, module_logs).channels[other]
            == s.channels[other],
        spec_store_channel(
            spec_new_channel(s, key),
            step,
            key,
            end,
            module_events,
            module_logs,
        ).channels[other] == s.channels[other],
        (forall|k: ChannelKey| #[trigger]
            s.channels.contains_key(k) ==> k.1.counter < s.channel_counter) && key.1.counter
            == s.channel_counter ==> !s.channels.contains_key(key),
{
}

/// A timeout leaves the ordering of the channel as it was, and closes the
/// channel only where it is ordered.
pub proof fn law_timeout_keeps_ordering(
    s: HostState,
    packet: PacketView,
    module_events: Seq<IbcEventView>,
    module_logs: Seq<Seq<char>>,
)
    requires
        spec_timeout_execute_check(s, packet) is Ok,
    ensures
        ({
            let (end, connection_id) = spec_timeout_execute_check(s, packet)->Ok_0;
            let key = (packet.port_id_on_a, packet.chan_id_on_a);
            let after = spec_timeout_apply(
                s,
                packet,
                end,
                connection_id,
                module_events,
                module_logs,
            );
            &&& after.channels.contains_key(key)
            &&& after.channels[key].ordering == s.channels[key].ordering
            &&& after.channels[key].state == if end.ordering == Order::Ordered {
                ChannelState::Closed
            } else {
                ChannelState::Open
            }
        }),
{
}

/// Every commitment that is stored is for a packet that was sent: its
/// sequence number lies below the next one to be sent on its channel.
pub open spec fn commitments_were_sent(s: HostState) -> bool {
    forall|key: PacketKey| #[trigger]
        s.packet_commitments.contains_key(key) ==> s.next_sequence_send.contains_key(
            (key.0, key.1),
        ) && key.2.value < s.next_sequence_send[(key.0, key.1)].value
}

/// A commitment that was deleted is never made again. A packet is sent under
/// the next sequence number of its channel, for which no commitment is
/// stored, and the counter then moves on; acknowledgements and timeouts only
/// delete commitments. So the sequence number of a packet that was settled
/// lies below the counter for good.
pub proof fn law_commitment_made_once(
    s: HostState,
    packet: PacketView,
    module_events: Seq<IbcEventView>,
    module_logs: Seq<Seq<char>>,
)
    requires
        commitments_were_sent(s),
    ensures
        spec_send_validate(s, packet) matches Ok((ordering, conn)) ==> {
            &&& !s.packet_commitments.contains_key(
                (packet.port_id_on_a, packet.chan_id_on_a, packet.seq_on_a),
            )
            &&& commitments_were_sent(spec_send_apply(s, packet, ordering, conn))
            &&& spec_send_validate(spec_send_apply(s, packet, ordering, conn), packet) is Err
        },
        spec_ack_execute_check(s, packet) matches Ok((ordering, conn)) ==> {
            let after = spec_ack_apply(s, packet, ordering, conn, module_events, module_logs);
            &&& commitments_were_sent(after)
            &&& after.next_sequence_send == s.next_sequence_send
            &&& spec_send_validate(after, packet) is Err
        },
        spec_timeout_execute_check(s, packet) matches Ok((end, conn)) ==> {
            let after = spec_timeout_apply(s, packet, end, conn, module_events, module_logs);
            &&& commitments_were_sent(after)
            &&& after.next_sequence_send == s.next_sequence_send
            &&& spec_send_validate(after, packet) is Err
        },
{
    let key = (packet.port_id_on_a, packet.chan_id_on_a, packet.seq_on_a);
    if spec_send_validate(s, packet) is Ok {
        let (ordering, conn) = spec_send_validate(s, packet)->Ok_0;
        let after = spec_send_apply(s, packet, ordering, conn);
        assert forall|k: PacketKey| #[trigger]
            after.packet_commitments.contains_key(k) implies after.next_sequence_send.contains_key(
            (k.0, k.1),
        ) && k.2.value < after.next_sequence_send[(k.0, k.1)].value by {
            if k != key {
                assert(s.packet_commitments.contains_key(k));
            }
        }
    }
    if spec_ack_execute_check(s, packet) is Ok {
        let (ordering, conn) = spec_ack_execute_check(s, packet)->Ok_0;
        let after = spec_ack_apply(s, packet, ordering, conn, module_events, module_logs);
        assert(s.packet_commitments.contains_key(key));
        assert forall|k: PacketKey| #[trigger]
            after.packet_commitments.contains_key(k) implies after.next_sequence_send.contains_key(
            (k.0, k.1),
        ) && k.2.value < after.next_sequence_send[(k.0, k.1)].value by {
            assert(s.packet_commitments.contains_key(k));
        }
    }
    if spec_timeout_execute_check(s, packet) is Ok {
        let (end, conn) = spec_timeout_execute_check(s, packet)->Ok_0;
        let after = spec_timeout_apply(s, packet, end, conn, module_events, module_logs);
        assert(s.packet_commitments.contains_key(key));
        assert forall|k: PacketKey| #[trigger]
            after.packet_commitments.contains_key(k) implies after.next_sequence_send.contains_key(
            (k.0, k.1),
        ) && k.2.value < after.next_sequence_send[(k.0, k.1)].value by {
            assert(s.packet_commitments.contains_key(k));
        }
    }
}

/// The sequence counters of a channel only ever go up: sending a packet,
/// receiving one on an ordered channel and taking an acknowledgement on an
/// ordered channel each move one counter on by one and leave the others.
pub proof fn law_sequences_only_grow(
    s: HostState,
    packet: PacketView,
    ack: Seq<u8>,
    module_events: Seq<IbcEventView>,
    module_logs: Seq<Seq<char>>,
)
    ensures
        spec_send_validate(s, packet) matches Ok((ordering, conn)) ==> {
            let key = (packet.port_id_on_a, packet.chan_id_on_a);
            let after = spec_send_apply(s, packet, ordering, conn);
            &&& after.next_sequence_send[key].value == s.next_sequence_send[key].value + 1
            &&& after.next_sequence_recv == s.next_sequence_recv
            &&& after.next_sequence_ack == s.next_sequence_ack
        },
        spec_recv_execute_check(s, packet) matches Ok((ordering, conn)) ==> {
            let key = (packet.port_id_on_b, packet.chan_id_on_b);
            let after = spec_recv_apply(s, packet, ordering, conn, ack, module_events, module_logs);
            &&& ordering == Order::Ordered ==> after.next_sequence_recv[key].value
                == s.next_sequence_recv[key].value + 1
            &&& ordering == Order::Unordered ==> after.next_sequence_recv == s.next_sequence_recv
            &&& after.next_sequence_send == s.next_sequence_send
            &&& after.next_sequence_ack == s.next_sequence_ack
        },
        spec_ack_execute_check(s, packet) matches Ok((ordering, conn)) ==> {
            let key = (packet.port_id_on_a, packet.chan_id_on_a);
            let after = spec_ack_apply(s, packet, ordering, conn, module_events, module_logs);
            &&& ordering == Order::Ordered ==> after.next_sequence_ack[key].value
                == s.next_sequence_ack[key].value + 1
            &&& ordering == Order::Unordered ==> after.next_sequence_ack == s.next_sequence_ack
            &&& after.next_sequence_send == s.next_sequence_send
            &&& after.next_sequence_recv == s.next_sequence_recv
        },
{
}

/// Each time of storing stands for a consensus state that is stored.
pub open spec fn storing_is_recorded_for_states(s: HostState) -> bool {
    &&& forall|key: ConsensusKey| #[trigger]
        s.update_times.contains_key(key) ==> s.consensus_states.contains_key(key)
    &&& forall|key: ConsensusKey| #[trigger]
        s.update_heights.contains_key(key) ==> s.consensus_states.contains_key(key)
}

/// The time and height at which a consensus state was stored are recorded
/// once, when it is first stored, and stay as they are: a client message that
/// is taken leaves every record as it was, and adds records only for the
/// consensus state that it adds, with the host's present time and height.
pub proof fn law_storing_recorded_once(
    s: HostState,
    id: ClientId,
    message: ClientMessage,
    key: ConsensusKey,
)
    requires
        storing_is_recorded_for_states(s),
        spec_update_execute_check(s, id, message) is Ok,
    ensures
        ({
            let after = spec_update_apply(s, id, s.clients[id], message);
            &&& storing_is_recorded_for_states(after)
            &&& s.update_times.contains_key(key) ==> after.update_times.contains_key(key)
                && after.update_times[key] == s.update_times[key]
            &&& s.update_heights.contains_key(key) ==> after.update_heights.contains_key(key)
                && after.update_heights[key] == s.update_heights[key]
            &&& !s.update_times.contains_key(key) && after.update_times.contains_key(key)
                ==> after.update_times[key] == s.host_timestamp && !s.consensus_states.contains_key(
                key,
            ) && after.consensus_states.contains_key(key)
            &&& !s.update_heights.contains_key(key) && after.update_heights.contains_key(key)
                ==> after.update_heights[key] == s.host_height
        }),
{
}

} // verus!
