//! Sending a packet. This is asked for by an application on the host, not
//! by a relayer.

use vstd::prelude::*;
use crate::channel::{Order, Packet, PacketView};
use crate::commitment::{compute_packet_commitment, spec_packet_commitment};
use crate::context::{ExecutionContext, ValidationContext};
use crate::error::{ContextError, PacketError};
use crate::events::{IbcEvent, IbcEventView, MessageEvent, PacketAttributes, PacketEventData};
use crate::handler::common::{
    active_client,
    channel_connection,
    packet_channel,
    spec_active_client,
    spec_channel_connection,
    spec_packet_channel,
};
use crate::identifier::ConnectionId;
use crate::path::{ChannelEndPath, CommitmentPath};
use crate::state::HostState;
use crate::timestamp::Expiry;

verus! {

/// Whether a packet can be sent, and over which ordering and connection.
/// The checks, in order: the channel end is stored, open, and has the
/// packet's destination as its counterparty; its connection is open; the
/// connection's client is active; neither timeout of the packet has already
/// passed on the host; the packet carries the sequence number that is next on
/// the channel.
pub open spec fn spec_send_validate(s: HostState, packet: PacketView) -> Result<
    (Order, ConnectionId),
    ContextError,
> {
    match spec_packet_channel(
        s,
        (packet.port_id_on_a, packet.chan_id_on_a),
        packet.port_id_on_b,
        packet.chan_id_on_b,
    ) {
        Err(e) => Err(e),
        Ok(end) => match spec_channel_connection(s, end) {
            Err(e) => Err(e),
            Ok((connection_id, conn)) => match spec_active_client(s, conn.client_id) {
                Err(e) => Err(e),
                Ok(_) => if packet.timeout_height_on_b.spec_has_expired(s.host_height) {
                    Err(ContextError::Packet(PacketError::TimeoutElapsed))
                } else if s.host_timestamp.spec_check_expiry(packet.timeout_timestamp_on_b)
                    == Expiry::Expired {
                    Err(ContextError::Packet(PacketError::TimeoutElapsed))
                } else {
                    match HostState::lookup_sequence(
                        s.next_sequence_send,
                        (packet.port_id_on_a, packet.chan_id_on_a),
                    ) {
                        Err(e) => Err(e),
                        Ok(next) => if packet.seq_on_a != next {
                            Err(ContextError::Packet(PacketError::SequenceMismatch))
                        } else if next.value == u64::MAX {
                            Err(ContextError::Packet(PacketError::SequenceOverflow))
                        } else {
                            Ok((end.ordering, connection_id))
                        },
                    }
                },
            },
        },
    }
}

/// The events that a send reports, in order.
pub open spec fn send_events(packet: PacketView, ordering: Order, connection_id: ConnectionId) -> Seq<
    IbcEventView,
> {
    seq![
        IbcEventView::Message(MessageEvent::Channel),
        IbcEventView::SendPacket(PacketAttributes { packet, ordering, connection_id }),
    ]
}

/// The state after a send: the commitment to the packet is stored under its
/// sequence number, the channel's next sequence number to send is one higher,
/// and the send is reported and logged.
pub open spec fn spec_send_apply(
    s: HostState,
    packet: PacketView,
    ordering: Order,
    connection_id: ConnectionId,
) -> HostState {
    let key = (packet.port_id_on_a, packet.chan_id_on_a);
    let packet_key = (packet.port_id_on_a, packet.chan_id_on_a, packet.seq_on_a);
    (HostState {
        next_sequence_send: s.next_sequence_send.insert(key, packet.seq_on_a.spec_next()),
        packet_commitments: s.packet_commitments.insert(
            packet_key,
            spec_packet_commitment(
                packet.data,
                packet.timeout_height_on_b,
                packet.timeout_timestamp_on_b,
            ),
        ),
        ..s
    }).reporting(send_events(packet, ordering, connection_id), seq!["success: packet send"@])
}

/// Checks whether a packet can be sent. The host's state is only read.
pub fn send_packet_validate<Ctx: ValidationContext>(ctx: &Ctx, packet: &Packet) -> (r: Result<
    (Order, ConnectionId),
    ContextError,
>)
    requires
        ctx.inv(),
    ensures
        r == spec_send_validate(ctx.state(), packet@),
{
    let end = packet_channel(
        ctx,
        &packet.port_id_on_a,
        &packet.chan_id_on_a,
        &packet.port_id_on_b,
        &packet.chan_id_on_b,
    )?;
    let (connection_id, conn) = channel_connection(ctx, &end)?;
    let _ = active_client(ctx, &conn.client_id)?;
    if packet.timeout_height_on_b.has_expired(ctx.host_height()) {
        return Err(ContextError::Packet(PacketError::TimeoutElapsed));
    }
    match ctx.host_timestamp().check_expiry(&packet.timeout_timestamp_on_b) {
        Expiry::Expired => {
            return Err(ContextError::Packet(PacketError::TimeoutElapsed));
        },
        _ => {},
    }
    let next = ctx.get_next_sequence_send(
        &ChannelEndPath::new(&packet.port_id_on_a, &packet.chan_id_on_a),
    )?;
    if packet.seq_on_a.value != next.value {
        return Err(ContextError::Packet(PacketError::SequenceMismatch));
    }
    if next.value == u64::MAX {
        return Err(ContextError::Packet(PacketError::SequenceOverflow));
    }
    Ok((end.ordering, connection_id))
}

/// Stores and reports the sending of a packet that was found fit to send.
pub fn send_packet_execute<Ctx: ExecutionContext>(
    ctx: &mut Ctx,
    packet: Packet,
    ordering: Order,
    connection_id: ConnectionId,
)
    requires
        old(ctx).inv(),
        packet.seq_on_a.value < u64::MAX,
    ensures
        final(ctx).inv(),
        final(ctx).host_side() == old(ctx).host_side(),
        final(ctx).state() == spec_send_apply(old(ctx).state(), packet@, ordering, connection_id),
{
    let ghost s = ctx.state();
    ctx.store_next_sequence_send(
        ChannelEndPath::new(&packet.port_id_on_a, &packet.chan_id_on_a),
        packet.seq_on_a.increment(),
    );
    ctx.store_packet_commitment(
        CommitmentPath::new(&packet.port_id_on_a, &packet.chan_id_on_a, packet.seq_on_a),
        compute_packet_commitment(
            &packet.data,
            &packet.timeout_height_on_b,
            &packet.timeout_timestamp_on_b,
        ),
    );
    ctx.log_message("success: packet send".to_owned());
    ctx.emit_ibc_event(IbcEvent::Message(MessageEvent::Channel));
    ctx.emit_ibc_event(IbcEvent::SendPacket(PacketEventData { packet, ordering, connection_id }));
    proof {
        let expected = spec_send_apply(s, packet@, ordering, connection_id);
        assert(ctx.state().events =~= expected.events);
        assert(ctx.state().logs =~= expected.logs);
    }
}

/// Sends a packet: where the packet is fit to send, its commitment is
/// stored and the channel's next sequence number goes up by one; else
/// nothing is changed.
pub fn send_packet<Ctx: ExecutionContext>(ctx: &mut Ctx, packet: Packet) -> (r: Result<
    (),
    ContextError,
>)
    requires
        old(ctx).inv(),
    ensures
        final(ctx).inv(),
        final(ctx).host_side() == old(ctx).host_side(),
        match spec_send_validate(old(ctx).state(), packet@) {
            Err(e) => r == Err::<(), ContextError>(e) && final(ctx).state() == old(ctx).state(),
            Ok((ordering, connection_id)) => r is Ok && final(ctx).state() == spec_send_apply(
                old(ctx).state(),
                packet@,
                ordering,
                connection_id,
            ),
        },
{
    let (ordering, connection_id) = send_packet_validate(ctx, &packet)?;
    send_packet_execute(ctx, packet, ordering, connection_id);
    Ok(())
}

} // verus!
