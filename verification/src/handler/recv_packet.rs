//! Receiving a packet on the chain it was sent to.

use vstd::prelude::*;
use crate::channel::{Acknowledgement, ChannelEnd, ChannelEndView, Order, Packet, PacketView};
use crate::commitment::{
    compute_ack_commitment,
    compute_packet_commitment,
    sha256,
    spec_packet_commitment,
    Receipt,
};
use crate::context::{ExecutionContext, ProofValue, ProofValueView, ValidationContext};
use crate::error::{ContextError, PacketError};
use crate::events::{
    logs_view,
    module_events_view,
    AcknowledgementAttributes,
    AcknowledgementEventData,
    IbcEvent,
    IbcEventView,
    MessageEvent,
    PacketAttributes,
    PacketEventData,
};
use crate::handler::common::{
    channel_connection,
    check_membership,
    delay_passed,
    emit_module_extras,
    first_hop,
    packet_channel,
    proof_client,
    spec_channel_connection,
    spec_delay_passed,
    spec_first_hop,
    spec_membership,
    spec_packet_channel,
    spec_proof_client,
};
use crate::height::Height;
use crate::identifier::{ConnectionId, Signer};
use crate::msgs::MsgRecvPacket;
use crate::path::{AckPath, ChannelEndPath, CommitmentPath, Path, PathView, ReceiptPath};
use crate::router::{Module, ModuleExtras};
use crate::state::HostState;
use crate::timestamp::Expiry;

verus! {

/// Whether the packet may still be received on the channel end: on an
/// ordered channel it must be the packet that is due; on an unordered channel
/// no receipt for it may be stored; on either, no acknowledgement for it may
/// be stored.
pub open spec fn spec_not_yet_received(s: HostState, packet: PacketView, end: ChannelEndView) -> Result<
    (),
    ContextError,
> {
    let key = (packet.port_id_on_b, packet.chan_id_on_b);
    let packet_key = (packet.port_id_on_b, packet.chan_id_on_b, packet.seq_on_a);
    let no_ack = if s.packet_acknowledgements.contains_key(packet_key) {
        Err(ContextError::Packet(PacketError::AcknowledgementExists))
    } else {
        Ok(())
    };
    match end.ordering {
        Order::Ordered => match HostState::lookup_sequence(s.next_sequence_recv, key) {
            Err(e) => Err(e),
            Ok(next) => if packet.seq_on_a != next {
                Err(ContextError::Packet(PacketError::SequenceMismatch))
            } else if next.value == u64::MAX {
                Err(ContextError::Packet(PacketError::SequenceOverflow))
            } else {
                no_ack
            },
        },
        Order::Unordered => if s.packet_receipts.contains_key(packet_key) {
            Err(ContextError::Packet(PacketError::ReceiptExists))
        } else {
            no_ack
        },
    }
}

/// Whether a packet with its proof is taken for receiving. The checks, in
/// order: the channel end is stored, open, and has the sender's end as its
/// counterparty; its connection is open; neither timeout of the packet has
/// passed on the host; the connection's client is active and has a consensus
/// state at the proof's height; the connection's delay has passed; the proof
/// shows the sender's commitment to the packet; the packet was not received
/// before.
pub open spec fn spec_recv_validate<Ctx: ValidationContext>(
    ctx: &Ctx,
    packet: PacketView,
    proof: Seq<u8>,
    proof_height: Height,
) -> Result<(), ContextError> {
    let s = ctx.state();
    match spec_packet_channel(
        s,
        (packet.port_id_on_b, packet.chan_id_on_b),
        packet.port_id_on_a,
        packet.chan_id_on_a,
    ) {
        Err(e) => Err(e),
        Ok(end) => match spec_channel_connection(s, end) {
            Err(e) => Err(e),
            Ok((_, conn)) => if packet.timeout_height_on_b.spec_has_expired(s.host_height) {
                Err(ContextError::Packet(PacketError::TimeoutElapsed))
            } else if s.host_timestamp.spec_check_expiry(packet.timeout_timestamp_on_b)
                == Expiry::Expired {
                Err(ContextError::Packet(PacketError::TimeoutElapsed))
            } else {
                match spec_proof_client(s, conn.client_id, proof_height) {
                    Err(e) => Err(e),
                    Ok((client_state, consensus_state)) => match spec_delay_passed(
                        ctx,
                        conn,
                        proof_height,
                    ) {
                        Err(e) => Err(e),
                        Ok(_) => if !spec_membership(
                            ctx,
                            client_state,
                            consensus_state,
                            conn.counterparty_prefix,
                            proof,
                            PathView::Commitment(
                                (packet.port_id_on_a, packet.chan_id_on_a, packet.seq_on_a),
                            ),
                            ProofValueView::Commitment(
                                spec_packet_commitment(
                                    packet.data,
                                    packet.timeout_height_on_b,
                                    packet.timeout_timestamp_on_b,
                                ),
                            ),
                        ) {
                            Err(ContextError::Packet(PacketError::ProofFailure))
                        } else {
                            spec_not_yet_received(s, packet, end)
                        },
                    },
                }
            },
        },
    }
}

/// What execution checks again before anything is changed, and what it
/// learns for the change: the ordering of the channel and its connection.
pub open spec fn spec_recv_execute_check(s: HostState, packet: PacketView) -> Result<
    (Order, ConnectionId),
    ContextError,
> {
    match spec_packet_channel(
        s,
        (packet.port_id_on_b, packet.chan_id_on_b),
        packet.port_id_on_a,
        packet.chan_id_on_a,
    ) {
        Err(e) => Err(e),
        Ok(end) => match spec_first_hop(end) {
            Err(e) => Err(e),
            Ok(connection_id) => match spec_not_yet_received(s, packet, end) {
                Err(e) => Err(e),
                Ok(_) => Ok((end.ordering, connection_id)),
            },
        },
    }
}

/// The events that a receive reports, in order.
pub open spec fn recv_events(
    packet: PacketView,
    ordering: Order,
    connection_id: ConnectionId,
    ack: Seq<u8>,
) -> Seq<IbcEventView> {
    seq![
        IbcEventView::Message(MessageEvent::Channel),
        IbcEventView::ReceivePacket(PacketAttributes { packet, ordering, connection_id }),
        IbcEventView::Message(MessageEvent::Channel),
        IbcEventView::WriteAcknowledgement(
            AcknowledgementAttributes { packet, acknowledgement: ack, connection_id },
        ),
    ]
}

/// The log lines that a receive writes, in order.
pub open spec fn recv_logs() -> Seq<Seq<char>> {
    seq!["success: packet receive"@, "success: packet write acknowledgement"@]
}

/// What is stored after a receive: on an unordered channel a receipt for the
/// packet, on an ordered channel the next sequence number as the one that is
/// due; and the commitment to the acknowledgement.
pub open spec fn spec_recv_store(s: HostState, packet: PacketView, ordering: Order, ack: Seq<u8>) -> HostState {
    let key = (packet.port_id_on_b, packet.chan_id_on_b);
    let packet_key = (packet.port_id_on_b, packet.chan_id_on_b, packet.seq_on_a);
    let received = match ordering {
        Order::Unordered => HostState {
            packet_receipts: s.packet_receipts.insert(packet_key, Receipt::Received),
            ..s
        },
        Order::Ordered => HostState {
            next_sequence_recv: s.next_sequence_recv.insert(key, packet.seq_on_a.spec_next()),
            ..s
        },
    };
    HostState {
        packet_acknowledgements: received.packet_acknowledgements.insert(packet_key, sha256(ack)),
        ..received
    }
}

/// The state after a receive whose module answered with `ack` and handed
/// over `module_events` and `module_logs`.
pub open spec fn spec_recv_apply(
    s: HostState,
    packet: PacketView,
    ordering: Order,
    connection_id: ConnectionId,
    ack: Seq<u8>,
    module_events: Seq<IbcEventView>,
    module_logs: Seq<Seq<char>>,
) -> HostState {
    spec_recv_store(s, packet, ordering, ack).reporting(
        recv_events(packet, ordering, connection_id, ack),
        recv_logs(),
    ).reporting(module_events, module_logs)
}

/// Whether `after` is a state that receiving the packet in the state
/// `before` can lead to: the packet can be received, and `after` is what is
/// stored and reported for some answer of the module.
pub open spec fn spec_received(before: HostState, packet: PacketView, after: HostState) -> bool {
    match spec_recv_execute_check(before, packet) {
        Err(_) => false,
        Ok((ordering, connection_id)) => exists|
            ack: Seq<u8>,
            module_events: Seq<IbcEventView>,
            module_logs: Seq<Seq<char>>,
        |
            after == #[trigger] spec_recv_apply(
                before,
                packet,
                ordering,
                connection_id,
                ack,
                module_events,
                module_logs,
            ),
    }
}

/// Whatever the module answers, what is then stored and reported is a state
/// that receiving the packet can lead to.
pub proof fn lemma_received(
    before: HostState,
    packet: PacketView,
    ordering: Order,
    connection_id: ConnectionId,
    ack: Seq<u8>,
    module_events: Seq<IbcEventView>,
    module_logs: Seq<Seq<char>>,
)
    requires
        spec_recv_execute_check(before, packet) == Ok::<(Order, ConnectionId), ContextError>(
            (ordering, connection_id),
        ),
    ensures
        spec_received(
            before,
            packet,
            spec_recv_apply(
                before,
                packet,
                ordering,
                connection_id,
                ack,
                module_events,
                module_logs,
            ),
        ),
{
    let after = spec_recv_apply(
        before,
        packet,
        ordering,
        connection_id,
        ack,
        module_events,
        module_logs,
    );
    assert(exists|a: Seq<u8>, e: Seq<IbcEventView>, l: Seq<Seq<char>>|
        after == #[trigger] spec_recv_apply(before, packet, ordering, connection_id, a, e, l));
    let check = spec_recv_execute_check(before, packet);
    assert(check is Ok);
    assert(check->Ok_0.0 == ordering);
    assert(check->Ok_0.1 == connection_id);
}

/// Checks that the packet was not received before.
pub fn not_yet_received<Ctx: ValidationContext>(ctx: &Ctx, packet: &Packet, end: &ChannelEnd) -> (r:
    Result<(), ContextError>)
    requires
        ctx.inv(),
    ensures
        r == spec_not_yet_received(ctx.state(), packet@, end@),
{
    match end.ordering {
        Order::Ordered => {
            let next = ctx.get_next_sequence_recv(
                &ChannelEndPath::new(&packet.port_id_on_b, &packet.chan_id_on_b),
            )?;
            if packet.seq_on_a.value != next.value {
                return Err(ContextError::Packet(PacketError::SequenceMismatch));
            }
            if next.value == u64::MAX {
                return Err(ContextError::Packet(PacketError::SequenceOverflow));
            }
        },
        Order::Unordered => {
            let receipt = ctx.get_packet_receipt(
                &ReceiptPath::new(&packet.port_id_on_b, &packet.chan_id_on_b, packet.seq_on_a),
            );
            if receipt.is_ok() {
                return Err(ContextError::Packet(PacketError::ReceiptExists));
            }
        },
    }
    match ctx.get_packet_acknowledgement(
        &AckPath::new(&packet.port_id_on_b, &packet.chan_id_on_b, packet.seq_on_a),
    ) {
        Ok(_) => Err(ContextError::Packet(PacketError::AcknowledgementExists)),
        Err(_) => Ok(()),
    }
}

/// Validates the receiving of a packet. The host's state is only read.
pub fn validate<Ctx: ValidationContext>(ctx: &Ctx, msg: &MsgRecvPacket) -> (r: Result<
    (),
    ContextError,
>)
    requires
        ctx.inv(),
    ensures
        r == spec_recv_validate(
            ctx,
            msg.packet@,
            msg.proof_commitment_on_a@,
            msg.proof_height_on_a,
        ),
{
    let packet = &msg.packet;
    let end = packet_channel(
        ctx,
        &packet.port_id_on_b,
        &packet.chan_id_on_b,
        &packet.port_id_on_a,
        &packet.chan_id_on_a,
    )?;
    let (_, conn) = channel_connection(ctx, &end)?;
    if packet.timeout_height_on_b.has_expired(ctx.host_height()) {
        return Err(ContextError::Packet(PacketError::TimeoutElapsed));
    }
    match ctx.host_timestamp().check_expiry(&packet.timeout_timestamp_on_b) {
        Expiry::Expired => {
            return Err(ContextError::Packet(PacketError::TimeoutElapsed));
        },
        _ => {},
    }
    let (client_state, consensus_state) = proof_client(
        ctx,
        &conn.client_id,
        &msg.proof_height_on_a,
    )?;
    delay_passed(ctx, &conn, &msg.proof_height_on_a)?;
    let commitment = compute_packet_commitment(
        &packet.data,
        &packet.timeout_height_on_b,
        &packet.timeout_timestamp_on_b,
    );
    let path = Path::Commitment(
        CommitmentPath::new(&packet.port_id_on_a, &packet.chan_id_on_a, packet.seq_on_a),
    );
    if !check_membership(
        ctx,
        &client_state,
        &consensus_state,
        &conn.counterparty.prefix,
        &msg.proof_commitment_on_a,
        &path,
        &ProofValue::Commitment(commitment),
    ) {
        return Err(ContextError::Packet(PacketError::ProofFailure));
    }
    not_yet_received(ctx, packet, &end)
}

/// Stores and reports what a receive comes to, once the module has answered
/// with `ack` and handed over `extras`.
pub fn commit<Ctx: ExecutionContext>(
    ctx: &mut Ctx,
    packet: Packet,
    ordering: Order,
    connection_id: ConnectionId,
    ack: Acknowledgement,
    extras: ModuleExtras,
)
    requires
        old(ctx).inv(),
        ordering == Order::Ordered ==> packet.seq_on_a.value < u64::MAX,
    ensures
        final(ctx).inv(),
        final(ctx).host_side() == old(ctx).host_side(),
        final(ctx).state() == spec_recv_apply(
            old(ctx).state(),
            packet@,
            ordering,
            connection_id,
            ack@,
            module_events_view(extras.events@),
            logs_view(extras.log@),
        ),
{
    let ghost s = ctx.state();
    match ordering {
        Order::Unordered => {
            ctx.store_packet_receipt(
                ReceiptPath::new(&packet.port_id_on_b, &packet.chan_id_on_b, packet.seq_on_a),
                Receipt::Received,
            );
        },
        Order::Ordered => {
            ctx.store_next_sequence_recv(
                ChannelEndPath::new(&packet.port_id_on_b, &packet.chan_id_on_b),
                packet.seq_on_a.increment(),
            );
        },
    }
    ctx.store_packet_acknowledgement(
        AckPath::new(&packet.port_id_on_b, &packet.chan_id_on_b, packet.seq_on_a),
        compute_ack_commitment(ack.as_bytes()),
    );
    assert(ctx.state() == spec_recv_store(s, packet@, ordering, ack@));
    ctx.log_message("success: packet receive".to_owned());
    ctx.log_message("success: packet write acknowledgement".to_owned());
    ctx.emit_ibc_event(IbcEvent::Message(MessageEvent::Channel));
    ctx.emit_ibc_event(
        IbcEvent::ReceivePacket(
            PacketEventData { packet: packet.clone(), ordering, connection_id },
        ),
    );
    ctx.emit_ibc_event(IbcEvent::Message(MessageEvent::Channel));
    ctx.emit_ibc_event(
        IbcEvent::WriteAcknowledgement(
            AcknowledgementEventData { packet, acknowledgement: ack, connection_id },
        ),
    );
    proof {
        let stored = spec_recv_store(s, packet@, ordering, ack@);
        let reported = stored.reporting(
            recv_events(packet@, ordering, connection_id, ack@),
            recv_logs(),
        );
        assert(ctx.state().events =~= reported.events);
        assert(ctx.state().logs =~= reported.logs);
        assert(ctx.state() == reported);
    }
    emit_module_extras(ctx, extras);
}

/// Whether `answer` is what the module answers where it is asked to take a
/// packet in. `asked` is the module as the callback takes it and leaves it.
pub open spec fn module_receives<M: Module>(
    asked: &mut M,
    packet: &Packet,
    relayer: &Signer,
    answer: (ModuleExtras, Acknowledgement),
) -> bool {
    call_ensures(M::on_recv_packet_execute, (asked, packet, relayer), answer)
}

/// Executes the receiving of a packet: the module bound to the receiving
/// port takes the packet in and answers with an acknowledgement, and the
/// receipt of the packet and the acknowledgement are stored and reported.
/// Nothing is changed, and the module is not asked and is left as it was,
/// where the packet cannot be received. Where it can, the module is asked
/// once, and what is stored and reported is what `spec_recv_apply` gives for
/// its answer.
pub fn execute<Ctx: ExecutionContext, M: Module>(
    ctx: &mut Ctx,
    module: &mut M,
    msg: MsgRecvPacket,
) -> (r: Result<(), ContextError>)
    requires
        old(ctx).inv(),
    ensures
        final(ctx).inv(),
        final(ctx).host_side() == old(ctx).host_side(),
        match r {
            Err(e) => spec_recv_execute_check(old(ctx).state(), msg.packet@) == Err::<
                (Order, ConnectionId),
                ContextError,
            >(e) && final(ctx).state() == old(ctx).state(),
            Ok(_) => spec_received(old(ctx).state(), msg.packet@, final(ctx).state()),
        },
        match spec_recv_execute_check(old(ctx).state(), msg.packet@) {
            Err(_) => *final(module) == *old(module),
            Ok((ordering, connection_id)) => exists|
                asked: &mut M,
                answer: (ModuleExtras, Acknowledgement),
            |
                {
                    &&& mut_ref_current(asked) == *old(module)
                    &&& mut_ref_future(asked) == *final(module)
                    &&& #[trigger] module_receives(asked, &msg.packet, &msg.signer, answer)
                    &&& final(ctx).state() == spec_recv_apply(
                        old(ctx).state(),
                        msg.packet@,
                        ordering,
                        connection_id,
                        answer.1@,
                        module_events_view(answer.0.events@),
                        logs_view(answer.0.log@),
                    )
                },
        },
{
    let ghost before = *module;
    let end = packet_channel(
        ctx,
        &msg.packet.port_id_on_b,
        &msg.packet.chan_id_on_b,
        &msg.packet.port_id_on_a,
        &msg.packet.chan_id_on_a,
    )?;
    let connection_id = first_hop(&end)?;
    not_yet_received(ctx, &msg.packet, &end)?;
    assert(spec_recv_execute_check(ctx.state(), msg.packet@) == Ok::<
        (Order, ConnectionId),
        ContextError,
    >((end.ordering, connection_id)));
    let said = module.on_recv_packet_execute(&msg.packet, &msg.signer);
    proof {
        let asked = choose|asked: &mut M|
            mut_ref_current(asked) == before && mut_ref_future(asked) == *module
                && #[trigger] call_ensures(
                M::on_recv_packet_execute,
                (asked, &msg.packet, &msg.signer),
                said,
            );
        assert(module_receives(asked, &msg.packet, &msg.signer, said));
    }
    let (extras, ack) = said;
    let ghost ack_view = ack@;
    let ghost module_events = module_events_view(extras.events@);
    let ghost module_logs = logs_view(extras.log@);
    let ordering = end.ordering;
    commit(ctx, msg.packet, ordering, connection_id, ack, extras);
    assert(ctx.state() == spec_recv_apply(
        old(ctx).state(),
        msg.packet@,
        ordering,
        connection_id,
        ack_view,
        module_events,
        module_logs,
    ));
    proof {
        lemma_received(
            old(ctx).state(),
            msg.packet@,
            ordering,
            connection_id,
            ack_view,
            module_events,
            module_logs,
        );
    }
    Ok(())
}

} // verus!
