//! Timing out a packet on the chain that sent it.

use vstd::prelude::*;
use crate::channel::{
    ChannelEnd,
    ChannelEndView,
    Order,
    Packet,
    PacketView,
    State as ChannelState,
};
use crate::client::{AnyClientState, AnyConsensusState};
use crate::connection::ConnectionEnd;
use crate::context::{ExecutionContext, ProofValue, ProofValueView, ValidationContext};
use crate::error::{ContextError, PacketError};
use crate::events::{
    logs_view,
    module_events_view,
    ChannelAttributes,
    ChannelEventData,
    IbcEvent,
    IbcEventView,
    MessageEvent,
    PacketAttributes,
    PacketEventData,
};
use crate::handler::common::{
    channel_connection,
    check_absence,
    check_membership,
    delay_passed,
    emit_module_extras,
    first_hop,
    module_verdict,
    sent_packet_channel,
    proof_client,
    spec_absence,
    spec_channel_connection,
    spec_delay_passed,
    spec_first_hop,
    spec_membership,
    spec_module_verdict,
    spec_sent_packet_channel,
    spec_proof_client,
};
use crate::height::Height;
use crate::handler::channel::{
    channel_proof,
    counterparty_hop,
    one_hop,
    spec_channel_proof,
    spec_counterparty_hop,
};
use crate::identifier::{ConnectionId, Sequence, Signer};
use crate::msgs::{MsgTimeout, MsgTimeoutOnClose};
use crate::path::{ChannelEndPath, CommitmentPath, Path, PathView, ReceiptPath};
use crate::router::{Module, ModuleExtras};
use crate::state::HostState;
use crate::timestamp::{Expiry, Timestamp};

verus! {

/// Whether a timeout of the packet has passed on the receiving chain, as the
/// consensus state at the proof's height shows it: the proof's height lies
/// past the timeout height, or the consensus state's time past the timeout
/// timestamp.
pub open spec fn spec_timed_out(
    packet: PacketView,
    proof_height: Height,
    consensus_time: Timestamp,
) -> bool {
    packet.timeout_height_on_b.spec_has_expired(proof_height) || consensus_time.spec_check_expiry(
        packet.timeout_timestamp_on_b,
    ) == Expiry::Expired
}

/// Whether the proof shows that the packet was not received. On an
/// unordered channel it must show that the receiving chain holds no receipt
/// for the packet. On an ordered channel the message names the receiving
/// chain's next sequence number to receive, which must lie above the
/// packet's, and the proof must show that the receiving chain holds it.
pub open spec fn spec_unreceived<Ctx: ValidationContext>(
    ctx: &Ctx,
    packet: PacketView,
    ordering: Order,
    next_seq_recv_on_b: Sequence,
    client_state: AnyClientState,
    consensus_state: AnyConsensusState,
    prefix: Seq<char>,
    proof: Seq<u8>,
) -> Result<(), ContextError> {
    match ordering {
        Order::Ordered => if next_seq_recv_on_b.value <= packet.seq_on_a.value {
            Err(ContextError::Packet(PacketError::SequenceMismatch))
        } else if spec_membership(
            ctx,
            client_state,
            consensus_state,
            prefix,
            proof,
            PathView::SeqRecv((packet.port_id_on_b, packet.chan_id_on_b)),
            ProofValueView::NextSequenceRecv(next_seq_recv_on_b),
        ) {
            Ok(())
        } else {
            Err(ContextError::Packet(PacketError::ProofFailure))
        },
        Order::Unordered => if spec_absence(
            ctx,
            client_state,
            consensus_state,
            prefix,
            proof,
            PathView::Receipt((packet.port_id_on_b, packet.chan_id_on_b, packet.seq_on_a)),
        ) {
            Ok(())
        } else {
            Err(ContextError::Packet(PacketError::ProofFailure))
        },
    }
}

/// What the engine itself checks of a timeout, before the module is asked.
/// The checks, in order: the commitment to the packet is still stored; the
/// channel end is stored, open, and has the receiver's end as its
/// counterparty; its connection is open; the connection's client is active and has a
/// consensus state at the proof's height; a timeout of the packet has passed
/// on the receiving chain; the connection's delay has passed; the proof shows
/// that the packet was not received.
pub open spec fn spec_timeout_validate<Ctx: ValidationContext>(
    ctx: &Ctx,
    packet: PacketView,
    next_seq_recv_on_b: Sequence,
    proof: Seq<u8>,
    proof_height: Height,
) -> Result<(), ContextError> {
    let s = ctx.state();
    match spec_sent_packet_channel(s, packet) {
        Err(e) => Err(e),
        Ok(end) => match spec_channel_connection(s, end) {
            Err(e) => Err(e),
            Ok((_, conn)) => match spec_proof_client(s, conn.client_id, proof_height) {
                Err(e) => Err(e),
                Ok((client_state, consensus_state)) => if !spec_timed_out(
                    packet,
                    proof_height,
                    consensus_state.spec_timestamp(),
                ) {
                    Err(ContextError::Packet(PacketError::TimeoutNotReached))
                } else {
                    match spec_delay_passed(ctx, conn, proof_height) {
                        Err(e) => Err(e),
                        Ok(_) => spec_unreceived(
                            ctx,
                            packet,
                            end.ordering,
                            next_seq_recv_on_b,
                            client_state,
                            consensus_state,
                            conn.counterparty_prefix,
                            proof,
                        ),
                    }
                },
            },
        },
    }
}

/// What execution checks again before anything is changed, and what it
/// learns for the change: the channel end and its connection.
pub open spec fn spec_timeout_execute_check(s: HostState, packet: PacketView) -> Result<
    (ChannelEndView, ConnectionId),
    ContextError,
> {
    match spec_sent_packet_channel(s, packet) {
        Err(e) => Err(e),
        Ok(end) => match spec_first_hop(end) {
            Err(e) => Err(e),
            Ok(connection_id) => Ok((end, connection_id)),
        },
    }
}

/// What the event of a channel's closing tells.
pub open spec fn closed_attributes(
    packet: PacketView,
    end: ChannelEndView,
    connection_id: ConnectionId,
) -> ChannelAttributes {
    ChannelAttributes {
        port_id: packet.port_id_on_a,
        channel_id: packet.chan_id_on_a,
        counterparty_port_id: end.counterparty_port_id,
        counterparty_channel_id: end.counterparty_channel_id,
        connection_id,
        version: end.version,
    }
}

/// The events that a timeout reports, in order. On an ordered channel the
/// closing of the channel is reported too.
pub open spec fn timeout_events(
    packet: PacketView,
    end: ChannelEndView,
    connection_id: ConnectionId,
) -> Seq<IbcEventView> {
    let timed_out = seq![
        IbcEventView::Message(MessageEvent::Channel),
        IbcEventView::TimeoutPacket(
            PacketAttributes { packet, ordering: end.ordering, connection_id },
        ),
    ];
    match end.ordering {
        Order::Unordered => timed_out,
        Order::Ordered => timed_out + seq![
            IbcEventView::Message(MessageEvent::Channel),
            IbcEventView::ChannelClosed(closed_attributes(packet, end, connection_id)),
        ],
    }
}

/// The log lines that a timeout writes.
pub open spec fn timeout_logs() -> Seq<Seq<char>> {
    seq!["success: packet timeout"@]
}

/// What is stored after a timeout: the commitment to the packet is gone, and
/// an ordered channel is closed, since a packet that is lost breaks the
/// order.
pub open spec fn spec_timeout_store(s: HostState, packet: PacketView, end: ChannelEndView) -> HostState {
    let key = (packet.port_id_on_a, packet.chan_id_on_a);
    let packet_key = (packet.port_id_on_a, packet.chan_id_on_a, packet.seq_on_a);
    let settled = HostState { packet_commitments: s.packet_commitments.remove(packet_key), ..s };
    match end.ordering {
        Order::Unordered => settled,
        Order::Ordered => HostState {
            channels: settled.channels.insert(
                key,
                ChannelEndView { state: ChannelState::Closed, ..end },
            ),
            ..settled
        },
    }
}

/// The state after a timeout whose module handed over `module_events` and
/// `module_logs`.
pub open spec fn spec_timeout_apply(
    s: HostState,
    packet: PacketView,
    end: ChannelEndView,
    connection_id: ConnectionId,
    module_events: Seq<IbcEventView>,
    module_logs: Seq<Seq<char>>,
) -> HostState {
    spec_timeout_store(s, packet, end).reporting(
        timeout_events(packet, end, connection_id),
        timeout_logs(),
    ).reporting(module_events, module_logs)
}

/// Whether `after` is a state that timing out the packet in the state
/// `before` can lead to.
pub open spec fn spec_timed_out_to(before: HostState, packet: PacketView, after: HostState) -> bool {
    match spec_timeout_execute_check(before, packet) {
        Err(_) => false,
        Ok((end, connection_id)) => exists|
            module_events: Seq<IbcEventView>,
            module_logs: Seq<Seq<char>>,
        |
            after == #[trigger] spec_timeout_apply(
                before,
                packet,
                end,
                connection_id,
                module_events,
                module_logs,
            ),
    }
}

/// Whatever the module hands over, what is then stored and reported is a
/// state that timing out the packet can lead to.
pub proof fn lemma_timed_out_to(
    before: HostState,
    packet: PacketView,
    end: ChannelEndView,
    connection_id: ConnectionId,
    module_events: Seq<IbcEventView>,
    module_logs: Seq<Seq<char>>,
)
    requires
        spec_timeout_execute_check(before, packet) == Ok::<
            (ChannelEndView, ConnectionId),
            ContextError,
        >((end, connection_id)),
    ensures
        spec_timed_out_to(
            before,
            packet,
            spec_timeout_apply(before, packet, end, connection_id, module_events, module_logs),
        ),
{
    let after = spec_timeout_apply(before, packet, end, connection_id, module_events, module_logs);
    assert(exists|e: Seq<IbcEventView>, l: Seq<Seq<char>>|
        after == #[trigger] spec_timeout_apply(before, packet, end, connection_id, e, l));
    let check = spec_timeout_execute_check(before, packet);
    assert(check->Ok_0.0 == end);
    assert(check->Ok_0.1 == connection_id);
}

/// Checks the proof that the packet was not received.
pub fn unreceived<Ctx: ValidationContext>(
    ctx: &Ctx,
    packet: &Packet,
    next_seq_recv_on_b: Sequence,
    proof: &Vec<u8>,
    ordering: Order,
    client_state: &AnyClientState,
    consensus_state: &AnyConsensusState,
    conn: &ConnectionEnd,
) -> (r: Result<(), ContextError>)
    requires
        ctx.inv(),
    ensures
        r == spec_unreceived(
            ctx,
            packet@,
            ordering,
            next_seq_recv_on_b,
            *client_state,
            *consensus_state,
            conn@.counterparty_prefix,
            proof@,
        ),
{
    match ordering {
        Order::Ordered => {
            if next_seq_recv_on_b.value <= packet.seq_on_a.value {
                return Err(ContextError::Packet(PacketError::SequenceMismatch));
            }
            let path = Path::SeqRecv(
                ChannelEndPath::new(&packet.port_id_on_b, &packet.chan_id_on_b),
            );
            if check_membership(
                ctx,
                client_state,
                consensus_state,
                &conn.counterparty.prefix,
                proof,
                &path,
                &ProofValue::NextSequenceRecv(next_seq_recv_on_b),
            ) {
                Ok(())
            } else {
                Err(ContextError::Packet(PacketError::ProofFailure))
            }
        },
        Order::Unordered => {
            let path = Path::Receipt(
                ReceiptPath::new(&packet.port_id_on_b, &packet.chan_id_on_b, packet.seq_on_a),
            );
            if check_absence(
                ctx,
                client_state,
                consensus_state,
                &conn.counterparty.prefix,
                proof,
                &path,
            ) {
                Ok(())
            } else {
                Err(ContextError::Packet(PacketError::ProofFailure))
            }
        },
    }
}

/// The engine's own part of validating a timeout.
pub fn validate_core<Ctx: ValidationContext>(ctx: &Ctx, msg: &MsgTimeout) -> (r: Result<
    (),
    ContextError,
>)
    requires
        ctx.inv(),
    ensures
        r == spec_timeout_validate(
            ctx,
            msg.packet@,
            msg.next_seq_recv_on_b,
            msg.proof_unreceived_on_b@,
            msg.proof_height_on_b,
        ),
{
    let packet = &msg.packet;
    let end = sent_packet_channel(ctx, packet)?;
    let (_, conn) = channel_connection(ctx, &end)?;
    let (client_state, consensus_state) = proof_client(
        ctx,
        &conn.client_id,
        &msg.proof_height_on_b,
    )?;
    let expired_by_height = packet.timeout_height_on_b.has_expired(msg.proof_height_on_b);
    let expired_by_time = match consensus_state.timestamp().check_expiry(
        &packet.timeout_timestamp_on_b,
    ) {
        Expiry::Expired => true,
        _ => false,
    };
    if !expired_by_height && !expired_by_time {
        return Err(ContextError::Packet(PacketError::TimeoutNotReached));
    }
    delay_passed(ctx, &conn, &msg.proof_height_on_b)?;
    unreceived(
        ctx,
        packet,
        msg.next_seq_recv_on_b,
        &msg.proof_unreceived_on_b,
        end.ordering,
        &client_state,
        &consensus_state,
        &conn,
    )
}

/// What the engine itself checks of a timeout on the closing of the other
/// end, before the module is asked. The checks are those of a timeout, but
/// that no timeout of the packet needs to have passed; instead a second proof
/// must show that the other end of the channel is closed.
pub open spec fn spec_timeout_on_close_validate<Ctx: ValidationContext>(
    ctx: &Ctx,
    packet: PacketView,
    next_seq_recv_on_b: Sequence,
    proof_unreceived: Seq<u8>,
    proof_close: Seq<u8>,
    proof_height: Height,
) -> Result<(), ContextError> {
    let s = ctx.state();
    match spec_sent_packet_channel(s, packet) {
        Err(e) => Err(e),
        Ok(end) => match spec_channel_connection(s, end) {
            Err(e) => Err(e),
            Ok((_, conn)) => match spec_proof_client(s, conn.client_id, proof_height) {
                Err(e) => Err(e),
                Ok((client_state, consensus_state)) => match spec_counterparty_hop(conn) {
                    Err(e) => Err(e),
                    Ok(hop) => match spec_channel_proof(
                        ctx,
                        conn,
                        proof_close,
                        proof_height,
                        (packet.port_id_on_b, packet.chan_id_on_b),
                        ChannelEndView {
                            state: ChannelState::Closed,
                            ordering: end.ordering,
                            counterparty_port_id: packet.port_id_on_a,
                            counterparty_channel_id: Some(packet.chan_id_on_a),
                            connection_hops: seq![hop],
                            version: end.version,
                        },
                    ) {
                        Err(e) => Err(e),
                        Ok(_) => spec_unreceived(
                            ctx,
                            packet,
                            end.ordering,
                            next_seq_recv_on_b,
                            client_state,
                            consensus_state,
                            conn.counterparty_prefix,
                            proof_unreceived,
                        ),
                    },
                },
            },
        },
    }
}

/// What `spec_timeout_on_close_validate` says of a message.
pub open spec fn spec_timeout_on_close_validate_msg<Ctx: ValidationContext>(
    ctx: &Ctx,
    msg: MsgTimeoutOnClose,
) -> Result<(), ContextError> {
    spec_timeout_on_close_validate(
        ctx,
        msg.packet@,
        msg.next_seq_recv_on_b,
        msg.proof_unreceived_on_b@,
        msg.proof_close_on_b@,
        msg.proof_height_on_b,
    )
}

/// The engine's own part of validating a timeout on the closing of the
/// other end.
pub fn validate_on_close_core<Ctx: ValidationContext>(ctx: &Ctx, msg: &MsgTimeoutOnClose) -> (r:
    Result<(), ContextError>)
    requires
        ctx.inv(),
    ensures
        r == spec_timeout_on_close_validate_msg(ctx, *msg),
{
    let packet = &msg.packet;
    let end = sent_packet_channel(ctx, packet)?;
    let (_, conn) = channel_connection(ctx, &end)?;
    let (client_state, consensus_state) = proof_client(
        ctx,
        &conn.client_id,
        &msg.proof_height_on_b,
    )?;
    let hop = counterparty_hop(&conn)?;
    let expected = ChannelEnd {
        state: ChannelState::Closed,
        ordering: end.ordering,
        counterparty: crate::channel::Counterparty {
            port_id: packet.port_id_on_a.clone(),
            channel_id: Some(packet.chan_id_on_a),
        },
        connection_hops: one_hop(hop),
        version: end.version.clone(),
    };
    channel_proof(
        ctx,
        &conn,
        &msg.proof_close_on_b,
        &msg.proof_height_on_b,
        &packet.port_id_on_b,
        packet.chan_id_on_b,
        expected,
    )?;
    unreceived(
        ctx,
        packet,
        msg.next_seq_recv_on_b,
        &msg.proof_unreceived_on_b,
        end.ordering,
        &client_state,
        &consensus_state,
        &conn,
    )
}

/// Whether `answer` is what the module answers where it is asked to
/// validate a timeout.
pub open spec fn module_checks_timeout<M: Module>(
    module: &M,
    packet: &Packet,
    relayer: &Signer,
    answer: Result<(), PacketError>,
) -> bool {
    call_ensures(M::on_timeout_packet_validate, (module, packet, relayer), answer)
}

/// Whether `answer` is what the module answers where it is told of a
/// timeout. `asked` is the module as the callback takes it and leaves it.
pub open spec fn module_times_out<M: Module>(
    asked: &mut M,
    packet: &Packet,
    relayer: &Signer,
    answer: (ModuleExtras, Result<(), PacketError>),
) -> bool {
    call_ensures(M::on_timeout_packet_execute, (asked, packet, relayer), answer)
}

/// What a timeout comes to once the module has answered: where the module
/// takes it, what `spec_timeout_apply` gives for what the module handed over;
/// where the module turns it down, its error comes back as an error of the
/// packet layer and nothing is changed.
pub open spec fn spec_timed_out_by(
    before: HostState,
    packet: PacketView,
    end: ChannelEndView,
    connection_id: ConnectionId,
    answer: (ModuleExtras, Result<(), PacketError>),
    r: Result<(), ContextError>,
    after: HostState,
) -> bool {
    match answer.1 {
        Err(e) => r == Err::<(), ContextError>(ContextError::Packet(e)) && after == before,
        Ok(_) => r is Ok && after == spec_timeout_apply(
            before,
            packet,
            end,
            connection_id,
            module_events_view(answer.0.events@),
            logs_view(answer.0.log@),
        ),
    }
}

/// Validates a timeout on the closing of the other end: first the engine's
/// own checks, then the module's. Where the engine's checks fail, theirs is
/// the answer and the module is not asked; where they pass, the answer is the
/// module's, an error as an error of the packet layer.
pub fn validate_on_close<Ctx: ValidationContext, M: Module>(
    ctx: &Ctx,
    module: &M,
    msg: &MsgTimeoutOnClose,
) -> (r: Result<(), ContextError>)
    requires
        ctx.inv(),
    ensures
        spec_timeout_on_close_validate_msg(ctx, *msg) is Err
            ==> r == spec_timeout_on_close_validate_msg(ctx, *msg),
        r matches Err(e) ==> spec_timeout_on_close_validate_msg(ctx, *msg) is Err || e is Packet,
        spec_timeout_on_close_validate_msg(ctx, *msg) is Ok ==> exists|
            answer: Result<(), PacketError>,
        |
            {
                &&& #[trigger] module_checks_timeout(module, &msg.packet, &msg.signer, answer)
                &&& r == spec_module_verdict(answer)
            },
{
    validate_on_close_core(ctx, msg)?;
    let answer = module.on_timeout_packet_validate(&msg.packet, &msg.signer);
    assert(module_checks_timeout(module, &msg.packet, &msg.signer, answer));
    module_verdict(answer)
}

/// Validates a timeout: first the engine's own checks, then the module's.
/// Where the engine's checks fail, theirs is the answer and the module is
/// not asked; where they pass, the answer is the module's, an error as an
/// error of the packet layer.
pub fn validate<Ctx: ValidationContext, M: Module>(ctx: &Ctx, module: &M, msg: &MsgTimeout) -> (r:
    Result<(), ContextError>)
    requires
        ctx.inv(),
    ensures
        spec_timeout_validate(
            ctx,
            msg.packet@,
            msg.next_seq_recv_on_b,
            msg.proof_unreceived_on_b@,
            msg.proof_height_on_b,
        ) is Err ==> r == spec_timeout_validate(
            ctx,
            msg.packet@,
            msg.next_seq_recv_on_b,
            msg.proof_unreceived_on_b@,
            msg.proof_height_on_b,
        ),
        r matches Err(e) ==> spec_timeout_validate(
            ctx,
            msg.packet@,
            msg.next_seq_recv_on_b,
            msg.proof_unreceived_on_b@,
            msg.proof_height_on_b,
        ) is Err || e is Packet,
        spec_timeout_validate(
            ctx,
            msg.packet@,
            msg.next_seq_recv_on_b,
            msg.proof_unreceived_on_b@,
            msg.proof_height_on_b,
        ) is Ok ==> exists|answer: Result<(), PacketError>|
            {
                &&& #[trigger] module_checks_timeout(module, &msg.packet, &msg.signer, answer)
                &&& r == spec_module_verdict(answer)
            },
{
    validate_core(ctx, msg)?;
    let answer = module.on_timeout_packet_validate(&msg.packet, &msg.signer);
    assert(module_checks_timeout(module, &msg.packet, &msg.signer, answer));
    module_verdict(answer)
}

/// Stores and reports what a timeout comes to, once the module has handed
/// over `extras`.
pub fn commit<Ctx: ExecutionContext>(
    ctx: &mut Ctx,
    packet: Packet,
    end: ChannelEnd,
    connection_id: ConnectionId,
    extras: ModuleExtras,
)
    requires
        old(ctx).inv(),
    ensures
        final(ctx).inv(),
        final(ctx).host_side() == old(ctx).host_side(),
        final(ctx).state() == spec_timeout_apply(
            old(ctx).state(),
            packet@,
            end@,
            connection_id,
            module_events_view(extras.events@),
            logs_view(extras.log@),
        ),
{
    let ghost s = ctx.state();
    let ordering = end.ordering;
    ctx.delete_packet_commitment(
        &CommitmentPath::new(&packet.port_id_on_a, &packet.chan_id_on_a, packet.seq_on_a),
    );
    ctx.log_message("success: packet timeout".to_owned());
    ctx.emit_ibc_event(IbcEvent::Message(MessageEvent::Channel));
    match ordering {
        Order::Unordered => {
            ctx.emit_ibc_event(
                IbcEvent::TimeoutPacket(PacketEventData { packet, ordering, connection_id }),
            );
        },
        Order::Ordered => {
            let closed = ChannelEventData {
                port_id: packet.port_id_on_a.id.clone(),
                channel_id: packet.chan_id_on_a,
                counterparty_port_id: end.counterparty.port_id.id.clone(),
                counterparty_channel_id: end.counterparty.channel_id,
                connection_id,
                version: end.version.name.clone(),
            };
            ctx.store_channel(
                ChannelEndPath::new(&packet.port_id_on_a, &packet.chan_id_on_a),
                end.with_state(ChannelState::Closed),
            );
            ctx.emit_ibc_event(
                IbcEvent::TimeoutPacket(PacketEventData { packet, ordering, connection_id }),
            );
            ctx.emit_ibc_event(IbcEvent::Message(MessageEvent::Channel));
            ctx.emit_ibc_event(IbcEvent::ChannelClosed(closed));
        },
    }
    proof {
        let reported = spec_timeout_store(s, packet@, end@).reporting(
            timeout_events(packet@, end@, connection_id),
            timeout_logs(),
        );
        assert(ctx.state().events =~= reported.events);
        assert(ctx.state().logs =~= reported.logs);
        assert(ctx.state() == reported);
    }
    emit_module_extras(ctx, extras);
}

/// Executes a timeout: the module bound to the sending port is told, and the
/// commitment to the packet is deleted; an ordered channel is closed. Nothing
/// is changed where the packet cannot be timed out or the module turns the
/// timeout down; the module is asked only where the engine's own checks pass,
/// and is left as it was where they fail. Where they pass, the module is told
/// once, and its answer decides: see `spec_timed_out_by`.
pub fn execute<Ctx: ExecutionContext, M: Module>(ctx: &mut Ctx, module: &mut M, msg: MsgTimeout) -> (r:
    Result<(), ContextError>)
    requires
        old(ctx).inv(),
    ensures
        final(ctx).inv(),
        final(ctx).host_side() == old(ctx).host_side(),
        match r {
            Err(e) => final(ctx).state() == old(ctx).state() && match spec_timeout_execute_check(
                old(ctx).state(),
                msg.packet@,
            ) {
                Err(failed) => e == failed,
                Ok(_) => e is Packet,
            },
            Ok(_) => spec_timed_out_to(old(ctx).state(), msg.packet@, final(ctx).state()),
        },
        match spec_timeout_execute_check(old(ctx).state(), msg.packet@) {
            Err(_) => *final(module) == *old(module),
            Ok((end, connection_id)) => exists|
                asked: &mut M,
                answer: (ModuleExtras, Result<(), PacketError>),
            |
                {
                    &&& mut_ref_current(asked) == *old(module)
                    &&& mut_ref_future(asked) == *final(module)
                    &&& #[trigger] module_times_out(asked, &msg.packet, &msg.signer, answer)
                    &&& spec_timed_out_by(
                        old(ctx).state(),
                        msg.packet@,
                        end,
                        connection_id,
                        answer,
                        r,
                        final(ctx).state(),
                    )
                },
        },
{
    execute_packet(ctx, module, msg.packet, &msg.signer)
}

/// Executes a timeout on the closing of the other end. What is changed is
/// what a timeout changes.
pub fn execute_on_close<Ctx: ExecutionContext, M: Module>(
    ctx: &mut Ctx,
    module: &mut M,
    msg: MsgTimeoutOnClose,
) -> (r: Result<(), ContextError>)
    requires
        old(ctx).inv(),
    ensures
        final(ctx).inv(),
        final(ctx).host_side() == old(ctx).host_side(),
        match r {
            Err(e) => final(ctx).state() == old(ctx).state() && match spec_timeout_execute_check(
                old(ctx).state(),
                msg.packet@,
            ) {
                Err(failed) => e == failed,
                Ok(_) => e is Packet,
            },
            Ok(_) => spec_timed_out_to(old(ctx).state(), msg.packet@, final(ctx).state()),
        },
        match spec_timeout_execute_check(old(ctx).state(), msg.packet@) {
            Err(_) => *final(module) == *old(module),
            Ok((end, connection_id)) => exists|
                asked: &mut M,
                answer: (ModuleExtras, Result<(), PacketError>),
            |
                {
                    &&& mut_ref_current(asked) == *old(module)
                    &&& mut_ref_future(asked) == *final(module)
                    &&& #[trigger] module_times_out(asked, &msg.packet, &msg.signer, answer)
                    &&& spec_timed_out_by(
                        old(ctx).state(),
                        msg.packet@,
                        end,
                        connection_id,
                        answer,
                        r,
                        final(ctx).state(),
                    )
                },
        },
{
    execute_packet(ctx, module, msg.packet, &msg.signer)
}

/// Settles a packet that was not received: the module is told, the
/// commitment is deleted, and an ordered channel is closed.
pub fn execute_packet<Ctx: ExecutionContext, M: Module>(
    ctx: &mut Ctx,
    module: &mut M,
    packet: Packet,
    signer: &Signer,
) -> (r: Result<(), ContextError>)
    requires
        old(ctx).inv(),
    ensures
        final(ctx).inv(),
        final(ctx).host_side() == old(ctx).host_side(),
        match r {
            Err(e) => final(ctx).state() == old(ctx).state() && match spec_timeout_execute_check(
                old(ctx).state(),
                packet@,
            ) {
                Err(failed) => e == failed,
                Ok(_) => e is Packet,
            },
            Ok(_) => spec_timed_out_to(old(ctx).state(), packet@, final(ctx).state()),
        },
        match spec_timeout_execute_check(old(ctx).state(), packet@) {
            Err(_) => *final(module) == *old(module),
            Ok((end, connection_id)) => exists|
                asked: &mut M,
                answer: (ModuleExtras, Result<(), PacketError>),
            |
                {
                    &&& mut_ref_current(asked) == *old(module)
                    &&& mut_ref_future(asked) == *final(module)
                    &&& #[trigger] module_times_out(asked, &packet, signer, answer)
                    &&& spec_timed_out_by(
                        old(ctx).state(),
                        packet@,
                        end,
                        connection_id,
                        answer,
                        r,
                        final(ctx).state(),
                    )
                },
        },
{
    let ghost before = *module;
    let end = sent_packet_channel(ctx, &packet)?;
    let connection_id = first_hop(&end)?;
    assert(spec_timeout_execute_check(ctx.state(), packet@) == Ok::<
        (ChannelEndView, ConnectionId),
        ContextError,
    >((end@, connection_id)));
    let said = module.on_timeout_packet_execute(&packet, signer);
    proof {
        let asked = choose|asked: &mut M|
            mut_ref_current(asked) == before && mut_ref_future(asked) == *module
                && #[trigger] call_ensures(
                M::on_timeout_packet_execute,
                (asked, &packet, signer),
                said,
            );
        assert(module_times_out(asked, &packet, signer, said));
    }
    let (extras, answer) = said;
    module_verdict(answer)?;
    let ghost module_events = module_events_view(extras.events@);
    let ghost module_logs = logs_view(extras.log@);
    let ghost end_view = end@;
    commit(ctx, packet, end, connection_id, extras);
    proof {
        lemma_timed_out_to(
            old(ctx).state(),
            packet@,
            end_view,
            connection_id,
            module_events,
            module_logs,
        );
    }
    Ok(())
}

} // verus!
