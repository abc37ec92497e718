//! Taking the acknowledgement of a packet on the chain that sent it.

use vstd::prelude::*;
use crate::channel::{Acknowledgement, ChannelEnd, ChannelEndView, Order, Packet, PacketView};
use crate::commitment::{compute_ack_commitment, sha256};
use crate::context::{ExecutionContext, ProofValue, ProofValueView, ValidationContext};
use crate::error::{ContextError, PacketError};
use crate::events::{
    logs_view,
    module_events_view,
    IbcEvent,
    IbcEventView,
    MessageEvent,
    PacketAttributes,
    PacketEventData,
};
use crate::handler::common::{
    channel_connection,
    check_membership,
    delay_passed,
    emit_module_extras,
    first_hop,
    module_verdict,
    sent_packet_channel,
    proof_client,
    spec_channel_connection,
    spec_delay_passed,
    spec_first_hop,
    spec_membership,
    spec_module_verdict,
    spec_sent_packet_channel,
    spec_proof_client,
};
use crate::height::Height;
use crate::identifier::{ConnectionId, Signer};
use crate::msgs::MsgAcknowledgement;
use crate::path::{AckPath, ChannelEndPath, CommitmentPath, Path, PathView};
use crate::router::{Module, ModuleExtras};
use crate::state::HostState;

verus! {

/// On an ordered channel, acknowledgements come in the order of the packets:
/// the packet must be the one whose acknowledgement is due.
pub open spec fn spec_ack_due(s: HostState, packet: PacketView, end: ChannelEndView) -> Result<
    (),
    ContextError,
> {
    match end.ordering {
        Order::Unordered => Ok(()),
        Order::Ordered => match HostState::lookup_sequence(
            s.next_sequence_ack,
            (packet.port_id_on_a, packet.chan_id_on_a),
        ) {
            Err(e) => Err(e),
            Ok(next) => if packet.seq_on_a != next {
                Err(ContextError::Packet(PacketError::SequenceMismatch))
            } else if next.value == u64::MAX {
                Err(ContextError::Packet(PacketError::SequenceOverflow))
            } else {
                Ok(())
            },
        },
    }
}

/// What the engine itself checks of an acknowledgement, before the module
/// is asked. The checks, in order: the commitment to the packet is still
/// stored; the channel end is stored, open, and has the receiver's end as its
/// counterparty; its connection is open; on an ordered channel the
/// acknowledgement is the one that is due; the connection's client is active
/// and has a consensus state at the proof's height; the connection's delay
/// has passed; the proof shows the receiver's commitment to the
/// acknowledgement.
pub open spec fn spec_ack_validate<Ctx: ValidationContext>(
    ctx: &Ctx,
    packet: PacketView,
    ack: Seq<u8>,
    proof: Seq<u8>,
    proof_height: Height,
) -> Result<(), ContextError> {
    let s = ctx.state();
    match spec_sent_packet_channel(s, packet) {
        Err(e) => Err(e),
        Ok(end) => match spec_channel_connection(s, end) {
            Err(e) => Err(e),
            Ok((_, conn)) => match spec_ack_due(s, packet, end) {
                Err(e) => Err(e),
                Ok(_) => match spec_proof_client(s, conn.client_id, proof_height) {
                    Err(e) => Err(e),
                    Ok((client_state, consensus_state)) => match spec_delay_passed(
                        ctx,
                        conn,
                        proof_height,
                    ) {
                        Err(e) => Err(e),
                        Ok(_) => if spec_membership(
                            ctx,
                            client_state,
                            consensus_state,
                            conn.counterparty_prefix,
                            proof,
                            PathView::Ack(
                                (packet.port_id_on_b, packet.chan_id_on_b, packet.seq_on_a),
                            ),
                            ProofValueView::Acknowledgement(sha256(ack)),
                        ) {
                            Ok(())
                        } else {
                            Err(ContextError::Packet(PacketError::ProofFailure))
                        },
                    },
                },
            },
        },
    }
}

/// What execution checks again before anything is changed, and what it
/// learns for the change: the ordering of the channel and its connection.
pub open spec fn spec_ack_execute_check(s: HostState, packet: PacketView) -> Result<
    (Order, ConnectionId),
    ContextError,
> {
    match spec_sent_packet_channel(s, packet) {
        Err(e) => Err(e),
        Ok(end) => match spec_first_hop(end) {
            Err(e) => Err(e),
            Ok(connection_id) => match spec_ack_due(s, packet, end) {
                Err(e) => Err(e),
                Ok(_) => Ok((end.ordering, connection_id)),
            },
        },
    }
}

/// The events that an acknowledgement reports, in order.
pub open spec fn ack_events(packet: PacketView, ordering: Order, connection_id: ConnectionId) -> Seq<
    IbcEventView,
> {
    seq![
        IbcEventView::Message(MessageEvent::Channel),
        IbcEventView::AcknowledgePacket(PacketAttributes { packet, ordering, connection_id }),
    ]
}

/// The log lines that an acknowledgement writes.
pub open spec fn ack_logs() -> Seq<Seq<char>> {
    seq!["success: packet acknowledgement"@]
}

/// What is stored after an acknowledgement: the commitment to the packet is
/// gone, and on an ordered channel the next sequence number is the one whose
/// acknowledgement is due.
pub open spec fn spec_ack_store(s: HostState, packet: PacketView, ordering: Order) -> HostState {
    let key = (packet.port_id_on_a, packet.chan_id_on_a);
    let packet_key = (packet.port_id_on_a, packet.chan_id_on_a, packet.seq_on_a);
    let settled = HostState { packet_commitments: s.packet_commitments.remove(packet_key), ..s };
    match ordering {
        Order::Unordered => settled,
        Order::Ordered => HostState {
            next_sequence_ack: settled.next_sequence_ack.insert(key, packet.seq_on_a.spec_next()),
            ..settled
        },
    }
}

/// The state after an acknowledgement whose module handed over
/// `module_events` and `module_logs`.
pub open spec fn spec_ack_apply(
    s: HostState,
    packet: PacketView,
    ordering: Order,
    connection_id: ConnectionId,
    module_events: Seq<IbcEventView>,
    module_logs: Seq<Seq<char>>,
) -> HostState {
    spec_ack_store(s, packet, ordering).reporting(
        ack_events(packet, ordering, connection_id),
        ack_logs(),
    ).reporting(module_events, module_logs)
}

/// Whether `after` is a state that acknowledging the packet in the state
/// `before` can lead to.
pub open spec fn spec_acknowledged(before: HostState, packet: PacketView, after: HostState) -> bool {
    match spec_ack_execute_check(before, packet) {
        Err(_) => false,
        Ok((ordering, connection_id)) => exists|
            module_events: Seq<IbcEventView>,
            module_logs: Seq<Seq<char>>,
        |
            after == #[trigger] spec_ack_apply(
                before,
                packet,
                ordering,
                connection_id,
                module_events,
                module_logs,
            ),
    }
}

/// Whatever the module hands over, what is then stored and reported is a
/// state that acknowledging the packet can lead to.
pub proof fn lemma_acknowledged(
    before: HostState,
    packet: PacketView,
    ordering: Order,
    connection_id: ConnectionId,
    module_events: Seq<IbcEventView>,
    module_logs: Seq<Seq<char>>,
)
    requires
        spec_ack_execute_check(before, packet) == Ok::<(Order, ConnectionId), ContextError>(
            (ordering, connection_id),
        ),
    ensures
        spec_acknowledged(
            before,
            packet,
            spec_ack_apply(before, packet, ordering, connection_id, module_events, module_logs),
        ),
{
    let after = spec_ack_apply(
        before,
        packet,
        ordering,
        connection_id,
        module_events,
        module_logs,
    );
    assert(exists|e: Seq<IbcEventView>, l: Seq<Seq<char>>|
        after == #[trigger] spec_ack_apply(before, packet, ordering, connection_id, e, l));
    let check = spec_ack_execute_check(before, packet);
    assert(check->Ok_0.0 == ordering);
    assert(check->Ok_0.1 == connection_id);
}

/// Checks that, on an ordered channel, the acknowledgement is the one that
/// is due.
pub fn ack_due<Ctx: ValidationContext>(ctx: &Ctx, packet: &Packet, end: &ChannelEnd) -> (r: Result<
    (),
    ContextError,
>)
    requires
        ctx.inv(),
    ensures
        r == spec_ack_due(ctx.state(), packet@, end@),
{
    match end.ordering {
        Order::Unordered => Ok(()),
        Order::Ordered => {
            let next = ctx.get_next_sequence_ack(
                &ChannelEndPath::new(&packet.port_id_on_a, &packet.chan_id_on_a),
            )?;
            if packet.seq_on_a.value != next.value {
                Err(ContextError::Packet(PacketError::SequenceMismatch))
            } else if next.value == u64::MAX {
                Err(ContextError::Packet(PacketError::SequenceOverflow))
            } else {
                Ok(())
            }
        },
    }
}

/// The engine's own part of validating an acknowledgement.
pub fn validate_core<Ctx: ValidationContext>(ctx: &Ctx, msg: &MsgAcknowledgement) -> (r: Result<
    (),
    ContextError,
>)
    requires
        ctx.inv(),
    ensures
        r == spec_ack_validate(
            ctx,
            msg.packet@,
            msg.acknowledgement@,
            msg.proof_acked_on_b@,
            msg.proof_height_on_b,
        ),
{
    let packet = &msg.packet;
    let end = sent_packet_channel(ctx, packet)?;
    let (_, conn) = channel_connection(ctx, &end)?;
    ack_due(ctx, packet, &end)?;
    let (client_state, consensus_state) = proof_client(
        ctx,
        &conn.client_id,
        &msg.proof_height_on_b,
    )?;
    delay_passed(ctx, &conn, &msg.proof_height_on_b)?;
    let path = Path::Ack(
        AckPath::new(&packet.port_id_on_b, &packet.chan_id_on_b, packet.seq_on_a),
    );
    let value = ProofValue::Acknowledgement(
        compute_ack_commitment(msg.acknowledgement.as_bytes()),
    );
    if check_membership(
        ctx,
        &client_state,
        &consensus_state,
        &conn.counterparty.prefix,
        &msg.proof_acked_on_b,
        &path,
        &value,
    ) {
        Ok(())
    } else {
        Err(ContextError::Packet(PacketError::ProofFailure))
    }
}

/// Whether `answer` is what the module answers where it is asked to
/// validate an acknowledgement.
pub open spec fn module_checks_ack<M: Module>(
    module: &M,
    packet: &Packet,
    acknowledgement: &Acknowledgement,
    relayer: &Signer,
    answer: Result<(), PacketError>,
) -> bool {
    call_ensures(
        M::on_acknowledgement_packet_validate,
        (module, packet, acknowledgement, relayer),
        answer,
    )
}

/// Whether `answer` is what the module answers where it is asked to take an
/// acknowledgement. `asked` is the module as the callback takes it and leaves
/// it.
pub open spec fn module_acknowledges<M: Module>(
    asked: &mut M,
    packet: &Packet,
    acknowledgement: &Acknowledgement,
    relayer: &Signer,
    answer: (ModuleExtras, Result<(), PacketError>),
) -> bool {
    call_ensures(
        M::on_acknowledgement_packet_execute,
        (asked, packet, acknowledgement, relayer),
        answer,
    )
}

/// What an acknowledgement comes to once the module has answered: where the
/// module takes it, what `spec_ack_apply` gives for what the module handed
/// over; where the module turns it down, its error comes back as an error of
/// the packet layer and nothing is changed.
pub open spec fn spec_acknowledged_by(
    before: HostState,
    packet: PacketView,
    ordering: Order,
    connection_id: ConnectionId,
    answer: (ModuleExtras, Result<(), PacketError>),
    r: Result<(), ContextError>,
    after: HostState,
) -> bool {
    match answer.1 {
        Err(e) => r == Err::<(), ContextError>(ContextError::Packet(e)) && after == before,
        Ok(_) => r is Ok && after == spec_ack_apply(
            before,
            packet,
            ordering,
            connection_id,
            module_events_view(answer.0.events@),
            logs_view(answer.0.log@),
        ),
    }
}

/// Validates an acknowledgement: first the engine's own checks, then the
/// module's. Where the engine's checks fail, theirs is the answer and the
/// module is not asked; where they pass, the answer is the module's, an error
/// as an error of the packet layer.
pub fn validate<Ctx: ValidationContext, M: Module>(
    ctx: &Ctx,
    module: &M,
    msg: &MsgAcknowledgement,
) -> (r: Result<(), ContextError>)
    requires
        ctx.inv(),
    ensures
        spec_ack_validate(
            ctx,
            msg.packet@,
            msg.acknowledgement@,
            msg.proof_acked_on_b@,
            msg.proof_height_on_b,
        ) is Err ==> r == spec_ack_validate(
            ctx,
            msg.packet@,
            msg.acknowledgement@,
            msg.proof_acked_on_b@,
            msg.proof_height_on_b,
        ),
        r matches Err(e) ==> spec_ack_validate(
            ctx,
            msg.packet@,
            msg.acknowledgement@,
            msg.proof_acked_on_b@,
            msg.proof_height_on_b,
        ) is Err || e is Packet,
        spec_ack_validate(
            ctx,
            msg.packet@,
            msg.acknowledgement@,
            msg.proof_acked_on_b@,
            msg.proof_height_on_b,
        ) is Ok ==> exists|answer: Result<(), PacketError>|
            {
                &&& #[trigger] module_checks_ack(
                    module,
                    &msg.packet,
                    &msg.acknowledgement,
                    &msg.signer,
                    answer,
                )
                &&& r == spec_module_verdict(answer)
            },
{
    validate_core(ctx, msg)?;
    let answer = module.on_acknowledgement_packet_validate(
        &msg.packet,
        &msg.acknowledgement,
        &msg.signer,
    );
    assert(module_checks_ack(module, &msg.packet, &msg.acknowledgement, &msg.signer, answer));
    module_verdict(answer)
}

/// Stores and reports what an acknowledgement comes to, once the module has
/// handed over `extras`.
pub fn commit<Ctx: ExecutionContext>(
    ctx: &mut Ctx,
    packet: Packet,
    ordering: Order,
    connection_id: ConnectionId,
    extras: ModuleExtras,
)
    requires
        old(ctx).inv(),
        ordering == Order::Ordered ==> packet.seq_on_a.value < u64::MAX,
    ensures
        final(ctx).inv(),
        final(ctx).host_side() == old(ctx).host_side(),
        final(ctx).state() == spec_ack_apply(
            old(ctx).state(),
            packet@,
            ordering,
            connection_id,
            module_events_view(extras.events@),
            logs_view(extras.log@),
        ),
{
    let ghost s = ctx.state();
    ctx.delete_packet_commitment(
        &CommitmentPath::new(&packet.port_id_on_a, &packet.chan_id_on_a, packet.seq_on_a),
    );
    match ordering {
        Order::Unordered => {},
        Order::Ordered => {
            ctx.store_next_sequence_ack(
                ChannelEndPath::new(&packet.port_id_on_a, &packet.chan_id_on_a),
                packet.seq_on_a.increment(),
            );
        },
    }
    assert(ctx.state() == spec_ack_store(s, packet@, ordering));
    ctx.log_message("success: packet acknowledgement".to_owned());
    ctx.emit_ibc_event(IbcEvent::Message(MessageEvent::Channel));
    ctx.emit_ibc_event(
        IbcEvent::AcknowledgePacket(PacketEventData { packet, ordering, connection_id }),
    );
    proof {
        let reported = spec_ack_store(s, packet@, ordering).reporting(
            ack_events(packet@, ordering, connection_id),
            ack_logs(),
        );
        assert(ctx.state().events =~= reported.events);
        assert(ctx.state().logs =~= reported.logs);
        assert(ctx.state() == reported);
    }
    emit_module_extras(ctx, extras);
}

/// Executes an acknowledgement: the module bound to the sending port takes
/// the acknowledgement, and the commitment to the packet is deleted. Nothing
/// is changed where the acknowledgement cannot be taken or the module turns
/// it down; the module is asked only where the engine's own checks pass, and
/// is left as it was where they fail. Where they pass, the module is asked
/// once, and its answer decides: see `spec_acknowledged_by`.
pub fn execute<Ctx: ExecutionContext, M: Module>(
    ctx: &mut Ctx,
    module: &mut M,
    msg: MsgAcknowledgement,
) -> (r: Result<(), ContextError>)
    requires
        old(ctx).inv(),
    ensures
        final(ctx).inv(),
        final(ctx).host_side() == old(ctx).host_side(),
        match r {
            Err(e) => final(ctx).state() == old(ctx).state() && match spec_ack_execute_check(
                old(ctx).state(),
                msg.packet@,
            ) {
                Err(failed) => e == failed,
                Ok(_) => e is Packet,
            },
            Ok(_) => spec_acknowledged(old(ctx).state(), msg.packet@, final(ctx).state()),
        },
        match spec_ack_execute_check(old(ctx).state(), msg.packet@) {
            Err(_) => *final(module) == *old(module),
            Ok((ordering, connection_id)) => exists|
                asked: &mut M,
                answer: (ModuleExtras, Result<(), PacketError>),
            |
                {
                    &&& mut_ref_current(asked) == *old(module)
                    &&& mut_ref_future(asked) == *final(module)
                    &&& #[trigger] module_acknowledges(
                        asked,
                        &msg.packet,
                        &msg.acknowledgement,
                        &msg.signer,
                        answer,
                    )
                    &&& spec_acknowledged_by(
                        old(ctx).state(),
                        msg.packet@,
                        ordering,
                        connection_id,
                        answer,
                        r,
                        final(ctx).state(),
                    )
                },
        },
{
    let ghost before = *module;
    let end = sent_packet_channel(ctx, &msg.packet)?;
    let connection_id = first_hop(&end)?;
    ack_due(ctx, &msg.packet, &end)?;
    let ordering = end.ordering;
    assert(spec_ack_execute_check(ctx.state(), msg.packet@) == Ok::<
        (Order, ConnectionId),
        ContextError,
    >((ordering, connection_id)));
    let said = module.on_acknowledgement_packet_execute(
        &msg.packet,
        &msg.acknowledgement,
        &msg.signer,
    );
    proof {
        let asked = choose|asked: &mut M|
            mut_ref_current(asked) == before && mut_ref_future(asked) == *module
                && #[trigger] call_ensures(
                M::on_acknowledgement_packet_execute,
                (asked, &msg.packet, &msg.acknowledgement, &msg.signer),
                said,
            );
        assert(module_acknowledges(asked, &msg.packet, &msg.acknowledgement, &msg.signer, said));
    }
    let (extras, answer) = said;
    module_verdict(answer)?;
    let ghost module_events = module_events_view(extras.events@);
    let ghost module_logs = logs_view(extras.log@);
    commit(ctx, msg.packet, ordering, connection_id, extras);
    proof {
        lemma_acknowledged(
            old(ctx).state(),
            msg.packet@,
            ordering,
            connection_id,
            module_events,
            module_logs,
        );
    }
    Ok(())
}

} // verus!
