//! Handing a message to the mock host as a relayer would.

use vstd::prelude::*;
use crate::channel::{Acknowledgement, Order, PacketView};
use crate::commitment::{Receipt, sha256};
use crate::error::{ChannelError, ClientError, ContextError, PacketError, RelayerError, RouterError};
use crate::events::{IbcEventView, logs_view, module_events_view};
use crate::handler::acknowledgement::{spec_ack_apply, spec_ack_execute_check};
use crate::handler::common::{spec_channel_connection, spec_packet_channel};
use crate::handler::dispatch::{
    dispatch,
    law_handlers_only_add,
    law_receive_with_mock_router,
    lemma_executed,
    lemma_receive_executed,
    lemma_validated,
    spec_dispatched,
    spec_effect,
    spec_routed,
    spec_turned_down,
    spec_validate,
};
use crate::handler::recv_packet::{
    module_receives,
    recv_events,
    spec_received,
    spec_recv_apply,
    spec_recv_execute_check,
};
use crate::handler::timeout::{spec_timeout_apply, spec_timeout_execute_check};
use crate::identifier::Sequence;
use crate::laws::{
    due_to_be_received,
    law_acknowledged_packet_is_not_received,
    law_frozen_client_receives_nothing,
    law_frozen_client_takes_no_update,
    law_ordered_receive_in_sequence,
    law_receipt_bars_receive,
    law_recv_after_timeout_fails,
    law_recv_happy_path,
    law_recv_needs_channel,
    law_recv_reports_in_order,
    law_recv_stores,
    law_settled_packet_takes_nothing,
    ready_to_receive,
};
use crate::mock::context::MockContext;
use crate::msgs::{ClientMsg, MsgEnvelope, PacketMsg};
use crate::router::{DummyTransferModule, MockRouter, Module, ModuleExtras, Router};
use crate::state::HostState;
use crate::timestamp::Expiry;

verus! {

/// What the relayer gets for a message that the dispatcher answered with
/// `inner`: an error of the dispatcher comes back as a failed transaction.
pub open spec fn spec_relayed(inner: Result<(), RouterError>) -> Result<(), RelayerError> {
    match inner {
        Ok(_) => Ok(()),
        Err(e) => Err(RelayerError::TransactionFailed(e)),
    }
}

impl MockContext {
    /// What handing a message to the chain comes to. The message is
    /// dispatched: `valid` is the answer of validation, `inner` the answer of
    /// the dispatcher and `handled` the protocol state that it leaves, all as
    /// `spec_dispatched` says of the context and the router `router` as they
    /// were. The result `r` is `inner`, an error as a failed transaction.
    /// Where the message is turned down, the context `after` is the context
    /// `self` as it was; where it is taken, `after` is one block further on
    /// and holds what the dispatcher left.
    pub open spec fn spec_delivered<R: Router>(
        self,
        router: &R,
        msg: MsgEnvelope,
        valid: Result<(), RouterError>,
        inner: Result<(), RouterError>,
        handled: HostState,
        r: Result<(), RelayerError>,
        after: MockContext,
    ) -> bool {
        &&& spec_dispatched(&self, router, msg, valid, inner, handled)
        &&& r == spec_relayed(inner)
        &&& match inner {
            Err(_) => after.same_host(self) && after.spec_state() == self.spec_state(),
            Ok(_) => {
                &&& after.blocks().last() == self.spec_next_block()
                &&& after.spec_state() == (HostState {
                    host_height: after.spec_latest_height(),
                    host_timestamp: after.spec_latest_timestamp(),
                    ..handled
                })
            },
        }
    }

    /// Hands a message to the chain: the message is dispatched, and where
    /// it is taken, the chain moves on by one block. Where the message is
    /// turned down, nothing is changed and the chain stays where it is. Room
    /// for the next block is asked only of a message that passes the engine's
    /// checks: one that fails them is turned down wherever the chain stands.
    ///
    /// A message about a client or a connection is taken exactly where the
    /// engine's own checks pass. A message that fails those checks is turned
    /// down with their error, or, where it is about a channel or a packet and
    /// the router finds no module for its port, with the router's. What the
    /// router and the module are asked, and what each of their answers leads
    /// to, is what `spec_delivered` says. The router is left as it was by a
    /// message that is not valid, by a message about a client or a
    /// connection, and where no module is bound to the port. Beyond that the
    /// router and its modules are their own: a module that is asked to execute
    /// a step may change, whatever it then answers.
    pub fn deliver<R: Router>(&mut self, router: &mut R, msg: MsgEnvelope) -> (r: Result<
        (),
        RelayerError,
    >)
        requires
            old(self).well_formed(),
            spec_validate(&*old(self), msg) is Ok ==> old(self).can_advance(),
        ensures
            final(self).well_formed(),
            match r {
                Err(e) => e is TransactionFailed && final(self).same_host(*old(self))
                    && final(self).spec_state() == old(self).spec_state(),
                Ok(_) => {
                    &&& spec_validate(&*old(self), msg) is Ok
                    &&& final(self).spec_latest_height() == old(self).spec_latest_height().spec_increment()
                    &&& final(self).blocks().last() == old(self).spec_next_block()
                    &&& final(self).history@.len() == if old(self).history@.len() < old(
                        self,
                    ).max_history_size {
                        old(self).history@.len() + 1
                    } else {
                        old(self).history@.len()
                    }
                    &&& old(self).history@.len() < old(self).max_history_size
                        ==> final(self).blocks().drop_last() == old(self).blocks()
                    &&& old(self).history@.len() == old(self).max_history_size
                        ==> final(self).blocks().drop_last() == old(self).blocks().drop_first()
                    &&& exists|handled: MockContext|
                        #![trigger handled.spec_state()]
                        {
                            &&& spec_effect(&*old(self), msg, handled.spec_state())
                            &&& final(self).spec_state().stored() == (crate::state::HostState {
                                host_height: final(self).spec_latest_height(),
                                host_timestamp: final(self).spec_latest_timestamp(),
                                ..handled.spec_state().stored()
                            })
                            &&& final(self).spec_state().events == handled.spec_state().events
                            &&& final(self).spec_state().logs == handled.spec_state().logs
                        }
                },
            },
            final(self).host_chain_type == old(self).host_chain_type,
            final(self).host_chain_id == old(self).host_chain_id,
            final(self).max_history_size == old(self).max_history_size,
            final(self).block_time == old(self).block_time,
            msg is Client || msg is Connection ==> r == spec_relayed(
                spec_routed(spec_validate(&*old(self), msg)),
            ),
            spec_validate(&*old(self), msg) matches Err(failed) ==> r is Err && spec_turned_down(
                failed,
                Err(r->Err_0->TransactionFailed_0),
            ),
            exists|valid: Result<(), RouterError>, inner: Result<(), RouterError>, handled: HostState|
                {
                    &&& #[trigger] old(self).spec_delivered(
                        &*old(router),
                        msg,
                        valid,
                        inner,
                        handled,
                        r,
                        *final(self),
                    )
                    &&& valid is Err ==> *final(router) == *old(router)
                },
            msg is Client || msg is Connection || r == Err::<(), RelayerError>(
                RelayerError::TransactionFailed(RouterError::UnknownPort),
            ) ==> *final(router) == *old(router),
    {
        let ghost before_router = *router;
        let inner = dispatch(self, router, msg);
        let ghost handled = self.spec_state();
        let ghost valid = choose|valid: Result<(), RouterError>|
            {
                &&& #[trigger] spec_dispatched(
                    &*old(self),
                    &before_router,
                    msg,
                    valid,
                    inner,
                    handled,
                )
                &&& valid is Err ==> *router == before_router
            };
        match inner {
            Err(e) => {
                let r = Err(RelayerError::TransactionFailed(e));
                assert(old(self).spec_delivered(
                    &before_router,
                    msg,
                    valid,
                    inner,
                    handled,
                    r,
                    *self,
                ));
                r
            },
            Ok(_) => {
                proof {
                    law_handlers_only_add(&*old(self), msg, self.spec_state());
                }
                let ghost dispatched = *self;
                assert(self.spec_host() == old(self).spec_host());
                let block = self.next_block();
                self.push_block(block);
                assert(spec_effect(&*old(self), msg, dispatched.spec_state()));
                assert(old(self).spec_delivered(
                    &before_router,
                    msg,
                    valid,
                    inner,
                    handled,
                    Ok::<(), RelayerError>(()),
                    *self,
                ));
                Ok(())
            },
        }
    }
}

/// A message that fails the engine's own checks is not delivered: validation
/// turns it down, with the error of the checks or, for a message about a
/// channel or a packet whose port the router finds no module for, with the
/// router's; and the context is left as it was.
pub proof fn law_delivery_of_invalid<R: Router>(
    ctx: MockContext,
    router: &R,
    msg: MsgEnvelope,
    valid: Result<(), RouterError>,
    inner: Result<(), RouterError>,
    handled: HostState,
    r: Result<(), RelayerError>,
    after: MockContext,
)
    requires
        ctx.spec_delivered(router, msg, valid, inner, handled, r, after),
        spec_validate(&ctx, msg) is Err,
    ensures
        valid is Err,
        r matches Err(RelayerError::TransactionFailed(e)) && spec_turned_down(
            spec_validate(&ctx, msg)->Err_0,
            Err(e),
        ),
        msg is Client || msg is Connection ==> r == Err::<(), RelayerError>(
            RelayerError::TransactionFailed(
                RouterError::Context(spec_validate(&ctx, msg)->Err_0),
            ),
        ),
        after.same_host(ctx),
        after.spec_state() == ctx.spec_state(),
{
    lemma_validated(&ctx, router, msg, valid);
}

/// The packet that a message settles: an acknowledgement or a timeout
/// settles the packet that it is about.
pub open spec fn settled_packet(msg: MsgEnvelope) -> Option<PacketView> {
    match msg {
        MsgEnvelope::Packet(PacketMsg::Ack(m)) => Some(m.packet@),
        MsgEnvelope::Packet(PacketMsg::Timeout(m)) => Some(m.packet@),
        MsgEnvelope::Packet(PacketMsg::TimeoutOnClose(m)) => Some(m.packet@),
        _ => None,
    }
}

/// What a receive that was delivered has stored and reported, where `s` is
/// the state before, `handled` the state that the handlers left and `after`
/// the state of the context one block on. For the acknowledgement that the
/// module answered with and the events that it handed over:
/// the four events of the receive are reported behind the old ones, and
/// behind them the module's, so that there are exactly four new events where
/// the module hands over none; the acknowledgement is written; on an
/// unordered channel the receipt is stored and the number due stays; on an
/// ordered channel the number due is counted on by one.
pub open spec fn spec_receive_stored(
    s: HostState,
    packet: PacketView,
    handled: HostState,
    after: HostState,
) -> bool {
    let key = (packet.port_id_on_b, packet.chan_id_on_b);
    let packet_key = (packet.port_id_on_b, packet.chan_id_on_b, packet.seq_on_a);
    match spec_recv_execute_check(s, packet) {
        Err(_) => false,
        Ok((ordering, connection_id)) => exists|
            ack: Seq<u8>,
            module_events: Seq<IbcEventView>,
            module_logs: Seq<Seq<char>>,
        |
            {
                &&& handled == #[trigger] spec_recv_apply(
                    s,
                    packet,
                    ordering,
                    connection_id,
                    ack,
                    module_events,
                    module_logs,
                )
                &&& after.events == s.events + recv_events(packet, ordering, connection_id, ack)
                    + module_events
                &&& recv_events(packet, ordering, connection_id, ack).len() == 4
                &&& after.packet_acknowledgements == s.packet_acknowledgements.insert(
                    packet_key,
                    sha256(ack),
                )
                &&& ordering == Order::Unordered ==> after.packet_receipts
                    == s.packet_receipts.insert(packet_key, Receipt::Received)
                    && after.next_sequence_recv == s.next_sequence_recv
                &&& ordering == Order::Ordered ==> after.next_sequence_recv
                    == s.next_sequence_recv.insert(key, packet.seq_on_a.spec_next())
                    && after.packet_receipts == s.packet_receipts
                &&& after.channels == s.channels
                &&& after.packet_commitments == s.packet_commitments
            },
    }
}

/// Where everything is in order for receiving a packet, on an ordered
/// channel as on an unordered one, the packet is delivered once the router
/// has found the module for its port: delivery fails only with the router's
/// error, and where it succeeds, the chain has moved on by one block and the
/// receive is stored and reported as `spec_receive_stored` says.
pub proof fn law_delivery_happy_path<R: Router>(
    ctx: MockContext,
    router: &R,
    msg: MsgEnvelope,
    valid: Result<(), RouterError>,
    inner: Result<(), RouterError>,
    handled: HostState,
    r: Result<(), RelayerError>,
    after: MockContext,
)
    requires
        ctx.spec_delivered(router, msg, valid, inner, handled, r, after),
        msg matches MsgEnvelope::Packet(m) && m is Recv,
        ({
            let m = msg->Packet_0->Recv_0;
            &&& ready_to_receive(&ctx, m.packet@, m.proof_commitment_on_a@, m.proof_height_on_a)
            &&& !m.packet@.timeout_height_on_b.spec_has_expired(ctx.spec_state().host_height)
            &&& ctx.spec_state().host_timestamp.spec_check_expiry(
                m.packet@.timeout_timestamp_on_b,
            ) != Expiry::Expired
            &&& due_to_be_received(ctx.spec_state(), m.packet@)
        }),
    ensures
        match r {
            Ok(_) => {
                &&& after.blocks().last() == ctx.spec_next_block()
                &&& spec_receive_stored(
                    ctx.spec_state(),
                    msg->Packet_0->Recv_0.packet@,
                    handled,
                    after.spec_state(),
                )
            },
            Err(e) => e == RelayerError::TransactionFailed(RouterError::UnknownPort) || e
                == RelayerError::TransactionFailed(RouterError::ModuleNotFound),
        },
{
    let m = msg->Packet_0->Recv_0;
    law_recv_happy_path(&ctx, m.packet@, m.proof_commitment_on_a@, m.proof_height_on_a);
    law_delivery_of_valid_receive(ctx, router, msg, valid, inner, handled, r, after);
}

/// With a router of the library's own that serves the port, a packet for
/// which everything is in order is received: delivery succeeds, on an
/// ordered channel as on an unordered one and whatever the module answers
/// with.
pub proof fn law_delivery_happy_path_by_mock_router<M: Module>(
    ctx: MockContext,
    router: &MockRouter<M>,
    msg: MsgEnvelope,
    valid: Result<(), RouterError>,
    inner: Result<(), RouterError>,
    handled: HostState,
    r: Result<(), RelayerError>,
    after: MockContext,
)
    requires
        ctx.spec_delivered(router, msg, valid, inner, handled, r, after),
        msg matches MsgEnvelope::Packet(m) && m is Recv,
        ({
            let m = msg->Packet_0->Recv_0;
            &&& ready_to_receive(&ctx, m.packet@, m.proof_commitment_on_a@, m.proof_height_on_a)
            &&& !m.packet@.timeout_height_on_b.spec_has_expired(ctx.spec_state().host_height)
            &&& ctx.spec_state().host_timestamp.spec_check_expiry(
                m.packet@.timeout_timestamp_on_b,
            ) != Expiry::Expired
            &&& due_to_be_received(ctx.spec_state(), m.packet@)
        }),
        router.serves(msg->Packet_0->Recv_0.packet@.port_id_on_b),
    ensures
        r == Ok::<(), RelayerError>(()),
        after.blocks().last() == ctx.spec_next_block(),
        spec_receive_stored(
            ctx.spec_state(),
            msg->Packet_0->Recv_0.packet@,
            handled,
            after.spec_state(),
        ),
{
    let m = msg->Packet_0->Recv_0;
    law_recv_happy_path(&ctx, m.packet@, m.proof_commitment_on_a@, m.proof_height_on_a);
    law_delivery_by_mock_router(ctx, router, msg, valid, inner, handled, r, after);
    law_delivery_happy_path(ctx, router, msg, valid, inner, handled, r, after);
}

/// With the library's router for the stand-in transfer application, a
/// packet for which everything is in order is received, and exactly four
/// events are reported for it, behind the old ones and in this order: a
/// message event of the channel layer, the receiving of the packet, a
/// message event of the channel layer, the writing of the acknowledgement.
/// The acknowledgement written is that of the one byte `1`.
pub proof fn law_delivery_to_transfer(
    ctx: MockContext,
    router: &MockRouter<DummyTransferModule>,
    msg: MsgEnvelope,
    valid: Result<(), RouterError>,
    inner: Result<(), RouterError>,
    handled: HostState,
    r: Result<(), RelayerError>,
    after: MockContext,
)
    requires
        ctx.spec_delivered(router, msg, valid, inner, handled, r, after),
        msg matches MsgEnvelope::Packet(m) && m is Recv,
        ({
            let m = msg->Packet_0->Recv_0;
            &&& ready_to_receive(&ctx, m.packet@, m.proof_commitment_on_a@, m.proof_height_on_a)
            &&& !m.packet@.timeout_height_on_b.spec_has_expired(ctx.spec_state().host_height)
            &&& ctx.spec_state().host_timestamp.spec_check_expiry(
                m.packet@.timeout_timestamp_on_b,
            ) != Expiry::Expired
            &&& due_to_be_received(ctx.spec_state(), m.packet@)
        }),
        router.serves(msg->Packet_0->Recv_0.packet@.port_id_on_b),
    ensures
        r == Ok::<(), RelayerError>(()),
        after.blocks().last() == ctx.spec_next_block(),
        ({
            let s = ctx.spec_state();
            let packet = msg->Packet_0->Recv_0.packet@;
            let (ordering, connection_id) = spec_recv_execute_check(s, packet)->Ok_0;
            let n = s.events.len() as int;
            &&& after.spec_state().events == s.events + recv_events(
                packet,
                ordering,
                connection_id,
                seq![1u8],
            )
            &&& after.spec_state().events.len() == n + 4
            &&& after.spec_state().events[n] is Message
            &&& after.spec_state().events[n + 1] is ReceivePacket
            &&& after.spec_state().events[n + 2] is Message
            &&& after.spec_state().events[n + 3] is WriteAcknowledgement
            &&& after.spec_state().packet_acknowledgements == s.packet_acknowledgements.insert(
                (packet.port_id_on_b, packet.chan_id_on_b, packet.seq_on_a),
                sha256(seq![1u8]),
            )
        }),
{
    law_delivery_happy_path_by_mock_router(ctx, router, msg, valid, inner, handled, r, after);
    lemma_validated(&ctx, router, msg, valid);
    lemma_receive_executed(&ctx, router, msg, handled);
    let s = ctx.spec_state();
    let m = msg->Packet_0->Recv_0;
    let (ordering, connection_id) = spec_recv_execute_check(s, m.packet@)->Ok_0;
    let (asked, answer) = choose|
        asked: &mut DummyTransferModule,
        answer: (ModuleExtras, Acknowledgement),
    |
        {
            &&& #[trigger] module_receives(asked, &m.packet, &m.signer, answer)
            &&& handled == spec_recv_apply(
                s,
                m.packet@,
                ordering,
                connection_id,
                answer.1@,
                module_events_view(answer.0.events@),
                logs_view(answer.0.log@),
            )
        };
    assert(module_events_view(answer.0.events@) =~= Seq::<IbcEventView>::empty());
    law_recv_reports_in_order(
        s,
        m.packet@,
        ordering,
        connection_id,
        answer.1@,
        module_events_view(answer.0.events@),
        logs_view(answer.0.log@),
    );
    law_recv_stores(
        s,
        m.packet@,
        ordering,
        connection_id,
        answer.1@,
        module_events_view(answer.0.events@),
        logs_view(answer.0.log@),
    );
    assert(handled.events =~= s.events + recv_events(
        m.packet@,
        ordering,
        connection_id,
        seq![1u8],
    ));
}

/// A packet that passes the engine's checks is received once the router has
/// found the module for its port: delivery fails only with the router's
/// error, and where it succeeds, what the context holds is a state that
/// receiving the packet leads to, one block further on.
pub proof fn law_delivery_of_valid_receive<R: Router>(
    ctx: MockContext,
    router: &R,
    msg: MsgEnvelope,
    valid: Result<(), RouterError>,
    inner: Result<(), RouterError>,
    handled: HostState,
    r: Result<(), RelayerError>,
    after: MockContext,
)
    requires
        ctx.spec_delivered(router, msg, valid, inner, handled, r, after),
        msg matches MsgEnvelope::Packet(m) && m is Recv,
        spec_validate(&ctx, msg) is Ok,
    ensures
        match r {
            Ok(_) => {
                let packet = msg->Packet_0->Recv_0.packet@;
                &&& spec_received(ctx.spec_state(), packet, handled)
                &&& after.blocks().last() == ctx.spec_next_block()
                &&& after.spec_state() == (HostState {
                    host_height: after.spec_latest_height(),
                    host_timestamp: after.spec_latest_timestamp(),
                    ..handled
                })
                &&& after.spec_state().packet_acknowledgements.contains_key(
                    (packet.port_id_on_b, packet.chan_id_on_b, packet.seq_on_a),
                )
                &&& after.spec_state().events.len() >= ctx.spec_state().events.len() + 4
                &&& after.spec_state().events.subrange(0, ctx.spec_state().events.len() as int)
                    == ctx.spec_state().events
                &&& after.spec_state().events[ctx.spec_state().events.len() as int] is Message
                &&& after.spec_state().events[ctx.spec_state().events.len() as int
                    + 1] is ReceivePacket
                &&& after.spec_state().events[ctx.spec_state().events.len() as int + 2] is Message
                &&& after.spec_state().events[ctx.spec_state().events.len() as int
                    + 3] is WriteAcknowledgement
                &&& spec_receive_stored(ctx.spec_state(), packet, handled, after.spec_state())
            },
            Err(e) => e == RelayerError::TransactionFailed(RouterError::UnknownPort) || e
                == RelayerError::TransactionFailed(RouterError::ModuleNotFound),
        },
{
    lemma_validated(&ctx, router, msg, valid);
    if valid is Ok {
        lemma_executed(&ctx, router, msg, inner, handled);
        if r is Ok {
            let s = ctx.spec_state();
            let packet = msg->Packet_0->Recv_0.packet@;
            let (ordering, connection_id) = spec_recv_execute_check(s, packet)->Ok_0;
            let (ack, module_events, module_logs) = choose|
                ack: Seq<u8>,
                module_events: Seq<IbcEventView>,
                module_logs: Seq<Seq<char>>,
            |
                handled == #[trigger] spec_recv_apply(
                    s,
                    packet,
                    ordering,
                    connection_id,
                    ack,
                    module_events,
                    module_logs,
                );
            law_recv_reports_in_order(
                s,
                packet,
                ordering,
                connection_id,
                ack,
                module_events,
                module_logs,
            );
            law_recv_stores(s, packet, ordering, connection_id, ack, module_events, module_logs);
            assert(handled.events.subrange(0, s.events.len() as int) =~= s.events);
        }
    }
}

/// A packet is received once: where the context holds the acknowledgement
/// that it wrote for a packet, the packet is not delivered again, and the
/// context is left as it was.
pub proof fn law_delivery_of_received<R: Router>(
    ctx: MockContext,
    router: &R,
    msg: MsgEnvelope,
    valid: Result<(), RouterError>,
    inner: Result<(), RouterError>,
    handled: HostState,
    r: Result<(), RelayerError>,
    after: MockContext,
)
    requires
        ctx.spec_delivered(router, msg, valid, inner, handled, r, after),
        msg matches MsgEnvelope::Packet(PacketMsg::Recv(m))
            && ctx.spec_state().packet_acknowledgements.contains_key(
            (m.packet@.port_id_on_b, m.packet@.chan_id_on_b, m.packet@.seq_on_a),
        ),
    ensures
        r is Err,
        after.same_host(ctx),
        after.spec_state() == ctx.spec_state(),
{
    let m = msg->Packet_0->Recv_0;
    law_acknowledged_packet_is_not_received(
        &ctx,
        m.packet@,
        m.proof_commitment_on_a@,
        m.proof_height_on_a,
    );
    law_delivery_of_invalid(ctx, router, msg, valid, inner, handled, r, after);
}

/// An acknowledgement or a timeout that is delivered settles its packet: the
/// context no longer holds the commitment to the packet.
pub proof fn law_delivery_settles<R: Router>(
    ctx: MockContext,
    router: &R,
    msg: MsgEnvelope,
    valid: Result<(), RouterError>,
    inner: Result<(), RouterError>,
    handled: HostState,
    after: MockContext,
)
    requires
        ctx.spec_delivered(router, msg, valid, inner, handled, Ok::<(), RelayerError>(()), after),
        settled_packet(msg) is Some,
    ensures
        ({
            let packet = settled_packet(msg)->Some_0;
            !after.spec_state().packet_commitments.contains_key(
                (packet.port_id_on_a, packet.chan_id_on_a, packet.seq_on_a),
            )
        }),
{
    let s = ctx.spec_state();
    let packet = settled_packet(msg)->Some_0;
    lemma_validated(&ctx, router, msg, valid);
    lemma_executed(&ctx, router, msg, inner, handled);
    match msg {
        MsgEnvelope::Packet(PacketMsg::Ack(m)) => {
            let (ordering, connection_id) = spec_ack_execute_check(s, packet)->Ok_0;
            let (module_events, module_logs) = choose|
                module_events: Seq<IbcEventView>,
                module_logs: Seq<Seq<char>>,
            |
                handled == #[trigger] spec_ack_apply(
                    s,
                    packet,
                    ordering,
                    connection_id,
                    module_events,
                    module_logs,
                );
        },
        _ => {
            let (end, connection_id) = spec_timeout_execute_check(s, packet)->Ok_0;
            let (module_events, module_logs) = choose|
                module_events: Seq<IbcEventView>,
                module_logs: Seq<Seq<char>>,
            |
                handled == #[trigger] spec_timeout_apply(
                    s,
                    packet,
                    end,
                    connection_id,
                    module_events,
                    module_logs,
                );
        },
    }
}

/// A packet is settled once: where the context no longer holds the
/// commitment to a packet, neither an acknowledgement nor a timeout of the
/// packet is delivered. The reason given is that no commitment is found,
/// unless the router finds no module for the port and gives its own; and the
/// context is left as it was.
pub proof fn law_delivery_of_settled<R: Router>(
    ctx: MockContext,
    router: &R,
    msg: MsgEnvelope,
    valid: Result<(), RouterError>,
    inner: Result<(), RouterError>,
    handled: HostState,
    r: Result<(), RelayerError>,
    after: MockContext,
)
    requires
        ctx.spec_delivered(router, msg, valid, inner, handled, r, after),
        settled_packet(msg) matches Some(packet) && !ctx.spec_state().packet_commitments.contains_key(
            (packet.port_id_on_a, packet.chan_id_on_a, packet.seq_on_a),
        ),
    ensures
        r matches Err(RelayerError::TransactionFailed(e)) && spec_turned_down(
            ContextError::Packet(PacketError::CommitmentNotFound),
            Err(e),
        ),
        after.same_host(ctx),
        after.spec_state() == ctx.spec_state(),
{
    let packet = settled_packet(msg)->Some_0;
    match msg {
        MsgEnvelope::Packet(PacketMsg::Ack(m)) => {
            law_settled_packet_takes_nothing(
                &ctx,
                packet,
                m.acknowledgement@,
                Sequence { value: 0 },
                m.proof_acked_on_b@,
                Seq::empty(),
                m.proof_height_on_b,
            );
        },
        MsgEnvelope::Packet(PacketMsg::Timeout(m)) => {
            law_settled_packet_takes_nothing(
                &ctx,
                packet,
                Seq::empty(),
                m.next_seq_recv_on_b,
                m.proof_unreceived_on_b@,
                Seq::empty(),
                m.proof_height_on_b,
            );
        },
        MsgEnvelope::Packet(PacketMsg::TimeoutOnClose(m)) => {
            law_settled_packet_takes_nothing(
                &ctx,
                packet,
                Seq::empty(),
                m.next_seq_recv_on_b,
                m.proof_unreceived_on_b@,
                m.proof_close_on_b@,
                m.proof_height_on_b,
            );
        },
        _ => {},
    }
    law_delivery_of_invalid(ctx, router, msg, valid, inner, handled, r, after);
}

/// A frozen client takes nothing any more: an update of it is not delivered,
/// whatever the message holds, and the error is that of a frozen client.
pub proof fn law_delivery_to_frozen_client<R: Router>(
    ctx: MockContext,
    router: &R,
    msg: MsgEnvelope,
    valid: Result<(), RouterError>,
    inner: Result<(), RouterError>,
    handled: HostState,
    r: Result<(), RelayerError>,
    after: MockContext,
)
    requires
        ctx.spec_delivered(router, msg, valid, inner, handled, r, after),
        msg matches MsgEnvelope::Client(ClientMsg::UpdateClient(m))
            && ctx.spec_state().clients.contains_key(m.client_id)
            && ctx.spec_state().clients[m.client_id].spec_is_frozen(),
    ensures
        r == Err::<(), RelayerError>(
            RelayerError::TransactionFailed(
                RouterError::Context(ContextError::Client(ClientError::ClientFrozen)),
            ),
        ),
        after.same_host(ctx),
        after.spec_state() == ctx.spec_state(),
{
    let m = msg->Client_0->UpdateClient_0;
    law_frozen_client_takes_no_update(&ctx, m.client_id, m.client_message);
    law_delivery_of_invalid(ctx, router, msg, valid, inner, handled, r, after);
}

/// A packet for a channel that the context does not hold is not received:
/// the reason given is that no channel is found, unless the router finds no
/// module for the port and gives its own; and the context is left as it was.
pub proof fn law_delivery_needs_channel<R: Router>(
    ctx: MockContext,
    router: &R,
    msg: MsgEnvelope,
    valid: Result<(), RouterError>,
    inner: Result<(), RouterError>,
    handled: HostState,
    r: Result<(), RelayerError>,
    after: MockContext,
)
    requires
        ctx.spec_delivered(router, msg, valid, inner, handled, r, after),
        msg matches MsgEnvelope::Packet(PacketMsg::Recv(m))
            && !ctx.spec_state().channels.contains_key(
            (m.packet@.port_id_on_b, m.packet@.chan_id_on_b),
        ),
    ensures
        r matches Err(RelayerError::TransactionFailed(e)) && spec_turned_down(
            ContextError::Channel(ChannelError::ChannelNotFound),
            Err(e),
        ),
        after.same_host(ctx),
        after.spec_state() == ctx.spec_state(),
{
    let m = msg->Packet_0->Recv_0;
    law_recv_needs_channel(&ctx, m.packet@, m.proof_commitment_on_a@, m.proof_height_on_a);
    law_delivery_of_invalid(ctx, router, msg, valid, inner, handled, r, after);
}

/// A frozen client backs no proof any more: a packet whose channel runs
/// over a connection of a frozen client is not received. Where the packet
/// has not timed out, the reason given is that the client is frozen, unless
/// the router finds no module for the port and gives its own.
pub proof fn law_delivery_of_packet_for_frozen_client<R: Router>(
    ctx: MockContext,
    router: &R,
    msg: MsgEnvelope,
    valid: Result<(), RouterError>,
    inner: Result<(), RouterError>,
    handled: HostState,
    r: Result<(), RelayerError>,
    after: MockContext,
)
    requires
        ctx.spec_delivered(router, msg, valid, inner, handled, r, after),
        msg matches MsgEnvelope::Packet(m) && m is Recv,
        ({
            let packet = msg->Packet_0->Recv_0.packet@;
            spec_packet_channel(
                ctx.spec_state(),
                (packet.port_id_on_b, packet.chan_id_on_b),
                packet.port_id_on_a,
                packet.chan_id_on_a,
            ) matches Ok(end) && spec_channel_connection(ctx.spec_state(), end) matches Ok(
                (_, conn),
            ) && ctx.spec_state().clients.contains_key(conn.client_id)
                && ctx.spec_state().clients[conn.client_id].spec_is_frozen()
        }),
    ensures
        r is Err,
        ({
            let packet = msg->Packet_0->Recv_0.packet@;
            !packet.timeout_height_on_b.spec_has_expired(ctx.spec_state().host_height)
                && ctx.spec_state().host_timestamp.spec_check_expiry(
                packet.timeout_timestamp_on_b,
            ) != Expiry::Expired ==> spec_turned_down(
                ContextError::Client(ClientError::ClientFrozen),
                Err(r->Err_0->TransactionFailed_0),
            )
        }),
        after.same_host(ctx),
        after.spec_state() == ctx.spec_state(),
{
    let m = msg->Packet_0->Recv_0;
    law_frozen_client_receives_nothing(&ctx, m.packet@, m.proof_commitment_on_a@, m.proof_height_on_a);
    law_delivery_of_invalid(ctx, router, msg, valid, inner, handled, r, after);
}

/// A packet is received once: where a receipt is stored for a packet on an
/// unordered channel, the packet is not delivered again, and the context is
/// left as it was, its receipts, acknowledgements and events with it.
pub proof fn law_delivery_with_receipt<R: Router>(
    ctx: MockContext,
    router: &R,
    msg: MsgEnvelope,
    valid: Result<(), RouterError>,
    inner: Result<(), RouterError>,
    handled: HostState,
    r: Result<(), RelayerError>,
    after: MockContext,
)
    requires
        ctx.spec_delivered(router, msg, valid, inner, handled, r, after),
        msg matches MsgEnvelope::Packet(m) && m is Recv,
        ({
            let packet = msg->Packet_0->Recv_0.packet@;
            let key = (packet.port_id_on_b, packet.chan_id_on_b);
            &&& ctx.spec_state().channels.contains_key(key)
            &&& ctx.spec_state().channels[key].ordering == Order::Unordered
            &&& ctx.spec_state().packet_receipts.contains_key(
                (packet.port_id_on_b, packet.chan_id_on_b, packet.seq_on_a),
            )
        }),
    ensures
        r is Err,
        after.same_host(ctx),
        after.spec_state() == ctx.spec_state(),
{
    let m = msg->Packet_0->Recv_0;
    law_receipt_bars_receive(&ctx, m.packet@, m.proof_commitment_on_a@, m.proof_height_on_a);
    law_delivery_of_invalid(ctx, router, msg, valid, inner, handled, r, after);
}

/// On an ordered channel packets are received in sequence: a packet that
/// is not the one that is due is not received.
pub proof fn law_delivery_in_sequence<R: Router>(
    ctx: MockContext,
    router: &R,
    msg: MsgEnvelope,
    valid: Result<(), RouterError>,
    inner: Result<(), RouterError>,
    handled: HostState,
    r: Result<(), RelayerError>,
    after: MockContext,
)
    requires
        ctx.spec_delivered(router, msg, valid, inner, handled, r, after),
        msg matches MsgEnvelope::Packet(m) && m is Recv,
        ({
            let packet = msg->Packet_0->Recv_0.packet@;
            let key = (packet.port_id_on_b, packet.chan_id_on_b);
            &&& ctx.spec_state().channels.contains_key(key)
            &&& ctx.spec_state().channels[key].ordering == Order::Ordered
            &&& ctx.spec_state().next_sequence_recv.contains_key(key)
                ==> ctx.spec_state().next_sequence_recv[key] != packet.seq_on_a
        }),
    ensures
        r is Err,
        after.same_host(ctx),
        after.spec_state() == ctx.spec_state(),
{
    let m = msg->Packet_0->Recv_0;
    law_ordered_receive_in_sequence(&ctx, m.packet@, m.proof_commitment_on_a@, m.proof_height_on_a);
    law_delivery_of_invalid(ctx, router, msg, valid, inner, handled, r, after);
}

/// A packet whose time has run out is not received: where the host's
/// clock stands after the timeout time of the packet, delivery fails,
/// whatever else is in order.
pub proof fn law_delivery_after_timeout<R: Router>(
    ctx: MockContext,
    router: &R,
    msg: MsgEnvelope,
    valid: Result<(), RouterError>,
    inner: Result<(), RouterError>,
    handled: HostState,
    r: Result<(), RelayerError>,
    after: MockContext,
)
    requires
        ctx.spec_delivered(router, msg, valid, inner, handled, r, after),
        msg matches MsgEnvelope::Packet(m) && m is Recv,
        ({
            let packet = msg->Packet_0->Recv_0.packet@;
            &&& packet.timeout_timestamp_on_b.spec_is_set()
            &&& ctx.spec_state().host_timestamp.spec_after(packet.timeout_timestamp_on_b)
        }),
    ensures
        r is Err,
        after.same_host(ctx),
        after.spec_state() == ctx.spec_state(),
{
    let m = msg->Packet_0->Recv_0;
    law_recv_after_timeout_fails(&ctx, m.packet@, m.proof_commitment_on_a@, m.proof_height_on_a);
    law_delivery_of_invalid(ctx, router, msg, valid, inner, handled, r, after);
}

/// With a router of the library's own that serves the port, a packet that
/// passes the engine's checks is received: delivery succeeds, whatever the
/// module answers with, and the chain moves on by one block.
pub proof fn law_delivery_by_mock_router<M: Module>(
    ctx: MockContext,
    router: &MockRouter<M>,
    msg: MsgEnvelope,
    valid: Result<(), RouterError>,
    inner: Result<(), RouterError>,
    handled: HostState,
    r: Result<(), RelayerError>,
    after: MockContext,
)
    requires
        ctx.spec_delivered(router, msg, valid, inner, handled, r, after),
        msg matches MsgEnvelope::Packet(m) && m is Recv,
        spec_validate(&ctx, msg) is Ok,
        router.serves(msg->Packet_0->Recv_0.packet@.port_id_on_b),
    ensures
        r == Ok::<(), RelayerError>(()),
        spec_received(ctx.spec_state(), msg->Packet_0->Recv_0.packet@, handled),
        after.blocks().last() == ctx.spec_next_block(),
{
    law_delivery_of_valid_receive(ctx, router, msg, valid, inner, handled, r, after);
    law_receive_with_mock_router(&ctx, router, msg, valid, inner, handled);
}

} // verus!
