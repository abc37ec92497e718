//! The dispatcher: a message is handed to the handler for its kind, first
//! to be validated and then to be executed. Messages about channels and
//! packets also go to the application module that is bound to their port.

use vstd::prelude::*;
use crate::channel::{
    Acknowledgement,
    Counterparty,
    Packet,
    PacketView,
    Version as ChannelVersion,
};
use crate::context::{ExecutionContext, ValidationContext};
use crate::error::{ChannelError, ContextError, PacketError, RouterError};
use crate::events::{logs_view, module_events_view};
use crate::handler::acknowledgement;
use crate::handler::acknowledgement::{
    lemma_acknowledged,
    module_acknowledges,
    spec_ack_execute_check,
    spec_acknowledged,
    spec_acknowledged_by,
};
use crate::handler::channel;
use crate::handler::channel::Advance;
use crate::handler::client;
use crate::handler::common::spec_module_verdict;
use crate::handler::connection;
use crate::handler::recv_packet;
use crate::handler::recv_packet::{
    lemma_received,
    module_receives,
    spec_received,
    spec_recv_apply,
    spec_recv_execute_check,
};
use crate::handler::timeout;
use crate::handler::timeout::{
    lemma_timed_out_to,
    module_times_out,
    spec_timed_out_by,
    spec_timed_out_to,
    spec_timeout_execute_check,
};
use crate::height::Height;
use crate::identifier::{ModuleId, PortId, Signer};
use crate::msgs::{ChannelMsg, ClientMsg, ConnectionMsg, MsgEnvelope, PacketMsg};
use crate::router::{MockRouter, ModuleExtras, Router};
use crate::state::HostState;

verus! {

/// What a result comes to where only success or failure is of interest.
pub open spec fn unit<T>(r: Result<T, ContextError>) -> Result<(), ContextError> {
    match r {
        Ok(_) => Ok(()),
        Err(e) => Err(e),
    }
}

/// What a handler's answer comes to for the dispatcher.
pub open spec fn spec_routed(r: Result<(), ContextError>) -> Result<(), RouterError> {
    match r {
        Ok(_) => Ok(()),
        Err(e) => Err(RouterError::Context(e)),
    }
}

/// What a handler's answer comes to for the dispatcher.
pub fn routed<T>(r: Result<T, ContextError>) -> (out: Result<(), RouterError>)
    ensures
        out == spec_routed(unit(r)),
{
    match r {
        Ok(_) => Ok(()),
        Err(e) => Err(RouterError::Context(e)),
    }
}

/// What the engine itself checks of a channel message.
pub open spec fn spec_channel_validate<Ctx: ValidationContext>(ctx: &Ctx, msg: ChannelMsg) -> Result<
    (),
    ContextError,
> {
    match msg {
        ChannelMsg::OpenInit(m) => unit(
            channel::spec_init_validate(ctx.state(), m.connection_hops_on_a@, m.ordering),
        ),
        ChannelMsg::OpenTry(m) => unit(channel::spec_try_validate_msg(ctx, m)),
        ChannelMsg::OpenAck(m) => unit(
            channel::spec_advance_validate(
                ctx,
                (m.port_id_on_a@, m.chan_id_on_a),
                Advance::OpenAck(m.chan_id_on_b),
                m.version_on_b@,
                m.proof_chan_end_on_b@,
                m.proof_height_on_b,
            ),
        ),
        ChannelMsg::OpenConfirm(m) => unit(
            channel::spec_advance_validate(
                ctx,
                (m.port_id_on_b@, m.chan_id_on_b),
                Advance::OpenConfirm,
                Seq::empty(),
                m.proof_chan_end_on_a@,
                m.proof_height_on_a,
            ),
        ),
        ChannelMsg::CloseInit(m) => unit(
            channel::spec_advance_validate(
                ctx,
                (m.port_id_on_a@, m.chan_id_on_a),
                Advance::CloseInit,
                Seq::empty(),
                Seq::empty(),
                Height { revision_number: 0, revision_height: 1 },
            ),
        ),
        ChannelMsg::CloseConfirm(m) => unit(
            channel::spec_advance_validate(
                ctx,
                (m.port_id_on_b@, m.chan_id_on_b),
                Advance::CloseConfirm,
                Seq::empty(),
                m.proof_chan_end_on_a@,
                m.proof_height_on_a,
            ),
        ),
    }
}

/// What the engine itself checks of a packet message.
pub open spec fn spec_packet_validate<Ctx: ValidationContext>(ctx: &Ctx, msg: PacketMsg) -> Result<
    (),
    ContextError,
> {
    match msg {
        PacketMsg::Recv(m) => recv_packet::spec_recv_validate(
            ctx,
            m.packet@,
            m.proof_commitment_on_a@,
            m.proof_height_on_a,
        ),
        PacketMsg::Ack(m) => acknowledgement::spec_ack_validate(
            ctx,
            m.packet@,
            m.acknowledgement@,
            m.proof_acked_on_b@,
            m.proof_height_on_b,
        ),
        PacketMsg::Timeout(m) => timeout::spec_timeout_validate(
            ctx,
            m.packet@,
            m.next_seq_recv_on_b,
            m.proof_unreceived_on_b@,
            m.proof_height_on_b,
        ),
        PacketMsg::TimeoutOnClose(m) => timeout::spec_timeout_on_close_validate_msg(ctx, m),
    }
}

/// What the engine itself checks of a message, whatever its kind. For
/// messages about channels and packets the module bound to the port is asked
/// as well, once these checks have passed.
pub open spec fn spec_validate<Ctx: ValidationContext>(ctx: &Ctx, msg: MsgEnvelope) -> Result<
    (),
    ContextError,
> {
    match msg {
        MsgEnvelope::Client(ClientMsg::CreateClient(m)) => unit(
            client::spec_create_validate(ctx.state(), m.client_state, m.consensus_state),
        ),
        MsgEnvelope::Client(ClientMsg::UpdateClient(m)) => client::spec_update_validate(
            ctx,
            m.client_id,
            m.client_message,
        ),
        MsgEnvelope::Connection(ConnectionMsg::OpenInit(m)) => unit(
            connection::spec_init_validate(ctx.state(), m.client_id_on_a, m.version),
        ),
        MsgEnvelope::Connection(ConnectionMsg::OpenTry(m)) => unit(
            connection::spec_try_validate(
                ctx,
                m.previous_connection_id,
                m.client_id_on_b,
                m.counterparty.client_id,
                m.counterparty.connection_id,
                m.counterparty.prefix.key@,
                m.versions_on_a@,
                m.proof_conn_end_on_a@,
                m.proof_height_on_a,
                m.delay_period,
            ),
        ),
        MsgEnvelope::Connection(ConnectionMsg::OpenAck(m)) => unit(
            connection::spec_ack_validate(
                ctx,
                m.conn_id_on_a,
                m.conn_id_on_b,
                m.version,
                m.proof_conn_end_on_b@,
                m.proof_height_on_b,
            ),
        ),
        MsgEnvelope::Connection(ConnectionMsg::OpenConfirm(m)) => unit(
            connection::spec_confirm_validate(
                ctx,
                m.conn_id_on_b,
                m.proof_conn_end_on_a@,
                m.proof_height_on_a,
            ),
        ),
        MsgEnvelope::Channel(m) => spec_channel_validate(ctx, m),
        MsgEnvelope::Packet(m) => spec_packet_validate(ctx, m),
    }
}

/// Whether `after` is a state that executing a channel message on the host
/// `before` can lead to.
pub open spec fn spec_channel_effect<Ctx: ValidationContext>(
    before: &Ctx,
    msg: ChannelMsg,
    after: HostState,
) -> bool {
    let s = before.state();
    match msg {
        ChannelMsg::OpenInit(m) => channel::spec_init_validate(
            s,
            m.connection_hops_on_a@,
            m.ordering,
        ) matches Ok(id) && channel::spec_opened(
            s,
            channel::Step::OpenInit,
            (m.port_id_on_a@, id),
            channel::init_end(m.ordering, m.port_id_on_b@, m.connection_hops_on_a@, Seq::empty()),
            after,
        ),
        ChannelMsg::OpenTry(m) => channel::spec_try_validate_msg(before, m) matches Ok(id)
            && channel::spec_opened(
            s,
            channel::Step::OpenTry,
            (m.port_id_on_b@, id),
            channel::try_end(m.ordering, m.port_id_on_a@, m.chan_id_on_a, m.connection_hops_on_b@),
            after,
        ),
        ChannelMsg::OpenAck(m) => channel::spec_advance_validate(
            before,
            (m.port_id_on_a@, m.chan_id_on_a),
            Advance::OpenAck(m.chan_id_on_b),
            m.version_on_b@,
            m.proof_chan_end_on_b@,
            m.proof_height_on_b,
        ) matches Ok(end) && channel::spec_stepped(
            s,
            channel::Step::OpenAck,
            (m.port_id_on_a@, m.chan_id_on_a),
            end,
            after,
        ),
        ChannelMsg::OpenConfirm(m) => channel::spec_advance_validate(
            before,
            (m.port_id_on_b@, m.chan_id_on_b),
            Advance::OpenConfirm,
            Seq::empty(),
            m.proof_chan_end_on_a@,
            m.proof_height_on_a,
        ) matches Ok(end) && channel::spec_stepped(
            s,
            channel::Step::OpenConfirm,
            (m.port_id_on_b@, m.chan_id_on_b),
            end,
            after,
        ),
        ChannelMsg::CloseInit(m) => channel::spec_advance_validate(
            before,
            (m.port_id_on_a@, m.chan_id_on_a),
            Advance::CloseInit,
            Seq::empty(),
            Seq::empty(),
            Height { revision_number: 0, revision_height: 1 },
        ) matches Ok(end) && channel::spec_stepped(
            s,
            channel::Step::CloseInit,
            (m.port_id_on_a@, m.chan_id_on_a),
            end,
            after,
        ),
        ChannelMsg::CloseConfirm(m) => channel::spec_advance_validate(
            before,
            (m.port_id_on_b@, m.chan_id_on_b),
            Advance::CloseConfirm,
            Seq::empty(),
            m.proof_chan_end_on_a@,
            m.proof_height_on_a,
        ) matches Ok(end) && channel::spec_stepped(
            s,
            channel::Step::CloseConfirm,
            (m.port_id_on_b@, m.chan_id_on_b),
            end,
            after,
        ),
    }
}

/// The packet that a packet message is about.
pub open spec fn packet_of(msg: PacketMsg) -> PacketView {
    match msg {
        PacketMsg::Recv(m) => m.packet@,
        PacketMsg::Ack(m) => m.packet@,
        PacketMsg::Timeout(m) => m.packet@,
        PacketMsg::TimeoutOnClose(m) => m.packet@,
    }
}

/// Whether `after` is a state that executing a message on the host `before`
/// can lead to.
pub open spec fn spec_effect<Ctx: ValidationContext>(
    before: &Ctx,
    msg: MsgEnvelope,
    after: HostState,
) -> bool {
    let s = before.state();
    match msg {
        MsgEnvelope::Client(ClientMsg::CreateClient(m)) => client::spec_create_validate(
            s,
            m.client_state,
            m.consensus_state,
        ) matches Ok(id) && after == client::spec_create_apply(
            s,
            id,
            m.client_state,
            m.consensus_state,
        ),
        MsgEnvelope::Client(ClientMsg::UpdateClient(m)) => client::spec_update_execute_check(
            s,
            m.client_id,
            m.client_message,
        ) matches Ok(client_state) && after == client::spec_update_apply(
            s,
            m.client_id,
            client_state,
            m.client_message,
        ),
        MsgEnvelope::Connection(ConnectionMsg::OpenInit(m)) => connection::spec_init_validate(
            s,
            m.client_id_on_a,
            m.version,
        ) matches Ok(id) && after == connection::spec_init_apply(
            s,
            id,
            connection::init_end(
                m.client_id_on_a,
                m.counterparty.client_id,
                m.counterparty.connection_id,
                m.counterparty.prefix.key@,
                m.version,
                m.delay_period,
            ),
        ),
        MsgEnvelope::Connection(ConnectionMsg::OpenTry(m)) => connection::spec_try_validate(
            before,
            m.previous_connection_id,
            m.client_id_on_b,
            m.counterparty.client_id,
            m.counterparty.connection_id,
            m.counterparty.prefix.key@,
            m.versions_on_a@,
            m.proof_conn_end_on_a@,
            m.proof_height_on_a,
            m.delay_period,
        ) matches Ok((id, crossing, end)) && after == connection::spec_try_apply(
            s,
            id,
            crossing,
            end,
        ),
        MsgEnvelope::Connection(ConnectionMsg::OpenAck(m)) => connection::spec_ack_validate(
            before,
            m.conn_id_on_a,
            m.conn_id_on_b,
            m.version,
            m.proof_conn_end_on_b@,
            m.proof_height_on_b,
        ) matches Ok(end) && after == connection::spec_store_end(
            s,
            connection::Step::Ack,
            m.conn_id_on_a,
            end,
        ),
        MsgEnvelope::Connection(ConnectionMsg::OpenConfirm(m)) => connection::spec_confirm_validate(
            before,
            m.conn_id_on_b,
            m.proof_conn_end_on_a@,
            m.proof_height_on_a,
        ) matches Ok(end) && after == connection::spec_store_end(
            s,
            connection::Step::Confirm,
            m.conn_id_on_b,
            end,
        ),
        MsgEnvelope::Channel(m) => spec_channel_effect(before, m, after),
        MsgEnvelope::Packet(PacketMsg::Recv(m)) => recv_packet::spec_received(s, m.packet@, after),
        MsgEnvelope::Packet(PacketMsg::Ack(m)) => acknowledgement::spec_acknowledged(
            s,
            m.packet@,
            after,
        ),
        MsgEnvelope::Packet(PacketMsg::Timeout(m)) => timeout::spec_timed_out_to(
            s,
            m.packet@,
            after,
        ),
        MsgEnvelope::Packet(PacketMsg::TimeoutOnClose(m)) => timeout::spec_timed_out_to(
            s,
            m.packet@,
            after,
        ),
    }
}

/// What execution checks of a message about a client or a connection
/// before anything is changed: what validation checks, but that a client
/// message is not checked against the host's verifier again.
pub open spec fn spec_execute_check<Ctx: ValidationContext>(ctx: &Ctx, msg: MsgEnvelope) -> Result<
    (),
    ContextError,
> {
    match msg {
        MsgEnvelope::Client(ClientMsg::UpdateClient(m)) => unit(
            client::spec_update_execute_check(ctx.state(), m.client_id, m.client_message),
        ),
        _ => spec_validate(ctx, msg),
    }
}

/// Whether `events` begin with `before`.
pub open spec fn begins_with<T>(events: Seq<T>, before: Seq<T>) -> bool {
    before.len() <= events.len() && events.subrange(0, before.len() as int) == before
}

/// Handlers only add to what was reported and logged, the counters from
/// which identifiers are made never fall, and no handler moves the host's
/// clock: whatever message is executed, the events and log lines from before
/// are still there, at the beginning, each counter stands where it stood or
/// one higher, and the host's height and time are what they were.
pub proof fn law_handlers_only_add<Ctx: ValidationContext>(
    before: &Ctx,
    msg: MsgEnvelope,
    after: HostState,
)
    requires
        spec_effect(before, msg, after),
    ensures
        after.host_height == before.state().host_height,
        after.host_timestamp == before.state().host_timestamp,
        begins_with(after.events, before.state().events),
        begins_with(after.logs, before.state().logs),
        before.state().client_counter <= after.client_counter <= before.state().client_counter + 1,
        before.state().connection_counter <= after.connection_counter
            <= before.state().connection_counter + 1,
        before.state().channel_counter <= after.channel_counter <= before.state().channel_counter
            + 1,
{
    let s = before.state();
    match msg {
        MsgEnvelope::Channel(ChannelMsg::OpenInit(m)) => {
            let id = channel::spec_init_validate(s, m.connection_hops_on_a@, m.ordering)->Ok_0;
            let base = channel::init_end(
                m.ordering,
                m.port_id_on_b@,
                m.connection_hops_on_a@,
                Seq::empty(),
            );
            let (v, e, l) = choose|
                v: Seq<char>,
                e: Seq<crate::events::IbcEventView>,
                l: Seq<Seq<char>>,
            |
                after == #[trigger] channel::spec_store_channel(
                    channel::spec_new_channel(s, (m.port_id_on_a@, id)),
                    channel::Step::OpenInit,
                    (m.port_id_on_a@, id),
                    crate::channel::ChannelEndView { version: v, ..base },
                    e,
                    l,
                );
        },
        MsgEnvelope::Channel(ChannelMsg::OpenTry(m)) => {
            let id = channel::spec_try_validate_msg(before, m)->Ok_0;
            let base = channel::try_end(
                m.ordering,
                m.port_id_on_a@,
                m.chan_id_on_a,
                m.connection_hops_on_b@,
            );
            let (v, e, l) = choose|
                v: Seq<char>,
                e: Seq<crate::events::IbcEventView>,
                l: Seq<Seq<char>>,
            |
                after == #[trigger] channel::spec_store_channel(
                    channel::spec_new_channel(s, (m.port_id_on_b@, id)),
                    channel::Step::OpenTry,
                    (m.port_id_on_b@, id),
                    crate::channel::ChannelEndView { version: v, ..base },
                    e,
                    l,
                );
        },
        _ => {},
    }
    assert(after.events.subrange(0, s.events.len() as int) =~= s.events);
    assert(after.logs.subrange(0, s.logs.len() as int) =~= s.logs);
}

/// The port whose module a message goes to: for a message about a channel,
/// the port of the end that takes the step; for a packet, the port of the end
/// that handles it. A message about a client or a connection goes to none.
pub open spec fn spec_module_port(msg: MsgEnvelope) -> Option<PortId> {
    match msg {
        MsgEnvelope::Client(_) => None,
        MsgEnvelope::Connection(_) => None,
        MsgEnvelope::Channel(ChannelMsg::OpenInit(m)) => Some(m.port_id_on_a),
        MsgEnvelope::Channel(ChannelMsg::OpenTry(m)) => Some(m.port_id_on_b),
        MsgEnvelope::Channel(ChannelMsg::OpenAck(m)) => Some(m.port_id_on_a),
        MsgEnvelope::Channel(ChannelMsg::OpenConfirm(m)) => Some(m.port_id_on_b),
        MsgEnvelope::Channel(ChannelMsg::CloseInit(m)) => Some(m.port_id_on_a),
        MsgEnvelope::Channel(ChannelMsg::CloseConfirm(m)) => Some(m.port_id_on_b),
        MsgEnvelope::Packet(PacketMsg::Recv(m)) => Some(m.packet.port_id_on_b),
        MsgEnvelope::Packet(PacketMsg::Ack(m)) => Some(m.packet.port_id_on_a),
        MsgEnvelope::Packet(PacketMsg::Timeout(m)) => Some(m.packet.port_id_on_a),
        MsgEnvelope::Packet(PacketMsg::TimeoutOnClose(m)) => Some(m.packet.port_id_on_a),
    }
}

/// The port whose module a message goes to.
fn module_port(msg: &MsgEnvelope) -> (r: Option<&PortId>)
    ensures
        match r {
            Some(port) => spec_module_port(*msg) == Some(*port),
            None => spec_module_port(*msg) is None,
        },
        r is Some == (*msg is Channel || *msg is Packet),
{
    match msg {
        MsgEnvelope::Client(_) => None,
        MsgEnvelope::Connection(_) => None,
        MsgEnvelope::Channel(ChannelMsg::OpenInit(m)) => Some(&m.port_id_on_a),
        MsgEnvelope::Channel(ChannelMsg::OpenTry(m)) => Some(&m.port_id_on_b),
        MsgEnvelope::Channel(ChannelMsg::OpenAck(m)) => Some(&m.port_id_on_a),
        MsgEnvelope::Channel(ChannelMsg::OpenConfirm(m)) => Some(&m.port_id_on_b),
        MsgEnvelope::Channel(ChannelMsg::CloseInit(m)) => Some(&m.port_id_on_a),
        MsgEnvelope::Channel(ChannelMsg::CloseConfirm(m)) => Some(&m.port_id_on_b),
        MsgEnvelope::Packet(PacketMsg::Recv(m)) => Some(&m.packet.port_id_on_b),
        MsgEnvelope::Packet(PacketMsg::Ack(m)) => Some(&m.packet.port_id_on_a),
        MsgEnvelope::Packet(PacketMsg::Timeout(m)) => Some(&m.packet.port_id_on_a),
        MsgEnvelope::Packet(PacketMsg::TimeoutOnClose(m)) => Some(&m.packet.port_id_on_a),
    }
}

/// Whether the router, asked for the module bound to `port_id`, answers
/// `answer`.
pub open spec fn router_binds<R: Router>(
    router: &R,
    port_id: &PortId,
    answer: Option<ModuleId>,
) -> bool {
    call_ensures(R::lookup_module_by_port, (router, port_id), answer)
}

/// Whether the router, asked for the module registered under `module_id`,
/// answers `answer`.
pub open spec fn router_routes<R: Router>(
    router: &R,
    module_id: &ModuleId,
    answer: Option<&R::M>,
) -> bool {
    call_ensures(R::get_route, (router, module_id), answer)
}

/// How the handlers validate a message with the module `module`: a message
/// about a channel as `spec_channel_validated` says, one about a packet as
/// `spec_packet_validated` says, and any other by the engine's own checks.
pub open spec fn spec_handler_validated<Ctx: ValidationContext, M: crate::router::Module>(
    ctx: &Ctx,
    module: &M,
    msg: MsgEnvelope,
    said: Result<(), ContextError>,
) -> bool {
    match msg {
        MsgEnvelope::Channel(m) => spec_channel_validated(ctx, module, m, said),
        MsgEnvelope::Packet(m) => spec_packet_validated(ctx, module, m, said),
        _ => said == spec_validate(ctx, msg),
    }
}

/// How validation answers a message for which the router has found the
/// module `module`: with what the handlers say, an error of theirs as an
/// error of the handlers, not of the router.
pub open spec fn spec_module_validated<Ctx: ValidationContext, M: crate::router::Module>(
    ctx: &Ctx,
    module: &M,
    msg: MsgEnvelope,
    r: Result<(), RouterError>,
) -> bool {
    exists|said: Result<(), ContextError>|
        r == spec_routed(said) && #[trigger] spec_handler_validated(ctx, module, msg, said)
}

/// How validation answers a message that goes to the module registered under
/// `module_id`: where the router has no such module, with
/// `ModuleNotFound`; else as `spec_module_validated` says.
pub open spec fn spec_validated_by<Ctx: ValidationContext, R: Router>(
    ctx: &Ctx,
    router: &R,
    module_id: ModuleId,
    msg: MsgEnvelope,
    r: Result<(), RouterError>,
) -> bool {
    exists|route: Option<&R::M>| #[trigger]
        router_routes(router, &module_id, route) && match route {
            None => r == Err::<(), RouterError>(RouterError::ModuleNotFound),
            Some(module) => spec_module_validated(ctx, module, msg, r),
        }
}

/// How validation answers a message. One about a client or a connection is
/// valid exactly where the engine's own checks pass. One about a channel or a
/// packet goes to the router first: where no module is bound to the
/// message's port, the answer is `UnknownPort`; else as `spec_validated_by`
/// says of the module that the port is bound to.
pub open spec fn spec_validated<Ctx: ValidationContext, R: Router>(
    ctx: &Ctx,
    router: &R,
    msg: MsgEnvelope,
    r: Result<(), RouterError>,
) -> bool {
    match spec_module_port(msg) {
        None => r == spec_routed(spec_validate(ctx, msg)),
        Some(port) => exists|bound: Option<ModuleId>| #[trigger]
            router_binds(router, &port, bound) && match bound {
                None => r == Err::<(), RouterError>(RouterError::UnknownPort),
                Some(module_id) => spec_validated_by(ctx, router, module_id, msg, r),
            },
    }
}

/// The height that stands in where a step carries no proof.
fn no_proof_height() -> (r: Height)
    ensures
        r == (Height { revision_number: 0, revision_height: 1 }),
{
    Height::min(0)
}

/// The version that stands in where a step carries none.
fn no_version() -> (r: ChannelVersion)
    ensures
        r@ == Seq::<char>::empty(),
{
    ChannelVersion { name: String::new() }
}

/// How a later step of a handshake is validated with the module `module`:
/// where the engine's own checks fail, theirs is the answer; where they
/// pass, the module's callback for the step is asked, and its answer is the
/// answer, an error as an error of the channel layer.
pub open spec fn spec_later_validated<Ctx: ValidationContext, M: crate::router::Module>(
    ctx: &Ctx,
    module: &M,
    port_id: &PortId,
    channel_id: crate::identifier::ChannelId,
    advance: Advance,
    version_on_b: Seq<char>,
    proof: Seq<u8>,
    proof_height: Height,
    r: Result<(), ContextError>,
) -> bool {
    match channel::spec_advance_validate(
        ctx,
        (port_id@, channel_id),
        advance,
        version_on_b,
        proof,
        proof_height,
    ) {
        Err(failed) => r == Err::<(), ContextError>(failed),
        Ok(_) => exists|answer: Result<(), ChannelError>, version: ChannelVersion|
            {
                &&& version@ == version_on_b
                &&& #[trigger] channel::module_validates(
                    module,
                    port_id,
                    &channel_id,
                    advance,
                    &version,
                    answer,
                )
                &&& r == channel::spec_module_says(answer)
            },
    }
}

/// How a channel message is validated with the module `module`: where the
/// engine's own checks of the step fail, theirs is the answer; where they
/// pass, the module's callback for the step is asked, and the step is valid
/// where the module takes it, and the module's error comes back as an error
/// of the channel layer where it does not.
pub open spec fn spec_channel_validated<Ctx: ValidationContext, M: crate::router::Module>(
    ctx: &Ctx,
    module: &M,
    msg: ChannelMsg,
    r: Result<(), ContextError>,
) -> bool {
    match msg {
        ChannelMsg::OpenInit(m) => match channel::spec_init_validate(
            ctx.state(),
            m.connection_hops_on_a@,
            m.ordering,
        ) {
            Err(failed) => r == Err::<(), ContextError>(failed),
            Ok(id) => exists|answer: Result<ChannelVersion, ChannelError>|
                {
                    &&& #[trigger] channel::module_checks_opening(
                        module,
                        channel::Step::OpenInit,
                        m.ordering,
                        &m.connection_hops_on_a,
                        &m.port_id_on_a,
                        &id,
                        &(Counterparty { port_id: m.port_id_on_b, channel_id: None }),
                        &m.version_proposal,
                        answer,
                    )
                    &&& r == channel::taken(channel::spec_module_says(answer))
                },
        },
        ChannelMsg::OpenTry(m) => match channel::spec_try_validate_msg(ctx, m) {
            Err(failed) => r == Err::<(), ContextError>(failed),
            Ok(id) => exists|answer: Result<ChannelVersion, ChannelError>|
                {
                    &&& #[trigger] channel::module_checks_opening(
                        module,
                        channel::Step::OpenTry,
                        m.ordering,
                        &m.connection_hops_on_b,
                        &m.port_id_on_b,
                        &id,
                        &(Counterparty {
                            port_id: m.port_id_on_a,
                            channel_id: Some(m.chan_id_on_a),
                        }),
                        &m.version_supported_on_a,
                        answer,
                    )
                    &&& r == channel::taken(channel::spec_module_says(answer))
                },
        },
        ChannelMsg::OpenAck(m) => spec_later_validated(
            ctx,
            module,
            &m.port_id_on_a,
            m.chan_id_on_a,
            Advance::OpenAck(m.chan_id_on_b),
            m.version_on_b@,
            m.proof_chan_end_on_b@,
            m.proof_height_on_b,
            r,
        ),
        ChannelMsg::OpenConfirm(m) => spec_later_validated(
            ctx,
            module,
            &m.port_id_on_b,
            m.chan_id_on_b,
            Advance::OpenConfirm,
            Seq::empty(),
            m.proof_chan_end_on_a@,
            m.proof_height_on_a,
            r,
        ),
        ChannelMsg::CloseInit(m) => spec_later_validated(
            ctx,
            module,
            &m.port_id_on_a,
            m.chan_id_on_a,
            Advance::CloseInit,
            Seq::empty(),
            Seq::empty(),
            Height { revision_number: 0, revision_height: 1 },
            r,
        ),
        ChannelMsg::CloseConfirm(m) => spec_later_validated(
            ctx,
            module,
            &m.port_id_on_b,
            m.chan_id_on_b,
            Advance::CloseConfirm,
            Seq::empty(),
            m.proof_chan_end_on_a@,
            m.proof_height_on_a,
            r,
        ),
    }
}

/// Validates a channel message with the module bound to its port.
fn validate_channel<Ctx: ValidationContext, M: crate::router::Module>(
    ctx: &Ctx,
    module: &M,
    msg: &ChannelMsg,
) -> (r: Result<(), ContextError>)
    requires
        ctx.inv(),
    ensures
        spec_channel_validate(ctx, *msg) matches Err(e) ==> r == Err::<(), ContextError>(e),
        spec_channel_validated(ctx, module, *msg, r),
{
    match msg {
        ChannelMsg::OpenInit(m) => channel::chan_open_init_validate(ctx, module, m),
        ChannelMsg::OpenTry(m) => channel::chan_open_try_validate(ctx, module, m),
        ChannelMsg::OpenAck(m) => {
            let r = channel::advance_validate(
                ctx,
                module,
                &m.port_id_on_a,
                m.chan_id_on_a,
                Advance::OpenAck(m.chan_id_on_b),
                &m.version_on_b,
                &m.proof_chan_end_on_b,
                &m.proof_height_on_b,
            );
            proof {
                if spec_channel_validate(ctx, *msg) is Ok {
                    let answer = choose|answer: Result<(), ChannelError>|
                        {
                            &&& #[trigger] channel::module_validates(
                                module,
                                &m.port_id_on_a,
                                &m.chan_id_on_a,
                                Advance::OpenAck(m.chan_id_on_b),
                                &m.version_on_b,
                                answer,
                            )
                            &&& r == channel::spec_module_says(answer)
                        };
                }
                assert(spec_later_validated(
                    ctx,
                    module,
                    &m.port_id_on_a,
                    m.chan_id_on_a,
                    Advance::OpenAck(m.chan_id_on_b),
                    m.version_on_b@,
                    m.proof_chan_end_on_b@,
                    m.proof_height_on_b,
                    r,
                ));
            }
            r
        },
        ChannelMsg::OpenConfirm(m) => {
            let version = no_version();
            let r = channel::advance_validate(
                ctx,
                module,
                &m.port_id_on_b,
                m.chan_id_on_b,
                Advance::OpenConfirm,
                &version,
                &m.proof_chan_end_on_a,
                &m.proof_height_on_a,
            );
            proof {
                if spec_channel_validate(ctx, *msg) is Ok {
                    let answer = choose|answer: Result<(), ChannelError>|
                        {
                            &&& #[trigger] channel::module_validates(
                                module,
                                &m.port_id_on_b,
                                &m.chan_id_on_b,
                                Advance::OpenConfirm,
                                &version,
                                answer,
                            )
                            &&& r == channel::spec_module_says(answer)
                        };
                }
                assert(spec_later_validated(
                    ctx,
                    module,
                    &m.port_id_on_b,
                    m.chan_id_on_b,
                    Advance::OpenConfirm,
                    Seq::empty(),
                    m.proof_chan_end_on_a@,
                    m.proof_height_on_a,
                    r,
                ));
            }
            r
        },
        ChannelMsg::CloseInit(m) => {
            let version = no_version();
            let r = channel::advance_validate(
                ctx,
                module,
                &m.port_id_on_a,
                m.chan_id_on_a,
                Advance::CloseInit,
                &version,
                &Vec::new(),
                &no_proof_height(),
            );
            proof {
                if spec_channel_validate(ctx, *msg) is Ok {
                    let answer = choose|answer: Result<(), ChannelError>|
                        {
                            &&& #[trigger] channel::module_validates(
                                module,
                                &m.port_id_on_a,
                                &m.chan_id_on_a,
                                Advance::CloseInit,
                                &version,
                                answer,
                            )
                            &&& r == channel::spec_module_says(answer)
                        };
                }
                assert(spec_later_validated(
                    ctx,
                    module,
                    &m.port_id_on_a,
                    m.chan_id_on_a,
                    Advance::CloseInit,
                    Seq::empty(),
                    Seq::empty(),
                    Height { revision_number: 0, revision_height: 1 },
                    r,
                ));
            }
            r
        },
        ChannelMsg::CloseConfirm(m) => {
            let version = no_version();
            let r = channel::advance_validate(
                ctx,
                module,
                &m.port_id_on_b,
                m.chan_id_on_b,
                Advance::CloseConfirm,
                &version,
                &m.proof_chan_end_on_a,
                &m.proof_height_on_a,
            );
            proof {
                if spec_channel_validate(ctx, *msg) is Ok {
                    let answer = choose|answer: Result<(), ChannelError>|
                        {
                            &&& #[trigger] channel::module_validates(
                                module,
                                &m.port_id_on_b,
                                &m.chan_id_on_b,
                                Advance::CloseConfirm,
                                &version,
                                answer,
                            )
                            &&& r == channel::spec_module_says(answer)
                        };
                }
                assert(spec_later_validated(
                    ctx,
                    module,
                    &m.port_id_on_b,
                    m.chan_id_on_b,
                    Advance::CloseConfirm,
                    Seq::empty(),
                    m.proof_chan_end_on_a@,
                    m.proof_height_on_a,
                    r,
                ));
            }
            r
        },
    }
}

/// How a packet message is validated with the module `module`: where the
/// engine's own checks fail, theirs is the answer. Where they pass, a packet
/// that is received is valid; for an acknowledgement or a timeout the
/// module's callback is asked, and the message is valid where the module
/// takes it, and the module's error comes back as an error of the packet
/// layer where it does not.
pub open spec fn spec_packet_validated<Ctx: ValidationContext, M: crate::router::Module>(
    ctx: &Ctx,
    module: &M,
    msg: PacketMsg,
    r: Result<(), ContextError>,
) -> bool {
    match spec_packet_validate(ctx, msg) {
        Err(failed) => r == Err::<(), ContextError>(failed),
        Ok(_) => match msg {
            PacketMsg::Recv(_) => r is Ok,
            PacketMsg::Ack(m) => exists|answer: Result<(), PacketError>|
                {
                    &&& #[trigger] acknowledgement::module_checks_ack(
                        module,
                        &m.packet,
                        &m.acknowledgement,
                        &m.signer,
                        answer,
                    )
                    &&& r == spec_module_verdict(answer)
                },
            PacketMsg::Timeout(m) => exists|answer: Result<(), PacketError>|
                {
                    &&& #[trigger] timeout::module_checks_timeout(
                        module,
                        &m.packet,
                        &m.signer,
                        answer,
                    )
                    &&& r == spec_module_verdict(answer)
                },
            PacketMsg::TimeoutOnClose(m) => exists|answer: Result<(), PacketError>|
                {
                    &&& #[trigger] timeout::module_checks_timeout(
                        module,
                        &m.packet,
                        &m.signer,
                        answer,
                    )
                    &&& r == spec_module_verdict(answer)
                },
        },
    }
}

/// Validates a packet message with the module bound to its port.
fn validate_packet<Ctx: ValidationContext, M: crate::router::Module>(
    ctx: &Ctx,
    module: &M,
    msg: &PacketMsg,
) -> (r: Result<(), ContextError>)
    requires
        ctx.inv(),
    ensures
        spec_packet_validate(ctx, *msg) matches Err(e) ==> r == Err::<(), ContextError>(e),
        *msg is Recv ==> r == spec_packet_validate(ctx, *msg),
        spec_packet_validated(ctx, module, *msg, r),
{
    match msg {
        PacketMsg::Recv(m) => recv_packet::validate(ctx, m),
        PacketMsg::Ack(m) => acknowledgement::validate(ctx, module, m),
        PacketMsg::Timeout(m) => timeout::validate(ctx, module, m),
        PacketMsg::TimeoutOnClose(m) => timeout::validate_on_close(ctx, module, m),
    }
}

/// Validates a message. The host's state is only read. Where the engine's
/// own checks fail, the message is turned down with their error. A message
/// about a channel or a packet is also turned down where no module is bound
/// to its port, and where the module turns it down. What the router and the
/// module are asked, and what each of their answers leads to, is what
/// `spec_validated` says.
pub fn validate<Ctx: ValidationContext, R: Router>(ctx: &Ctx, router: &R, msg: &MsgEnvelope) -> (r:
    Result<(), RouterError>)
    requires
        ctx.inv(),
    ensures
        r is Ok ==> spec_validate(ctx, *msg) is Ok,
        (*msg is Client || *msg is Connection) ==> r == spec_routed(spec_validate(ctx, *msg)),
        spec_validate(ctx, *msg) matches Err(failed) ==> spec_turned_down(failed, r),
        spec_validated(ctx, router, *msg, r),
{
    match msg {
        MsgEnvelope::Client(ClientMsg::CreateClient(m)) => routed(client::create_validate(ctx, m)),
        MsgEnvelope::Client(ClientMsg::UpdateClient(m)) => routed(client::update_validate(ctx, m)),
        MsgEnvelope::Connection(ConnectionMsg::OpenInit(m)) => routed(
            connection::conn_open_init_validate(ctx, m),
        ),
        MsgEnvelope::Connection(ConnectionMsg::OpenTry(m)) => routed(
            connection::conn_open_try_validate(ctx, m),
        ),
        MsgEnvelope::Connection(ConnectionMsg::OpenAck(m)) => routed(
            connection::conn_open_ack_validate(ctx, m),
        ),
        MsgEnvelope::Connection(ConnectionMsg::OpenConfirm(m)) => routed(
            connection::conn_open_confirm_validate(ctx, m),
        ),
        MsgEnvelope::Channel(m) => {
            let port = match module_port(msg) {
                Some(port) => port,
                None => {
                    return Err(RouterError::UnknownPort);
                },
            };
            let bound = router.lookup_module_by_port(port);
            assert(router_binds(router, &spec_module_port(*msg)->Some_0, bound));
            let module_id = match bound {
                Some(id) => id,
                None => {
                    return Err(RouterError::UnknownPort);
                },
            };
            let route = router.get_route(&module_id);
            assert(router_routes(router, &module_id, route));
            let r = match route {
                Some(module) => {
                    let said = validate_channel(ctx, module, m);
                    assert(spec_handler_validated(ctx, module, *msg, said));
                    routed(said)
                },
                None => Err(RouterError::ModuleNotFound),
            };
            assert(spec_validated_by(ctx, router, module_id, *msg, r));
            r
        },
        MsgEnvelope::Packet(m) => {
            let port = match module_port(msg) {
                Some(port) => port,
                None => {
                    return Err(RouterError::UnknownPort);
                },
            };
            let bound = router.lookup_module_by_port(port);
            assert(router_binds(router, &spec_module_port(*msg)->Some_0, bound));
            let module_id = match bound {
                Some(id) => id,
                None => {
                    return Err(RouterError::UnknownPort);
                },
            };
            let route = router.get_route(&module_id);
            assert(router_routes(router, &module_id, route));
            let r = match route {
                Some(module) => {
                    let said = validate_packet(ctx, module, m);
                    assert(spec_handler_validated(ctx, module, *msg, said));
                    routed(said)
                },
                None => Err(RouterError::ModuleNotFound),
            };
            assert(spec_validated_by(ctx, router, module_id, *msg, r));
            r
        },
    }
}

/// Whether the module was asked to execute a later step of a handshake
/// whose checks passed, and `r` and `after` are what its answer comes to.
pub open spec fn spec_later_executed<Ctx: ValidationContext, M: crate::router::Module>(
    before: &Ctx,
    asked: &mut M,
    port_id: &PortId,
    channel_id: crate::identifier::ChannelId,
    advance: Advance,
    version_on_b: Seq<char>,
    proof: Seq<u8>,
    proof_height: Height,
    r: Result<(), ContextError>,
    after: HostState,
) -> bool {
    match channel::spec_advance_validate(
        before,
        (port_id@, channel_id),
        advance,
        version_on_b,
        proof,
        proof_height,
    ) {
        Err(_) => false,
        Ok(end) => exists|answer: Result<ModuleExtras, ChannelError>, version: ChannelVersion|
            {
                &&& version@ == version_on_b
                &&& #[trigger] channel::module_executes(
                    asked,
                    port_id,
                    &channel_id,
                    advance,
                    &version,
                    answer,
                )
                &&& channel::spec_advanced(
                    before.state(),
                    advance.step(),
                    (port_id@, channel_id),
                    end,
                    answer,
                    r,
                    after,
                )
            },
    }
}

/// Whether the module was asked to execute the step of a channel message
/// whose checks passed, and `r` and `after` are what its answer comes to:
/// where the module takes the step, `r` is `Ok` and `after` is the state with
/// the channel end stored, the step reported and what the module handed over;
/// where it turns the step down, `r` is its error and `after` is the state
/// from before. `asked` is the module as its callback takes it and leaves it.
pub open spec fn spec_channel_executed<Ctx: ValidationContext, M: crate::router::Module>(
    before: &Ctx,
    asked: &mut M,
    msg: ChannelMsg,
    r: Result<(), ContextError>,
    after: HostState,
) -> bool {
    let s = before.state();
    match msg {
        ChannelMsg::OpenInit(m) => match channel::spec_init_validate(
            s,
            m.connection_hops_on_a@,
            m.ordering,
        ) {
            Err(_) => false,
            Ok(id) => exists|answer: Result<(ModuleExtras, ChannelVersion), ChannelError>|
                {
                    &&& #[trigger] channel::module_opens(
                        asked,
                        channel::Step::OpenInit,
                        m.ordering,
                        &m.connection_hops_on_a,
                        &m.port_id_on_a,
                        &id,
                        &(Counterparty { port_id: m.port_id_on_b, channel_id: None }),
                        &m.version_proposal,
                        answer,
                    )
                    &&& channel::spec_opened_by(
                        s,
                        channel::Step::OpenInit,
                        (m.port_id_on_a@, id),
                        channel::init_end(
                            m.ordering,
                            m.port_id_on_b@,
                            m.connection_hops_on_a@,
                            Seq::empty(),
                        ),
                        answer,
                        r,
                        after,
                    )
                },
        },
        ChannelMsg::OpenTry(m) => match channel::spec_try_validate_msg(before, m) {
            Err(_) => false,
            Ok(id) => exists|answer: Result<(ModuleExtras, ChannelVersion), ChannelError>|
                {
                    &&& #[trigger] channel::module_opens(
                        asked,
                        channel::Step::OpenTry,
                        m.ordering,
                        &m.connection_hops_on_b,
                        &m.port_id_on_b,
                        &id,
                        &(Counterparty {
                            port_id: m.port_id_on_a,
                            channel_id: Some(m.chan_id_on_a),
                        }),
                        &m.version_supported_on_a,
                        answer,
                    )
                    &&& channel::spec_opened_by(
                        s,
                        channel::Step::OpenTry,
                        (m.port_id_on_b@, id),
                        channel::try_end(
                            m.ordering,
                            m.port_id_on_a@,
                            m.chan_id_on_a,
                            m.connection_hops_on_b@,
                        ),
                        answer,
                        r,
                        after,
                    )
                },
        },
        ChannelMsg::OpenAck(m) => spec_later_executed(
            before,
            asked,
            &m.port_id_on_a,
            m.chan_id_on_a,
            Advance::OpenAck(m.chan_id_on_b),
            m.version_on_b@,
            m.proof_chan_end_on_b@,
            m.proof_height_on_b,
            r,
            after,
        ),
        ChannelMsg::OpenConfirm(m) => spec_later_executed(
            before,
            asked,
            &m.port_id_on_b,
            m.chan_id_on_b,
            Advance::OpenConfirm,
            Seq::empty(),
            m.proof_chan_end_on_a@,
            m.proof_height_on_a,
            r,
            after,
        ),
        ChannelMsg::CloseInit(m) => spec_later_executed(
            before,
            asked,
            &m.port_id_on_a,
            m.chan_id_on_a,
            Advance::CloseInit,
            Seq::empty(),
            Seq::empty(),
            Height { revision_number: 0, revision_height: 1 },
            r,
            after,
        ),
        ChannelMsg::CloseConfirm(m) => spec_later_executed(
            before,
            asked,
            &m.port_id_on_b,
            m.chan_id_on_b,
            Advance::CloseConfirm,
            Seq::empty(),
            m.proof_chan_end_on_a@,
            m.proof_height_on_a,
            r,
            after,
        ),
    }
}

/// Executes a channel message with the module bound to its port. Where the
/// engine's own checks of the step fail, their error comes back, and the
/// module is not asked and is left as it was. Where they pass, the module's
/// callback for the step is asked once, and its answer decides: either it
/// turns the step down, and its error comes back as an error of the channel
/// layer, or the step is taken. A step that is not taken changes nothing in
/// the host's state.
fn execute_channel<Ctx: ExecutionContext, M: crate::router::Module>(
    ctx: &mut Ctx,
    module: &mut M,
    msg: ChannelMsg,
) -> (r: Result<(), ContextError>)
    requires
        old(ctx).inv(),
    ensures
        final(ctx).inv(),
        final(ctx).host_side() == old(ctx).host_side(),
        match r {
            Err(e) => final(ctx).state() == old(ctx).state() && match spec_channel_validate(
                &*old(ctx),
                msg,
            ) {
                Err(failed) => e == failed,
                Ok(_) => e is Channel,
            },
            Ok(_) => spec_channel_validate(&*old(ctx), msg) is Ok && spec_channel_effect(
                &*old(ctx),
                msg,
                final(ctx).state(),
            ),
        },
        spec_channel_validate(&*old(ctx), msg) is Err ==> *final(module) == *old(module),
        spec_channel_validate(&*old(ctx), msg) is Ok ==> exists|asked: &mut M|
            {
                &&& mut_ref_current(asked) == *old(module)
                &&& mut_ref_future(asked) == *final(module)
                &&& #[trigger] spec_channel_executed(
                    &*old(ctx),
                    asked,
                    msg,
                    r,
                    final(ctx).state(),
                )
            },
{
    let ghost before = *module;
    match msg {
        ChannelMsg::OpenInit(m) => {
            let r = unit_of(channel::chan_open_init_execute(ctx, module, m));
            proof {
                if spec_channel_validate(&*old(ctx), msg) is Ok {
                    let id = channel::spec_init_validate(
                        old(ctx).state(),
                        m.connection_hops_on_a@,
                        m.ordering,
                    )->Ok_0;
                    let (asked, answer) = choose|
                        asked: &mut M,
                        answer: Result<(ModuleExtras, ChannelVersion), ChannelError>,
                    |
                        {
                            &&& mut_ref_current(asked) == before
                            &&& mut_ref_future(asked) == *module
                            &&& #[trigger] channel::module_opens(
                                asked,
                                channel::Step::OpenInit,
                                m.ordering,
                                &m.connection_hops_on_a,
                                &m.port_id_on_a,
                                &id,
                                &(Counterparty { port_id: m.port_id_on_b, channel_id: None }),
                                &m.version_proposal,
                                answer,
                            )
                            &&& channel::spec_opened_by(
                                old(ctx).state(),
                                channel::Step::OpenInit,
                                (m.port_id_on_a@, id),
                                channel::init_end(
                                    m.ordering,
                                    m.port_id_on_b@,
                                    m.connection_hops_on_a@,
                                    Seq::empty(),
                                ),
                                answer,
                                r,
                                ctx.state(),
                            )
                        };
                    assert(spec_channel_executed(&*old(ctx), asked, msg, r, ctx.state()));
                }
            }
            r
        },
        ChannelMsg::OpenTry(m) => {
            let r = unit_of(channel::chan_open_try_execute(ctx, module, m));
            proof {
                if spec_channel_validate(&*old(ctx), msg) is Ok {
                    let id = channel::spec_try_validate_msg(&*old(ctx), m)->Ok_0;
                    let (asked, answer) = choose|
                        asked: &mut M,
                        answer: Result<(ModuleExtras, ChannelVersion), ChannelError>,
                    |
                        {
                            &&& mut_ref_current(asked) == before
                            &&& mut_ref_future(asked) == *module
                            &&& #[trigger] channel::module_opens(
                                asked,
                                channel::Step::OpenTry,
                                m.ordering,
                                &m.connection_hops_on_b,
                                &m.port_id_on_b,
                                &id,
                                &(Counterparty {
                                    port_id: m.port_id_on_a,
                                    channel_id: Some(m.chan_id_on_a),
                                }),
                                &m.version_supported_on_a,
                                answer,
                            )
                            &&& channel::spec_opened_by(
                                old(ctx).state(),
                                channel::Step::OpenTry,
                                (m.port_id_on_b@, id),
                                channel::try_end(
                                    m.ordering,
                                    m.port_id_on_a@,
                                    m.chan_id_on_a,
                                    m.connection_hops_on_b@,
                                ),
                                answer,
                                r,
                                ctx.state(),
                            )
                        };
                    assert(spec_channel_executed(&*old(ctx), asked, msg, r, ctx.state()));
                }
            }
            r
        },
        ChannelMsg::OpenAck(m) => {
            let r = channel::advance_execute(
                ctx,
                module,
                &m.port_id_on_a,
                m.chan_id_on_a,
                Advance::OpenAck(m.chan_id_on_b),
                &m.version_on_b,
                &m.proof_chan_end_on_b,
                &m.proof_height_on_b,
            );
            proof {
                if spec_channel_validate(&*old(ctx), msg) is Ok {
                    let (asked, answer) = choose|
                        asked: &mut M,
                        answer: Result<ModuleExtras, ChannelError>,
                    |
                        {
                            &&& mut_ref_current(asked) == before
                            &&& mut_ref_future(asked) == *module
                            &&& #[trigger] channel::module_executes(
                                asked,
                                &m.port_id_on_a,
                                &m.chan_id_on_a,
                                Advance::OpenAck(m.chan_id_on_b),
                                &m.version_on_b,
                                answer,
                            )
                            &&& channel::spec_advanced(
                                old(ctx).state(),
                                (Advance::OpenAck(m.chan_id_on_b)).step(),
                                (m.port_id_on_a@, m.chan_id_on_a),
                                channel::spec_advance_validate(
                                    &*old(ctx),
                                    (m.port_id_on_a@, m.chan_id_on_a),
                                    Advance::OpenAck(m.chan_id_on_b),
                                    m.version_on_b@,
                                    m.proof_chan_end_on_b@,
                                    m.proof_height_on_b,
                                )->Ok_0,
                                answer,
                                r,
                                ctx.state(),
                            )
                        };
                    assert(spec_later_executed(
                        &*old(ctx),
                        asked,
                        &m.port_id_on_a,
                        m.chan_id_on_a,
                        Advance::OpenAck(m.chan_id_on_b),
                        m.version_on_b@,
                        m.proof_chan_end_on_b@,
                        m.proof_height_on_b,
                        r,
                        ctx.state(),
                    ));
                    assert(spec_channel_executed(&*old(ctx), asked, msg, r, ctx.state()));
                }
            }
            r
        },
        ChannelMsg::OpenConfirm(m) => {
            let version = no_version();
            let r = channel::advance_execute(
                ctx,
                module,
                &m.port_id_on_b,
                m.chan_id_on_b,
                Advance::OpenConfirm,
                &version,
                &m.proof_chan_end_on_a,
                &m.proof_height_on_a,
            );
            proof {
                if spec_channel_validate(&*old(ctx), msg) is Ok {
                    let (asked, answer) = choose|
                        asked: &mut M,
                        answer: Result<ModuleExtras, ChannelError>,
                    |
                        {
                            &&& mut_ref_current(asked) == before
                            &&& mut_ref_future(asked) == *module
                            &&& #[trigger] channel::module_executes(
                                asked,
                                &m.port_id_on_b,
                                &m.chan_id_on_b,
                                Advance::OpenConfirm,
                                &version,
                                answer,
                            )
                            &&& channel::spec_advanced(
                                old(ctx).state(),
                                (Advance::OpenConfirm).step(),
                                (m.port_id_on_b@, m.chan_id_on_b),
                                channel::spec_advance_validate(
                                    &*old(ctx),
                                    (m.port_id_on_b@, m.chan_id_on_b),
                                    Advance::OpenConfirm,
                                    Seq::empty(),
                                    m.proof_chan_end_on_a@,
                                    m.proof_height_on_a,
                                )->Ok_0,
                                answer,
                                r,
                                ctx.state(),
                            )
                        };
                    assert(spec_later_executed(
                        &*old(ctx),
                        asked,
                        &m.port_id_on_b,
                        m.chan_id_on_b,
                        Advance::OpenConfirm,
                        Seq::empty(),
                        m.proof_chan_end_on_a@,
                        m.proof_height_on_a,
                        r,
                        ctx.state(),
                    ));
                    assert(spec_channel_executed(&*old(ctx), asked, msg, r, ctx.state()));
                }
            }
            r
        },
        ChannelMsg::CloseInit(m) => {
            let version = no_version();
            let r = channel::advance_execute(
                ctx,
                module,
                &m.port_id_on_a,
                m.chan_id_on_a,
                Advance::CloseInit,
                &version,
                &Vec::new(),
                &no_proof_height(),
            );
            proof {
                if spec_channel_validate(&*old(ctx), msg) is Ok {
                    let (asked, answer) = choose|
                        asked: &mut M,
                        answer: Result<ModuleExtras, ChannelError>,
                    |
                        {
                            &&& mut_ref_current(asked) == before
                            &&& mut_ref_future(asked) == *module
                            &&& #[trigger] channel::module_executes(
                                asked,
                                &m.port_id_on_a,
                                &m.chan_id_on_a,
                                Advance::CloseInit,
                                &version,
                                answer,
                            )
                            &&& channel::spec_advanced(
                                old(ctx).state(),
                                (Advance::CloseInit).step(),
                                (m.port_id_on_a@, m.chan_id_on_a),
                                channel::spec_advance_validate(
                                    &*old(ctx),
                                    (m.port_id_on_a@, m.chan_id_on_a),
                                    Advance::CloseInit,
                                    Seq::empty(),
                                    Seq::empty(),
                                    Height { revision_number: 0, revision_height: 1 },
                                )->Ok_0,
                                answer,
                                r,
                                ctx.state(),
                            )
                        };
                    assert(spec_later_executed(
                        &*old(ctx),
                        asked,
                        &m.port_id_on_a,
                        m.chan_id_on_a,
                        Advance::CloseInit,
                        Seq::empty(),
                        Seq::empty(),
                        Height { revision_number: 0, revision_height: 1 },
                        r,
                        ctx.state(),
                    ));
                    assert(spec_channel_executed(&*old(ctx), asked, msg, r, ctx.state()));
                }
            }
            r
        },
        ChannelMsg::CloseConfirm(m) => {
            let version = no_version();
            let r = channel::advance_execute(
                ctx,
                module,
                &m.port_id_on_b,
                m.chan_id_on_b,
                Advance::CloseConfirm,
                &version,
                &m.proof_chan_end_on_a,
                &m.proof_height_on_a,
            );
            proof {
                if spec_channel_validate(&*old(ctx), msg) is Ok {
                    let (asked, answer) = choose|
                        asked: &mut M,
                        answer: Result<ModuleExtras, ChannelError>,
                    |
                        {
                            &&& mut_ref_current(asked) == before
                            &&& mut_ref_future(asked) == *module
                            &&& #[trigger] channel::module_executes(
                                asked,
                                &m.port_id_on_b,
                                &m.chan_id_on_b,
                                Advance::CloseConfirm,
                                &version,
                                answer,
                            )
                            &&& channel::spec_advanced(
                                old(ctx).state(),
                                (Advance::CloseConfirm).step(),
                                (m.port_id_on_b@, m.chan_id_on_b),
                                channel::spec_advance_validate(
                                    &*old(ctx),
                                    (m.port_id_on_b@, m.chan_id_on_b),
                                    Advance::CloseConfirm,
                                    Seq::empty(),
                                    m.proof_chan_end_on_a@,
                                    m.proof_height_on_a,
                                )->Ok_0,
                                answer,
                                r,
                                ctx.state(),
                            )
                        };
                    assert(spec_later_executed(
                        &*old(ctx),
                        asked,
                        &m.port_id_on_b,
                        m.chan_id_on_b,
                        Advance::CloseConfirm,
                        Seq::empty(),
                        m.proof_chan_end_on_a@,
                        m.proof_height_on_a,
                        r,
                        ctx.state(),
                    ));
                    assert(spec_channel_executed(&*old(ctx), asked, msg, r, ctx.state()));
                }
            }
            r
        },
    }
}

/// Drops what a result holds on success.
pub fn unit_of<T>(r: Result<T, ContextError>) -> (out: Result<(), ContextError>)
    ensures
        out == unit(r),
{
    match r {
        Ok(_) => Ok(()),
        Err(e) => Err(e),
    }
}

/// Whether the router, asked for the module registered under `module_id`
/// in order to change it, answers `answer`. `asked` is the router as the
/// question takes it and leaves it.
pub open spec fn router_routes_mut<R: Router>(
    asked: &mut R,
    module_id: &ModuleId,
    answer: Option<&mut R::M>,
) -> bool {
    call_ensures(R::get_route_mut, (asked, module_id), answer)
}

/// How a packet message is executed with the module `module`, in the state
/// `s`. Where the packet cannot be settled, the error that says why comes
/// back and nothing is changed. Where it can, the module's callback is asked
/// once. A packet that is received is then stored and reported with the
/// acknowledgement that the module answered with. An acknowledgement or a
/// timeout is taken where the module takes it, and the module's error comes
/// back as an error of the packet layer, with nothing changed, where it does
/// not.
pub open spec fn spec_packet_executed<M: crate::router::Module>(
    s: HostState,
    module: M,
    msg: PacketMsg,
    r: Result<(), ContextError>,
    after: HostState,
) -> bool {
    match msg {
        PacketMsg::Recv(m) => match recv_packet::spec_recv_execute_check(s, m.packet@) {
            Err(failed) => r == Err::<(), ContextError>(failed) && after == s,
            Ok((ordering, connection_id)) => r is Ok && exists|
                asked: &mut M,
                answer: (ModuleExtras, Acknowledgement),
            |
                {
                    &&& mut_ref_current(asked) == module
                    &&& #[trigger] recv_packet::module_receives(
                        asked,
                        &m.packet,
                        &m.signer,
                        answer,
                    )
                    &&& after == recv_packet::spec_recv_apply(
                        s,
                        m.packet@,
                        ordering,
                        connection_id,
                        answer.1@,
                        module_events_view(answer.0.events@),
                        logs_view(answer.0.log@),
                    )
                },
        },
        PacketMsg::Ack(m) => match acknowledgement::spec_ack_execute_check(s, m.packet@) {
            Err(failed) => r == Err::<(), ContextError>(failed) && after == s,
            Ok((ordering, connection_id)) => exists|
                asked: &mut M,
                answer: (ModuleExtras, Result<(), PacketError>),
            |
                {
                    &&& mut_ref_current(asked) == module
                    &&& #[trigger] acknowledgement::module_acknowledges(
                        asked,
                        &m.packet,
                        &m.acknowledgement,
                        &m.signer,
                        answer,
                    )
                    &&& acknowledgement::spec_acknowledged_by(
                        s,
                        m.packet@,
                        ordering,
                        connection_id,
                        answer,
                        r,
                        after,
                    )
                },
        },
        PacketMsg::Timeout(m) => match timeout::spec_timeout_execute_check(s, m.packet@) {
            Err(failed) => r == Err::<(), ContextError>(failed) && after == s,
            Ok((end, connection_id)) => exists|
                asked: &mut M,
                answer: (ModuleExtras, Result<(), PacketError>),
            |
                {
                    &&& mut_ref_current(asked) == module
                    &&& #[trigger] timeout::module_times_out(asked, &m.packet, &m.signer, answer)
                    &&& timeout::spec_timed_out_by(
                        s,
                        m.packet@,
                        end,
                        connection_id,
                        answer,
                        r,
                        after,
                    )
                },
        },
        PacketMsg::TimeoutOnClose(m) => match timeout::spec_timeout_execute_check(s, m.packet@) {
            Err(failed) => r == Err::<(), ContextError>(failed) && after == s,
            Ok((end, connection_id)) => exists|
                asked: &mut M,
                answer: (ModuleExtras, Result<(), PacketError>),
            |
                {
                    &&& mut_ref_current(asked) == module
                    &&& #[trigger] timeout::module_times_out(asked, &m.packet, &m.signer, answer)
                    &&& timeout::spec_timed_out_by(
                        s,
                        m.packet@,
                        end,
                        connection_id,
                        answer,
                        r,
                        after,
                    )
                },
        },
    }
}

/// How the handlers execute a message with the module `module`. A message
/// about a channel that fails the engine's own checks comes back with their
/// error, and nothing is changed; one that passes them is put to the module,
/// as `spec_channel_executed` says. A message about a packet is executed as
/// `spec_packet_executed` says.
pub open spec fn spec_handler_executed<Ctx: ValidationContext, M: crate::router::Module>(
    before: &Ctx,
    module: M,
    msg: MsgEnvelope,
    said: Result<(), ContextError>,
    after: HostState,
) -> bool {
    match msg {
        MsgEnvelope::Channel(m) => match spec_channel_validate(before, m) {
            Err(failed) => said == Err::<(), ContextError>(failed) && after == before.state(),
            Ok(_) => exists|asked: &mut M|
                mut_ref_current(asked) == module && #[trigger] spec_channel_executed(
                    before,
                    asked,
                    m,
                    said,
                    after,
                ),
        },
        MsgEnvelope::Packet(m) => spec_packet_executed(before.state(), module, m, said, after),
        _ => said == spec_execute_check(before, msg),
    }
}

/// How execution answers a message for which the router has found the module
/// `module`: with what the handlers say, an error of theirs as an error of
/// the handlers, not of the router.
pub open spec fn spec_module_executed<Ctx: ValidationContext, M: crate::router::Module>(
    before: &Ctx,
    module: M,
    msg: MsgEnvelope,
    r: Result<(), RouterError>,
    after: HostState,
) -> bool {
    exists|said: Result<(), ContextError>|
        r == spec_routed(said) && #[trigger] spec_handler_executed(before, module, msg, said, after)
}

/// How execution answers a message that goes to the module registered under
/// `module_id`: where the router has no such module, with
/// `ModuleNotFound`; else as `spec_module_executed` says.
pub open spec fn spec_executed_by<Ctx: ValidationContext, R: Router>(
    before: &Ctx,
    router: &R,
    module_id: ModuleId,
    msg: MsgEnvelope,
    r: Result<(), RouterError>,
    after: HostState,
) -> bool {
    exists|asked: &mut R, route: Option<&mut R::M>|
        {
            &&& mut_ref_current(asked) == *router
            &&& #[trigger] router_routes_mut(asked, &module_id, route)
            &&& match route {
                None => r == Err::<(), RouterError>(RouterError::ModuleNotFound),
                Some(module) => spec_module_executed(
                    before,
                    mut_ref_current(module),
                    msg,
                    r,
                    after,
                ),
            }
        }
}

/// How execution answers a message. One about a client or a connection is
/// taken exactly where the engine's own checks pass. One about a channel or a
/// packet goes to the router first: where no module is bound to the
/// message's port, the answer is `UnknownPort`; else as `spec_executed_by`
/// says of the module that the port is bound to.
pub open spec fn spec_executed<Ctx: ValidationContext, R: Router>(
    before: &Ctx,
    router: &R,
    msg: MsgEnvelope,
    r: Result<(), RouterError>,
    after: HostState,
) -> bool {
    match spec_module_port(msg) {
        None => r == spec_routed(spec_execute_check(before, msg)),
        Some(port) => exists|bound: Option<ModuleId>| #[trigger]
            router_binds(router, &port, bound) && match bound {
                None => r == Err::<(), RouterError>(RouterError::UnknownPort),
                Some(module_id) => spec_executed_by(before, router, module_id, msg, r, after),
            },
    }
}

/// Executes a message. Where the message is turned down, nothing is
/// changed; where it is taken, the state is one that the message's handler
/// leads to. A message about a channel or a packet is also turned down where
/// no module is bound to its port. What the router and the module are asked,
/// and what each of their answers leads to, is what `spec_executed` says. The
/// router is left as it was by a message about a client or a connection, and
/// where no module is bound to the port.
pub fn execute<Ctx: ExecutionContext, R: Router>(ctx: &mut Ctx, router: &mut R, msg: MsgEnvelope) -> (r:
    Result<(), RouterError>)
    requires
        old(ctx).inv(),
    ensures
        final(ctx).inv(),
        final(ctx).host_side() == old(ctx).host_side(),
        r is Err ==> final(ctx).state() == old(ctx).state(),
        r is Ok ==> spec_effect(&*old(ctx), msg, final(ctx).state()),
        msg is Client || msg is Connection ==> r == spec_routed(
            spec_execute_check(&*old(ctx), msg),
        ),
        spec_executed(&*old(ctx), &*old(router), msg, r, final(ctx).state()),
        msg is Client || msg is Connection || r == Err::<(), RouterError>(RouterError::UnknownPort)
            ==> *final(router) == *old(router),
{
    let bound = match module_port(&msg) {
        Some(port) => {
            let bound = router.lookup_module_by_port(port);
            assert(router_binds(&*old(router), &spec_module_port(msg)->Some_0, bound));
            bound
        },
        None => None,
    };
    match msg {
        MsgEnvelope::Client(ClientMsg::CreateClient(m)) => routed(client::create_execute(ctx, m)),
        MsgEnvelope::Client(ClientMsg::UpdateClient(m)) => routed(client::update_execute(ctx, m)),
        MsgEnvelope::Connection(ConnectionMsg::OpenInit(m)) => routed(
            connection::conn_open_init_execute(ctx, m),
        ),
        MsgEnvelope::Connection(ConnectionMsg::OpenTry(m)) => routed(
            connection::conn_open_try(ctx, m),
        ),
        MsgEnvelope::Connection(ConnectionMsg::OpenAck(m)) => routed(
            connection::conn_open_ack(ctx, m),
        ),
        MsgEnvelope::Connection(ConnectionMsg::OpenConfirm(m)) => routed(
            connection::conn_open_confirm(ctx, m),
        ),
        MsgEnvelope::Channel(m) => {
            let id = match bound {
                Some(id) => id,
                None => {
                    return Err(RouterError::UnknownPort);
                },
            };
            let route = router.get_route_mut(&id);
            proof {
                let asked = choose|asked: &mut R|
                    mut_ref_current(asked) == *old(router) && #[trigger] call_ensures(
                        R::get_route_mut,
                        (asked, &id),
                        route,
                    );
                assert(router_routes_mut(asked, &id, route));
            }
            let r = match route {
                Some(module) => {
                    let ghost found = *module;
                    let said = execute_channel(ctx, module, m);
                    assert(spec_handler_executed(&*old(ctx), found, msg, said, ctx.state()));
                    routed(said)
                },
                None => Err(RouterError::ModuleNotFound),
            };
            assert(spec_executed_by(&*old(ctx), &*old(router), id, msg, r, ctx.state()));
            r
        },
        MsgEnvelope::Packet(m) => {
            let id = match bound {
                Some(id) => id,
                None => {
                    return Err(RouterError::UnknownPort);
                },
            };
            let route = router.get_route_mut(&id);
            proof {
                let asked = choose|asked: &mut R|
                    mut_ref_current(asked) == *old(router) && #[trigger] call_ensures(
                        R::get_route_mut,
                        (asked, &id),
                        route,
                    );
                assert(router_routes_mut(asked, &id, route));
            }
            let r = match route {
                Some(module) => {
                    let ghost found = *module;
                    let said = match m {
                        PacketMsg::Recv(m) => recv_packet::execute(ctx, module, m),
                        PacketMsg::Ack(m) => acknowledgement::execute(ctx, module, m),
                        PacketMsg::Timeout(m) => timeout::execute(ctx, module, m),
                        PacketMsg::TimeoutOnClose(m) => timeout::execute_on_close(ctx, module, m),
                    };
                    assert(spec_packet_executed(
                        old(ctx).state(),
                        found,
                        msg->Packet_0,
                        said,
                        ctx.state(),
                    ));
                    assert(spec_handler_executed(&*old(ctx), found, msg, said, ctx.state()));
                    routed(said)
                },
                None => Err(RouterError::ModuleNotFound),
            };
            assert(spec_executed_by(&*old(ctx), &*old(router), id, msg, r, ctx.state()));
            r
        },
    }
}

/// Whether `r` is how a message comes back that fails the engine's own
/// checks with the error `failed`: with that error, or, for a message about a
/// channel or a packet, with the router's error where the router finds no
/// module for the port.
pub open spec fn spec_turned_down(failed: ContextError, r: Result<(), RouterError>) -> bool {
    ||| r == Err::<(), RouterError>(RouterError::Context(failed))
    ||| r == Err::<(), RouterError>(RouterError::UnknownPort)
    ||| r == Err::<(), RouterError>(RouterError::ModuleNotFound)
}

/// How a message is handled by a host in the state of `before`, with the
/// router `router`: it is validated, and `valid` is the answer. Where that
/// is an error, it is the result, and nothing is changed. Where the message
/// is valid, it is executed, and the result and the state after are as
/// `spec_executed` says.
pub open spec fn spec_dispatched<Ctx: ValidationContext, R: Router>(
    before: &Ctx,
    router: &R,
    msg: MsgEnvelope,
    valid: Result<(), RouterError>,
    r: Result<(), RouterError>,
    after: HostState,
) -> bool {
    &&& spec_validated(before, router, msg, valid)
    &&& match valid {
        Err(_) => r == valid && after == before.state(),
        Ok(_) => spec_executed(before, router, msg, r, after),
    }
}

/// Handles a message: it is validated and, where it is valid, executed. A
/// message that is turned down changes nothing.
///
/// A message about a client or a connection is taken exactly where the
/// engine's own checks pass, and is turned down with their error where they
/// fail. A message about a channel or a packet also goes to the router and to
/// the module bound to its port: it is only taken where the engine's checks
/// pass, and where they fail it comes back with their error or the router's.
/// What the router and the module are asked, and what each of their answers
/// leads to, is what `spec_dispatched` says. A message that is not valid
/// leaves the router as it was; the host side is left alone in any case.
pub fn dispatch<Ctx: ExecutionContext, R: Router>(ctx: &mut Ctx, router: &mut R, msg: MsgEnvelope) -> (r:
    Result<(), RouterError>)
    requires
        old(ctx).inv(),
    ensures
        final(ctx).inv(),
        final(ctx).host_side() == old(ctx).host_side(),
        r is Err ==> final(ctx).state() == old(ctx).state(),
        r is Ok ==> spec_validate(&*old(ctx), msg) is Ok && spec_effect(
            &*old(ctx),
            msg,
            final(ctx).state(),
        ),
        msg is Client || msg is Connection ==> r == spec_routed(spec_validate(&*old(ctx), msg)),
        spec_validate(&*old(ctx), msg) matches Err(failed) ==> spec_turned_down(failed, r),
        exists|valid: Result<(), RouterError>|
            {
                &&& #[trigger] spec_dispatched(
                    &*old(ctx),
                    &*old(router),
                    msg,
                    valid,
                    r,
                    final(ctx).state(),
                )
                &&& valid is Err ==> *final(router) == *old(router)
            },
        msg is Client || msg is Connection || r == Err::<(), RouterError>(RouterError::UnknownPort)
            ==> *final(router) == *old(router),
{
    let valid = validate(ctx, router, &msg);
    match valid {
        Err(e) => {
            assert(spec_dispatched(&*old(ctx), &*old(router), msg, valid, valid, ctx.state()));
            Err(e)
        },
        Ok(_) => {
            let r = execute(ctx, router, msg);
            assert(spec_dispatched(&*old(ctx), &*old(router), msg, valid, r, ctx.state()));
            r
        },
    }
}

/// What validation answers is in keeping with the engine's own checks: a
/// message that fails them is turned down, with their error or the router's,
/// and of a message about a client or a connection, or of a packet to be
/// received whose module the router finds, the checks alone decide.
pub proof fn lemma_validated<Ctx: ValidationContext, R: Router>(
    ctx: &Ctx,
    router: &R,
    msg: MsgEnvelope,
    valid: Result<(), RouterError>,
)
    requires
        spec_validated(ctx, router, msg, valid),
    ensures
        spec_validate(ctx, msg) matches Err(failed) ==> spec_turned_down(failed, valid),
        msg is Client || msg is Connection ==> valid == spec_routed(spec_validate(ctx, msg)),
        valid is Ok ==> spec_validate(ctx, msg) is Ok,
        (msg matches MsgEnvelope::Packet(m) && m is Recv) && spec_validate(ctx, msg) is Ok
            ==> valid is Ok || valid == Err::<(), RouterError>(RouterError::UnknownPort) || valid
            == Err::<(), RouterError>(RouterError::ModuleNotFound),
{
    match spec_module_port(msg) {
        None => {},
        Some(port) => {
            let bound = choose|bound: Option<ModuleId>| #[trigger]
                router_binds(router, &port, bound) && match bound {
                    None => valid == Err::<(), RouterError>(RouterError::UnknownPort),
                    Some(module_id) => spec_validated_by(ctx, router, module_id, msg, valid),
                };
            match bound {
                None => {},
                Some(module_id) => {
                    let route = choose|route: Option<&R::M>| #[trigger]
                        router_routes(router, &module_id, route) && match route {
                            None => valid == Err::<(), RouterError>(RouterError::ModuleNotFound),
                            Some(module) => spec_module_validated(ctx, module, msg, valid),
                        };
                    match route {
                        None => {},
                        Some(module) => {
                            let said = choose|said: Result<(), ContextError>|
                                valid == spec_routed(said) && #[trigger] spec_handler_validated(
                                    ctx,
                                    module,
                                    msg,
                                    said,
                                );
                        },
                    }
                },
            }
        },
    }
}

/// What execution answers is in keeping with what the handlers do. A packet
/// that can be received is received once the router has found its module,
/// and what is then stored and reported is a state that receiving leads to.
/// An acknowledgement or a timeout that is taken leaves a state that
/// acknowledging or timing out leads to.
pub proof fn lemma_executed<Ctx: ValidationContext, R: Router>(
    before: &Ctx,
    router: &R,
    msg: MsgEnvelope,
    r: Result<(), RouterError>,
    after: HostState,
)
    requires
        spec_executed(before, router, msg, r, after),
    ensures
        match msg {
            MsgEnvelope::Packet(PacketMsg::Recv(m)) => match r {
                Ok(_) => spec_received(before.state(), m.packet@, after),
                Err(e) => match spec_recv_execute_check(before.state(), m.packet@) {
                    Ok(_) => e == RouterError::UnknownPort || e == RouterError::ModuleNotFound,
                    Err(failed) => e == RouterError::UnknownPort || e
                        == RouterError::ModuleNotFound || e == RouterError::Context(failed),
                },
            },
            MsgEnvelope::Packet(PacketMsg::Ack(m)) => r is Ok ==> spec_acknowledged(
                before.state(),
                m.packet@,
                after,
            ),
            MsgEnvelope::Packet(PacketMsg::Timeout(m)) => r is Ok ==> spec_timed_out_to(
                before.state(),
                m.packet@,
                after,
            ),
            MsgEnvelope::Packet(PacketMsg::TimeoutOnClose(m)) => r is Ok ==> spec_timed_out_to(
                before.state(),
                m.packet@,
                after,
            ),
            _ => true,
        },
{
    let s = before.state();
    match msg {
        MsgEnvelope::Packet(packet_msg) => {
            let port = spec_module_port(msg)->Some_0;
            let bound = choose|bound: Option<ModuleId>| #[trigger]
                router_binds(router, &port, bound) && match bound {
                    None => r == Err::<(), RouterError>(RouterError::UnknownPort),
                    Some(module_id) => spec_executed_by(before, router, module_id, msg, r, after),
                };
            if let Some(module_id) = bound {
                let (asked, route) = choose|asked: &mut R, route: Option<&mut R::M>|
                    {
                        &&& mut_ref_current(asked) == *router
                        &&& #[trigger] router_routes_mut(asked, &module_id, route)
                        &&& match route {
                            None => r == Err::<(), RouterError>(RouterError::ModuleNotFound),
                            Some(module) => spec_module_executed(
                                before,
                                mut_ref_current(module),
                                msg,
                                r,
                                after,
                            ),
                        }
                    };
                if let Some(module) = route {
                    let said = choose|said: Result<(), ContextError>|
                        r == spec_routed(said) && #[trigger] spec_handler_executed(
                            before,
                            mut_ref_current(module),
                            msg,
                            said,
                            after,
                        );
                    assert(spec_packet_executed(s, mut_ref_current(module), packet_msg, said, after));
                    match packet_msg {
                        PacketMsg::Recv(m) => {
                            if let Ok((ordering, connection_id)) = spec_recv_execute_check(
                                s,
                                m.packet@,
                            ) {
                                let (asked, answer) = choose|
                                    asked: &mut R::M,
                                    answer: (ModuleExtras, Acknowledgement),
                                |
                                    {
                                        &&& mut_ref_current(asked) == mut_ref_current(module)
                                        &&& #[trigger] module_receives(
                                            asked,
                                            &m.packet,
                                            &m.signer,
                                            answer,
                                        )
                                        &&& after == spec_recv_apply(
                                            s,
                                            m.packet@,
                                            ordering,
                                            connection_id,
                                            answer.1@,
                                            module_events_view(answer.0.events@),
                                            logs_view(answer.0.log@),
                                        )
                                    };
                                lemma_received(
                                    s,
                                    m.packet@,
                                    ordering,
                                    connection_id,
                                    answer.1@,
                                    module_events_view(answer.0.events@),
                                    logs_view(answer.0.log@),
                                );
                            }
                        },
                        PacketMsg::Ack(m) => {
                            if let Ok((ordering, connection_id)) = spec_ack_execute_check(
                                s,
                                m.packet@,
                            ) {
                                let (asked, answer) = choose|
                                    asked: &mut R::M,
                                    answer: (ModuleExtras, Result<(), PacketError>),
                                |
                                    {
                                        &&& mut_ref_current(asked) == mut_ref_current(module)
                                        &&& #[trigger] module_acknowledges(
                                            asked,
                                            &m.packet,
                                            &m.acknowledgement,
                                            &m.signer,
                                            answer,
                                        )
                                        &&& spec_acknowledged_by(
                                            s,
                                            m.packet@,
                                            ordering,
                                            connection_id,
                                            answer,
                                            said,
                                            after,
                                        )
                                    };
                                if said is Ok {
                                    lemma_acknowledged(
                                        s,
                                        m.packet@,
                                        ordering,
                                        connection_id,
                                        module_events_view(answer.0.events@),
                                        logs_view(answer.0.log@),
                                    );
                                }
                            }
                        },
                        PacketMsg::Timeout(m) => {
                            lemma_timeout_executed(s, mut_ref_current(module), m.packet, m.signer, said, after);
                        },
                        PacketMsg::TimeoutOnClose(m) => {
                            lemma_timeout_executed(s, mut_ref_current(module), m.packet, m.signer, said, after);
                        },
                    }
                }
            }
        },
        _ => {},
    }
}

/// A packet that is received was put to the module that the router found:
/// the state that execution leaves is what is stored and reported for the
/// answer that the module's callback gave.
pub proof fn lemma_receive_executed<Ctx: ValidationContext, R: Router>(
    before: &Ctx,
    router: &R,
    msg: MsgEnvelope,
    after: HostState,
)
    requires
        spec_executed(before, router, msg, Ok::<(), RouterError>(()), after),
        msg matches MsgEnvelope::Packet(m) && m is Recv,
    ensures
        spec_recv_execute_check(before.state(), msg->Packet_0->Recv_0.packet@) is Ok,
        exists|asked: &mut R::M, answer: (ModuleExtras, Acknowledgement)|
            {
                &&& #[trigger] module_receives(
                    asked,
                    &msg->Packet_0->Recv_0.packet,
                    &msg->Packet_0->Recv_0.signer,
                    answer,
                )
                &&& after == spec_recv_apply(
                    before.state(),
                    msg->Packet_0->Recv_0.packet@,
                    spec_recv_execute_check(before.state(), msg->Packet_0->Recv_0.packet@)->Ok_0.0,
                    spec_recv_execute_check(before.state(), msg->Packet_0->Recv_0.packet@)->Ok_0.1,
                    answer.1@,
                    module_events_view(answer.0.events@),
                    logs_view(answer.0.log@),
                )
            },
{
    let s = before.state();
    let m = msg->Packet_0->Recv_0;
    let r = Ok::<(), RouterError>(());
    let port = spec_module_port(msg)->Some_0;
    let bound = choose|bound: Option<ModuleId>| #[trigger]
        router_binds(router, &port, bound) && match bound {
            None => r == Err::<(), RouterError>(RouterError::UnknownPort),
            Some(module_id) => spec_executed_by(before, router, module_id, msg, r, after),
        };
    let module_id = bound->Some_0;
    let (asked, route) = choose|asked: &mut R, route: Option<&mut R::M>|
        {
            &&& mut_ref_current(asked) == *router
            &&& #[trigger] router_routes_mut(asked, &module_id, route)
            &&& match route {
                None => r == Err::<(), RouterError>(RouterError::ModuleNotFound),
                Some(module) => spec_module_executed(
                    before,
                    mut_ref_current(module),
                    msg,
                    r,
                    after,
                ),
            }
        };
    let module = route->Some_0;
    let said = choose|said: Result<(), ContextError>|
        r == spec_routed(said) && #[trigger] spec_handler_executed(
            before,
            mut_ref_current(module),
            msg,
            said,
            after,
        );
    assert(spec_packet_executed(s, mut_ref_current(module), msg->Packet_0, said, after));
    let (ordering, connection_id) = spec_recv_execute_check(s, m.packet@)->Ok_0;
    let (asked, answer) = choose|asked: &mut R::M, answer: (ModuleExtras, Acknowledgement)|
        {
            &&& mut_ref_current(asked) == mut_ref_current(module)
            &&& #[trigger] module_receives(asked, &m.packet, &m.signer, answer)
            &&& after == spec_recv_apply(
                s,
                m.packet@,
                ordering,
                connection_id,
                answer.1@,
                module_events_view(answer.0.events@),
                logs_view(answer.0.log@),
            )
        };
}

/// A timeout that the module takes leaves a state that timing out leads to.
proof fn lemma_timeout_executed<M: crate::router::Module>(
    s: HostState,
    module: M,
    packet: Packet,
    signer: Signer,
    said: Result<(), ContextError>,
    after: HostState,
)
    requires
        match spec_timeout_execute_check(s, packet@) {
            Err(failed) => said == Err::<(), ContextError>(failed) && after == s,
            Ok((end, connection_id)) => exists|
                asked: &mut M,
                answer: (ModuleExtras, Result<(), PacketError>),
            |
                {
                    &&& mut_ref_current(asked) == module
                    &&& #[trigger] module_times_out(asked, &packet, &signer, answer)
                    &&& spec_timed_out_by(s, packet@, end, connection_id, answer, said, after)
                },
        },
    ensures
        said is Ok ==> spec_timed_out_to(s, packet@, after),
{
    if let Ok((end, connection_id)) = spec_timeout_execute_check(s, packet@) {
        let (asked, answer) = choose|
            asked: &mut M,
            answer: (ModuleExtras, Result<(), PacketError>),
        |
            {
                &&& mut_ref_current(asked) == module
                &&& #[trigger] module_times_out(asked, &packet, &signer, answer)
                &&& spec_timed_out_by(s, packet@, end, connection_id, answer, said, after)
            };
        if said is Ok {
            lemma_timed_out_to(
                s,
                packet@,
                end,
                connection_id,
                module_events_view(answer.0.events@),
                logs_view(answer.0.log@),
            );
        }
    }
}

/// A router of the library's own that serves the port of a packet finds
/// its module: a packet that passes the engine's checks is valid, and its
/// execution succeeds.
pub proof fn law_receive_with_mock_router<Ctx: ValidationContext, M: crate::router::Module>(
    ctx: &Ctx,
    router: &MockRouter<M>,
    msg: MsgEnvelope,
    valid: Result<(), RouterError>,
    r: Result<(), RouterError>,
    after: HostState,
)
    requires
        spec_validated(ctx, router, msg, valid),
        valid is Ok ==> spec_executed(ctx, router, msg, r, after),
        msg matches MsgEnvelope::Packet(m) && m is Recv,
        spec_validate(ctx, msg) is Ok,
        router.serves(msg->Packet_0->Recv_0.packet@.port_id_on_b),
    ensures
        valid == Ok::<(), RouterError>(()),
        r == Ok::<(), RouterError>(()),
        spec_received(ctx.state(), msg->Packet_0->Recv_0.packet@, after),
{
    lemma_validated(ctx, router, msg, valid);
    let port = spec_module_port(msg)->Some_0;
    if valid is Err {
        let bound = choose|bound: Option<ModuleId>| #[trigger]
            router_binds(router, &port, bound) && match bound {
                None => valid == Err::<(), RouterError>(RouterError::UnknownPort),
                Some(module_id) => spec_validated_by(ctx, router, module_id, msg, valid),
            };
        if let Some(module_id) = bound {
            let route = choose|route: Option<&M>| #[trigger]
                router_routes(router, &module_id, route) && match route {
                    None => valid == Err::<(), RouterError>(RouterError::ModuleNotFound),
                    Some(module) => spec_module_validated(ctx, module, msg, valid),
                };
        }
    } else {
        lemma_executed(ctx, router, msg, r, after);
        if r is Err {
            let bound = choose|bound: Option<ModuleId>| #[trigger]
                router_binds(router, &port, bound) && match bound {
                    None => r == Err::<(), RouterError>(RouterError::UnknownPort),
                    Some(module_id) => spec_executed_by(ctx, router, module_id, msg, r, after),
                };
            if let Some(module_id) = bound {
                let (asked, route) = choose|asked: &mut MockRouter<M>, route: Option<&mut M>|
                    {
                        &&& mut_ref_current(asked) == *router
                        &&& #[trigger] router_routes_mut(asked, &module_id, route)
                        &&& match route {
                            None => r == Err::<(), RouterError>(RouterError::ModuleNotFound),
                            Some(module) => spec_module_executed(
                                ctx,
                                mut_ref_current(module),
                                msg,
                                r,
                                after,
                            ),
                        }
                    };
            }
        }
    }
}

} // verus!
