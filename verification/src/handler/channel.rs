//! The handshakes that open and close a channel. A channel is bound to a
//! connection that is already open, and each step is put to the application
//! module that is bound to the channel's port.

use vstd::prelude::*;
use crate::channel::{
    ChannelEnd,
    ChannelEndView,
    Counterparty,
    Order,
    State,
    Version,
};
use crate::connection::{ConnectionEnd, ConnectionEndView};
use crate::context::{ExecutionContext, ProofValue, ProofValueView, ValidationContext};
use crate::error::{ChannelError, ContextError};
use crate::events::{
    logs_view,
    module_events_view,
    ChannelAttributes,
    ChannelEventData,
    IbcEvent,
    IbcEventView,
    MessageEvent,
};
use crate::handler::common::{
    active_client,
    channel_connection,
    check_membership,
    delay_passed,
    emit_module_extras,
    proof_client,
    result_view,
    spec_active_client,
    spec_channel_connection,
    spec_delay_passed,
    spec_membership,
    spec_open_connection,
    spec_proof_client,
};
use crate::height::Height;
use crate::identifier::{ChannelId, ConnectionId, PortId, Sequence};
use crate::msgs::{MsgChannelOpenInit, MsgChannelOpenTry};
use crate::path::{ChannelEndPath, ChannelKey, Path, PathView};
use crate::router::{Module, ModuleExtras};
use crate::state::HostState;

verus! {

/// The step of a channel handshake that an event reports.
#[derive(Clone, Copy, Debug, PartialEq, Eq, Structural)]
pub enum Step {
    OpenInit,
    OpenTry,
    OpenAck,
    OpenConfirm,
    CloseInit,
    CloseConfirm,
}

/// What a channel event tells of a channel end.
pub open spec fn channel_attributes(key: ChannelKey, end: ChannelEndView) -> ChannelAttributes
    recommends
        end.connection_hops.len() >= 1,
{
    ChannelAttributes {
        port_id: key.0,
        channel_id: key.1,
        counterparty_port_id: end.counterparty_port_id,
        counterparty_channel_id: end.counterparty_channel_id,
        connection_id: end.connection_hops[0],
        version: end.version,
    }
}

/// The event of a step of a handshake.
pub open spec fn step_event(step: Step, attributes: ChannelAttributes) -> IbcEventView {
    match step {
        Step::OpenInit => IbcEventView::OpenInitChannel(attributes),
        Step::OpenTry => IbcEventView::OpenTryChannel(attributes),
        Step::OpenAck => IbcEventView::OpenAckChannel(attributes),
        Step::OpenConfirm => IbcEventView::OpenConfirmChannel(attributes),
        Step::CloseInit => IbcEventView::CloseInitChannel(attributes),
        Step::CloseConfirm => IbcEventView::CloseConfirmChannel(attributes),
    }
}

/// The log line of a step of a handshake.
pub open spec fn step_log(step: Step) -> Seq<char> {
    match step {
        Step::OpenInit => "success: channel open init"@,
        Step::OpenTry => "success: channel open try"@,
        Step::OpenAck => "success: channel open ack"@,
        Step::OpenConfirm => "success: channel open confirm"@,
        Step::CloseInit => "success: channel close init"@,
        Step::CloseConfirm => "success: channel close confirm"@,
    }
}

/// The state after a step stored `end` under `key` and the module handed
/// over `module_events` and `module_logs`: the end is stored, the step is
/// reported and logged, and then what the module handed over.
pub open spec fn spec_store_channel(
    s: HostState,
    step: Step,
    key: ChannelKey,
    end: ChannelEndView,
    module_events: Seq<IbcEventView>,
    module_logs: Seq<Seq<char>>,
) -> HostState {
    (HostState { channels: s.channels.insert(key, end), ..s }).reporting(
        seq![
            IbcEventView::Message(MessageEvent::Channel),
            step_event(step, channel_attributes(key, end)),
        ],
        seq![step_log(step)],
    ).reporting(module_events, module_logs)
}

/// The state in which a new channel under `key` has its number taken and
/// its three sequence counters set to one.
pub open spec fn spec_new_channel(s: HostState, key: ChannelKey) -> HostState {
    HostState {
        channel_counter: (s.channel_counter + 1) as u64,
        next_sequence_send: s.next_sequence_send.insert(key, Sequence { value: 1 }),
        next_sequence_recv: s.next_sequence_recv.insert(key, Sequence { value: 1 }),
        next_sequence_ack: s.next_sequence_ack.insert(key, Sequence { value: 1 }),
        ..s
    }
}

/// Stores a channel end and reports the step that made it, and then what
/// the module handed over.
pub fn store_channel_end<Ctx: ExecutionContext>(
    ctx: &mut Ctx,
    step: Step,
    port_id: &PortId,
    channel_id: ChannelId,
    end: ChannelEnd,
    extras: ModuleExtras,
)
    requires
        old(ctx).inv(),
        end.connection_hops@.len() >= 1,
    ensures
        final(ctx).inv(),
        final(ctx).host_side() == old(ctx).host_side(),
        final(ctx).state() == spec_store_channel(
            old(ctx).state(),
            step,
            (port_id@, channel_id),
            end@,
            module_events_view(extras.events@),
            logs_view(extras.log@),
        ),
{
    let ghost s = ctx.state();
    let ghost end_view = end@;
    let data = ChannelEventData {
        port_id: port_id.id.clone(),
        channel_id,
        counterparty_port_id: end.counterparty.port_id.id.clone(),
        counterparty_channel_id: end.counterparty.channel_id,
        connection_id: end.connection_hops[0],
        version: end.version.name.clone(),
    };
    ctx.store_channel(ChannelEndPath::new(port_id, &channel_id), end);
    ctx.emit_ibc_event(IbcEvent::Message(MessageEvent::Channel));
    match step {
        Step::OpenInit => {
            ctx.log_message("success: channel open init".to_owned());
            ctx.emit_ibc_event(IbcEvent::OpenInitChannel(data));
        },
        Step::OpenTry => {
            ctx.log_message("success: channel open try".to_owned());
            ctx.emit_ibc_event(IbcEvent::OpenTryChannel(data));
        },
        Step::OpenAck => {
            ctx.log_message("success: channel open ack".to_owned());
            ctx.emit_ibc_event(IbcEvent::OpenAckChannel(data));
        },
        Step::OpenConfirm => {
            ctx.log_message("success: channel open confirm".to_owned());
            ctx.emit_ibc_event(IbcEvent::OpenConfirmChannel(data));
        },
        Step::CloseInit => {
            ctx.log_message("success: channel close init".to_owned());
            ctx.emit_ibc_event(IbcEvent::CloseInitChannel(data));
        },
        Step::CloseConfirm => {
            ctx.log_message("success: channel close confirm".to_owned());
            ctx.emit_ibc_event(IbcEvent::CloseConfirmChannel(data));
        },
    }
    proof {
        let stored = HostState { channels: s.channels.insert((port_id@, channel_id), end_view), ..s };
        let reported = stored.reporting(
            seq![
                IbcEventView::Message(MessageEvent::Channel),
                step_event(step, channel_attributes((port_id@, channel_id), end_view)),
            ],
            seq![step_log(step)],
        );
        assert(ctx.state().events =~= reported.events);
        assert(ctx.state().logs =~= reported.logs);
        assert(ctx.state() == reported);
    }
    emit_module_extras(ctx, extras);
}

/// Takes the number of a new channel and sets its sequence counters to one.
pub fn open_new_channel<Ctx: ExecutionContext>(ctx: &mut Ctx, port_id: &PortId, channel_id: ChannelId)
    requires
        old(ctx).inv(),
        old(ctx).state().channel_counter < u64::MAX,
    ensures
        final(ctx).inv(),
        final(ctx).host_side() == old(ctx).host_side(),
        final(ctx).state() == spec_new_channel(old(ctx).state(), (port_id@, channel_id)),
{
    ctx.increase_channel_counter();
    ctx.store_next_sequence_send(ChannelEndPath::new(port_id, &channel_id), Sequence::new(1));
    ctx.store_next_sequence_recv(ChannelEndPath::new(port_id, &channel_id), Sequence::new(1));
    ctx.store_next_sequence_ack(ChannelEndPath::new(port_id, &channel_id), Sequence::new(1));
}

/// Whether the connection's version offers the ordering: the first version
/// of the connection end decides.
pub open spec fn spec_offers(conn: ConnectionEndView, ordering: Order) -> bool {
    conn.versions.len() >= 1 && match ordering {
        Order::Ordered => conn.versions[0].ordered,
        Order::Unordered => conn.versions[0].unordered,
    }
}

/// The connection that a new channel is to run over: the channel must name
/// exactly one connection, which must be stored and open, and whose version
/// must offer the ordering of the channel.
pub open spec fn spec_handshake_connection(
    s: HostState,
    hops: Seq<ConnectionId>,
    ordering: Order,
) -> Result<ConnectionEndView, ContextError> {
    if hops.len() != 1 {
        Err(ContextError::Channel(ChannelError::InvalidConnectionHops))
    } else {
        match spec_open_connection(s, hops[0]) {
            Err(e) => Err(e),
            Ok(conn) => if spec_offers(conn, ordering) {
                Ok(conn)
            } else {
                Err(ContextError::Channel(ChannelError::OrderingMismatch))
            },
        }
    }
}

/// Looks up the connection that a new channel is to run over.
pub fn handshake_connection<Ctx: ValidationContext>(
    ctx: &Ctx,
    hops: &Vec<ConnectionId>,
    ordering: Order,
) -> (r: Result<ConnectionEnd, ContextError>)
    requires
        ctx.inv(),
    ensures
        result_view(r) == spec_handshake_connection(ctx.state(), hops@, ordering),
{
    if hops.len() != 1 {
        return Err(ContextError::Channel(ChannelError::InvalidConnectionHops));
    }
    let conn = ctx.connection_end(&hops[0])?;
    if !conn.is_open() {
        return Err(ContextError::Channel(ChannelError::ConnectionNotOpen));
    }
    let offered = conn.versions.len() >= 1 && match ordering {
        Order::Ordered => conn.versions[0].ordered,
        Order::Unordered => conn.versions[0].unordered,
    };
    if offered {
        Ok(conn)
    } else {
        Err(ContextError::Channel(ChannelError::OrderingMismatch))
    }
}

/// Whether the proof shows that the counterparty has stored the channel end
/// `expected` under `counterparty_key`. The proof is checked over the
/// connection `conn`: its client must be active and hold a consensus state at
/// the proof's height, and its delay period must have passed.
pub open spec fn spec_channel_proof<Ctx: ValidationContext>(
    ctx: &Ctx,
    conn: ConnectionEndView,
    proof: Seq<u8>,
    proof_height: Height,
    counterparty_key: ChannelKey,
    expected: ChannelEndView,
) -> Result<(), ContextError> {
    match spec_proof_client(ctx.state(), conn.client_id, proof_height) {
        Err(e) => Err(e),
        Ok((client_state, consensus_state)) => match spec_delay_passed(ctx, conn, proof_height) {
            Err(e) => Err(e),
            Ok(_) => if spec_membership(
                ctx,
                client_state,
                consensus_state,
                conn.counterparty_prefix,
                proof,
                PathView::ChannelEnd(counterparty_key),
                ProofValueView::Channel(expected),
            ) {
                Ok(())
            } else {
                Err(ContextError::Channel(ChannelError::ProofFailure))
            },
        },
    }
}

/// Checks the proof of the counterparty's channel end.
pub fn channel_proof<Ctx: ValidationContext>(
    ctx: &Ctx,
    conn: &ConnectionEnd,
    proof: &Vec<u8>,
    proof_height: &Height,
    counterparty_port: &PortId,
    counterparty_channel: ChannelId,
    expected: ChannelEnd,
) -> (r: Result<(), ContextError>)
    requires
        ctx.inv(),
    ensures
        r == spec_channel_proof(
            ctx,
            conn@,
            proof@,
            *proof_height,
            (counterparty_port@, counterparty_channel),
            expected@,
        ),
{
    let (client_state, consensus_state) = proof_client(ctx, &conn.client_id, proof_height)?;
    delay_passed(ctx, conn, proof_height)?;
    if check_membership(
        ctx,
        &client_state,
        &consensus_state,
        &conn.counterparty.prefix,
        proof,
        &Path::ChannelEnd(ChannelEndPath::new(counterparty_port, &counterparty_channel)),
        &ProofValue::Channel(expected),
    ) {
        Ok(())
    } else {
        Err(ContextError::Channel(ChannelError::ProofFailure))
    }
}

/// What a module's verdict on a step comes to for the handler.
pub open spec fn spec_module_says<T>(answer: Result<T, ChannelError>) -> Result<T, ContextError> {
    match answer {
        Ok(v) => Ok(v),
        Err(e) => Err(ContextError::Channel(e)),
    }
}

/// What a module's verdict on a step comes to for the handler.
pub fn module_says<T>(answer: Result<T, ChannelError>) -> (r: Result<T, ContextError>)
    ensures
        r == spec_module_says(answer),
{
    match answer {
        Ok(v) => Ok(v),
        Err(e) => Err(ContextError::Channel(e)),
    }
}

/// A list of the one connection.
pub fn one_hop(id: ConnectionId) -> (r: Vec<ConnectionId>)
    ensures
        r@ == seq![id],
{
    let mut one: Vec<ConnectionId> = Vec::new();
    one.push(id);
    assert(one@ =~= seq![id]);
    one
}

/// What the engine itself checks of the first step, and the identifier that
/// the new channel gets: the connection must be fit for the channel, its
/// client active, and the host must have a channel number left. The first
/// step needs no proof.
pub open spec fn spec_init_validate(s: HostState, hops: Seq<ConnectionId>, ordering: Order) -> Result<
    ChannelId,
    ContextError,
> {
    match spec_handshake_connection(s, hops, ordering) {
        Err(e) => Err(e),
        Ok(conn) => match spec_active_client(s, conn.client_id) {
            Err(e) => Err(e),
            Ok(_) => if s.channel_counter == u64::MAX {
                Err(ContextError::Channel(ChannelError::CounterOverflow))
            } else {
                Ok(ChannelId { counter: s.channel_counter })
            },
        },
    }
}

/// The end that the first step stores: in `Init`, with the counterparty's
/// channel not yet known, and with the version that the module settled on.
pub open spec fn init_end(
    ordering: Order,
    counterparty_port: Seq<char>,
    hops: Seq<ConnectionId>,
    version: Seq<char>,
) -> ChannelEndView {
    ChannelEndView {
        state: State::Init,
        ordering,
        counterparty_port_id: counterparty_port,
        counterparty_channel_id: None,
        connection_hops: hops,
        version,
    }
}

/// Whether `after` is a state that a step which stores a new channel end
/// under `key` can lead to from `before`: the end is `end` with some version
/// of the module's choosing.
pub open spec fn spec_opened(
    before: HostState,
    step: Step,
    key: ChannelKey,
    end: ChannelEndView,
    after: HostState,
) -> bool {
    exists|version: Seq<char>, module_events: Seq<IbcEventView>, module_logs: Seq<Seq<char>>|
        after == #[trigger] spec_store_channel(
            spec_new_channel(before, key),
            step,
            key,
            ChannelEndView { version, ..end },
            module_events,
            module_logs,
        )
}

/// Whether `after` is a state that a step which stores the end `end` under
/// `key` can lead to from `before`.
pub open spec fn spec_stepped(
    before: HostState,
    step: Step,
    key: ChannelKey,
    end: ChannelEndView,
    after: HostState,
) -> bool {
    exists|module_events: Seq<IbcEventView>, module_logs: Seq<Seq<char>>|
        after == #[trigger] spec_store_channel(before, step, key, end, module_events, module_logs)
}

/// The engine's own part of validating the first step.
pub fn chan_open_init_validate_core<Ctx: ValidationContext>(ctx: &Ctx, msg: &MsgChannelOpenInit) -> (r:
    Result<ChannelId, ContextError>)
    requires
        ctx.inv(),
    ensures
        r == spec_init_validate(ctx.state(), msg.connection_hops_on_a@, msg.ordering),
{
    let conn = handshake_connection(ctx, &msg.connection_hops_on_a, msg.ordering)?;
    let _ = active_client(ctx, &conn.client_id)?;
    let counter = ctx.channel_counter();
    if counter == u64::MAX {
        return Err(ContextError::Channel(ChannelError::CounterOverflow));
    }
    Ok(ChannelId::new(counter))
}

/// Whether `answer` is what the module answers where it is asked to
/// validate the first or the second step of opening: the callback for the
/// step is the one that is asked, about the ordering, the connection, the
/// port and the new channel, the other end as far as it is known, and the
/// version that is proposed.
pub open spec fn module_checks_opening<M: Module>(
    module: &M,
    step: Step,
    order: Order,
    connection_hops: &Vec<ConnectionId>,
    port_id: &PortId,
    channel_id: &ChannelId,
    counterparty: &Counterparty,
    version: &Version,
    answer: Result<Version, ChannelError>,
) -> bool {
    if step == Step::OpenInit {
        call_ensures(
            M::on_chan_open_init_validate,
            (module, order, connection_hops, port_id, channel_id, counterparty, version),
            answer,
        )
    } else {
        call_ensures(
            M::on_chan_open_try_validate,
            (module, order, connection_hops, port_id, channel_id, counterparty, version),
            answer,
        )
    }
}

/// Validates the first step: first the engine's own checks, then the
/// module's. Where the engine's checks fail, theirs is the answer and the
/// module is not asked. Where they pass, the module's answer decides: the
/// step is valid where the module takes it, and the module's error comes back
/// as an error of the channel layer where it does not.
pub fn chan_open_init_validate<Ctx: ValidationContext, M: Module>(
    ctx: &Ctx,
    module: &M,
    msg: &MsgChannelOpenInit,
) -> (r: Result<(), ContextError>)
    requires
        ctx.inv(),
    ensures
        spec_init_validate(ctx.state(), msg.connection_hops_on_a@, msg.ordering) matches Err(e)
            ==> r == Err::<(), ContextError>(e),
        r matches Err(e) ==> spec_init_validate(
            ctx.state(),
            msg.connection_hops_on_a@,
            msg.ordering,
        ) is Err || e is Channel,
        match spec_init_validate(ctx.state(), msg.connection_hops_on_a@, msg.ordering) {
            Err(_) => true,
            Ok(id) => exists|answer: Result<Version, ChannelError>|
                {
                    &&& #[trigger] module_checks_opening(
                        module,
                        Step::OpenInit,
                        msg.ordering,
                        &msg.connection_hops_on_a,
                        &msg.port_id_on_a,
                        &id,
                        &(Counterparty { port_id: msg.port_id_on_b, channel_id: None }),
                        &msg.version_proposal,
                        answer,
                    )
                    &&& r == taken(spec_module_says(answer))
                },
        },
{
    let id = chan_open_init_validate_core(ctx, msg)?;
    let counterparty = Counterparty { port_id: msg.port_id_on_b.clone(), channel_id: None };
    let answer = module.on_chan_open_init_validate(
        msg.ordering,
        &msg.connection_hops_on_a,
        &msg.port_id_on_a,
        &id,
        &counterparty,
        &msg.version_proposal,
    );
    assert(module_checks_opening(
        module,
        Step::OpenInit,
        msg.ordering,
        &msg.connection_hops_on_a,
        &msg.port_id_on_a,
        &id,
        &counterparty,
        &msg.version_proposal,
        answer,
    ));
    match module_says(answer) {
        Ok(_) => Ok(()),
        Err(e) => Err(e),
    }
}

/// Whether `answer` is what the module answers where it is asked to
/// execute the first or the second step of opening: the callback for the step
/// is the one that is asked, about the ordering, the connection, the port and
/// the new channel, the other end as far as it is known, and the version that
/// is proposed. `asked` is the module as the callback takes it and leaves it.
pub open spec fn module_opens<M: Module>(
    asked: &mut M,
    step: Step,
    order: Order,
    connection_hops: &Vec<ConnectionId>,
    port_id: &PortId,
    channel_id: &ChannelId,
    counterparty: &Counterparty,
    version: &Version,
    answer: Result<(ModuleExtras, Version), ChannelError>,
) -> bool {
    if step == Step::OpenInit {
        call_ensures(
            M::on_chan_open_init_execute,
            (asked, order, connection_hops, port_id, channel_id, counterparty, version),
            answer,
        )
    } else {
        call_ensures(
            M::on_chan_open_try_execute,
            (asked, order, connection_hops, port_id, channel_id, counterparty, version),
            answer,
        )
    }
}

/// What a step that makes a new channel comes to once the module has
/// answered: where the module takes the step, the new channel gets its number
/// and its sequence counters, the end is stored with the version that the
/// module settled on, the step is reported, and then what the module handed
/// over; where the module turns the step down, its error comes back as an
/// error of the channel layer and nothing is changed.
pub open spec fn spec_opened_by(
    before: HostState,
    step: Step,
    key: ChannelKey,
    end: ChannelEndView,
    answer: Result<(ModuleExtras, Version), ChannelError>,
    r: Result<(), ContextError>,
    after: HostState,
) -> bool {
    match answer {
        Ok((extras, version)) => r is Ok && after == spec_store_channel(
            spec_new_channel(before, key),
            step,
            key,
            ChannelEndView { version: version@, ..end },
            module_events_view(extras.events@),
            logs_view(extras.log@),
        ),
        Err(e) => r == Err::<(), ContextError>(ContextError::Channel(e)) && after == before,
    }
}

/// A result without what it holds on success.
pub open spec fn taken<T>(r: Result<T, ContextError>) -> Result<(), ContextError> {
    match r {
        Ok(_) => Ok(()),
        Err(e) => Err(e),
    }
}

/// Executes the first step: the module settles on a version, and a channel
/// end in `Init` is stored under a fresh identifier, with its sequence
/// counters at one. Nothing is changed where the step is turned down. The
/// module is asked only where the engine's own checks pass, and is left as it
/// was where they fail; where they pass, its answer decides: see
/// `spec_opened_by`.
pub fn chan_open_init_execute<Ctx: ExecutionContext, M: Module>(
    ctx: &mut Ctx,
    module: &mut M,
    msg: MsgChannelOpenInit,
) -> (r: Result<ChannelId, ContextError>)
    requires
        old(ctx).inv(),
    ensures
        final(ctx).inv(),
        final(ctx).host_side() == old(ctx).host_side(),
        match r {
            Err(e) => final(ctx).state() == old(ctx).state() && match spec_init_validate(
                old(ctx).state(),
                msg.connection_hops_on_a@,
                msg.ordering,
            ) {
                Err(failed) => e == failed,
                Ok(_) => e is Channel,
            },
            Ok(id) => spec_init_validate(
                old(ctx).state(),
                msg.connection_hops_on_a@,
                msg.ordering,
            ) == Ok::<ChannelId, ContextError>(id) && spec_opened(
                old(ctx).state(),
                Step::OpenInit,
                (msg.port_id_on_a@, id),
                init_end(msg.ordering, msg.port_id_on_b@, msg.connection_hops_on_a@, Seq::empty()),
                final(ctx).state(),
            ),
        },
        match spec_init_validate(old(ctx).state(), msg.connection_hops_on_a@, msg.ordering) {
            Err(_) => *final(module) == *old(module),
            Ok(id) => exists|
                asked: &mut M,
                answer: Result<(ModuleExtras, Version), ChannelError>,
            |
                {
                    &&& mut_ref_current(asked) == *old(module)
                    &&& mut_ref_future(asked) == *final(module)
                    &&& #[trigger] module_opens(
                        asked,
                        Step::OpenInit,
                        msg.ordering,
                        &msg.connection_hops_on_a,
                        &msg.port_id_on_a,
                        &id,
                        &(Counterparty { port_id: msg.port_id_on_b, channel_id: None }),
                        &msg.version_proposal,
                        answer,
                    )
                    &&& spec_opened_by(
                        old(ctx).state(),
                        Step::OpenInit,
                        (msg.port_id_on_a@, id),
                        init_end(msg.ordering, msg.port_id_on_b@, msg.connection_hops_on_a@, Seq::empty()),
                        answer,
                        taken(r),
                        final(ctx).state(),
                    )
                },
        },
{
    let id = chan_open_init_validate_core(ctx, &msg)?;
    let counterparty = Counterparty { port_id: msg.port_id_on_b, channel_id: None };
    let ghost before = *module;
    let said = module.on_chan_open_init_execute(
        msg.ordering,
        &msg.connection_hops_on_a,
        &msg.port_id_on_a,
        &id,
        &counterparty,
        &msg.version_proposal,
    );
    let ghost key = (msg.port_id_on_a@, id);
    let ghost base = init_end(msg.ordering, msg.port_id_on_b@, msg.connection_hops_on_a@, Seq::empty());
    let ghost asked = choose|asked: &mut M|
        mut_ref_current(asked) == before && mut_ref_future(asked) == *module
            && #[trigger] call_ensures(
            M::on_chan_open_init_execute,
            (
                asked,
                msg.ordering,
                &msg.connection_hops_on_a,
                &msg.port_id_on_a,
                &id,
                &counterparty,
                &msg.version_proposal,
            ),
            said,
        );
    assert(module_opens(
        asked,
        Step::OpenInit,
        msg.ordering,
        &msg.connection_hops_on_a,
        &msg.port_id_on_a,
        &id,
        &counterparty,
        &msg.version_proposal,
        said,
    ));
    match said {
        Err(e) => {
            assert(spec_opened_by(
                old(ctx).state(),
                Step::OpenInit,
                key,
                base,
                said,
                Err(ContextError::Channel(e)),
                ctx.state(),
            ));
            Err(ContextError::Channel(e))
        },
        Ok((extras, version)) => {
            let end = ChannelEnd {
                state: State::Init,
                ordering: msg.ordering,
                counterparty,
                connection_hops: msg.connection_hops_on_a,
                version,
            };
            let ghost end_view = end@;
            let ghost module_events = module_events_view(extras.events@);
            let ghost module_logs = logs_view(extras.log@);
            open_new_channel(ctx, &msg.port_id_on_a, id);
            store_channel_end(ctx, Step::OpenInit, &msg.port_id_on_a, id, end, extras);
            proof {
                assert(end_view == ChannelEndView { version: end_view.version, ..base });
                assert(ctx.state() == spec_store_channel(
                    spec_new_channel(old(ctx).state(), key),
                    Step::OpenInit,
                    key,
                    ChannelEndView { version: end_view.version, ..base },
                    module_events,
                    module_logs,
                ));
                assert(spec_opened_by(
                    old(ctx).state(),
                    Step::OpenInit,
                    key,
                    base,
                    said,
                    Ok(()),
                    ctx.state(),
                ));
            }
            Ok(id)
        },
    }
}

/// The connection on the counterparty chain that the channel's connection
/// leads to, which must be known.
pub open spec fn spec_counterparty_hop(conn: ConnectionEndView) -> Result<ConnectionId, ContextError> {
    match conn.counterparty_connection_id {
        Some(id) => Ok(id),
        None => Err(ContextError::Channel(ChannelError::MissingCounterparty)),
    }
}

/// The connection on the counterparty chain that the channel's connection
/// leads to.
pub fn counterparty_hop(conn: &ConnectionEnd) -> (r: Result<ConnectionId, ContextError>)
    ensures
        r == spec_counterparty_hop(conn@),
{
    match conn.counterparty.connection_id {
        Some(id) => Ok(id),
        None => Err(ContextError::Channel(ChannelError::MissingCounterparty)),
    }
}

/// What the engine itself checks of the second step, and the identifier
/// that the new channel gets: the connection must be fit for the channel;
/// the proof must show the end of chain A in `Init`, with this port as its
/// counterparty; the host must have a channel number left.
pub open spec fn spec_try_validate<Ctx: ValidationContext>(
    ctx: &Ctx,
    port_on_b: Seq<char>,
    hops: Seq<ConnectionId>,
    port_on_a: Seq<char>,
    chan_on_a: ChannelId,
    version_on_a: Seq<char>,
    proof: Seq<u8>,
    proof_height: Height,
    ordering: Order,
) -> Result<ChannelId, ContextError> {
    let s = ctx.state();
    match spec_handshake_connection(s, hops, ordering) {
        Err(e) => Err(e),
        Ok(conn) => match spec_counterparty_hop(conn) {
            Err(e) => Err(e),
            Ok(hop_on_a) => match spec_channel_proof(
                ctx,
                conn,
                proof,
                proof_height,
                (port_on_a, chan_on_a),
                ChannelEndView {
                    state: State::Init,
                    ordering,
                    counterparty_port_id: port_on_b,
                    counterparty_channel_id: None,
                    connection_hops: seq![hop_on_a],
                    version: version_on_a,
                },
            ) {
                Err(e) => Err(e),
                Ok(_) => if s.channel_counter == u64::MAX {
                    Err(ContextError::Channel(ChannelError::CounterOverflow))
                } else {
                    Ok(ChannelId { counter: s.channel_counter })
                },
            },
        },
    }
}

/// What `spec_try_validate` says of a message.
pub open spec fn spec_try_validate_msg<Ctx: ValidationContext>(ctx: &Ctx, msg: MsgChannelOpenTry) -> Result<
    ChannelId,
    ContextError,
> {
    spec_try_validate(
        ctx,
        msg.port_id_on_b@,
        msg.connection_hops_on_b@,
        msg.port_id_on_a@,
        msg.chan_id_on_a,
        msg.version_supported_on_a@,
        msg.proof_chan_end_on_a@,
        msg.proof_height_on_a,
        msg.ordering,
    )
}

/// The end that the second step stores: in `TryOpen`, with the end of chain
/// A as its counterparty.
pub open spec fn try_end(
    ordering: Order,
    port_on_a: Seq<char>,
    chan_on_a: ChannelId,
    hops: Seq<ConnectionId>,
) -> ChannelEndView {
    ChannelEndView {
        state: State::TryOpen,
        ordering,
        counterparty_port_id: port_on_a,
        counterparty_channel_id: Some(chan_on_a),
        connection_hops: hops,
        version: Seq::empty(),
    }
}

/// The engine's own part of validating the second step.
pub fn chan_open_try_validate_core<Ctx: ValidationContext>(ctx: &Ctx, msg: &MsgChannelOpenTry) -> (r:
    Result<ChannelId, ContextError>)
    requires
        ctx.inv(),
    ensures
        r == spec_try_validate_msg(ctx, *msg),
{
    let conn = handshake_connection(ctx, &msg.connection_hops_on_b, msg.ordering)?;
    let hop_on_a = counterparty_hop(&conn)?;
    let expected = ChannelEnd {
        state: State::Init,
        ordering: msg.ordering,
        counterparty: Counterparty { port_id: msg.port_id_on_b.clone(), channel_id: None },
        connection_hops: one_hop(hop_on_a),
        version: msg.version_supported_on_a.clone(),
    };
    channel_proof(
        ctx,
        &conn,
        &msg.proof_chan_end_on_a,
        &msg.proof_height_on_a,
        &msg.port_id_on_a,
        msg.chan_id_on_a,
        expected,
    )?;
    let counter = ctx.channel_counter();
    if counter == u64::MAX {
        return Err(ContextError::Channel(ChannelError::CounterOverflow));
    }
    Ok(ChannelId::new(counter))
}

/// Validates the second step: first the engine's own checks, then the
/// module's. Where the engine's checks fail, theirs is the answer and the
/// module is not asked. Where they pass, the module's answer decides.
pub fn chan_open_try_validate<Ctx: ValidationContext, M: Module>(
    ctx: &Ctx,
    module: &M,
    msg: &MsgChannelOpenTry,
) -> (r: Result<(), ContextError>)
    requires
        ctx.inv(),
    ensures
        spec_try_validate_msg(ctx, *msg) matches Err(e) ==> r == Err::<(), ContextError>(e),
        r matches Err(e) ==> spec_try_validate_msg(ctx, *msg) is Err || e is Channel,
        match spec_try_validate_msg(ctx, *msg) {
            Err(_) => true,
            Ok(id) => exists|answer: Result<Version, ChannelError>|
                {
                    &&& #[trigger] module_checks_opening(
                        module,
                        Step::OpenTry,
                        msg.ordering,
                        &msg.connection_hops_on_b,
                        &msg.port_id_on_b,
                        &id,
                        &(Counterparty {
                            port_id: msg.port_id_on_a,
                            channel_id: Some(msg.chan_id_on_a),
                        }),
                        &msg.version_supported_on_a,
                        answer,
                    )
                    &&& r == taken(spec_module_says(answer))
                },
        },
{
    let id = chan_open_try_validate_core(ctx, msg)?;
    let counterparty = Counterparty {
        port_id: msg.port_id_on_a.clone(),
        channel_id: Some(msg.chan_id_on_a),
    };
    let answer = module.on_chan_open_try_validate(
        msg.ordering,
        &msg.connection_hops_on_b,
        &msg.port_id_on_b,
        &id,
        &counterparty,
        &msg.version_supported_on_a,
    );
    assert(module_checks_opening(
        module,
        Step::OpenTry,
        msg.ordering,
        &msg.connection_hops_on_b,
        &msg.port_id_on_b,
        &id,
        &counterparty,
        &msg.version_supported_on_a,
        answer,
    ));
    match module_says(answer) {
        Ok(_) => Ok(()),
        Err(e) => Err(e),
    }
}

/// Executes the second step: the module settles on a version, and a channel
/// end in `TryOpen` is stored under a fresh identifier, with its sequence
/// counters at one. Nothing is changed where the step is turned down. The
/// module is asked only where the engine's own checks pass, and is left as it
/// was where they fail; where they pass, its answer decides: see
/// `spec_opened_by`.
pub fn chan_open_try_execute<Ctx: ExecutionContext, M: Module>(
    ctx: &mut Ctx,
    module: &mut M,
    msg: MsgChannelOpenTry,
) -> (r: Result<ChannelId, ContextError>)
    requires
        old(ctx).inv(),
    ensures
        final(ctx).inv(),
        final(ctx).host_side() == old(ctx).host_side(),
        match r {
            Err(e) => final(ctx).state() == old(ctx).state() && match spec_try_validate_msg(
                &*old(ctx),
                msg,
            ) {
                Err(failed) => e == failed,
                Ok(_) => e is Channel,
            },
            Ok(id) => spec_try_validate_msg(&*old(ctx), msg) == Ok::<ChannelId, ContextError>(id)
                && spec_opened(
                old(ctx).state(),
                Step::OpenTry,
                (msg.port_id_on_b@, id),
                try_end(
                    msg.ordering,
                    msg.port_id_on_a@,
                    msg.chan_id_on_a,
                    msg.connection_hops_on_b@,
                ),
                final(ctx).state(),
            ),
        },
        match spec_try_validate_msg(&*old(ctx), msg) {
            Err(_) => *final(module) == *old(module),
            Ok(id) => exists|
                asked: &mut M,
                answer: Result<(ModuleExtras, Version), ChannelError>,
            |
                {
                    &&& mut_ref_current(asked) == *old(module)
                    &&& mut_ref_future(asked) == *final(module)
                    &&& #[trigger] module_opens(
                        asked,
                        Step::OpenTry,
                        msg.ordering,
                        &msg.connection_hops_on_b,
                        &msg.port_id_on_b,
                        &id,
                        &(Counterparty { port_id: msg.port_id_on_a, channel_id: Some(msg.chan_id_on_a) }),
                        &msg.version_supported_on_a,
                        answer,
                    )
                    &&& spec_opened_by(
                        old(ctx).state(),
                        Step::OpenTry,
                        (msg.port_id_on_b@, id),
                        try_end(msg.ordering, msg.port_id_on_a@, msg.chan_id_on_a, msg.connection_hops_on_b@),
                        answer,
                        taken(r),
                        final(ctx).state(),
                    )
                },
        },
{
    let id = chan_open_try_validate_core(ctx, &msg)?;
    let counterparty = Counterparty { port_id: msg.port_id_on_a, channel_id: Some(msg.chan_id_on_a) };
    let ghost before = *module;
    let said = module.on_chan_open_try_execute(
        msg.ordering,
        &msg.connection_hops_on_b,
        &msg.port_id_on_b,
        &id,
        &counterparty,
        &msg.version_supported_on_a,
    );
    let ghost key = (msg.port_id_on_b@, id);
    let ghost base = try_end(msg.ordering, msg.port_id_on_a@, msg.chan_id_on_a, msg.connection_hops_on_b@);
    let ghost asked = choose|asked: &mut M|
        mut_ref_current(asked) == before && mut_ref_future(asked) == *module
            && #[trigger] call_ensures(
            M::on_chan_open_try_execute,
            (
                asked,
                msg.ordering,
                &msg.connection_hops_on_b,
                &msg.port_id_on_b,
                &id,
                &counterparty,
                &msg.version_supported_on_a,
            ),
            said,
        );
    assert(module_opens(
        asked,
        Step::OpenTry,
        msg.ordering,
        &msg.connection_hops_on_b,
        &msg.port_id_on_b,
        &id,
        &counterparty,
        &msg.version_supported_on_a,
        said,
    ));
    match said {
        Err(e) => {
            assert(spec_opened_by(
                old(ctx).state(),
                Step::OpenTry,
                key,
                base,
                said,
                Err(ContextError::Channel(e)),
                ctx.state(),
            ));
            Err(ContextError::Channel(e))
        },
        Ok((extras, version)) => {
            let end = ChannelEnd {
                state: State::TryOpen,
                ordering: msg.ordering,
                counterparty,
                connection_hops: msg.connection_hops_on_b,
                version,
            };
            let ghost end_view = end@;
            let ghost module_events = module_events_view(extras.events@);
            let ghost module_logs = logs_view(extras.log@);
            open_new_channel(ctx, &msg.port_id_on_b, id);
            store_channel_end(ctx, Step::OpenTry, &msg.port_id_on_b, id, end, extras);
            proof {
                assert(end_view == ChannelEndView { version: end_view.version, ..base });
                assert(ctx.state() == spec_store_channel(
                    spec_new_channel(old(ctx).state(), key),
                    Step::OpenTry,
                    key,
                    ChannelEndView { version: end_view.version, ..base },
                    module_events,
                    module_logs,
                ));
                assert(spec_opened_by(
                    old(ctx).state(),
                    Step::OpenTry,
                    key,
                    base,
                    said,
                    Ok(()),
                    ctx.state(),
                ));
            }
            Ok(id)
        },
    }
}

/// What a later step of a handshake is about.
#[derive(Clone, Copy, Debug, PartialEq, Eq, Structural)]
pub enum Advance {
    /// The third step of opening, on chain A, which learns the channel on
    /// chain B.
    OpenAck(ChannelId),
    /// The last step of opening, on chain B.
    OpenConfirm,
    /// Closing the channel from this end.
    CloseInit,
    /// Closing this end after the other end was closed.
    CloseConfirm,
}

impl Advance {
    /// The step that is reported.
    pub open spec fn step(self) -> Step {
        match self {
            Advance::OpenAck(_) => Step::OpenAck,
            Advance::OpenConfirm => Step::OpenConfirm,
            Advance::CloseInit => Step::CloseInit,
            Advance::CloseConfirm => Step::CloseConfirm,
        }
    }

    /// Whether a channel end in the state `state` can take the step: the
    /// third step of opening is for an end in `Init`, the last for one in
    /// `TryOpen`, and an end can be closed unless it is closed.
    pub open spec fn fits(self, state: State) -> bool {
        match self {
            Advance::OpenAck(_) => state == State::Init,
            Advance::OpenConfirm => state == State::TryOpen,
            Advance::CloseInit => state != State::Closed,
            Advance::CloseConfirm => state != State::Closed,
        }
    }

    /// The state that the counterparty's end must be shown to be in; closing
    /// from this end needs no proof.
    pub open spec fn counterparty_state(self) -> Option<State> {
        match self {
            Advance::OpenAck(_) => Some(State::TryOpen),
            Advance::OpenConfirm => Some(State::Open),
            Advance::CloseInit => None,
            Advance::CloseConfirm => Some(State::Closed),
        }
    }

    /// The state that the local end is in after the step.
    pub open spec fn target(self) -> State {
        match self {
            Advance::OpenAck(_) => State::Open,
            Advance::OpenConfirm => State::Open,
            Advance::CloseInit => State::Closed,
            Advance::CloseConfirm => State::Closed,
        }
    }

    pub fn get_step(&self) -> (r: Step)
        ensures
            r == self.step(),
    {
        match self {
            Advance::OpenAck(_) => Step::OpenAck,
            Advance::OpenConfirm => Step::OpenConfirm,
            Advance::CloseInit => Step::CloseInit,
            Advance::CloseConfirm => Step::CloseConfirm,
        }
    }

    pub fn check_fits(&self, end: &ChannelEnd) -> (r: bool)
        ensures
            r == self.fits(end.state),
    {
        match self {
            Advance::OpenAck(_) => end.state_matches(State::Init),
            Advance::OpenConfirm => end.state_matches(State::TryOpen),
            Advance::CloseInit => !end.state_matches(State::Closed),
            Advance::CloseConfirm => !end.state_matches(State::Closed),
        }
    }

    pub fn get_counterparty_state(&self) -> (r: Option<State>)
        ensures
            r == self.counterparty_state(),
    {
        match self {
            Advance::OpenAck(_) => Some(State::TryOpen),
            Advance::OpenConfirm => Some(State::Open),
            Advance::CloseInit => None,
            Advance::CloseConfirm => Some(State::Closed),
        }
    }

    pub fn get_target(&self) -> (r: State)
        ensures
            r == self.target(),
    {
        match self {
            Advance::OpenAck(_) => State::Open,
            Advance::OpenConfirm => State::Open,
            Advance::CloseInit => State::Closed,
            Advance::CloseConfirm => State::Closed,
        }
    }
}

/// The local end after a later step: in the step's target state; the third
/// step of opening also fills in the channel on chain B and the version that
/// chain B settled on.
pub open spec fn advanced_end(
    local: ChannelEndView,
    advance: Advance,
    version_on_b: Seq<char>,
) -> ChannelEndView {
    match advance {
        Advance::OpenAck(chan_on_b) => ChannelEndView {
            state: State::Open,
            counterparty_channel_id: Some(chan_on_b),
            version: version_on_b,
            ..local
        },
        _ => ChannelEndView { state: advance.target(), ..local },
    }
}

/// The channel on the counterparty chain, as the step knows it: the third
/// step of opening is told it, the others take it from the local end, where
/// it must be known.
pub open spec fn spec_counterparty_channel(local: ChannelEndView, advance: Advance) -> Result<
    ChannelId,
    ContextError,
> {
    match advance {
        Advance::OpenAck(chan_on_b) => Ok(chan_on_b),
        _ => match local.counterparty_channel_id {
            Some(id) => Ok(id),
            None => Err(ContextError::Channel(ChannelError::MissingCounterparty)),
        },
    }
}

/// What the engine itself checks of a later step, and the end that the step
/// then stores. The local end must be stored and in a state that fits the
/// step, and its connection must be open. But for closing from this end, the
/// proof must show the counterparty's end in the state that the step asks
/// for, with the local end as its counterparty, the local end's ordering, and
/// the version that the local end has, or, at the third step of opening,
/// that chain B settled on.
pub open spec fn spec_advance_validate<Ctx: ValidationContext>(
    ctx: &Ctx,
    key: ChannelKey,
    advance: Advance,
    version_on_b: Seq<char>,
    proof: Seq<u8>,
    proof_height: Height,
) -> Result<ChannelEndView, ContextError> {
    let s = ctx.state();
    match s.channel_end(key) {
        Err(e) => Err(e),
        Ok(local) => if !advance.fits(local.state) {
            Err(ContextError::Channel(ChannelError::StateMismatch))
        } else {
            match spec_channel_connection(s, local) {
                Err(e) => Err(e),
                Ok((_, conn)) => match advance.counterparty_state() {
                    None => Ok(advanced_end(local, advance, version_on_b)),
                    Some(state) => match spec_counterparty_hop(conn) {
                        Err(e) => Err(e),
                        Ok(hop) => match spec_counterparty_channel(local, advance) {
                            Err(e) => Err(e),
                            Ok(chan) => match spec_channel_proof(
                                ctx,
                                conn,
                                proof,
                                proof_height,
                                (local.counterparty_port_id, chan),
                                ChannelEndView {
                                    state,
                                    ordering: local.ordering,
                                    counterparty_port_id: key.0,
                                    counterparty_channel_id: Some(key.1),
                                    connection_hops: seq![hop],
                                    version: if advance is OpenAck {
                                        version_on_b
                                    } else {
                                        local.version
                                    },
                                },
                            ) {
                                Err(e) => Err(e),
                                Ok(_) => Ok(advanced_end(local, advance, version_on_b)),
                            },
                        },
                    },
                },
            }
        },
    }
}

/// The engine's own part of validating a later step; it makes the end that
/// the step stores.
pub fn advance_validate_core<Ctx: ValidationContext>(
    ctx: &Ctx,
    port_id: &PortId,
    channel_id: ChannelId,
    advance: Advance,
    version_on_b: &Version,
    proof: &Vec<u8>,
    proof_height: &Height,
) -> (r: Result<ChannelEnd, ContextError>)
    requires
        ctx.inv(),
    ensures
        result_view(r) == spec_advance_validate(
            ctx,
            (port_id@, channel_id),
            advance,
            version_on_b@,
            proof@,
            *proof_height,
        ),
        r matches Ok(end) ==> end.connection_hops@.len() == 1,
{
    let local = ctx.channel_end(&ChannelEndPath::new(port_id, &channel_id))?;
    if !advance.check_fits(&local) {
        return Err(ContextError::Channel(ChannelError::StateMismatch));
    }
    let (_, conn) = channel_connection(ctx, &local)?;
    match advance.get_counterparty_state() {
        None => {},
        Some(state) => {
            let hop = counterparty_hop(&conn)?;
            let chan = match advance {
                Advance::OpenAck(chan_on_b) => chan_on_b,
                _ => match local.counterparty.channel_id {
                    Some(id) => id,
                    None => {
                        return Err(ContextError::Channel(ChannelError::MissingCounterparty));
                    },
                },
            };
            let expected = ChannelEnd {
                state,
                ordering: local.ordering,
                counterparty: Counterparty { port_id: port_id.clone(), channel_id: Some(channel_id) },
                connection_hops: one_hop(hop),
                version: match advance {
                    Advance::OpenAck(_) => version_on_b.clone(),
                    _ => local.version.clone(),
                },
            };
            channel_proof(
                ctx,
                &conn,
                proof,
                proof_height,
                &local.counterparty.port_id,
                chan,
                expected,
            )?;
        },
    }
    let target = advance.get_target();
    match advance {
        Advance::OpenAck(chan_on_b) => Ok(
            ChannelEnd {
                state: target,
                ordering: local.ordering,
                counterparty: Counterparty {
                    port_id: local.counterparty.port_id,
                    channel_id: Some(chan_on_b),
                },
                connection_hops: local.connection_hops,
                version: version_on_b.clone(),
            },
        ),
        _ => Ok(local.with_state(target)),
    }
}

/// Whether `answer` is what the module answers where it is asked to
/// validate a later step: the callback for the step is the one that is
/// asked, about the port and the channel, and at the third step of opening
/// about the version that chain B settled on.
pub open spec fn module_validates<M: Module>(
    module: &M,
    port_id: &PortId,
    channel_id: &ChannelId,
    advance: Advance,
    version_on_b: &Version,
    answer: Result<(), ChannelError>,
) -> bool {
    match advance {
        Advance::OpenAck(_) => call_ensures(
            M::on_chan_open_ack_validate,
            (module, port_id, channel_id, version_on_b),
            answer,
        ),
        Advance::OpenConfirm => call_ensures(
            M::on_chan_open_confirm_validate,
            (module, port_id, channel_id),
            answer,
        ),
        Advance::CloseInit => call_ensures(
            M::on_chan_close_init_validate,
            (module, port_id, channel_id),
            answer,
        ),
        Advance::CloseConfirm => call_ensures(
            M::on_chan_close_confirm_validate,
            (module, port_id, channel_id),
            answer,
        ),
    }
}

/// Asks the module to validate a later step. The answer is the module's:
/// where the module takes the step, so does this; where it turns the step
/// down, its error comes back as an error of the channel layer.
fn module_validate<M: Module>(
    module: &M,
    port_id: &PortId,
    channel_id: &ChannelId,
    advance: Advance,
    version_on_b: &Version,
) -> (r: Result<(), ContextError>)
    ensures
        exists|answer: Result<(), ChannelError>|
            {
                &&& #[trigger] module_validates(
                    module,
                    port_id,
                    channel_id,
                    advance,
                    version_on_b,
                    answer,
                )
                &&& r == spec_module_says(answer)
            },
{
    let answer = match advance {
        Advance::OpenAck(_) => module.on_chan_open_ack_validate(port_id, channel_id, version_on_b),
        Advance::OpenConfirm => module.on_chan_open_confirm_validate(port_id, channel_id),
        Advance::CloseInit => module.on_chan_close_init_validate(port_id, channel_id),
        Advance::CloseConfirm => module.on_chan_close_confirm_validate(port_id, channel_id),
    };
    assert(module_validates(module, port_id, channel_id, advance, version_on_b, answer));
    module_says(answer)
}

/// Whether `answer` is what the module answers where it is asked to
/// execute a later step: the callback for the step is the one that is asked,
/// about the port and the channel, and at the third step of opening about the
/// version that chain B settled on. `asked` is the module as the callback
/// takes it and leaves it.
pub open spec fn module_executes<M: Module>(
    asked: &mut M,
    port_id: &PortId,
    channel_id: &ChannelId,
    advance: Advance,
    version_on_b: &Version,
    answer: Result<ModuleExtras, ChannelError>,
) -> bool {
    match advance {
        Advance::OpenAck(_) => call_ensures(
            M::on_chan_open_ack_execute,
            (asked, port_id, channel_id, version_on_b),
            answer,
        ),
        Advance::OpenConfirm => call_ensures(
            M::on_chan_open_confirm_execute,
            (asked, port_id, channel_id),
            answer,
        ),
        Advance::CloseInit => call_ensures(
            M::on_chan_close_init_execute,
            (asked, port_id, channel_id),
            answer,
        ),
        Advance::CloseConfirm => call_ensures(
            M::on_chan_close_confirm_execute,
            (asked, port_id, channel_id),
            answer,
        ),
    }
}

/// Asks the module to execute a later step. The callback for the step is
/// asked, of the module as it was, and the module is left as the callback
/// leaves it. The answer is the module's: where the module takes the step,
/// what it hands over comes back; where it turns the step down, its error
/// comes back as an error of the channel layer.
fn module_execute<M: Module>(
    module: &mut M,
    port_id: &PortId,
    channel_id: &ChannelId,
    advance: Advance,
    version_on_b: &Version,
) -> (r: Result<ModuleExtras, ContextError>)
    ensures
        exists|asked: &mut M, answer: Result<ModuleExtras, ChannelError>|
            {
                &&& mut_ref_current(asked) == *old(module)
                &&& mut_ref_future(asked) == *final(module)
                &&& r == spec_module_says(answer)
                &&& #[trigger] module_executes(
                    asked,
                    port_id,
                    channel_id,
                    advance,
                    version_on_b,
                    answer,
                )
            },
{
    let ghost before = *module;
    let answer = match advance {
        Advance::OpenAck(_) => {
            let answer = module.on_chan_open_ack_execute(port_id, channel_id, version_on_b);
            proof {
                let asked = choose|asked: &mut M|
                    mut_ref_current(asked) == before && mut_ref_future(asked) == *module
                        && #[trigger] call_ensures(
                        M::on_chan_open_ack_execute,
                        (asked, port_id, channel_id, version_on_b),
                        answer,
                    );
                assert(module_executes(asked, port_id, channel_id, advance, version_on_b, answer));
            }
            answer
        },
        Advance::OpenConfirm => {
            let answer = module.on_chan_open_confirm_execute(port_id, channel_id);
            proof {
                let asked = choose|asked: &mut M|
                    mut_ref_current(asked) == before && mut_ref_future(asked) == *module
                        && #[trigger] call_ensures(
                        M::on_chan_open_confirm_execute,
                        (asked, port_id, channel_id),
                        answer,
                    );
                assert(module_executes(asked, port_id, channel_id, advance, version_on_b, answer));
            }
            answer
        },
        Advance::CloseInit => {
            let answer = module.on_chan_close_init_execute(port_id, channel_id);
            proof {
                let asked = choose|asked: &mut M|
                    mut_ref_current(asked) == before && mut_ref_future(asked) == *module
                        && #[trigger] call_ensures(
                        M::on_chan_close_init_execute,
                        (asked, port_id, channel_id),
                        answer,
                    );
                assert(module_executes(asked, port_id, channel_id, advance, version_on_b, answer));
            }
            answer
        },
        Advance::CloseConfirm => {
            let answer = module.on_chan_close_confirm_execute(port_id, channel_id);
            proof {
                let asked = choose|asked: &mut M|
                    mut_ref_current(asked) == before && mut_ref_future(asked) == *module
                        && #[trigger] call_ensures(
                        M::on_chan_close_confirm_execute,
                        (asked, port_id, channel_id),
                        answer,
                    );
                assert(module_executes(asked, port_id, channel_id, advance, version_on_b, answer));
            }
            answer
        },
    };
    module_says(answer)
}

/// Validates a later step of a handshake: first the engine's own checks,
/// then the module's. Where the engine's checks fail, theirs is the answer
/// and the module is not asked. Where they pass, the answer is that of the
/// module's callback for the step, an error as an error of the channel layer.
pub fn advance_validate<Ctx: ValidationContext, M: Module>(
    ctx: &Ctx,
    module: &M,
    port_id: &PortId,
    channel_id: ChannelId,
    advance: Advance,
    version_on_b: &Version,
    proof: &Vec<u8>,
    proof_height: &Height,
) -> (r: Result<(), ContextError>)
    requires
        ctx.inv(),
    ensures
        spec_advance_validate(
            ctx,
            (port_id@, channel_id),
            advance,
            version_on_b@,
            proof@,
            *proof_height,
        ) matches Err(e) ==> r == Err::<(), ContextError>(e),
        r matches Err(e) ==> spec_advance_validate(
            ctx,
            (port_id@, channel_id),
            advance,
            version_on_b@,
            proof@,
            *proof_height,
        ) is Err || e is Channel,
        spec_advance_validate(
            ctx,
            (port_id@, channel_id),
            advance,
            version_on_b@,
            proof@,
            *proof_height,
        ) is Ok ==> exists|answer: Result<(), ChannelError>|
            {
                &&& #[trigger] module_validates(
                    module,
                    port_id,
                    &channel_id,
                    advance,
                    version_on_b,
                    answer,
                )
                &&& r == spec_module_says(answer)
            },
{
    let _ = advance_validate_core(
        ctx,
        port_id,
        channel_id,
        advance,
        version_on_b,
        proof,
        proof_height,
    )?;
    module_validate(module, port_id, &channel_id, advance, version_on_b)
}

/// What a later step comes to once the module has answered: where the
/// module takes the step, the end is stored, the step is reported, and then
/// what the module handed over; where the module turns the step down, its
/// error comes back as an error of the channel layer and nothing is changed.
pub open spec fn spec_advanced(
    before: HostState,
    step: Step,
    key: ChannelKey,
    end: ChannelEndView,
    answer: Result<ModuleExtras, ChannelError>,
    r: Result<(), ContextError>,
    after: HostState,
) -> bool {
    match answer {
        Ok(extras) => r is Ok && after == spec_store_channel(
            before,
            step,
            key,
            end,
            module_events_view(extras.events@),
            logs_view(extras.log@),
        ),
        Err(e) => r == Err::<(), ContextError>(ContextError::Channel(e)) && after == before,
    }
}

/// Executes a later step of a handshake: the module is told, and the local
/// end is stored in its new state. Nothing is changed where the step is
/// turned down; the module is asked only where the engine's own checks pass,
/// and is left as it was where they fail. Where they pass, the module's
/// callback for the step is asked once, and its answer decides: see
/// `spec_advanced`.
pub fn advance_execute<Ctx: ExecutionContext, M: Module>(
    ctx: &mut Ctx,
    module: &mut M,
    port_id: &PortId,
    channel_id: ChannelId,
    advance: Advance,
    version_on_b: &Version,
    proof: &Vec<u8>,
    proof_height: &Height,
) -> (r: Result<(), ContextError>)
    requires
        old(ctx).inv(),
    ensures
        final(ctx).inv(),
        final(ctx).host_side() == old(ctx).host_side(),
        match r {
            Err(e) => final(ctx).state() == old(ctx).state() && match spec_advance_validate(
                &*old(ctx),
                (port_id@, channel_id),
                advance,
                version_on_b@,
                proof@,
                *proof_height,
            ) {
                Err(failed) => e == failed,
                Ok(_) => e is Channel,
            },
            Ok(_) => spec_advance_validate(
                &*old(ctx),
                (port_id@, channel_id),
                advance,
                version_on_b@,
                proof@,
                *proof_height,
            ) matches Ok(end) && spec_stepped(
                old(ctx).state(),
                advance.step(),
                (port_id@, channel_id),
                end,
                final(ctx).state(),
            ),
        },
        match spec_advance_validate(
            &*old(ctx),
            (port_id@, channel_id),
            advance,
            version_on_b@,
            proof@,
            *proof_height,
        ) {
            Err(_) => *final(module) == *old(module),
            Ok(end) => exists|asked: &mut M, answer: Result<ModuleExtras, ChannelError>|
                {
                    &&& mut_ref_current(asked) == *old(module)
                    &&& mut_ref_future(asked) == *final(module)
                    &&& #[trigger] module_executes(
                        asked,
                        port_id,
                        &channel_id,
                        advance,
                        version_on_b,
                        answer,
                    )
                    &&& spec_advanced(
                        old(ctx).state(),
                        advance.step(),
                        (port_id@, channel_id),
                        end,
                        answer,
                        r,
                        final(ctx).state(),
                    )
                },
        },
{
    let end = advance_validate_core(
        ctx,
        port_id,
        channel_id,
        advance,
        version_on_b,
        proof,
        proof_height,
    )?;
    let ghost end_view = end@;
    let ghost before = *module;
    let said = module_execute(module, port_id, &channel_id, advance, version_on_b);
    let ghost (asked, answer) = choose|
        asked: &mut M,
        answer: Result<ModuleExtras, ChannelError>,
    |
        {
            &&& mut_ref_current(asked) == before
            &&& mut_ref_future(asked) == *module
            &&& said == spec_module_says(answer)
            &&& #[trigger] module_executes(
                asked,
                port_id,
                &channel_id,
                advance,
                version_on_b,
                answer,
            )
        };
    match said {
        Err(e) => {
            assert(spec_advanced(
                old(ctx).state(),
                advance.step(),
                (port_id@, channel_id),
                end_view,
                answer,
                Err(e),
                ctx.state(),
            ));
            Err(e)
        },
        Ok(extras) => {
            let ghost module_events = module_events_view(extras.events@);
            let ghost module_logs = logs_view(extras.log@);
            store_channel_end(ctx, advance.get_step(), port_id, channel_id, end, extras);
            assert(ctx.state() == spec_store_channel(
                old(ctx).state(),
                advance.step(),
                (port_id@, channel_id),
                end_view,
                module_events,
                module_logs,
            ));
            assert(spec_advanced(
                old(ctx).state(),
                advance.step(),
                (port_id@, channel_id),
                end_view,
                answer,
                Ok(()),
                ctx.state(),
            ));
            Ok(())
        },
    }
}

} // verus!
