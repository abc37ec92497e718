//! The handshake that opens a connection: `Init` on chain A, `TryOpen` on
//! chain B, `Open` on chain A, `Open` on chain B.

use vstd::prelude::*;
use crate::connection::{
    any_supports,
    copy_versions,
    get_compatible_versions,
    pick_version,
    spec_any_supports,
    spec_compatible_versions,
    spec_pick_version,
    CommitmentPrefix,
    ConnectionEnd,
    ConnectionEndView,
    Counterparty,
    State,
    Version,
};
use crate::context::{ExecutionContext, ProofValue, ProofValueView, ValidationContext};
use crate::error::{ConnectionError, ContextError};
use crate::events::{ConnectionAttributes, IbcEvent, IbcEventView, MessageEvent};
use crate::handler::common::{
    active_client,
    check_membership,
    delay_passed,
    proof_client,
    result_view,
    spec_active_client,
    spec_delay_passed,
    spec_membership,
    spec_proof_client,
};
use crate::height::Height;
use crate::identifier::{ClientId, ConnectionId};
use crate::msgs::{
    MsgConnectionOpenAck,
    MsgConnectionOpenConfirm,
    MsgConnectionOpenInit,
    MsgConnectionOpenTry,
};
use crate::path::{Path, PathView};
use crate::state::HostState;
use crate::timestamp::Duration;

verus! {

/// The prefix under which this engine's hosts keep their protocol store.
pub open spec fn host_prefix() -> Seq<char> {
    "ibc"@
}

/// What a connection event tells of a connection end.
pub open spec fn connection_attributes(id: ConnectionId, end: ConnectionEndView) -> ConnectionAttributes {
    ConnectionAttributes {
        connection_id: id,
        client_id: end.client_id,
        counterparty_connection_id: end.counterparty_connection_id,
        counterparty_client_id: end.counterparty_client_id,
    }
}

/// The step of the handshake that an event reports.
#[derive(Clone, Copy, Debug, PartialEq, Eq, Structural)]
pub enum Step {
    Init,
    Try,
    Ack,
    Confirm,
}

/// The event of a step of the handshake.
pub open spec fn step_event(step: Step, attributes: ConnectionAttributes) -> IbcEventView {
    match step {
        Step::Init => IbcEventView::OpenInitConnection(attributes),
        Step::Try => IbcEventView::OpenTryConnection(attributes),
        Step::Ack => IbcEventView::OpenAckConnection(attributes),
        Step::Confirm => IbcEventView::OpenConfirmConnection(attributes),
    }
}

/// The log line of a step of the handshake.
pub open spec fn step_log(step: Step) -> Seq<char> {
    match step {
        Step::Init => "success: conn_open_init"@,
        Step::Try => "success: conn_open_try"@,
        Step::Ack => "success: conn_open_ack"@,
        Step::Confirm => "success: conn_open_confirm"@,
    }
}

/// The state after a step of the handshake stored `end` under `id`: the end
/// is stored, and the step is reported and logged.
pub open spec fn spec_store_end(s: HostState, step: Step, id: ConnectionId, end: ConnectionEndView) -> HostState {
    (HostState { connections: s.connections.insert(id, end), ..s }).reporting(
        seq![
            IbcEventView::Message(MessageEvent::Connection),
            step_event(step, connection_attributes(id, end)),
        ],
        seq![step_log(step)],
    )
}

/// Stores a connection end and reports the step that made it.
pub fn store_end<Ctx: ExecutionContext>(ctx: &mut Ctx, step: Step, id: ConnectionId, end: ConnectionEnd)
    requires
        old(ctx).inv(),
    ensures
        final(ctx).inv(),
        final(ctx).host_side() == old(ctx).host_side(),
        final(ctx).state() == spec_store_end(old(ctx).state(), step, id, end@),
{
    let ghost s = ctx.state();
    let attributes = ConnectionAttributes {
        connection_id: id,
        client_id: end.client_id,
        counterparty_connection_id: end.counterparty.connection_id,
        counterparty_client_id: end.counterparty.client_id,
    };
    let ghost end_view = end@;
    ctx.store_connection(id, end);
    match step {
        Step::Init => {
            ctx.log_message("success: conn_open_init".to_owned());
            ctx.emit_ibc_event(IbcEvent::Message(MessageEvent::Connection));
            ctx.emit_ibc_event(IbcEvent::OpenInitConnection(attributes));
        },
        Step::Try => {
            ctx.log_message("success: conn_open_try".to_owned());
            ctx.emit_ibc_event(IbcEvent::Message(MessageEvent::Connection));
            ctx.emit_ibc_event(IbcEvent::OpenTryConnection(attributes));
        },
        Step::Ack => {
            ctx.log_message("success: conn_open_ack".to_owned());
            ctx.emit_ibc_event(IbcEvent::Message(MessageEvent::Connection));
            ctx.emit_ibc_event(IbcEvent::OpenAckConnection(attributes));
        },
        Step::Confirm => {
            ctx.log_message("success: conn_open_confirm".to_owned());
            ctx.emit_ibc_event(IbcEvent::Message(MessageEvent::Connection));
            ctx.emit_ibc_event(IbcEvent::OpenConfirmConnection(attributes));
        },
    }
    proof {
        let expected = spec_store_end(s, step, id, end_view);
        assert(ctx.state().events =~= expected.events);
        assert(ctx.state().logs =~= expected.logs);
    }
}

/// Whether the proof shows that the counterparty has stored the connection
/// end `expected` under `counterparty_id`. The proof is checked for the local
/// end `local`: its client must be active and hold a consensus state at the
/// proof's height, and its delay period must have passed.
pub open spec fn spec_connection_proof<Ctx: ValidationContext>(
    ctx: &Ctx,
    local: ConnectionEndView,
    proof: Seq<u8>,
    proof_height: Height,
    counterparty_id: ConnectionId,
    expected: ConnectionEndView,
) -> Result<(), ContextError> {
    match spec_proof_client(ctx.state(), local.client_id, proof_height) {
        Err(e) => Err(e),
        Ok((client_state, consensus_state)) => match spec_delay_passed(ctx, local, proof_height) {
            Err(e) => Err(e),
            Ok(_) => if spec_membership(
                ctx,
                client_state,
                consensus_state,
                local.counterparty_prefix,
                proof,
                PathView::Connection(counterparty_id),
                ProofValueView::Connection(expected),
            ) {
                Ok(())
            } else {
                Err(ContextError::Connection(ConnectionError::ProofFailure))
            },
        },
    }
}

/// Checks the proof of the counterparty's connection end.
pub fn connection_proof<Ctx: ValidationContext>(
    ctx: &Ctx,
    local: &ConnectionEnd,
    proof: &Vec<u8>,
    proof_height: &Height,
    counterparty_id: ConnectionId,
    expected: ConnectionEnd,
) -> (r: Result<(), ContextError>)
    requires
        ctx.inv(),
    ensures
        r == spec_connection_proof(
            ctx,
            local@,
            proof@,
            *proof_height,
            counterparty_id,
            expected@,
        ),
{
    let (client_state, consensus_state) = proof_client(ctx, &local.client_id, proof_height)?;
    delay_passed(ctx, local, proof_height)?;
    if check_membership(
        ctx,
        &client_state,
        &consensus_state,
        &local.counterparty.prefix,
        proof,
        &Path::Connection(counterparty_id),
        &ProofValue::Connection(expected),
    ) {
        Ok(())
    } else {
        Err(ContextError::Connection(ConnectionError::ProofFailure))
    }
}

/// The connection end that the first step makes: in `Init`, with the
/// version asked for, or with all that the engine can work with where none
/// is asked for.
pub open spec fn init_end(
    client_id: ClientId,
    counterparty_client_id: ClientId,
    counterparty_connection_id: Option<ConnectionId>,
    counterparty_prefix: Seq<char>,
    version: Option<Version>,
    delay_period: Duration,
) -> ConnectionEndView {
    ConnectionEndView {
        state: State::Init,
        client_id,
        counterparty_client_id,
        counterparty_connection_id,
        counterparty_prefix,
        versions: match version {
            Some(v) => seq![v],
            None => spec_compatible_versions(),
        },
        delay_period,
    }
}

/// Whether a handshake can be begun, and under which identifier: the client
/// must be active, a version that is asked for must be one that the engine
/// supports, and the host must have a connection number left. The first
/// step needs no proof: what it claims is checked by the steps that follow.
pub open spec fn spec_init_validate(s: HostState, client_id: ClientId, version: Option<Version>) -> Result<
    ConnectionId,
    ContextError,
> {
    match spec_active_client(s, client_id) {
        Err(e) => Err(e),
        Ok(_) => if version matches Some(v) && !spec_any_supports(spec_compatible_versions(), v) {
            Err(ContextError::Connection(ConnectionError::VersionMismatch))
        } else if s.connection_counter == u64::MAX {
            Err(ContextError::Connection(ConnectionError::CounterOverflow))
        } else {
            Ok(ConnectionId { counter: s.connection_counter })
        },
    }
}

/// The state after the first step: the new end is stored and reported, and
/// the next connection gets the next number.
pub open spec fn spec_init_apply(s: HostState, id: ConnectionId, end: ConnectionEndView) -> HostState {
    spec_store_end(
        HostState { connection_counter: (s.connection_counter + 1) as u64, ..s },
        Step::Init,
        id,
        end,
    )
}

/// Validates the first step of the handshake.
pub fn conn_open_init_validate<Ctx: ValidationContext>(ctx: &Ctx, msg: &MsgConnectionOpenInit) -> (r:
    Result<ConnectionId, ContextError>)
    requires
        ctx.inv(),
    ensures
        r == spec_init_validate(ctx.state(), msg.client_id_on_a, msg.version),
{
    let _ = active_client(ctx, &msg.client_id_on_a)?;
    match &msg.version {
        Some(v) => {
            if !any_supports(&get_compatible_versions(), v) {
                return Err(ContextError::Connection(ConnectionError::VersionMismatch));
            }
        },
        None => {},
    }
    let counter = ctx.connection_counter();
    if counter == u64::MAX {
        return Err(ContextError::Connection(ConnectionError::CounterOverflow));
    }
    Ok(ConnectionId::new(counter))
}

/// Executes the first step of the handshake: a connection end in `Init` is
/// stored under a fresh identifier. Nothing is changed where the step is
/// turned down.
pub fn conn_open_init_execute<Ctx: ExecutionContext>(ctx: &mut Ctx, msg: MsgConnectionOpenInit) -> (r:
    Result<ConnectionId, ContextError>)
    requires
        old(ctx).inv(),
    ensures
        final(ctx).inv(),
        final(ctx).host_side() == old(ctx).host_side(),
        r == spec_init_validate(old(ctx).state(), msg.client_id_on_a, msg.version),
        match r {
            Err(_) => final(ctx).state() == old(ctx).state(),
            Ok(id) => final(ctx).state() == spec_init_apply(
                old(ctx).state(),
                id,
                init_end(
                    msg.client_id_on_a,
                    msg.counterparty.client_id,
                    msg.counterparty.connection_id,
                    msg.counterparty.prefix.key@,
                    msg.version,
                    msg.delay_period,
                ),
            ),
        },
{
    let id = conn_open_init_validate(ctx, &msg)?;
    let versions = match msg.version {
        Some(v) => {
            let mut one: Vec<Version> = Vec::new();
            one.push(v);
            assert(one@ =~= seq![v]);
            one
        },
        None => get_compatible_versions(),
    };
    let end = ConnectionEnd {
        state: State::Init,
        client_id: msg.client_id_on_a,
        counterparty: msg.counterparty,
        versions,
        delay_period: msg.delay_period,
    };
    ctx.increase_connection_counter();
    store_end(ctx, Step::Init, id, end);
    Ok(id)
}

/// The end that chain A must have stored for the second step to be taken
/// on chain B: in `Init`, with chain B's client as its counterparty and no
/// connection on chain B known yet, and with the versions that the message
/// names.
pub open spec fn try_expected(
    client_id_on_b: ClientId,
    counterparty_client_id: ClientId,
    versions_on_a: Seq<Version>,
    delay_period: Duration,
) -> ConnectionEndView {
    ConnectionEndView {
        state: State::Init,
        client_id: counterparty_client_id,
        counterparty_client_id: client_id_on_b,
        counterparty_connection_id: None,
        counterparty_prefix: host_prefix(),
        versions: versions_on_a,
        delay_period,
    }
}

/// The end that the second step stores on chain B: with the version that
/// both sides settle on. It is in `TryOpen`; where chain B had begun a
/// handshake of its own, it is open at once.
pub open spec fn try_end(
    crossing: bool,
    client_id_on_b: ClientId,
    counterparty_client_id: ClientId,
    counterparty_connection_id: ConnectionId,
    counterparty_prefix: Seq<char>,
    version: Version,
    delay_period: Duration,
) -> ConnectionEndView {
    ConnectionEndView {
        state: if crossing {
            State::Open
        } else {
            State::TryOpen
        },
        client_id: client_id_on_b,
        counterparty_client_id,
        counterparty_connection_id: Some(counterparty_connection_id),
        counterparty_prefix,
        versions: seq![version],
        delay_period,
    }
}

/// What the second step learns before the proof is looked at: under which
/// identifier the end goes, whether chain B had begun a handshake of its own,
/// the connection on chain A, and the version settled on. The counterparty's
/// connection must be named; an earlier end of chain B's own must be stored,
/// in `Init`, for the same client and counterparty; the sides must have a
/// version in common; the host must have a connection number left.
pub open spec fn spec_try_plan(
    s: HostState,
    previous: Option<ConnectionId>,
    client_id_on_b: ClientId,
    counterparty_client_id: ClientId,
    counterparty_connection_id: Option<ConnectionId>,
    versions_on_a: Seq<Version>,
) -> Result<(ConnectionId, bool, ConnectionId, Version), ContextError> {
    match counterparty_connection_id {
        None => Err(ContextError::Connection(ConnectionError::MissingCounterparty)),
        Some(id_on_a) => match spec_pick_version(spec_compatible_versions(), versions_on_a) {
            None => Err(ContextError::Connection(ConnectionError::VersionMismatch)),
            Some(version) => match previous {
                Some(id) => match s.connection_end(id) {
                    Err(e) => Err(e),
                    Ok(end) => if end.state == State::Init && end.client_id == client_id_on_b
                        && end.counterparty_client_id == counterparty_client_id {
                        Ok((id, true, id_on_a, version))
                    } else {
                        Err(ContextError::Connection(ConnectionError::StateMismatch))
                    },
                },
                None => if s.connection_counter == u64::MAX {
                    Err(ContextError::Connection(ConnectionError::CounterOverflow))
                } else {
                    Ok((ConnectionId { counter: s.connection_counter }, false, id_on_a, version))
                },
            },
        },
    }
}

/// Whether the second step is taken, and what it then stores where.
pub open spec fn spec_try_validate<Ctx: ValidationContext>(
    ctx: &Ctx,
    previous: Option<ConnectionId>,
    client_id_on_b: ClientId,
    counterparty_client_id: ClientId,
    counterparty_connection_id: Option<ConnectionId>,
    counterparty_prefix: Seq<char>,
    versions_on_a: Seq<Version>,
    proof: Seq<u8>,
    proof_height: Height,
    delay_period: Duration,
) -> Result<(ConnectionId, bool, ConnectionEndView), ContextError> {
    match spec_try_plan(
        ctx.state(),
        previous,
        client_id_on_b,
        counterparty_client_id,
        counterparty_connection_id,
        versions_on_a,
    ) {
        Err(e) => Err(e),
        Ok((id, crossing, id_on_a, version)) => {
            let end = try_end(
                crossing,
                client_id_on_b,
                counterparty_client_id,
                id_on_a,
                counterparty_prefix,
                version,
                delay_period,
            );
            match spec_connection_proof(
                ctx,
                end,
                proof,
                proof_height,
                id_on_a,
                try_expected(client_id_on_b, counterparty_client_id, versions_on_a, delay_period),
            ) {
                Err(e) => Err(e),
                Ok(_) => Ok((id, crossing, end)),
            }
        },
    }
}

/// The state after the second step: the end is stored and reported; where
/// it went under a fresh identifier, the next connection gets the next
/// number.
pub open spec fn spec_try_apply(s: HostState, id: ConnectionId, crossing: bool, end: ConnectionEndView) -> HostState {
    spec_store_end(
        if crossing {
            s
        } else {
            HostState { connection_counter: (s.connection_counter + 1) as u64, ..s }
        },
        Step::Try,
        id,
        end,
    )
}

/// A list of the one version.
pub fn one_version(version: Version) -> (r: Vec<Version>)
    ensures
        r@ == seq![version],
{
    let mut one: Vec<Version> = Vec::new();
    one.push(version);
    assert(one@ =~= seq![version]);
    one
}

/// Validates the second step of the handshake and makes the end that it
/// stores.
pub fn conn_open_try_validate<Ctx: ValidationContext>(ctx: &Ctx, msg: &MsgConnectionOpenTry) -> (r:
    Result<(ConnectionId, bool, ConnectionEnd), ContextError>)
    requires
        ctx.inv(),
    ensures
        match r {
            Ok((id, crossing, end)) => spec_try_validate(
                ctx,
                msg.previous_connection_id,
                msg.client_id_on_b,
                msg.counterparty.client_id,
                msg.counterparty.connection_id,
                msg.counterparty.prefix.key@,
                msg.versions_on_a@,
                msg.proof_conn_end_on_a@,
                msg.proof_height_on_a,
                msg.delay_period,
            ) == Ok::<(ConnectionId, bool, ConnectionEndView), ContextError>((id, crossing, end@)),
            Err(e) => spec_try_validate(
                ctx,
                msg.previous_connection_id,
                msg.client_id_on_b,
                msg.counterparty.client_id,
                msg.counterparty.connection_id,
                msg.counterparty.prefix.key@,
                msg.versions_on_a@,
                msg.proof_conn_end_on_a@,
                msg.proof_height_on_a,
                msg.delay_period,
            ) == Err::<(ConnectionId, bool, ConnectionEndView), ContextError>(e),
        },
{
    let id_on_a = match msg.counterparty.connection_id {
        Some(id) => id,
        None => {
            return Err(ContextError::Connection(ConnectionError::MissingCounterparty));
        },
    };
    let version = match pick_version(&get_compatible_versions(), &msg.versions_on_a) {
        Ok(v) => v,
        Err(e) => {
            return Err(ContextError::Connection(e));
        },
    };
    let (id, crossing) = match msg.previous_connection_id {
        Some(id) => {
            let previous = ctx.connection_end(&id)?;
            if previous.state_matches(State::Init) && previous.client_id.client_type
                == msg.client_id_on_b.client_type && previous.client_id.counter
                == msg.client_id_on_b.counter && previous.counterparty.client_id.client_type
                == msg.counterparty.client_id.client_type && previous.counterparty.client_id.counter
                == msg.counterparty.client_id.counter {
                (id, true)
            } else {
                return Err(ContextError::Connection(ConnectionError::StateMismatch));
            }
        },
        None => {
            let counter = ctx.connection_counter();
            if counter == u64::MAX {
                return Err(ContextError::Connection(ConnectionError::CounterOverflow));
            }
            (ConnectionId::new(counter), false)
        },
    };
    let end = ConnectionEnd {
        state: if crossing {
            State::Open
        } else {
            State::TryOpen
        },
        client_id: msg.client_id_on_b,
        counterparty: msg.counterparty.clone(),
        versions: one_version(version),
        delay_period: msg.delay_period,
    };
    let expected = ConnectionEnd {
        state: State::Init,
        client_id: msg.counterparty.client_id,
        counterparty: Counterparty {
            client_id: msg.client_id_on_b,
            connection_id: None,
            prefix: CommitmentPrefix::default(),
        },
        versions: copy_versions(&msg.versions_on_a),
        delay_period: msg.delay_period,
    };
    connection_proof(
        ctx,
        &end,
        &msg.proof_conn_end_on_a,
        &msg.proof_height_on_a,
        id_on_a,
        expected,
    )?;
    Ok((id, crossing, end))
}

/// Stores and reports what the second step comes to.
pub fn conn_open_try_execute<Ctx: ExecutionContext>(
    ctx: &mut Ctx,
    id: ConnectionId,
    crossing: bool,
    end: ConnectionEnd,
)
    requires
        old(ctx).inv(),
        !crossing ==> old(ctx).state().connection_counter < u64::MAX,
    ensures
        final(ctx).inv(),
        final(ctx).host_side() == old(ctx).host_side(),
        final(ctx).state() == spec_try_apply(old(ctx).state(), id, crossing, end@),
{
    if !crossing {
        ctx.increase_connection_counter();
    }
    store_end(ctx, Step::Try, id, end);
}

/// The end that chain B must have stored for the third step to be taken on
/// chain A: in `TryOpen`, with chain A's end as its counterparty and the
/// version that the message names.
pub open spec fn ack_expected(local: ConnectionEndView, id_on_a: ConnectionId, version: Version) -> ConnectionEndView {
    ConnectionEndView {
        state: State::TryOpen,
        client_id: local.counterparty_client_id,
        counterparty_client_id: local.client_id,
        counterparty_connection_id: Some(id_on_a),
        counterparty_prefix: host_prefix(),
        versions: seq![version],
        delay_period: local.delay_period,
    }
}

/// The end that the third step stores on chain A: open, with the connection
/// on chain B known and the version settled.
pub open spec fn ack_end(local: ConnectionEndView, id_on_b: ConnectionId, version: Version) -> ConnectionEndView {
    ConnectionEndView {
        state: State::Open,
        counterparty_connection_id: Some(id_on_b),
        versions: seq![version],
        ..local
    }
}

/// Whether the third step is taken, and which end it then stores: the local
/// end must be stored and in `Init`, it must support the version that the
/// message names, and the proof must show the counterparty's end in
/// `TryOpen`.
pub open spec fn spec_ack_validate<Ctx: ValidationContext>(
    ctx: &Ctx,
    id_on_a: ConnectionId,
    id_on_b: ConnectionId,
    version: Version,
    proof: Seq<u8>,
    proof_height: Height,
) -> Result<ConnectionEndView, ContextError> {
    match ctx.state().connection_end(id_on_a) {
        Err(e) => Err(e),
        Ok(local) => if local.state != State::Init {
            Err(ContextError::Connection(ConnectionError::StateMismatch))
        } else if !spec_any_supports(local.versions, version) {
            Err(ContextError::Connection(ConnectionError::VersionMismatch))
        } else {
            match spec_connection_proof(
                ctx,
                local,
                proof,
                proof_height,
                id_on_b,
                ack_expected(local, id_on_a, version),
            ) {
                Err(e) => Err(e),
                Ok(_) => Ok(ack_end(local, id_on_b, version)),
            }
        },
    }
}

/// Validates the third step of the handshake and makes the end that it
/// stores.
pub fn conn_open_ack_validate<Ctx: ValidationContext>(ctx: &Ctx, msg: &MsgConnectionOpenAck) -> (r:
    Result<ConnectionEnd, ContextError>)
    requires
        ctx.inv(),
    ensures
        result_view(r) == spec_ack_validate(
            ctx,
            msg.conn_id_on_a,
            msg.conn_id_on_b,
            msg.version,
            msg.proof_conn_end_on_b@,
            msg.proof_height_on_b,
        ),
{
    let local = ctx.connection_end(&msg.conn_id_on_a)?;
    if !local.state_matches(State::Init) {
        return Err(ContextError::Connection(ConnectionError::StateMismatch));
    }
    if !any_supports(&local.versions, &msg.version) {
        return Err(ContextError::Connection(ConnectionError::VersionMismatch));
    }
    let expected = ConnectionEnd {
        state: State::TryOpen,
        client_id: local.counterparty.client_id,
        counterparty: Counterparty {
            client_id: local.client_id,
            connection_id: Some(msg.conn_id_on_a),
            prefix: CommitmentPrefix::default(),
        },
        versions: one_version(msg.version),
        delay_period: local.delay_period,
    };
    connection_proof(
        ctx,
        &local,
        &msg.proof_conn_end_on_b,
        &msg.proof_height_on_b,
        msg.conn_id_on_b,
        expected,
    )?;
    Ok(
        ConnectionEnd {
            state: State::Open,
            client_id: local.client_id,
            counterparty: Counterparty {
                client_id: local.counterparty.client_id,
                connection_id: Some(msg.conn_id_on_b),
                prefix: local.counterparty.prefix,
            },
            versions: one_version(msg.version),
            delay_period: local.delay_period,
        },
    )
}

/// The end that chain A must have stored for the last step to be taken on
/// chain B: open, with chain B's end as its counterparty.
pub open spec fn confirm_expected(local: ConnectionEndView, id_on_b: ConnectionId) -> ConnectionEndView {
    ConnectionEndView {
        state: State::Open,
        client_id: local.counterparty_client_id,
        counterparty_client_id: local.client_id,
        counterparty_connection_id: Some(id_on_b),
        counterparty_prefix: host_prefix(),
        versions: local.versions,
        delay_period: local.delay_period,
    }
}

/// Whether the last step is taken, and which end it then stores: the local
/// end must be stored and in `TryOpen`, with the connection on chain A
/// known, and the proof must show the counterparty's end open.
pub open spec fn spec_confirm_validate<Ctx: ValidationContext>(
    ctx: &Ctx,
    id_on_b: ConnectionId,
    proof: Seq<u8>,
    proof_height: Height,
) -> Result<ConnectionEndView, ContextError> {
    match ctx.state().connection_end(id_on_b) {
        Err(e) => Err(e),
        Ok(local) => if local.state != State::TryOpen {
            Err(ContextError::Connection(ConnectionError::StateMismatch))
        } else {
            match local.counterparty_connection_id {
                None => Err(ContextError::Connection(ConnectionError::MissingCounterparty)),
                Some(id_on_a) => match spec_connection_proof(
                    ctx,
                    local,
                    proof,
                    proof_height,
                    id_on_a,
                    confirm_expected(local, id_on_b),
                ) {
                    Err(e) => Err(e),
                    Ok(_) => Ok(ConnectionEndView { state: State::Open, ..local }),
                },
            }
        },
    }
}

/// Validates the last step of the handshake and makes the end that it
/// stores.
pub fn conn_open_confirm_validate<Ctx: ValidationContext>(
    ctx: &Ctx,
    msg: &MsgConnectionOpenConfirm,
) -> (r: Result<ConnectionEnd, ContextError>)
    requires
        ctx.inv(),
    ensures
        result_view(r) == spec_confirm_validate(
            ctx,
            msg.conn_id_on_b,
            msg.proof_conn_end_on_a@,
            msg.proof_height_on_a,
        ),
{
    let local = ctx.connection_end(&msg.conn_id_on_b)?;
    if !local.state_matches(State::TryOpen) {
        return Err(ContextError::Connection(ConnectionError::StateMismatch));
    }
    let id_on_a = match local.counterparty.connection_id {
        Some(id) => id,
        None => {
            return Err(ContextError::Connection(ConnectionError::MissingCounterparty));
        },
    };
    let expected = ConnectionEnd {
        state: State::Open,
        client_id: local.counterparty.client_id,
        counterparty: Counterparty {
            client_id: local.client_id,
            connection_id: Some(msg.conn_id_on_b),
            prefix: CommitmentPrefix::default(),
        },
        versions: copy_versions(&local.versions),
        delay_period: local.delay_period,
    };
    connection_proof(
        ctx,
        &local,
        &msg.proof_conn_end_on_a,
        &msg.proof_height_on_a,
        id_on_a,
        expected,
    )?;
    Ok(local.with_state(State::Open))
}

/// Takes the second step of the handshake: where it is valid, the end is
/// stored; else nothing is changed.
pub fn conn_open_try<Ctx: ExecutionContext>(ctx: &mut Ctx, msg: MsgConnectionOpenTry) -> (r: Result<
    ConnectionId,
    ContextError,
>)
    requires
        old(ctx).inv(),
    ensures
        final(ctx).inv(),
        final(ctx).host_side() == old(ctx).host_side(),
        match spec_try_validate(
            &*old(ctx),
            msg.previous_connection_id,
            msg.client_id_on_b,
            msg.counterparty.client_id,
            msg.counterparty.connection_id,
            msg.counterparty.prefix.key@,
            msg.versions_on_a@,
            msg.proof_conn_end_on_a@,
            msg.proof_height_on_a,
            msg.delay_period,
        ) {
            Err(e) => r == Err::<ConnectionId, ContextError>(e) && final(ctx).state() == old(ctx).state(),
            Ok((id, crossing, end)) => r == Ok::<ConnectionId, ContextError>(id) && final(ctx).state() == spec_try_apply(old(ctx).state(), id, crossing, end),
        },
{
    let (id, crossing, end) = conn_open_try_validate(ctx, &msg)?;
    conn_open_try_execute(ctx, id, crossing, end);
    Ok(id)
}

/// Takes the third step of the handshake: where it is valid, the local end
/// is opened; else nothing is changed.
pub fn conn_open_ack<Ctx: ExecutionContext>(ctx: &mut Ctx, msg: MsgConnectionOpenAck) -> (r: Result<
    (),
    ContextError,
>)
    requires
        old(ctx).inv(),
    ensures
        final(ctx).inv(),
        final(ctx).host_side() == old(ctx).host_side(),
        match spec_ack_validate(
            &*old(ctx),
            msg.conn_id_on_a,
            msg.conn_id_on_b,
            msg.version,
            msg.proof_conn_end_on_b@,
            msg.proof_height_on_b,
        ) {
            Err(e) => r == Err::<(), ContextError>(e) && final(ctx).state() == old(ctx).state(),
            Ok(end) => r is Ok && final(ctx).state() == spec_store_end(
                old(ctx).state(),
                Step::Ack,
                msg.conn_id_on_a,
                end,
            ),
        },
{
    let end = conn_open_ack_validate(ctx, &msg)?;
    store_end(ctx, Step::Ack, msg.conn_id_on_a, end);
    Ok(())
}

/// Takes the last step of the handshake: where it is valid, the local end
/// is opened; else nothing is changed.
pub fn conn_open_confirm<Ctx: ExecutionContext>(ctx: &mut Ctx, msg: MsgConnectionOpenConfirm) -> (r:
    Result<(), ContextError>)
    requires
        old(ctx).inv(),
    ensures
        final(ctx).inv(),
        final(ctx).host_side() == old(ctx).host_side(),
        match spec_confirm_validate(
            &*old(ctx),
            msg.conn_id_on_b,
            msg.proof_conn_end_on_a@,
            msg.proof_height_on_a,
        ) {
            Err(e) => r == Err::<(), ContextError>(e) && final(ctx).state() == old(ctx).state(),
            Ok(end) => r is Ok && final(ctx).state() == spec_store_end(
                old(ctx).state(),
                Step::Confirm,
                msg.conn_id_on_b,
                end,
            ),
        },
{
    let end = conn_open_confirm_validate(ctx, &msg)?;
    store_end(ctx, Step::Confirm, msg.conn_id_on_b, end);
    Ok(())
}

/// Every connection end that is stored lies under an identifier that the
/// host has already given out.
pub open spec fn identifiers_given_out(s: HostState) -> bool {
    forall|id: ConnectionId| #[trigger]
        s.connections.contains_key(id) ==> id.counter < s.connection_counter
}

/// A connection never moves back when a handshake is begun: the new end
/// goes under a fresh identifier, and every connection end that was stored
/// stays as it was.
pub proof fn law_init_never_regresses(
    s: HostState,
    client_id: ClientId,
    version: Option<Version>,
    end: ConnectionEndView,
    id: ConnectionId,
)
    requires
        identifiers_given_out(s),
        s.connections.contains_key(id),
        spec_init_validate(s, client_id, version) is Ok,
    ensures
        never_regressed(s, spec_init_apply(s, spec_init_validate(s, client_id, version)->Ok_0, end), id),
        spec_init_apply(s, spec_init_validate(s, client_id, version)->Ok_0, end).connections[id]
            == s.connections[id],
{
}

/// A connection never moves back at the second step of a handshake: the end
/// goes under a fresh identifier, or takes the place of an end in `Init` and
/// is open.
pub proof fn law_try_never_regresses<Ctx: ValidationContext>(
    ctx: &Ctx,
    previous: Option<ConnectionId>,
    client_id_on_b: ClientId,
    counterparty_client_id: ClientId,
    counterparty_connection_id: Option<ConnectionId>,
    counterparty_prefix: Seq<char>,
    versions_on_a: Seq<Version>,
    proof: Seq<u8>,
    proof_height: Height,
    delay_period: Duration,
    id: ConnectionId,
)
    requires
        identifiers_given_out(ctx.state()),
        ctx.state().connections.contains_key(id),
    ensures
        spec_try_validate(
            ctx,
            previous,
            client_id_on_b,
            counterparty_client_id,
            counterparty_connection_id,
            counterparty_prefix,
            versions_on_a,
            proof,
            proof_height,
            delay_period,
        ) matches Ok((stored_under, crossing, end)) ==> never_regressed(
            ctx.state(),
            spec_try_apply(ctx.state(), stored_under, crossing, end),
            id,
        ),
{
}

/// A connection never moves back at the third and at the last step of a
/// handshake: the end that is stored is open.
pub proof fn law_open_never_regresses<Ctx: ValidationContext>(
    ctx: &Ctx,
    id_on_a: ConnectionId,
    id_on_b: ConnectionId,
    version: Version,
    proof: Seq<u8>,
    proof_height: Height,
    id: ConnectionId,
)
    requires
        identifiers_given_out(ctx.state()),
        ctx.state().connections.contains_key(id),
    ensures
        spec_ack_validate(ctx, id_on_a, id_on_b, version, proof, proof_height) matches Ok(end)
            ==> end.state == State::Open && never_regressed(
            ctx.state(),
            spec_store_end(ctx.state(), Step::Ack, id_on_a, end),
            id,
        ),
        spec_confirm_validate(ctx, id_on_b, proof, proof_height) matches Ok(end) ==> end.state
            == State::Open && never_regressed(
            ctx.state(),
            spec_store_end(ctx.state(), Step::Confirm, id_on_b, end),
            id,
        ),
{
}

/// The connection end under `id` is still stored in `after` and has not
/// fallen back, and the identifiers handed out so far stay below the
/// counter.
pub open spec fn never_regressed(before: HostState, after: HostState, id: ConnectionId) -> bool {
    &&& after.connections.contains_key(id)
    &&& before.connections[id].state.rank() <= after.connections[id].state.rank()
    &&& identifiers_given_out(after)
}

} // verus!
