//! Creating a client and moving it on with headers of the chain it follows.

use vstd::prelude::*;
use crate::client::{
    AnyClientState,
    AnyConsensusState,
    AnyHeader,
    ClientMessage,
    Misbehaviour,
};
use crate::context::{ExecutionContext, ValidationContext};
use crate::error::{ClientError, ContextError};
use crate::events::{ClientAttributes, IbcEvent, IbcEventView, MessageEvent};
use crate::handler::common::{active_client, spec_active_client};
use crate::height::Height;
use crate::identifier::ClientId;
use crate::msgs::{MsgCreateClient, MsgUpdateClient};
use crate::path::ClientConsensusStatePath;
use crate::state::HostState;

verus! {

/// Whether a client can be created from the given states: both must be of
/// one client type, the client must not start out frozen, and the host must
/// have a client number left.
pub open spec fn spec_create_validate(
    s: HostState,
    client_state: AnyClientState,
    consensus_state: AnyConsensusState,
) -> Result<ClientId, ContextError> {
    if client_state.spec_client_type() != consensus_state.spec_client_type() {
        Err(ContextError::Client(ClientError::InvalidInitialState))
    } else if client_state.spec_is_frozen() {
        Err(ContextError::Client(ClientError::ClientFrozen))
    } else if s.client_counter == u64::MAX {
        Err(ContextError::Client(ClientError::CounterOverflow))
    } else {
        Ok(ClientId { client_type: client_state.spec_client_type(), counter: s.client_counter })
    }
}

/// What a client event tells of a client in the given state.
pub open spec fn client_attributes(id: ClientId, client_state: AnyClientState) -> ClientAttributes {
    ClientAttributes {
        client_id: id,
        client_type: client_state.spec_client_type(),
        consensus_height: client_state.spec_latest_height(),
    }
}

/// The state after a client was created under `id`: the client state and
/// its one consensus state are stored, with the host's present time and
/// height as the time and height of storing; the next client gets the next
/// number; the creation is reported and logged.
pub open spec fn spec_create_apply(
    s: HostState,
    id: ClientId,
    client_state: AnyClientState,
    consensus_state: AnyConsensusState,
) -> HostState {
    let key = (id, client_state.spec_latest_height());
    (HostState {
        clients: s.clients.insert(id, client_state),
        consensus_states: s.consensus_states.insert(key, consensus_state),
        update_times: s.update_times.insert(key, s.host_timestamp),
        update_heights: s.update_heights.insert(key, s.host_height),
        client_counter: (s.client_counter + 1) as u64,
        ..s
    }).reporting(
        seq![
            IbcEventView::Message(MessageEvent::Client),
            IbcEventView::CreateClient(client_attributes(id, client_state)),
        ],
        seq!["success: generated new client identifier"@],
    )
}

/// Checks whether a client can be created, and under which identifier.
pub fn create_validate<Ctx: ValidationContext>(ctx: &Ctx, msg: &MsgCreateClient) -> (r: Result<
    ClientId,
    ContextError,
>)
    requires
        ctx.inv(),
    ensures
        r == spec_create_validate(ctx.state(), msg.client_state, msg.consensus_state),
{
    let client_type = msg.client_state.client_type();
    if !same_type(client_type, msg.consensus_state.client_type()) {
        return Err(ContextError::Client(ClientError::InvalidInitialState));
    }
    if msg.client_state.is_frozen() {
        return Err(ContextError::Client(ClientError::ClientFrozen));
    }
    let counter = ctx.client_counter();
    if counter == u64::MAX {
        return Err(ContextError::Client(ClientError::CounterOverflow));
    }
    Ok(ClientId::new(client_type, counter))
}

/// Whether two client types are the same.
pub fn same_type(a: crate::identifier::ClientType, b: crate::identifier::ClientType) -> (r: bool)
    ensures
        r == (a == b),
{
    match (a, b) {
        (crate::identifier::ClientType::Mock, crate::identifier::ClientType::Mock) => true,
        (
            crate::identifier::ClientType::Tendermint,
            crate::identifier::ClientType::Tendermint,
        ) => true,
        _ => false,
    }
}

/// Creates a client: where the initial states fit together, they are stored
/// under a fresh identifier; else nothing is changed.
pub fn create_execute<Ctx: ExecutionContext>(ctx: &mut Ctx, msg: MsgCreateClient) -> (r: Result<
    ClientId,
    ContextError,
>)
    requires
        old(ctx).inv(),
    ensures
        final(ctx).inv(),
        final(ctx).host_side() == old(ctx).host_side(),
        r == spec_create_validate(old(ctx).state(), msg.client_state, msg.consensus_state),
        match r {
            Err(_) => final(ctx).state() == old(ctx).state(),
            Ok(id) => final(ctx).state() == spec_create_apply(
                old(ctx).state(),
                id,
                msg.client_state,
                msg.consensus_state,
            ),
        },
{
    let id = create_validate(ctx, &msg)?;
    let ghost s = ctx.state();
    let latest = msg.client_state.latest_height();
    let attributes = ClientAttributes {
        client_id: id,
        client_type: msg.client_state.client_type(),
        consensus_height: latest,
    };
    let now = ctx.host_timestamp();
    let here = ctx.host_height();
    ctx.store_client_state(id, msg.client_state);
    ctx.store_consensus_state(ClientConsensusStatePath::new(&id, &latest), msg.consensus_state);
    ctx.store_update_time(ClientConsensusStatePath::new(&id, &latest), now);
    ctx.store_update_height(ClientConsensusStatePath::new(&id, &latest), here);
    ctx.increase_client_counter();
    ctx.log_message("success: generated new client identifier".to_owned());
    ctx.emit_ibc_event(IbcEvent::Message(MessageEvent::Client));
    ctx.emit_ibc_event(IbcEvent::CreateClient(attributes));
    proof {
        let expected = spec_create_apply(s, id, msg.client_state, msg.consensus_state);
        assert(ctx.state().events =~= expected.events);
        assert(ctx.state().logs =~= expected.logs);
    }
    Ok(id)
}

/// What a header comes to for a client.
#[derive(Clone, Copy, Debug, PartialEq, Eq, Structural)]
pub enum UpdateOutcome {
    /// The header lies above everything the client has seen: the client
    /// moves on to it.
    Advance,
    /// The client already holds just this consensus state at the header's
    /// height: nothing is stored.
    Duplicate,
    /// The header contradicts what the client holds or falls back behind it:
    /// the client is frozen.
    Freeze,
}

/// What `header` comes to for the client `id` in the state `client_state`. A
/// header at a height at which the client holds a consensus state repeats it
/// or contradicts it. A header above the client's latest height moves the
/// client on. Any other header falls back behind the client and counts as
/// evidence of misbehaviour.
pub open spec fn spec_header_outcome(
    s: HostState,
    id: ClientId,
    client_state: AnyClientState,
    header: AnyHeader,
) -> UpdateOutcome {
    let key = (id, header.spec_height());
    if s.consensus_states.contains_key(key) {
        if s.consensus_states[key].spec_same(header.spec_consensus_state()) {
            UpdateOutcome::Duplicate
        } else {
            UpdateOutcome::Freeze
        }
    } else if client_state.spec_latest_height().spec_lt(header.spec_height()) {
        UpdateOutcome::Advance
    } else {
        UpdateOutcome::Freeze
    }
}

/// Whether `header` can be handed to a client in the state `client_state`:
/// it must be of the client's type, and a header that is not of the stand-in
/// type must follow from the consensus state at its trusted height, as the
/// host checks it.
pub open spec fn spec_verify_header<Ctx: ValidationContext>(
    ctx: &Ctx,
    id: ClientId,
    client_state: AnyClientState,
    header: AnyHeader,
) -> Result<(), ContextError> {
    if header.spec_client_type() != client_state.spec_client_type() {
        Err(ContextError::Client(ClientError::HeaderMismatch))
    } else {
        match header {
            AnyHeader::Mock(_) => Ok(()),
            AnyHeader::Tendermint(h) => match ctx.state().consensus_state((id, h.trusted_height)) {
                Err(e) => Err(e),
                Ok(trusted) => if ctx.accepts_header(client_state, trusted, header) {
                    Ok(())
                } else {
                    Err(ContextError::Client(ClientError::HeaderVerificationFailure))
                },
            },
        }
    }
}

/// Whether two headers are evidence of misbehaviour: both stand at one
/// height and give rise to different consensus states.
pub open spec fn spec_contradict(header1: AnyHeader, header2: AnyHeader) -> bool {
    header1.spec_height() == header2.spec_height() && !header1.spec_consensus_state().spec_same(
        header2.spec_consensus_state(),
    )
}

/// Whether a client message is taken. The client must be active: a frozen
/// client takes nothing any more. A header must check out; evidence of
/// misbehaviour must consist of two headers that check out and contradict
/// each other.
pub open spec fn spec_update_validate<Ctx: ValidationContext>(
    ctx: &Ctx,
    id: ClientId,
    message: ClientMessage,
) -> Result<(), ContextError> {
    match spec_active_client(ctx.state(), id) {
        Err(e) => Err(e),
        Ok(client_state) => match message {
            ClientMessage::Header(header) => spec_verify_header(ctx, id, client_state, header),
            ClientMessage::Misbehaviour(evidence) => match spec_verify_header(
                ctx,
                id,
                client_state,
                evidence.header1,
            ) {
                Err(e) => Err(e),
                Ok(_) => match spec_verify_header(ctx, id, client_state, evidence.header2) {
                    Err(e) => Err(e),
                    Ok(_) => if spec_contradict(evidence.header1, evidence.header2) {
                        Ok(())
                    } else {
                        Err(ContextError::Client(ClientError::NoMisbehaviour))
                    },
                },
            },
        },
    }
}

/// What execution checks again before anything is changed: the client is
/// active, the message is of the client's type, and evidence of misbehaviour
/// holds two headers that contradict each other.
pub open spec fn spec_update_execute_check(s: HostState, id: ClientId, message: ClientMessage) -> Result<
    AnyClientState,
    ContextError,
> {
    match spec_active_client(s, id) {
        Err(e) => Err(e),
        Ok(client_state) => match message {
            ClientMessage::Header(header) => if header.spec_client_type()
                != client_state.spec_client_type() {
                Err(ContextError::Client(ClientError::HeaderMismatch))
            } else {
                Ok(client_state)
            },
            ClientMessage::Misbehaviour(evidence) => if evidence.header1.spec_client_type()
                != client_state.spec_client_type() || evidence.header2.spec_client_type()
                != client_state.spec_client_type() {
                Err(ContextError::Client(ClientError::HeaderMismatch))
            } else if !spec_contradict(evidence.header1, evidence.header2) {
                Err(ContextError::Client(ClientError::NoMisbehaviour))
            } else {
                Ok(client_state)
            },
        },
    }
}

/// The state after the client `id` was frozen at `height`: its client state
/// carries the freeze height, no consensus state is added, and the
/// misbehaviour is reported and logged.
pub open spec fn spec_freeze(
    s: HostState,
    id: ClientId,
    client_state: AnyClientState,
    height: Height,
) -> HostState {
    (HostState { clients: s.clients.insert(id, client_state.spec_frozen_at(height)), ..s }).reporting(
        seq![
            IbcEventView::Message(MessageEvent::Client),
            IbcEventView::ClientMisbehaviour(client_attributes(id, client_state)),
        ],
        seq!["success: client frozen on misbehaviour"@],
    )
}

/// The state after the client `id` moved on to `header`: the client state
/// stands at the header's height, the header's consensus state is stored at
/// that height with the host's present time and height as the time and height
/// of storing, and the update is reported and logged.
pub open spec fn spec_advance(
    s: HostState,
    id: ClientId,
    client_state: AnyClientState,
    header: AnyHeader,
) -> HostState {
    let key = (id, header.spec_height());
    let moved = client_state.spec_advanced_to(header);
    (HostState {
        clients: s.clients.insert(id, moved),
        consensus_states: s.consensus_states.insert(key, header.spec_consensus_state()),
        update_times: s.update_times.insert(key, s.host_timestamp),
        update_heights: s.update_heights.insert(key, s.host_height),
        ..s
    }).reporting(
        seq![
            IbcEventView::Message(MessageEvent::Client),
            IbcEventView::UpdateClient(client_attributes(id, moved)),
        ],
        seq!["success: client updated"@],
    )
}

/// The state after a header was handed in that the client already holds:
/// nothing is stored; the update is reported and logged.
pub open spec fn spec_repeat(s: HostState, id: ClientId, client_state: AnyClientState) -> HostState {
    s.reporting(
        seq![
            IbcEventView::Message(MessageEvent::Client),
            IbcEventView::UpdateClient(client_attributes(id, client_state)),
        ],
        seq!["success: client already up to date"@],
    )
}

/// The state after a client message was taken.
pub open spec fn spec_update_apply(
    s: HostState,
    id: ClientId,
    client_state: AnyClientState,
    message: ClientMessage,
) -> HostState {
    match message {
        ClientMessage::Header(header) => match spec_header_outcome(s, id, client_state, header) {
            UpdateOutcome::Advance => spec_advance(s, id, client_state, header),
            UpdateOutcome::Duplicate => spec_repeat(s, id, client_state),
            UpdateOutcome::Freeze => spec_freeze(s, id, client_state, header.spec_height()),
        },
        ClientMessage::Misbehaviour(evidence) => spec_freeze(
            s,
            id,
            client_state,
            evidence.header1.spec_height(),
        ),
    }
}

/// Checks a header for a client.
pub fn verify_header<Ctx: ValidationContext>(
    ctx: &Ctx,
    id: &ClientId,
    client_state: &AnyClientState,
    header: &AnyHeader,
) -> (r: Result<(), ContextError>)
    requires
        ctx.inv(),
    ensures
        r == spec_verify_header(ctx, *id, *client_state, *header),
{
    if !same_type(header.client_type(), client_state.client_type()) {
        return Err(ContextError::Client(ClientError::HeaderMismatch));
    }
    match header {
        AnyHeader::Mock(_) => Ok(()),
        AnyHeader::Tendermint(h) => {
            let trusted = ctx.consensus_state(
                &ClientConsensusStatePath::new(id, &h.trusted_height),
            )?;
            if ctx.verify_header(client_state, &trusted, header) {
                Ok(())
            } else {
                Err(ContextError::Client(ClientError::HeaderVerificationFailure))
            }
        },
    }
}

/// Whether two headers are evidence of misbehaviour.
pub fn contradict(header1: &AnyHeader, header2: &AnyHeader) -> (r: bool)
    ensures
        r == spec_contradict(*header1, *header2),
{
    header1.height().same_as(&header2.height()) && !header1.consensus_state().same(
        &header2.consensus_state(),
    )
}

/// Validates a client message. The host's state is only read.
pub fn update_validate<Ctx: ValidationContext>(ctx: &Ctx, msg: &MsgUpdateClient) -> (r: Result<
    (),
    ContextError,
>)
    requires
        ctx.inv(),
    ensures
        r == spec_update_validate(ctx, msg.client_id, msg.client_message),
{
    let client_state = active_client(ctx, &msg.client_id)?;
    match &msg.client_message {
        ClientMessage::Header(header) => verify_header(ctx, &msg.client_id, &client_state, header),
        ClientMessage::Misbehaviour(evidence) => {
            verify_header(ctx, &msg.client_id, &client_state, &evidence.header1)?;
            verify_header(ctx, &msg.client_id, &client_state, &evidence.header2)?;
            if contradict(&evidence.header1, &evidence.header2) {
                Ok(())
            } else {
                Err(ContextError::Client(ClientError::NoMisbehaviour))
            }
        },
    }
}

/// Finds what a header comes to for a client.
pub fn header_outcome<Ctx: ValidationContext>(
    ctx: &Ctx,
    id: &ClientId,
    client_state: &AnyClientState,
    header: &AnyHeader,
) -> (r: UpdateOutcome)
    requires
        ctx.inv(),
    ensures
        r == spec_header_outcome(ctx.state(), *id, *client_state, *header),
{
    let height = header.height();
    match ctx.consensus_state(&ClientConsensusStatePath::new(id, &height)) {
        Ok(stored) => if stored.same(&header.consensus_state()) {
            UpdateOutcome::Duplicate
        } else {
            UpdateOutcome::Freeze
        },
        Err(_) => if client_state.latest_height().lt(&height) {
            UpdateOutcome::Advance
        } else {
            UpdateOutcome::Freeze
        },
    }
}

/// Freezes a client and reports the misbehaviour.
pub fn freeze<Ctx: ExecutionContext>(
    ctx: &mut Ctx,
    id: ClientId,
    client_state: AnyClientState,
    height: Height,
)
    requires
        old(ctx).inv(),
    ensures
        final(ctx).inv(),
        final(ctx).host_side() == old(ctx).host_side(),
        final(ctx).state() == spec_freeze(old(ctx).state(), id, client_state, height),
{
    let ghost s = ctx.state();
    let attributes = ClientAttributes {
        client_id: id,
        client_type: client_state.client_type(),
        consensus_height: client_state.latest_height(),
    };
    ctx.store_client_state(id, client_state.frozen_at(height));
    ctx.log_message("success: client frozen on misbehaviour".to_owned());
    ctx.emit_ibc_event(IbcEvent::Message(MessageEvent::Client));
    ctx.emit_ibc_event(IbcEvent::ClientMisbehaviour(attributes));
    proof {
        let expected = spec_freeze(s, id, client_state, height);
        assert(ctx.state().events =~= expected.events);
        assert(ctx.state().logs =~= expected.logs);
    }
}

/// Moves a client on to a header and reports the update.
pub fn advance<Ctx: ExecutionContext>(
    ctx: &mut Ctx,
    id: ClientId,
    client_state: AnyClientState,
    header: &AnyHeader,
)
    requires
        old(ctx).inv(),
    ensures
        final(ctx).inv(),
        final(ctx).host_side() == old(ctx).host_side(),
        final(ctx).state() == spec_advance(old(ctx).state(), id, client_state, *header),
{
    let ghost s = ctx.state();
    let height = header.height();
    let moved = client_state.advanced_to(header);
    let attributes = ClientAttributes {
        client_id: id,
        client_type: moved.client_type(),
        consensus_height: moved.latest_height(),
    };
    let now = ctx.host_timestamp();
    let here = ctx.host_height();
    ctx.store_client_state(id, moved);
    ctx.store_consensus_state(
        ClientConsensusStatePath::new(&id, &height),
        header.consensus_state(),
    );
    ctx.store_update_time(ClientConsensusStatePath::new(&id, &height), now);
    ctx.store_update_height(ClientConsensusStatePath::new(&id, &height), here);
    ctx.log_message("success: client updated".to_owned());
    ctx.emit_ibc_event(IbcEvent::Message(MessageEvent::Client));
    ctx.emit_ibc_event(IbcEvent::UpdateClient(attributes));
    proof {
        let expected = spec_advance(s, id, client_state, *header);
        assert(ctx.state().events =~= expected.events);
        assert(ctx.state().logs =~= expected.logs);
    }
}

/// Reports an update that stored nothing.
pub fn repeat<Ctx: ExecutionContext>(ctx: &mut Ctx, id: ClientId, client_state: &AnyClientState)
    requires
        old(ctx).inv(),
    ensures
        final(ctx).inv(),
        final(ctx).host_side() == old(ctx).host_side(),
        final(ctx).state() == spec_repeat(old(ctx).state(), id, *client_state),
{
    let ghost s = ctx.state();
    let attributes = ClientAttributes {
        client_id: id,
        client_type: client_state.client_type(),
        consensus_height: client_state.latest_height(),
    };
    ctx.log_message("success: client already up to date".to_owned());
    ctx.emit_ibc_event(IbcEvent::Message(MessageEvent::Client));
    ctx.emit_ibc_event(IbcEvent::UpdateClient(attributes));
    proof {
        let expected = spec_repeat(s, id, *client_state);
        assert(ctx.state().events =~= expected.events);
        assert(ctx.state().logs =~= expected.logs);
    }
}

/// Executes a client message: a header moves the client on, repeats what it
/// holds, or freezes it; evidence of misbehaviour freezes it. Nothing is
/// changed where the client is not active or the message does not fit it.
pub fn update_execute<Ctx: ExecutionContext>(ctx: &mut Ctx, msg: MsgUpdateClient) -> (r: Result<
    (),
    ContextError,
>)
    requires
        old(ctx).inv(),
    ensures
        final(ctx).inv(),
        final(ctx).host_side() == old(ctx).host_side(),
        match spec_update_execute_check(old(ctx).state(), msg.client_id, msg.client_message) {
            Err(e) => r == Err::<(), ContextError>(e) && final(ctx).state() == old(ctx).state(),
            Ok(client_state) => r is Ok && final(ctx).state() == spec_update_apply(
                old(ctx).state(),
                msg.client_id,
                client_state,
                msg.client_message,
            ),
        },
{
    let client_state = active_client(ctx, &msg.client_id)?;
    match msg.client_message {
        ClientMessage::Header(header) => {
            if !same_type(header.client_type(), client_state.client_type()) {
                return Err(ContextError::Client(ClientError::HeaderMismatch));
            }
            match header_outcome(ctx, &msg.client_id, &client_state, &header) {
                UpdateOutcome::Advance => advance(ctx, msg.client_id, client_state, &header),
                UpdateOutcome::Duplicate => repeat(ctx, msg.client_id, &client_state),
                UpdateOutcome::Freeze => freeze(
                    ctx,
                    msg.client_id,
                    client_state,
                    header.height(),
                ),
            }
        },
        ClientMessage::Misbehaviour(evidence) => {
            if !same_type(evidence.header1.client_type(), client_state.client_type())
                || !same_type(evidence.header2.client_type(), client_state.client_type()) {
                return Err(ContextError::Client(ClientError::HeaderMismatch));
            }
            if !contradict(&evidence.header1, &evidence.header2) {
                return Err(ContextError::Client(ClientError::NoMisbehaviour));
            }
            freeze(ctx, msg.client_id, client_state, evidence.header1.height());
        },
    }
    Ok(())
}

} // verus!
