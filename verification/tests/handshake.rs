use ibc_mocks::channel::{ChannelEnd, Counterparty, Order, State, Version};
use ibc_mocks::connection::{
    get_compatible_versions, CommitmentPrefix, ConnectionEnd,
    Counterparty as ConnectionCounterparty, State as ConnectionState,
    Version as ConnectionVersion,
};
use ibc_mocks::context::{ExecutionContext, ValidationContext};
use ibc_mocks::error::{ChannelError, ClientError, ConnectionError, ContextError, RouterError};
use ibc_mocks::events::{IbcEvent, MessageEvent};
use ibc_mocks::handler::connection::{
    conn_open_ack, conn_open_confirm, conn_open_init_execute, conn_open_try,
};
use ibc_mocks::handler::dispatch::{dispatch, validate};
use ibc_mocks::height::Height;
use ibc_mocks::host::HostType;
use ibc_mocks::identifier::{
    ChainId, ChannelId, ClientId, ClientType, ConnectionId, ModuleId, PortId, Sequence, Signer,
};
use ibc_mocks::mock::context::{MockContext, MockContextConfig};
use ibc_mocks::msgs::{
    ChannelMsg, ConnectionMsg, MsgChannelCloseConfirm, MsgChannelCloseInit, MsgChannelOpenAck,
    MsgChannelOpenConfirm, MsgChannelOpenInit, MsgChannelOpenTry, MsgConnectionOpenAck,
    MsgConnectionOpenConfirm, MsgConnectionOpenInit, MsgConnectionOpenTry, MsgEnvelope,
};
use ibc_mocks::path::{ChannelEndPath, ClientConsensusStatePath};
use ibc_mocks::query::QueryContext;
use ibc_mocks::router::{MockRouter, Module, ModuleExtras};
use ibc_mocks::timestamp::{Duration, Timestamp};

fn signer() -> Signer {
    Signer {
        account: "relayer".to_string(),
    }
}

fn height(h: u64) -> Height {
    Height::new(0, h).unwrap()
}

fn client() -> ClientId {
    ClientId::new(ClientType::Mock, 0)
}

/// A host at height five with a stand-in client at height ten, whose
/// consensus state was stored at the host's height three.
fn context() -> MockContext {
    let mut ctx = MockContext::from(MockContextConfig {
        host_type: HostType::Mock,
        host_id: ChainId::new("mockgaia-0").unwrap(),
        block_time: Duration::from_secs(3),
        max_history_size: 5,
        validator_set_history: None,
        latest_height: height(5),
        latest_timestamp: Timestamp::from_nanoseconds(100_000_000_000),
    })
    .with_client(&client(), height(10));
    let path = ClientConsensusStatePath::new(&client(), &height(10));
    ctx.store_update_time(path, Timestamp::from_nanoseconds(94_000_000_000));
    ctx.store_update_height(path, height(3));
    ctx
}

fn router() -> MockRouter<TestModule> {
    let mut router = MockRouter::new();
    let id = ModuleId::new("transfer".to_string());
    router.add_route(id.clone(), TestModule::default()).unwrap();
    router.bind_port(PortId::transfer(), id);
    router
}

fn init_msg(version: Option<ConnectionVersion>) -> MsgConnectionOpenInit {
    MsgConnectionOpenInit {
        client_id_on_a: client(),
        counterparty: ConnectionCounterparty::new(
            ClientId::new(ClientType::Mock, 7),
            None,
            CommitmentPrefix::default(),
        ),
        version,
        delay_period: Duration::zero(),
        signer: signer(),
    }
}

fn try_msg(previous: Option<ConnectionId>) -> MsgConnectionOpenTry {
    MsgConnectionOpenTry {
        previous_connection_id: previous,
        client_id_on_b: client(),
        counterparty: ConnectionCounterparty::new(
            ClientId::new(ClientType::Mock, 7),
            Some(ConnectionId::new(4)),
            CommitmentPrefix::default(),
        ),
        versions_on_a: get_compatible_versions(),
        proof_conn_end_on_a: vec![1],
        proof_height_on_a: height(10),
        delay_period: Duration::zero(),
        signer: signer(),
    }
}

#[test]
fn connection_opens_on_the_side_that_begins() {
    let mut ctx = context();
    let id = conn_open_init_execute(&mut ctx, init_msg(None)).unwrap();
    assert_eq!(id, ConnectionId::new(0));
    assert_eq!(ctx.connection_counter(), 1);
    let end = ctx.connection_end(&id).unwrap();
    assert_eq!(end.state, ConnectionState::Init);
    assert_eq!(end.client_id, client());
    assert_eq!(end.versions, get_compatible_versions());
    assert_eq!(end.counterparty.connection_id, None);
    assert!(matches!(&ctx.events[0], &IbcEvent::Message(MessageEvent::Connection)));
    assert!(matches!(&ctx.events[1], &IbcEvent::OpenInitConnection(_)));
    assert_eq!(ctx.logs, vec!["success: conn_open_init".to_string()]);

    // The other side answers with its connection and the version it picked.
    let ack = MsgConnectionOpenAck {
        conn_id_on_a: id,
        conn_id_on_b: ConnectionId::new(9),
        version: ConnectionVersion::default(),
        proof_conn_end_on_b: vec![1],
        proof_height_on_b: height(10),
        signer: signer(),
    };
    assert_eq!(conn_open_ack(&mut ctx, ack), Ok(()));
    let end = ctx.connection_end(&id).unwrap();
    assert_eq!(end.state, ConnectionState::Open);
    assert_eq!(end.counterparty.connection_id, Some(ConnectionId::new(9)));
    assert!(matches!(ctx.events.last().unwrap(), &IbcEvent::OpenAckConnection(_)));

    // An open connection takes no further step.
    let again = MsgConnectionOpenAck {
        conn_id_on_a: id,
        conn_id_on_b: ConnectionId::new(9),
        version: ConnectionVersion::default(),
        proof_conn_end_on_b: vec![1],
        proof_height_on_b: height(10),
        signer: signer(),
    };
    assert_eq!(
        conn_open_ack(&mut ctx, again),
        Err(ContextError::Connection(ConnectionError::StateMismatch))
    );
    let confirm = MsgConnectionOpenConfirm {
        conn_id_on_b: id,
        proof_conn_end_on_a: vec![1],
        proof_height_on_a: height(10),
        signer: signer(),
    };
    assert_eq!(
        conn_open_confirm(&mut ctx, confirm),
        Err(ContextError::Connection(ConnectionError::StateMismatch))
    );
    assert_eq!(ctx.connection_end(&id).unwrap().state, ConnectionState::Open);
}

#[test]
fn connection_opens_on_the_side_that_answers() {
    let mut ctx = context();
    let id = conn_open_try(&mut ctx, try_msg(None)).unwrap();
    assert_eq!(id, ConnectionId::new(0));
    let end = ctx.connection_end(&id).unwrap();
    assert_eq!(end.state, ConnectionState::TryOpen);
    assert_eq!(end.versions, vec![ConnectionVersion::default()]);
    assert_eq!(end.counterparty.connection_id, Some(ConnectionId::new(4)));
    assert!(matches!(ctx.events.last().unwrap(), &IbcEvent::OpenTryConnection(_)));

    let confirm = MsgConnectionOpenConfirm {
        conn_id_on_b: id,
        proof_conn_end_on_a: vec![1],
        proof_height_on_a: height(10),
        signer: signer(),
    };
    assert_eq!(conn_open_confirm(&mut ctx, confirm), Ok(()));
    assert_eq!(ctx.connection_end(&id).unwrap().state, ConnectionState::Open);
    assert_eq!(ctx.connection_counter(), 1);
    assert_eq!(ctx.client_connection_ends(&client()).unwrap(), vec![id]);
    assert_eq!(
        ctx.client_connection_ends(&ClientId::new(ClientType::Mock, 5)).unwrap(),
        Vec::new()
    );
}

#[test]
fn crossing_handshakes_open_the_connection_at_once() {
    let mut ctx = context();
    let id = conn_open_init_execute(&mut ctx, init_msg(None)).unwrap();
    assert_eq!(conn_open_try(&mut ctx, try_msg(Some(id))), Ok(id));
    assert_eq!(ctx.connection_end(&id).unwrap().state, ConnectionState::Open);
    // No new identifier was taken.
    assert_eq!(ctx.connection_counter(), 1);
    // There is no end under an identifier that was not given out.
    assert_eq!(
        conn_open_try(&mut ctx, try_msg(Some(ConnectionId::new(3)))),
        Err(ContextError::Connection(ConnectionError::ConnectionNotFound))
    );
    // The end is no longer in `Init`.
    assert_eq!(
        conn_open_try(&mut ctx, try_msg(Some(id))),
        Err(ContextError::Connection(ConnectionError::StateMismatch))
    );
}

#[test]
fn connection_steps_are_turned_down() {
    let mut ctx = context();
    let unsupported = ConnectionVersion {
        identifier: 2,
        ordered: true,
        unordered: true,
    };
    assert_eq!(
        conn_open_init_execute(&mut ctx, init_msg(Some(unsupported))),
        Err(ContextError::Connection(ConnectionError::VersionMismatch))
    );
    let mut unknown_client = init_msg(None);
    unknown_client.client_id_on_a = ClientId::new(ClientType::Mock, 3);
    assert_eq!(
        conn_open_init_execute(&mut ctx, unknown_client),
        Err(ContextError::Client(ClientError::ClientNotFound))
    );
    let mut no_versions = try_msg(None);
    no_versions.versions_on_a = vec![unsupported];
    assert_eq!(
        conn_open_try(&mut ctx, no_versions),
        Err(ContextError::Connection(ConnectionError::VersionMismatch))
    );
    let mut unnamed = try_msg(None);
    unnamed.counterparty.connection_id = None;
    assert_eq!(
        conn_open_try(&mut ctx, unnamed),
        Err(ContextError::Connection(ConnectionError::MissingCounterparty))
    );
    let mut early = try_msg(None);
    early.proof_height_on_a = height(11);
    assert_eq!(
        conn_open_try(&mut ctx, early),
        Err(ContextError::Client(ClientError::InvalidProofHeight))
    );
    // A delay of seven seconds has not passed six seconds after storing.
    let mut delayed = try_msg(None);
    delayed.delay_period = Duration::from_secs(7);
    assert_eq!(
        conn_open_try(&mut ctx, delayed),
        Err(ContextError::Connection(ConnectionError::DelayNotPassed))
    );
    assert_eq!(ctx.connection_counter(), 0);
    assert!(ctx.events.is_empty());
    assert_eq!(ctx.connection_ends().unwrap().len(), 0);

    // One version is asked for and supported.
    let only_ordered = ConnectionVersion {
        identifier: 1,
        ordered: true,
        unordered: false,
    };
    let id = conn_open_init_execute(&mut ctx, init_msg(Some(only_ordered))).unwrap();
    assert_eq!(ctx.connection_end(&id).unwrap().versions, vec![only_ordered]);
}

fn open_connection(ctx: MockContext, id: u64, versions: Vec<ConnectionVersion>) -> MockContext {
    ctx.with_connection(
        ConnectionId::new(id),
        ConnectionEnd::new(
            ConnectionState::Open,
            client(),
            ConnectionCounterparty::new(
                ClientId::new(ClientType::Mock, 7),
                Some(ConnectionId::new(40 + id)),
                CommitmentPrefix::default(),
            ),
            versions,
            Duration::zero(),
        ),
    )
}

fn chan_init(ordering: Order) -> MsgEnvelope {
    MsgEnvelope::Channel(ChannelMsg::OpenInit(MsgChannelOpenInit {
        port_id_on_a: PortId::transfer(),
        connection_hops_on_a: vec![ConnectionId::new(0)],
        port_id_on_b: PortId::new("theirs".to_string()),
        ordering,
        version_proposal: Version::new("proposal".to_string()),
        signer: signer(),
    }))
}

fn chan_try() -> MsgEnvelope {
    MsgEnvelope::Channel(ChannelMsg::OpenTry(MsgChannelOpenTry {
        port_id_on_b: PortId::transfer(),
        connection_hops_on_b: vec![ConnectionId::new(0)],
        port_id_on_a: PortId::new("theirs".to_string()),
        chan_id_on_a: ChannelId::new(8),
        version_supported_on_a: Version::new("proposal".to_string()),
        proof_chan_end_on_a: vec![1],
        proof_height_on_a: height(10),
        ordering: Order::Unordered,
        signer: signer(),
    }))
}

fn transfer_channel(chan: u64) -> ChannelEndPath {
    ChannelEndPath::new(&PortId::transfer(), &ChannelId::new(chan))
}

#[test]
fn channel_opens_on_the_side_that_begins() {
    let mut ctx = open_connection(context(), 0, get_compatible_versions());
    let mut router = router();
    assert_eq!(dispatch(&mut ctx, &mut router, chan_init(Order::Ordered)), Ok(()));
    assert_eq!(ctx.channel_counter(), 1);
    let end = ctx.channel_end(&transfer_channel(0)).unwrap();
    assert_eq!(end.state, State::Init);
    assert_eq!(end.ordering, Order::Ordered);
    assert_eq!(end.counterparty, Counterparty::new(PortId::new("theirs".to_string()), None));
    // The module settled on its own version.
    assert_eq!(end.version, Version::new("ics20-1".to_string()));
    assert_eq!(ctx.get_next_sequence_send(&transfer_channel(0)), Ok(Sequence::from(1)));
    assert_eq!(ctx.get_next_sequence_recv(&transfer_channel(0)), Ok(Sequence::from(1)));
    assert_eq!(ctx.get_next_sequence_ack(&transfer_channel(0)), Ok(Sequence::from(1)));
    // The engine's events come first, then the module's.
    assert_eq!(ctx.events.len(), 3);
    assert!(matches!(&ctx.events[0], &IbcEvent::Message(MessageEvent::Channel)));
    match &ctx.events[1] {
        IbcEvent::OpenInitChannel(data) => {
            assert_eq!(data.port_id, "transfer");
            assert_eq!(data.channel_id, ChannelId::new(0));
            assert_eq!(data.connection_id, ConnectionId::new(0));
            assert_eq!(data.version, "ics20-1");
        }
        other => panic!("unexpected event {other:?}"),
    }
    match &ctx.events[2] {
        IbcEvent::Module(event) => {
            assert_eq!(event.kind, "opened");
            assert_eq!(event.detail, "proposal");
        }
        other => panic!("unexpected event {other:?}"),
    }
    assert_eq!(
        ctx.logs,
        vec![
            "success: channel open init".to_string(),
            "module: channel opened".to_string()
        ]
    );

    let ack = MsgEnvelope::Channel(ChannelMsg::OpenAck(MsgChannelOpenAck {
        port_id_on_a: PortId::transfer(),
        chan_id_on_a: ChannelId::new(0),
        chan_id_on_b: ChannelId::new(5),
        version_on_b: Version::new("ics20-2".to_string()),
        proof_chan_end_on_b: vec![1],
        proof_height_on_b: height(10),
        signer: signer(),
    }));
    assert_eq!(dispatch(&mut ctx, &mut router, ack), Ok(()));
    let end = ctx.channel_end(&transfer_channel(0)).unwrap();
    assert_eq!(end.state, State::Open);
    assert_eq!(end.ordering, Order::Ordered);
    assert_eq!(end.counterparty.channel_id, Some(ChannelId::new(5)));
    assert_eq!(end.version, Version::new("ics20-2".to_string()));
    assert!(matches!(ctx.events.last().unwrap(), &IbcEvent::OpenAckChannel(_)));
    assert_eq!(ctx.connection_channel_ends(&ConnectionId::new(0)).unwrap().len(), 1);
    assert_eq!(ctx.connection_channel_ends(&ConnectionId::new(1)).unwrap().len(), 0);
}

#[test]
fn channel_opens_on_the_side_that_answers_and_closes() {
    let mut ctx = open_connection(context(), 0, get_compatible_versions());
    let mut router = router();
    assert_eq!(dispatch(&mut ctx, &mut router, chan_try()), Ok(()));
    let end = ctx.channel_end(&transfer_channel(0)).unwrap();
    assert_eq!(end.state, State::TryOpen);
    assert_eq!(
        end.counterparty,
        Counterparty::new(PortId::new("theirs".to_string()), Some(ChannelId::new(8)))
    );
    assert_eq!(end.version, Version::new("proposal".to_string()));

    let confirm = || {
        MsgEnvelope::Channel(ChannelMsg::OpenConfirm(MsgChannelOpenConfirm {
            port_id_on_b: PortId::transfer(),
            chan_id_on_b: ChannelId::new(0),
            proof_chan_end_on_a: vec![1],
            proof_height_on_a: height(10),
            signer: signer(),
        }))
    };
    assert_eq!(dispatch(&mut ctx, &mut router, confirm()), Ok(()));
    assert_eq!(ctx.channel_end(&transfer_channel(0)).unwrap().state, State::Open);
    // The step is for an end in `TryOpen` only.
    assert_eq!(
        dispatch(&mut ctx, &mut router, confirm()),
        Err(RouterError::Context(ContextError::Channel(
            ChannelError::StateMismatch
        )))
    );

    let close = || {
        MsgEnvelope::Channel(ChannelMsg::CloseInit(MsgChannelCloseInit {
            port_id_on_a: PortId::transfer(),
            chan_id_on_a: ChannelId::new(0),
            signer: signer(),
        }))
    };
    assert_eq!(dispatch(&mut ctx, &mut router, close()), Ok(()));
    let end = ctx.channel_end(&transfer_channel(0)).unwrap();
    assert_eq!(end.state, State::Closed);
    assert_eq!(end.ordering, Order::Unordered);
    assert!(matches!(ctx.events.last().unwrap(), &IbcEvent::CloseInitChannel(_)));

    // Closed is final: no step is taken any more.
    let events = ctx.events.len();
    assert_eq!(
        dispatch(&mut ctx, &mut router, close()),
        Err(RouterError::Context(ContextError::Channel(
            ChannelError::StateMismatch
        )))
    );
    assert_eq!(
        dispatch(&mut ctx, &mut router, confirm()),
        Err(RouterError::Context(ContextError::Channel(
            ChannelError::StateMismatch
        )))
    );
    let close_confirm = MsgEnvelope::Channel(ChannelMsg::CloseConfirm(MsgChannelCloseConfirm {
        port_id_on_b: PortId::transfer(),
        chan_id_on_b: ChannelId::new(0),
        proof_chan_end_on_a: vec![1],
        proof_height_on_a: height(10),
        signer: signer(),
    }));
    assert_eq!(
        dispatch(&mut ctx, &mut router, close_confirm),
        Err(RouterError::Context(ContextError::Channel(
            ChannelError::StateMismatch
        )))
    );
    assert_eq!(ctx.channel_end(&transfer_channel(0)).unwrap().state, State::Closed);
    assert_eq!(ctx.events.len(), events);
}

#[test]
fn channel_steps_are_turned_down() {
    let mut router = router();
    // No connection.
    let mut ctx = context();
    assert_eq!(
        dispatch(&mut ctx, &mut router, chan_init(Order::Unordered)),
        Err(RouterError::Context(ContextError::Connection(
            ConnectionError::ConnectionNotFound
        )))
    );
    // A connection that is not open.
    let mut ctx = context().with_connection(
        ConnectionId::new(0),
        ConnectionEnd::new(
            ConnectionState::Init,
            client(),
            ConnectionCounterparty::new(client(), None, CommitmentPrefix::default()),
            get_compatible_versions(),
            Duration::zero(),
        ),
    );
    assert_eq!(
        dispatch(&mut ctx, &mut router, chan_init(Order::Unordered)),
        Err(RouterError::Context(ContextError::Channel(
            ChannelError::ConnectionNotOpen
        )))
    );
    // A connection whose version does not offer the ordering.
    let only_unordered = ConnectionVersion {
        identifier: 1,
        ordered: false,
        unordered: true,
    };
    let mut ctx = open_connection(context(), 0, vec![only_unordered]);
    assert_eq!(
        dispatch(&mut ctx, &mut router, chan_init(Order::Ordered)),
        Err(RouterError::Context(ContextError::Channel(
            ChannelError::OrderingMismatch
        )))
    );
    // More than one connection.
    let two_hops = MsgEnvelope::Channel(ChannelMsg::OpenInit(MsgChannelOpenInit {
        port_id_on_a: PortId::transfer(),
        connection_hops_on_a: vec![ConnectionId::new(0), ConnectionId::new(0)],
        port_id_on_b: PortId::transfer(),
        ordering: Order::Unordered,
        version_proposal: Version::new("v".to_string()),
        signer: signer(),
    }));
    assert_eq!(
        validate(&ctx, &router, &two_hops),
        Err(RouterError::Context(ContextError::Channel(
            ChannelError::InvalidConnectionHops
        )))
    );
    // A module that turns the step down.
    router.routes[0].1.refuse = true;
    assert_eq!(
        validate(&ctx, &router, &chan_init(Order::Unordered)),
        Err(RouterError::Context(ContextError::Channel(
            ChannelError::ModuleRejected
        )))
    );
    assert_eq!(
        ibc_mocks::handler::dispatch::execute(&mut ctx, &mut router, chan_init(Order::Unordered)),
        Err(RouterError::Context(ContextError::Channel(
            ChannelError::ModuleRejected
        )))
    );
    assert_eq!(ctx.channel_counter(), 0);
    assert!(ctx.events.is_empty());
    assert!(ctx.channel_end(&transfer_channel(0)).is_err());
    assert_eq!(ctx.channel_ends().unwrap().len(), 0);
}

#[test]
fn connection_steps_go_through_the_dispatcher() {
    let mut ctx = context();
    let mut router = router();
    let init = MsgEnvelope::Connection(ConnectionMsg::OpenInit(init_msg(None)));
    assert_eq!(validate(&ctx, &router, &init), Ok(()));
    assert_eq!(dispatch(&mut ctx, &mut router, init), Ok(()));
    let attempt = MsgEnvelope::Connection(ConnectionMsg::OpenTry(try_msg(None)));
    assert_eq!(dispatch(&mut ctx, &mut router, attempt), Ok(()));
    assert_eq!(ctx.connection_counter(), 2);
    let ends = ctx.connection_ends().unwrap();
    assert_eq!(ends.len(), 2);
    assert_eq!(ends[0].connection_id, ConnectionId::new(0));
    assert_eq!(ends[0].connection_end.state, ConnectionState::Init);
    assert_eq!(ends[1].connection_id, ConnectionId::new(1));
    assert_eq!(ends[1].connection_end.state, ConnectionState::TryOpen);
}

/// A module that takes every step and keeps the version that is proposed,
/// unless it is told to turn steps down.
#[derive(Default)]
struct TestModule {
    refuse: bool,
}

impl Module for TestModule {
    fn on_chan_open_init_validate(
        &self,
        _order: ibc_mocks::channel::Order,
        _connection_hops: &Vec<ibc_mocks::identifier::ConnectionId>,
        _port_id: &ibc_mocks::identifier::PortId,
        _channel_id: &ibc_mocks::identifier::ChannelId,
        _counterparty: &ibc_mocks::channel::Counterparty,
        version: &ibc_mocks::channel::Version,
    ) -> Result<ibc_mocks::channel::Version, ibc_mocks::error::ChannelError> {
        if self.refuse {
            return Err(ibc_mocks::error::ChannelError::ModuleRejected);
        }
        Ok(version.clone())
    }

    fn on_chan_open_init_execute(
        &mut self,
        _order: ibc_mocks::channel::Order,
        _connection_hops: &Vec<ibc_mocks::identifier::ConnectionId>,
        _port_id: &ibc_mocks::identifier::PortId,
        _channel_id: &ibc_mocks::identifier::ChannelId,
        _counterparty: &ibc_mocks::channel::Counterparty,
        version: &ibc_mocks::channel::Version,
    ) -> Result<(ModuleExtras, ibc_mocks::channel::Version), ibc_mocks::error::ChannelError> {
        if self.refuse {
            return Err(ibc_mocks::error::ChannelError::ModuleRejected);
        }
        let extras = ModuleExtras {
            events: vec![ibc_mocks::events::ModuleEvent {
                kind: "opened".to_string(),
                detail: version.name.clone(),
            }],
            log: vec!["module: channel opened".to_string()],
        };
        Ok((extras, ibc_mocks::channel::Version::new("ics20-1".to_string())))
    }

    fn on_chan_open_try_validate(
        &self,
        _order: ibc_mocks::channel::Order,
        _connection_hops: &Vec<ibc_mocks::identifier::ConnectionId>,
        _port_id: &ibc_mocks::identifier::PortId,
        _channel_id: &ibc_mocks::identifier::ChannelId,
        _counterparty: &ibc_mocks::channel::Counterparty,
        version: &ibc_mocks::channel::Version,
    ) -> Result<ibc_mocks::channel::Version, ibc_mocks::error::ChannelError> {
        Ok(version.clone())
    }

    fn on_chan_open_try_execute(
        &mut self,
        _order: ibc_mocks::channel::Order,
        _connection_hops: &Vec<ibc_mocks::identifier::ConnectionId>,
        _port_id: &ibc_mocks::identifier::PortId,
        _channel_id: &ibc_mocks::identifier::ChannelId,
        _counterparty: &ibc_mocks::channel::Counterparty,
        version: &ibc_mocks::channel::Version,
    ) -> Result<(ModuleExtras, ibc_mocks::channel::Version), ibc_mocks::error::ChannelError> {
        Ok((ModuleExtras::empty(), version.clone()))
    }

    fn on_chan_open_ack_validate(
        &self,
        _port_id: &ibc_mocks::identifier::PortId,
        _channel_id: &ibc_mocks::identifier::ChannelId,
        _counterparty_version: &ibc_mocks::channel::Version,
    ) -> Result<(), ibc_mocks::error::ChannelError> {
        Ok(())
    }

    fn on_chan_open_ack_execute(
        &mut self,
        _port_id: &ibc_mocks::identifier::PortId,
        _channel_id: &ibc_mocks::identifier::ChannelId,
        _counterparty_version: &ibc_mocks::channel::Version,
    ) -> Result<ModuleExtras, ibc_mocks::error::ChannelError> {
        Ok(ModuleExtras::empty())
    }

    fn on_chan_open_confirm_validate(
        &self,
        _port_id: &ibc_mocks::identifier::PortId,
        _channel_id: &ibc_mocks::identifier::ChannelId,
    ) -> Result<(), ibc_mocks::error::ChannelError> {
        Ok(())
    }

    fn on_chan_open_confirm_execute(
        &mut self,
        _port_id: &ibc_mocks::identifier::PortId,
        _channel_id: &ibc_mocks::identifier::ChannelId,
    ) -> Result<ModuleExtras, ibc_mocks::error::ChannelError> {
        Ok(ModuleExtras::empty())
    }

    fn on_chan_close_init_validate(
        &self,
        _port_id: &ibc_mocks::identifier::PortId,
        _channel_id: &ibc_mocks::identifier::ChannelId,
    ) -> Result<(), ibc_mocks::error::ChannelError> {
        Ok(())
    }

    fn on_chan_close_init_execute(
        &mut self,
        _port_id: &ibc_mocks::identifier::PortId,
        _channel_id: &ibc_mocks::identifier::ChannelId,
    ) -> Result<ModuleExtras, ibc_mocks::error::ChannelError> {
        Ok(ModuleExtras::empty())
    }

    fn on_chan_close_confirm_validate(
        &self,
        _port_id: &ibc_mocks::identifier::PortId,
        _channel_id: &ibc_mocks::identifier::ChannelId,
    ) -> Result<(), ibc_mocks::error::ChannelError> {
        Ok(())
    }

    fn on_chan_close_confirm_execute(
        &mut self,
        _port_id: &ibc_mocks::identifier::PortId,
        _channel_id: &ibc_mocks::identifier::ChannelId,
    ) -> Result<ModuleExtras, ibc_mocks::error::ChannelError> {
        Ok(ModuleExtras::empty())
    }

    fn on_recv_packet_execute(
        &mut self,
        _packet: &ibc_mocks::channel::Packet,
        _relayer: &Signer,
    ) -> (ModuleExtras, ibc_mocks::channel::Acknowledgement) {
        (
            ModuleExtras::empty(),
            ibc_mocks::channel::Acknowledgement::try_from_bytes(vec![1u8]).unwrap(),
        )
    }

    fn on_acknowledgement_packet_validate(
        &self,
        _packet: &ibc_mocks::channel::Packet,
        _acknowledgement: &ibc_mocks::channel::Acknowledgement,
        _relayer: &Signer,
    ) -> Result<(), ibc_mocks::error::PacketError> {
        Ok(())
    }

    fn on_acknowledgement_packet_execute(
        &mut self,
        _packet: &ibc_mocks::channel::Packet,
        _acknowledgement: &ibc_mocks::channel::Acknowledgement,
        _relayer: &Signer,
    ) -> (ModuleExtras, Result<(), ibc_mocks::error::PacketError>) {
        (ModuleExtras::empty(), Ok(()))
    }

    fn on_timeout_packet_validate(
        &self,
        _packet: &ibc_mocks::channel::Packet,
        _relayer: &Signer,
    ) -> Result<(), ibc_mocks::error::PacketError> {
        Ok(())
    }

    fn on_timeout_packet_execute(
        &mut self,
        _packet: &ibc_mocks::channel::Packet,
        _relayer: &Signer,
    ) -> (ModuleExtras, Result<(), ibc_mocks::error::PacketError>) {
        (ModuleExtras::empty(), Ok(()))
    }
}


#[test]
fn channel_steps_need_a_module_for_the_port() {
    let mut ctx = open_connection(context(), 0, get_compatible_versions());
    let mut unbound: MockRouter<TestModule> = MockRouter::new();
    assert_eq!(
        validate(&ctx, &unbound, &chan_init(Order::Unordered)),
        Err(RouterError::UnknownPort)
    );
    assert_eq!(
        dispatch(&mut ctx, &mut unbound, chan_init(Order::Unordered)),
        Err(RouterError::UnknownPort)
    );
    unbound.bind_port(PortId::transfer(), ModuleId::new("transfer".to_string()));
    assert_eq!(
        validate(&ctx, &unbound, &chan_init(Order::Unordered)),
        Err(RouterError::ModuleNotFound)
    );
    assert_eq!(
        ibc_mocks::handler::dispatch::execute(&mut ctx, &mut unbound, chan_init(Order::Unordered)),
        Err(RouterError::ModuleNotFound)
    );
    assert_eq!(
        dispatch(&mut ctx, &mut unbound, chan_init(Order::Unordered)),
        Err(RouterError::ModuleNotFound)
    );
    assert_eq!(ctx.channel_counter(), 0);
    assert!(ctx.events.is_empty());

    // With the module in its place the same message is taken.
    let mut router = router();
    assert_eq!(
        dispatch(&mut ctx, &mut router, chan_init(Order::Unordered)),
        Ok(())
    );
    assert_eq!(ctx.channel_counter(), 1);
}
