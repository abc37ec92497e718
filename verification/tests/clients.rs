use ibc_mocks::client::{
    AnyClientState, AnyConsensusState, AnyHeader, ClientMessage, CommitmentRoot, Misbehaviour,
    MockClientState, MockConsensusState, MockHeader, Status, TmClientState, TmConsensusState,
};
use ibc_mocks::context::{ExecutionContext, ValidationContext};
use ibc_mocks::error::{ClientError, ContextError, RouterError};
use ibc_mocks::events::IbcEvent;
use ibc_mocks::handler::client::{create_execute, update_execute, update_validate};
use ibc_mocks::handler::common::{client_status, proof_client};
use ibc_mocks::handler::dispatch::dispatch;
use ibc_mocks::height::Height;
use ibc_mocks::host::HostType;
use ibc_mocks::identifier::{ChainId, ChannelId, ClientId, ClientType, PortId, Signer};
use ibc_mocks::mock::builders::MockClientConfig;
use ibc_mocks::mock::context::{MockContext, MockContextConfig};
use ibc_mocks::msgs::{ClientMsg, MsgCreateClient, MsgEnvelope, MsgUpdateClient};
use ibc_mocks::path::{ChannelEndPath, ClientConsensusStatePath};
use ibc_mocks::query::QueryContext;
use ibc_mocks::router::{MockRouter, Module, ModuleExtras};
use ibc_mocks::timestamp::{Duration, Timestamp};

fn signer() -> Signer {
    Signer {
        account: "relayer".to_string(),
    }
}

fn context() -> MockContext {
    MockContext::from(MockContextConfig {
        host_type: HostType::Mock,
        host_id: ChainId::new("mockgaia-0").unwrap(),
        block_time: Duration::from_secs(3),
        max_history_size: 5,
        validator_set_history: None,
        latest_height: Height::new(0, 5).unwrap(),
        latest_timestamp: Timestamp::from_nanoseconds(100_000_000_000),
    })
}

fn height(h: u64) -> Height {
    Height::new(0, h).unwrap()
}

fn mock_header(h: u64) -> MockHeader {
    MockHeader::new(height(h)).with_timestamp(Timestamp::from_nanoseconds(1000 + h))
}

fn create_msg(h: u64) -> MsgCreateClient {
    MsgCreateClient {
        client_state: AnyClientState::Mock(MockClientState::new(mock_header(h))),
        consensus_state: AnyConsensusState::Mock(MockConsensusState::new(mock_header(h))),
        signer: signer(),
    }
}

fn update_msg(id: ClientId, h: u64) -> MsgUpdateClient {
    MsgUpdateClient {
        client_id: id,
        client_message: ClientMessage::Header(AnyHeader::Mock(mock_header(h))),
        signer: signer(),
    }
}

#[test]
fn create_client_stores_the_client_under_a_fresh_identifier() {
    let mut ctx = context();
    let id = create_execute(&mut ctx, create_msg(42)).unwrap();
    assert_eq!(id, ClientId::new(ClientType::Mock, 0));
    assert_eq!(ctx.client_counter(), 1);
    assert_eq!(
        ctx.client_state(&id),
        Ok(AnyClientState::Mock(MockClientState::new(mock_header(42))))
    );
    let path = ClientConsensusStatePath::new(&id, &height(42));
    assert_eq!(
        ctx.consensus_state(&path),
        Ok(AnyConsensusState::Mock(MockConsensusState::new(mock_header(
            42
        ))))
    );
    // The time and height of storing are those of the host.
    assert_eq!(
        ctx.client_update_time(&path),
        Ok(Timestamp::from_nanoseconds(100_000_000_000))
    );
    assert_eq!(ctx.client_update_height(&path), Ok(height(5)));
    assert_eq!(ctx.events.len(), 2);
    assert!(matches!(&ctx.events[1], &IbcEvent::CreateClient(_)));

    let second = create_execute(&mut ctx, create_msg(7)).unwrap();
    assert_eq!(second, ClientId::new(ClientType::Mock, 1));
    assert_eq!(ctx.client_counter(), 2);
}

#[test]
fn create_client_needs_states_that_fit_together() {
    let mut ctx = context();
    let mixed = MsgCreateClient {
        client_state: AnyClientState::Mock(MockClientState::new(mock_header(42))),
        consensus_state: AnyConsensusState::Tendermint(TmConsensusState {
            timestamp: Timestamp::from_nanoseconds(1),
            root: CommitmentRoot { hash: [0u8; 32] },
            next_validators_hash: [0u8; 32],
        }),
        signer: signer(),
    };
    assert_eq!(
        create_execute(&mut ctx, mixed),
        Err(ContextError::Client(ClientError::InvalidInitialState))
    );
    let frozen = MsgCreateClient {
        client_state: AnyClientState::Mock(MockClientState {
            header: mock_header(42),
            frozen_height: Some(height(1)),
        }),
        consensus_state: AnyConsensusState::Mock(MockConsensusState::new(mock_header(42))),
        signer: signer(),
    };
    assert_eq!(
        create_execute(&mut ctx, frozen),
        Err(ContextError::Client(ClientError::ClientFrozen))
    );
    assert_eq!(ctx.client_counter(), 0);
    assert!(ctx.events.is_empty());
}

#[test]
fn update_client_moves_the_client_on() {
    let mut ctx = context();
    let id = create_execute(&mut ctx, create_msg(42)).unwrap();
    ctx.advance_host_chain_height();

    assert_eq!(update_validate(&ctx, &update_msg(id, 45)), Ok(()));
    assert_eq!(update_execute(&mut ctx, update_msg(id, 45)), Ok(()));

    assert_eq!(ctx.client_state(&id).unwrap().latest_height(), height(45));
    // The old consensus state is still there, the new one was added.
    assert_eq!(
        ctx.consensus_state_heights(&id).unwrap(),
        vec![height(42), height(45)]
    );
    let path = ClientConsensusStatePath::new(&id, &height(45));
    assert_eq!(ctx.client_update_height(&path), Ok(height(6)));
    assert_eq!(
        ctx.client_update_time(&path),
        Ok(Timestamp::from_nanoseconds(103_000_000_000))
    );
    assert!(matches!(
        ctx.events.last().unwrap(),
        &IbcEvent::UpdateClient(_)
    ));
    assert_eq!(ctx.client_status(&id), Ok(Status::Active));
}

#[test]
fn update_client_with_a_known_header_stores_nothing() {
    let mut ctx = context();
    let id = create_execute(&mut ctx, create_msg(42)).unwrap();
    assert_eq!(update_execute(&mut ctx, update_msg(id, 42)), Ok(()));
    assert_eq!(ctx.consensus_state_heights(&id).unwrap(), vec![height(42)]);
    assert_eq!(ctx.client_status(&id), Ok(Status::Active));
    assert_eq!(ctx.client_state(&id).unwrap().latest_height(), height(42));
}

#[test]
fn a_contradicting_header_freezes_the_client() {
    let mut ctx = context();
    let id = create_execute(&mut ctx, create_msg(42)).unwrap();
    // Another header for height 42.
    let other = MsgUpdateClient {
        client_id: id,
        client_message: ClientMessage::Header(AnyHeader::Mock(
            MockHeader::new(height(42)).with_timestamp(Timestamp::from_nanoseconds(5)),
        )),
        signer: signer(),
    };
    assert_eq!(update_execute(&mut ctx, other), Ok(()));
    assert_eq!(ctx.client_status(&id), Ok(Status::Frozen));
    assert!(ctx.client_state(&id).unwrap().is_frozen());
    assert_eq!(ctx.consensus_state_heights(&id).unwrap(), vec![height(42)]);
    assert!(matches!(
        ctx.events.last().unwrap(),
        &IbcEvent::ClientMisbehaviour(_)
    ));
}

#[test]
fn a_header_that_falls_back_freezes_the_client() {
    let mut ctx = context();
    let id = create_execute(&mut ctx, create_msg(42)).unwrap();
    assert_eq!(update_execute(&mut ctx, update_msg(id, 41)), Ok(()));
    assert_eq!(ctx.client_status(&id), Ok(Status::Frozen));
    assert_eq!(ctx.consensus_state_heights(&id).unwrap(), vec![height(42)]);
}

#[test]
fn a_frozen_client_takes_nothing_any_more() {
    let mut ctx = context();
    let mut router: MockRouter<NoModule> = MockRouter::new();
    let id = create_execute(&mut ctx, create_msg(42)).unwrap();
    let evidence = MsgUpdateClient {
        client_id: id,
        client_message: ClientMessage::Misbehaviour(Misbehaviour {
            client_id: id,
            header1: AnyHeader::Mock(mock_header(50)),
            header2: AnyHeader::Mock(
                MockHeader::new(height(50)).with_timestamp(Timestamp::from_nanoseconds(7)),
            ),
        }),
        signer: signer(),
    };
    assert_eq!(
        dispatch(
            &mut ctx,
            &mut router,
            MsgEnvelope::Client(ClientMsg::UpdateClient(evidence))
        ),
        Ok(())
    );
    assert_eq!(ctx.client_status(&id), Ok(Status::Frozen));
    let events = ctx.events.len();

    // An update that would otherwise be taken.
    assert_eq!(
        update_validate(&ctx, &update_msg(id, 60)),
        Err(ContextError::Client(ClientError::ClientFrozen))
    );
    assert_eq!(
        dispatch(
            &mut ctx,
            &mut router,
            MsgEnvelope::Client(ClientMsg::UpdateClient(update_msg(id, 60)))
        ),
        Err(RouterError::Context(ContextError::Client(
            ClientError::ClientFrozen
        )))
    );
    assert_eq!(
        update_execute(&mut ctx, update_msg(id, 60)),
        Err(ContextError::Client(ClientError::ClientFrozen))
    );
    // No proof is checked against it.
    assert_eq!(
        proof_client(&ctx, &id, &height(42)),
        Err(ContextError::Client(ClientError::ClientFrozen))
    );
    assert_eq!(ctx.events.len(), events);
    assert_eq!(ctx.client_state(&id).unwrap().latest_height(), height(42));
}

#[test]
fn evidence_must_contradict() {
    let mut ctx = context();
    let id = create_execute(&mut ctx, create_msg(42)).unwrap();
    let same = MsgUpdateClient {
        client_id: id,
        client_message: ClientMessage::Misbehaviour(Misbehaviour {
            client_id: id,
            header1: AnyHeader::Mock(mock_header(50)),
            header2: AnyHeader::Mock(mock_header(50)),
        }),
        signer: signer(),
    };
    assert_eq!(
        update_validate(&ctx, &same),
        Err(ContextError::Client(ClientError::NoMisbehaviour))
    );
    assert_eq!(
        update_execute(&mut ctx, same),
        Err(ContextError::Client(ClientError::NoMisbehaviour))
    );
    assert_eq!(ctx.client_status(&id), Ok(Status::Active));
}

#[test]
fn update_of_an_unknown_client_fails() {
    let mut ctx = context();
    let id = ClientId::new(ClientType::Mock, 3);
    assert_eq!(
        update_execute(&mut ctx, update_msg(id, 60)),
        Err(ContextError::Client(ClientError::ClientNotFound))
    );
    assert_eq!(
        ctx.client_status(&id),
        Err(ContextError::Client(ClientError::ClientNotFound))
    );
}

#[test]
fn a_tendermint_client_expires_after_its_trusting_period() {
    let id = ClientId::new(ClientType::Tendermint, 0);
    let config = |trusting_secs: u64| MockClientConfig {
        client_chain_id: ChainId::new("other-0").unwrap(),
        client_id: id,
        client_type: ClientType::Tendermint,
        client_state_height: height(10),
        consensus_state_heights: vec![height(9), height(10)],
        // Ten seconds before the host's clock.
        latest_timestamp: Timestamp::from_nanoseconds(90_000_000_000),
        trusting_period: Duration::from_secs(trusting_secs),
        max_clock_drift: Duration::from_millis(3000),
    };
    let ctx = context().with_client_config(config(10));
    assert_eq!(ctx.client_status(&id), Ok(Status::Active));
    let cs = ctx.client_state(&id).unwrap();
    assert_eq!(cs.client_type(), ClientType::Tendermint);
    assert_eq!(client_status(&ctx, &id, &cs), Status::Active);
    // The consensus states lie one block time apart.
    assert_eq!(
        ctx.latest_consensus_states(&id, &height(9)).timestamp(),
        Timestamp::from_nanoseconds(87_000_000_000)
    );
    assert_eq!(
        ctx.latest_consensus_states(&id, &height(10)).timestamp(),
        Timestamp::from_nanoseconds(90_000_000_000)
    );

    let ctx = context().with_client_config(config(9));
    assert_eq!(ctx.client_status(&id), Ok(Status::Expired));
    assert_eq!(
        proof_client(&ctx, &id, &height(10)),
        Err(ContextError::Client(ClientError::ClientExpired))
    );
}

#[test]
fn the_mock_host_takes_no_tendermint_header() {
    let id = ClientId::new(ClientType::Tendermint, 0);
    let ctx = context().with_client_parametrized(
        &id,
        height(10),
        Some(ClientType::Tendermint),
        Some(height(10)),
    );
    let state = ctx.latest_client_states(&id);
    match &state {
        AnyClientState::Tendermint(TmClientState {
            chain_id,
            latest_height,
            frozen_height,
            ..
        }) => {
            assert_eq!(chain_id.name, "mockgaia-0");
            assert_eq!(*latest_height, height(10));
            assert_eq!(*frozen_height, None);
        }
        other => panic!("unexpected state {other:?}"),
    }
    let block = ibc_mocks::host::HostBlock::generate_block(
        ChainId::new("mockgaia-0").unwrap(),
        HostType::SyntheticTendermint,
        11,
        Timestamp::from_nanoseconds(100_000_000_000),
    );
    // The header names height one as the height to trust, where the client
    // holds no consensus state.
    let msg = MsgUpdateClient {
        client_id: id,
        client_message: ClientMessage::Header(block.header()),
        signer: signer(),
    };
    assert_eq!(
        update_validate(&ctx, &msg),
        Err(ContextError::Client(ClientError::ConsensusStateNotFound))
    );
    // A stand-in header is not for a Tendermint client.
    assert_eq!(
        update_validate(&ctx, &update_msg(id, 11)),
        Err(ContextError::Client(ClientError::HeaderMismatch))
    );
}

#[test]
fn with_client_builders_make_the_records() {
    let id = ClientId::new(ClientType::Mock, 0);
    let ctx = context().with_client(&id, height(20));
    assert_eq!(
        ctx.latest_client_states(&id),
        AnyClientState::Mock(MockClientState::new(MockHeader::new(height(20))))
    );
    assert_eq!(
        ctx.latest_consensus_states(&id, &height(20)),
        AnyConsensusState::Mock(MockConsensusState::new(MockHeader::new(height(20))))
    );
    assert_eq!(ctx.consensus_state_heights(&id).unwrap(), vec![height(20)]);

    let ctx = ctx.with_client_parametrized_history(&id, height(20), None, Some(height(15)));
    assert_eq!(
        ctx.consensus_state_heights(&id).unwrap(),
        vec![height(14), height(15)]
    );
    assert_eq!(
        ctx.latest_client_states(&id).latest_height(),
        height(20)
    );

    // At the first height of a revision there is no height before it.
    let ctx = ctx.with_client_parametrized_history(&id, height(20), None, Some(height(1)));
    assert_eq!(
        ctx.consensus_state_heights(&id).unwrap(),
        vec![height(1), height(20)]
    );

    let ctx = ctx.with_client_config(MockClientConfig {
        client_chain_id: ChainId::new("other-0").unwrap(),
        client_id: id,
        client_type: ClientType::Mock,
        client_state_height: height(30),
        consensus_state_heights: vec![height(3), height(8), height(5)],
        latest_timestamp: Timestamp::from_nanoseconds(1),
        trusting_period: Duration::from_secs(1),
        max_clock_drift: Duration::from_secs(1),
    });
    // A stand-in client stands at the last of the heights.
    assert_eq!(ctx.latest_client_states(&id).latest_height(), height(5));
    assert_eq!(
        ctx.consensus_state_heights(&id).unwrap(),
        vec![height(3), height(5), height(8)]
    );
}

#[test]
fn with_ack_sequence_leaves_the_other_counters() {
    let one = ChannelEndPath::new(&PortId::transfer(), &ChannelId::new(1));
    let two = ChannelEndPath::new(&PortId::transfer(), &ChannelId::new(2));
    let ctx = context()
        .with_send_sequence(PortId::transfer(), ChannelId::new(1), 4.into())
        .with_ack_sequence(PortId::transfer(), ChannelId::new(1), 3.into())
        .with_ack_sequence(PortId::transfer(), ChannelId::new(2), 9.into());
    assert_eq!(ctx.get_next_sequence_ack(&two), Ok(9.into()));
    // The counter of the other channel is kept, and no send counter comes in.
    assert_eq!(ctx.get_next_sequence_ack(&one), Ok(3.into()));
    assert_eq!(ctx.get_next_sequence_send(&one), Ok(4.into()));
    assert!(ctx.get_next_sequence_send(&two).is_err());
    assert!(ctx.get_next_sequence_recv(&one).is_err());
    assert!(ctx.get_next_sequence_recv(&two).is_err());

    let ctx = context()
        .with_send_sequence(PortId::transfer(), ChannelId::new(1), 4.into())
        .with_ack_sequence(PortId::transfer(), ChannelId::new(2), 9.into());
    assert!(ctx.get_next_sequence_ack(&one).is_err());
}

/// A module for a router that routes nothing.
struct NoModule;

impl Module for NoModule {
    fn on_chan_open_init_validate(
        &self,
        _order: ibc_mocks::channel::Order,
        _connection_hops: &Vec<ibc_mocks::identifier::ConnectionId>,
        _port_id: &ibc_mocks::identifier::PortId,
        _channel_id: &ibc_mocks::identifier::ChannelId,
        _counterparty: &ibc_mocks::channel::Counterparty,
        version: &ibc_mocks::channel::Version,
    ) -> Result<ibc_mocks::channel::Version, ibc_mocks::error::ChannelError> {
        Ok(version.clone())
    }

    fn on_chan_open_init_execute(
        &mut self,
        _order: ibc_mocks::channel::Order,
        _connection_hops: &Vec<ibc_mocks::identifier::ConnectionId>,
        _port_id: &ibc_mocks::identifier::PortId,
        _channel_id: &ibc_mocks::identifier::ChannelId,
        _counterparty: &ibc_mocks::channel::Counterparty,
        version: &ibc_mocks::channel::Version,
    ) -> Result<(ModuleExtras, ibc_mocks::channel::Version), ibc_mocks::error::ChannelError> {
        Ok((ModuleExtras::empty(), version.clone()))
    }

    fn on_chan_open_try_validate(
        &self,
        _order: ibc_mocks::channel::Order,
        _connection_hops: &Vec<ibc_mocks::identifier::ConnectionId>,
        _port_id: &ibc_mocks::identifier::PortId,
        _channel_id: &ibc_mocks::identifier::ChannelId,
        _counterparty: &ibc_mocks::channel::Counterparty,
        version: &ibc_mocks::channel::Version,
    ) -> Result<ibc_mocks::channel::Version, ibc_mocks::error::ChannelError> {
        Ok(version.clone())
    }

    fn on_chan_open_try_execute(
        &mut self,
        _order: ibc_mocks::channel::Order,
        _connection_hops: &Vec<ibc_mocks::identifier::ConnectionId>,
        _port_id: &ibc_mocks::identifier::PortId,
        _channel_id: &ibc_mocks::identifier::ChannelId,
        _counterparty: &ibc_mocks::channel::Counterparty,
        version: &ibc_mocks::channel::Version,
    ) -> Result<(ModuleExtras, ibc_mocks::channel::Version), ibc_mocks::error::ChannelError> {
        Ok((ModuleExtras::empty(), version.clone()))
    }

    fn on_chan_open_ack_validate(
        &self,
        _port_id: &ibc_mocks::identifier::PortId,
        _channel_id: &ibc_mocks::identifier::ChannelId,
        _counterparty_version: &ibc_mocks::channel::Version,
    ) -> Result<(), ibc_mocks::error::ChannelError> {
        Ok(())
    }

    fn on_chan_open_ack_execute(
        &mut self,
        _port_id: &ibc_mocks::identifier::PortId,
        _channel_id: &ibc_mocks::identifier::ChannelId,
        _counterparty_version: &ibc_mocks::channel::Version,
    ) -> Result<ModuleExtras, ibc_mocks::error::ChannelError> {
        Ok(ModuleExtras::empty())
    }

    fn on_chan_open_confirm_validate(
        &self,
        _port_id: &ibc_mocks::identifier::PortId,
        _channel_id: &ibc_mocks::identifier::ChannelId,
    ) -> Result<(), ibc_mocks::error::ChannelError> {
        Ok(())
    }

    fn on_chan_open_confirm_execute(
        &mut self,
        _port_id: &ibc_mocks::identifier::PortId,
        _channel_id: &ibc_mocks::identifier::ChannelId,
    ) -> Result<ModuleExtras, ibc_mocks::error::ChannelError> {
        Ok(ModuleExtras::empty())
    }

    fn on_chan_close_init_validate(
        &self,
        _port_id: &ibc_mocks::identifier::PortId,
        _channel_id: &ibc_mocks::identifier::ChannelId,
    ) -> Result<(), ibc_mocks::error::ChannelError> {
        Ok(())
    }

    fn on_chan_close_init_execute(
        &mut self,
        _port_id: &ibc_mocks::identifier::PortId,
        _channel_id: &ibc_mocks::identifier::ChannelId,
    ) -> Result<ModuleExtras, ibc_mocks::error::ChannelError> {
        Ok(ModuleExtras::empty())
    }

    fn on_chan_close_confirm_validate(
        &self,
        _port_id: &ibc_mocks::identifier::PortId,
        _channel_id: &ibc_mocks::identifier::ChannelId,
    ) -> Result<(), ibc_mocks::error::ChannelError> {
        Ok(())
    }

    fn on_chan_close_confirm_execute(
        &mut self,
        _port_id: &ibc_mocks::identifier::PortId,
        _channel_id: &ibc_mocks::identifier::ChannelId,
    ) -> Result<ModuleExtras, ibc_mocks::error::ChannelError> {
        Ok(ModuleExtras::empty())
    }

    fn on_recv_packet_execute(
        &mut self,
        _packet: &ibc_mocks::channel::Packet,
        _relayer: &Signer,
    ) -> (ModuleExtras, ibc_mocks::channel::Acknowledgement) {
        (
            ModuleExtras::empty(),
            ibc_mocks::channel::Acknowledgement::try_from_bytes(vec![1u8]).unwrap(),
        )
    }

    fn on_acknowledgement_packet_validate(
        &self,
        _packet: &ibc_mocks::channel::Packet,
        _acknowledgement: &ibc_mocks::channel::Acknowledgement,
        _relayer: &Signer,
    ) -> Result<(), ibc_mocks::error::PacketError> {
        Ok(())
    }

    fn on_acknowledgement_packet_execute(
        &mut self,
        _packet: &ibc_mocks::channel::Packet,
        _acknowledgement: &ibc_mocks::channel::Acknowledgement,
        _relayer: &Signer,
    ) -> (ModuleExtras, Result<(), ibc_mocks::error::PacketError>) {
        (ModuleExtras::empty(), Ok(()))
    }

    fn on_timeout_packet_validate(
        &self,
        _packet: &ibc_mocks::channel::Packet,
        _relayer: &Signer,
    ) -> Result<(), ibc_mocks::error::PacketError> {
        Ok(())
    }

    fn on_timeout_packet_execute(
        &mut self,
        _packet: &ibc_mocks::channel::Packet,
        _relayer: &Signer,
    ) -> (ModuleExtras, Result<(), ibc_mocks::error::PacketError>) {
        (ModuleExtras::empty(), Ok(()))
    }
}

#[test]
fn deliver_moves_the_chain_on_only_where_the_message_is_taken() {
    let mut ctx = context();
    let mut router: MockRouter<NoModule> = MockRouter::new();
    assert_eq!(
        ctx.deliver(
            &mut router,
            MsgEnvelope::Client(ClientMsg::CreateClient(create_msg(42)))
        ),
        Ok(())
    );
    assert_eq!(ctx.latest_height(), height(6));
    assert_eq!(ctx.events.len(), 2);

    let unknown = ClientId::new(ClientType::Mock, 9);
    assert_eq!(
        ctx.deliver(
            &mut router,
            MsgEnvelope::Client(ClientMsg::UpdateClient(update_msg(unknown, 60)))
        ),
        Err(ibc_mocks::error::RelayerError::TransactionFailed(
            RouterError::Context(ContextError::Client(ClientError::ClientNotFound))
        ))
    );
    assert_eq!(ctx.latest_height(), height(6));
    assert_eq!(ctx.events.len(), 2);
    assert!(ctx.validate().is_ok());
}
