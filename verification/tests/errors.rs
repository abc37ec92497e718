use ibc_mocks::channel::{ChannelEnd, Counterparty, Order, Packet, State, Version};
use ibc_mocks::client::{
    AnyClientState, AnyConsensusState, ClientMessage, MockClientState, MockConsensusState,
    MockHeader,
};
use ibc_mocks::commitment::{AcknowledgementCommitment, TimeoutHeight};
use ibc_mocks::connection::{
    get_compatible_versions, CommitmentPrefix, ConnectionEnd,
    Counterparty as ConnectionCounterparty, State as ConnectionState,
};
use ibc_mocks::context::{ExecutionContext, ValidationContext};
use ibc_mocks::error::{
    ChannelError, ClientError, ConnectionError, ContextError, PacketError,
};
use ibc_mocks::handler::channel::{chan_open_init_validate_core, chan_open_try_validate_core};
use ibc_mocks::handler::client::{create_execute, update_validate};
use ibc_mocks::handler::connection::{conn_open_init_execute, conn_open_try};
use ibc_mocks::handler::recv_packet;
use ibc_mocks::handler::send_packet::send_packet;
use ibc_mocks::handler::{acknowledgement, timeout};
use ibc_mocks::height::Height;
use ibc_mocks::host::{HostBlock, HostType};
use ibc_mocks::identifier::{
    ChainId, ChannelId, ClientId, ClientType, ConnectionId, PortId, Sequence, Signer,
};
use ibc_mocks::mock::context::{MockContext, MockContextConfig};
use ibc_mocks::msgs::{
    MsgAcknowledgement, MsgChannelOpenInit, MsgChannelOpenTry, MsgConnectionOpenInit,
    MsgConnectionOpenTry, MsgCreateClient, MsgRecvPacket, MsgTimeout, MsgUpdateClient,
};
use ibc_mocks::path::{ClientConsensusStatePath, PacketPath};
use ibc_mocks::timestamp::{Duration, Timestamp};

fn signer() -> Signer {
    Signer {
        account: "relayer".to_string(),
    }
}

fn height(h: u64) -> Height {
    Height::new(0, h).unwrap()
}

fn host() -> MockContext {
    MockContext::from(MockContextConfig {
        host_type: HostType::Mock,
        host_id: ChainId::new("mockgaia-0").unwrap(),
        block_time: Duration::from_secs(3),
        max_history_size: 5,
        validator_set_history: None,
        latest_height: height(5),
        latest_timestamp: Timestamp::from_nanoseconds(100_000_000_000),
    })
}

fn connection(client: ClientId, counterparty: Option<ConnectionId>) -> ConnectionEnd {
    ConnectionEnd::new(
        ConnectionState::Open,
        client,
        ConnectionCounterparty::new(client, counterparty, CommitmentPrefix::default()),
        get_compatible_versions(),
        Duration::zero(),
    )
}

fn channel(ordering: Order) -> ChannelEnd {
    ChannelEnd::new(
        State::Open,
        ordering,
        Counterparty::new(PortId::transfer(), Some(ChannelId::new(0))),
        vec![ConnectionId::new(0)],
        Version::new("ics20-1".to_string()),
    )
}

fn packet(seq: u64) -> Packet {
    Packet {
        seq_on_a: seq.into(),
        port_id_on_a: PortId::transfer(),
        chan_id_on_a: ChannelId::new(0),
        port_id_on_b: PortId::transfer(),
        chan_id_on_b: ChannelId::new(0),
        data: vec![1, 2, 3],
        timeout_height_on_b: TimeoutHeight::from(height(6)),
        timeout_timestamp_on_b: Timestamp::none(),
    }
}

fn recv(seq: u64) -> MsgRecvPacket {
    MsgRecvPacket::new(packet(seq), vec![1], height(10), signer())
}

/// A host with a client of the given type at height ten, an open connection
/// over it, and an open channel over the connection.
fn ready(client_type: ClientType, ordering: Order, recorded: bool) -> (MockContext, ClientId) {
    let id = ClientId::new(client_type, 0);
    let mut ctx = host()
        .with_client_parametrized(&id, height(10), Some(client_type), None)
        .with_connection(ConnectionId::new(0), connection(id, Some(ConnectionId::new(0))))
        .with_channel(PortId::transfer(), ChannelId::new(0), channel(ordering));
    if recorded {
        let path = ClientConsensusStatePath::new(&id, &height(10));
        ctx.store_update_time(path, Timestamp::from_nanoseconds(1));
        ctx.store_update_height(path, height(1));
    }
    (ctx, id)
}

#[test]
fn a_proof_needs_the_time_and_height_of_storing() {
    let (mut ctx, id) = ready(ClientType::Mock, Order::Unordered, false);
    assert_eq!(
        recv_packet::validate(&ctx, &recv(1)),
        Err(ContextError::Client(ClientError::ProcessedTimeNotFound))
    );
    ctx.store_update_time(
        ClientConsensusStatePath::new(&id, &height(10)),
        Timestamp::from_nanoseconds(1),
    );
    assert_eq!(
        recv_packet::validate(&ctx, &recv(1)),
        Err(ContextError::Client(ClientError::ProcessedHeightNotFound))
    );
    ctx.store_update_height(ClientConsensusStatePath::new(&id, &height(10)), height(1));
    assert_eq!(recv_packet::validate(&ctx, &recv(1)), Ok(()));
}

#[test]
fn the_mock_host_takes_no_proof_for_a_tendermint_client() {
    let (mut ctx, id) = ready(ClientType::Tendermint, Order::Unordered, true);
    assert_eq!(
        recv_packet::validate(&ctx, &recv(1)),
        Err(ContextError::Packet(PacketError::ProofFailure))
    );
    let attempt = MsgConnectionOpenTry {
        previous_connection_id: None,
        client_id_on_b: id,
        counterparty: ConnectionCounterparty::new(
            id,
            Some(ConnectionId::new(4)),
            CommitmentPrefix::default(),
        ),
        versions_on_a: get_compatible_versions(),
        proof_conn_end_on_a: vec![1],
        proof_height_on_a: height(10),
        delay_period: Duration::zero(),
        signer: signer(),
    };
    assert_eq!(
        conn_open_try(&mut ctx, attempt),
        Err(ContextError::Connection(ConnectionError::ProofFailure))
    );
    let attempt = MsgChannelOpenTry {
        port_id_on_b: PortId::transfer(),
        connection_hops_on_b: vec![ConnectionId::new(0)],
        port_id_on_a: PortId::transfer(),
        chan_id_on_a: ChannelId::new(8),
        version_supported_on_a: Version::new("v".to_string()),
        proof_chan_end_on_a: vec![1],
        proof_height_on_a: height(10),
        ordering: Order::Unordered,
        signer: signer(),
    };
    assert_eq!(
        chan_open_try_validate_core(&ctx, &attempt),
        Err(ContextError::Channel(ChannelError::ProofFailure))
    );
}

#[test]
fn the_mock_host_takes_no_header_for_a_tendermint_client() {
    let id = ClientId::new(ClientType::Tendermint, 0);
    // The client trusts height one.
    let ctx = host().with_client_parametrized_history(
        &id,
        height(2),
        Some(ClientType::Tendermint),
        Some(height(2)),
    );
    let block = HostBlock::generate_block(
        ChainId::new("mockgaia-0").unwrap(),
        HostType::SyntheticTendermint,
        3,
        Timestamp::from_nanoseconds(100_000_000_000),
    );
    let msg = MsgUpdateClient {
        client_id: id,
        client_message: ClientMessage::Header(block.header()),
        signer: signer(),
    };
    assert_eq!(
        update_validate(&ctx, &msg),
        Err(ContextError::Client(ClientError::HeaderVerificationFailure))
    );
}

#[test]
fn a_channel_step_needs_the_connection_on_the_other_chain() {
    let id = ClientId::new(ClientType::Mock, 0);
    let ctx = host()
        .with_client(&id, height(10))
        .with_connection(ConnectionId::new(0), connection(id, None));
    let attempt = MsgChannelOpenTry {
        port_id_on_b: PortId::transfer(),
        connection_hops_on_b: vec![ConnectionId::new(0)],
        port_id_on_a: PortId::transfer(),
        chan_id_on_a: ChannelId::new(8),
        version_supported_on_a: Version::new("v".to_string()),
        proof_chan_end_on_a: vec![1],
        proof_height_on_a: height(10),
        ordering: Order::Unordered,
        signer: signer(),
    };
    assert_eq!(
        chan_open_try_validate_core(&ctx, &attempt),
        Err(ContextError::Channel(ChannelError::MissingCounterparty))
    );
}

#[test]
fn counters_run_out() {
    let id = ClientId::new(ClientType::Mock, 0);
    let mut ctx = host()
        .with_client(&id, height(10))
        .with_connection(ConnectionId::new(0), connection(id, Some(ConnectionId::new(0))));
    ctx.ibc_store.client_ids_counter = u64::MAX;
    ctx.ibc_store.connection_ids_counter = u64::MAX;
    ctx.ibc_store.channel_ids_counter = u64::MAX;
    let header = MockHeader::new(height(3));
    assert_eq!(
        create_execute(
            &mut ctx,
            MsgCreateClient {
                client_state: AnyClientState::Mock(MockClientState::new(header)),
                consensus_state: AnyConsensusState::Mock(MockConsensusState::new(header)),
                signer: signer(),
            }
        ),
        Err(ContextError::Client(ClientError::CounterOverflow))
    );
    assert_eq!(
        conn_open_init_execute(
            &mut ctx,
            MsgConnectionOpenInit {
                client_id_on_a: id,
                counterparty: ConnectionCounterparty::new(id, None, CommitmentPrefix::default()),
                version: None,
                delay_period: Duration::zero(),
                signer: signer(),
            }
        ),
        Err(ContextError::Connection(ConnectionError::CounterOverflow))
    );
    assert_eq!(
        chan_open_init_validate_core(
            &ctx,
            &MsgChannelOpenInit {
                port_id_on_a: PortId::transfer(),
                connection_hops_on_a: vec![ConnectionId::new(0)],
                port_id_on_b: PortId::transfer(),
                ordering: Order::Unordered,
                version_proposal: Version::new("v".to_string()),
                signer: signer(),
            }
        ),
        Err(ContextError::Channel(ChannelError::CounterOverflow))
    );
    assert_eq!(ctx.client_counter(), u64::MAX);
    assert_eq!(ctx.connection_counter(), u64::MAX);
    assert_eq!(ctx.channel_counter(), u64::MAX);
}

#[test]
fn an_ordered_channel_needs_its_sequence_counters() {
    let (ctx, _) = ready(ClientType::Mock, Order::Ordered, true);
    assert_eq!(
        recv_packet::validate(&ctx, &recv(1)),
        Err(ContextError::Packet(PacketError::SequenceNotFound))
    );
    let mut ctx = ctx;
    assert_eq!(
        send_packet(&mut ctx, packet(1)),
        Err(ContextError::Packet(PacketError::SequenceNotFound))
    );
    let ctx = ctx.with_recv_sequence(
        PortId::transfer(),
        ChannelId::new(0),
        Sequence::from(u64::MAX),
    );
    assert_eq!(
        recv_packet::validate(&ctx, &recv(u64::MAX)),
        Err(ContextError::Packet(PacketError::SequenceOverflow))
    );
    let mut ctx = ctx.with_send_sequence(
        PortId::transfer(),
        ChannelId::new(0),
        Sequence::from(u64::MAX),
    );
    assert_eq!(
        send_packet(&mut ctx, packet(u64::MAX)),
        Err(ContextError::Packet(PacketError::SequenceOverflow))
    );
}

#[test]
fn an_acknowledgement_is_written_once() {
    let (mut ctx, _) = ready(ClientType::Mock, Order::Unordered, true);
    let key = PacketPath::new(&PortId::transfer(), &ChannelId::new(0), 1.into());
    assert_eq!(
        ctx.get_packet_acknowledgement(&key),
        Err(ContextError::Packet(PacketError::AcknowledgementNotFound))
    );
    ctx.store_packet_acknowledgement(key.clone(), AcknowledgementCommitment::new([1u8; 32]));
    assert_eq!(
        recv_packet::validate(&ctx, &recv(1)),
        Err(ContextError::Packet(PacketError::AcknowledgementExists))
    );
    ctx.delete_packet_acknowledgement(&key);
    assert_eq!(recv_packet::validate(&ctx, &recv(1)), Ok(()));
}

#[test]
fn ordered_acknowledgements_come_in_sequence() {
    let (ctx, _) = ready(ClientType::Mock, Order::Ordered, true);
    let mut ctx = ctx
        .with_send_sequence(PortId::transfer(), ChannelId::new(0), 1.into())
        .with_ack_sequence(PortId::transfer(), ChannelId::new(0), 2.into());
    assert_eq!(send_packet(&mut ctx, packet(1)), Ok(()));
    let msg = MsgAcknowledgement {
        packet: packet(1),
        acknowledgement: ibc_mocks::channel::Acknowledgement::try_from_bytes(vec![1]).unwrap(),
        proof_acked_on_b: vec![1],
        proof_height_on_b: height(10),
        signer: signer(),
    };
    assert_eq!(
        acknowledgement::validate_core(&ctx, &msg),
        Err(ContextError::Packet(PacketError::SequenceMismatch))
    );
    let ctx = ctx.with_ack_sequence(PortId::transfer(), ChannelId::new(0), 1.into());
    assert_eq!(acknowledgement::validate_core(&ctx, &msg), Ok(()));
    // The proof is taken at height ten, past the timeout height of six.
    let msg = MsgTimeout {
        packet: packet(1),
        next_seq_recv_on_b: 2.into(),
        proof_unreceived_on_b: vec![1],
        proof_height_on_b: height(10),
        signer: signer(),
    };
    assert_eq!(timeout::validate_core(&ctx, &msg), Ok(()));
}
