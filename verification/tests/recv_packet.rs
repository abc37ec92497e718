use ibc_mocks::channel::{
    Acknowledgement, ChannelEnd, Counterparty, Order, Packet, State, Version,
};
use ibc_mocks::commitment::{compute_packet_commitment, TimeoutHeight};
use ibc_mocks::connection::{
    get_compatible_versions, ConnectionEnd, Counterparty as ConnectionCounterparty,
    State as ConnectionState,
};
use ibc_mocks::context::{ExecutionContext, ValidationContext};
use ibc_mocks::error::{ChannelError, ClientError, ContextError, PacketError, RouterError};
use ibc_mocks::events::{IbcEvent, MessageEvent};
use ibc_mocks::handler::dispatch::{dispatch, execute, validate};
use ibc_mocks::handler::send_packet::send_packet;
use ibc_mocks::height::Height;
use ibc_mocks::identifier::{
    ChannelId, ClientId, ConnectionId, ModuleId, PortId, Sequence, Signer,
};
use ibc_mocks::mock::context::MockContext;
use ibc_mocks::msgs::{
    MsgAcknowledgement, MsgEnvelope, MsgRecvPacket, MsgTimeout, PacketMsg,
};
use ibc_mocks::path::{ClientConsensusStatePath, PacketPath};
use ibc_mocks::router::{MockRouter, Module, ModuleExtras};
use ibc_mocks::timestamp::{Duration, Timestamp};

/// A module that takes everything and answers each packet with one byte.
#[derive(Debug, Default)]
struct DummyTransferModule {
    received: usize,
    acknowledged: usize,
    timed_out: usize,
    refuse: bool,
}

impl Module for DummyTransferModule {
    fn on_chan_open_init_validate(
        &self,
        _order: Order,
        _connection_hops: &Vec<ConnectionId>,
        _port_id: &PortId,
        _channel_id: &ChannelId,
        _counterparty: &Counterparty,
        version: &Version,
    ) -> Result<Version, ChannelError> {
        Ok(version.clone())
    }

    fn on_chan_open_init_execute(
        &mut self,
        _order: Order,
        _connection_hops: &Vec<ConnectionId>,
        _port_id: &PortId,
        _channel_id: &ChannelId,
        _counterparty: &Counterparty,
        version: &Version,
    ) -> Result<(ModuleExtras, Version), ChannelError> {
        Ok((ModuleExtras::empty(), version.clone()))
    }

    fn on_chan_open_try_validate(
        &self,
        _order: Order,
        _connection_hops: &Vec<ConnectionId>,
        _port_id: &PortId,
        _channel_id: &ChannelId,
        _counterparty: &Counterparty,
        counterparty_version: &Version,
    ) -> Result<Version, ChannelError> {
        Ok(counterparty_version.clone())
    }

    fn on_chan_open_try_execute(
        &mut self,
        _order: Order,
        _connection_hops: &Vec<ConnectionId>,
        _port_id: &PortId,
        _channel_id: &ChannelId,
        _counterparty: &Counterparty,
        counterparty_version: &Version,
    ) -> Result<(ModuleExtras, Version), ChannelError> {
        Ok((ModuleExtras::empty(), counterparty_version.clone()))
    }

    fn on_chan_open_ack_validate(
        &self,
        _port_id: &PortId,
        _channel_id: &ChannelId,
        _counterparty_version: &Version,
    ) -> Result<(), ChannelError> {
        Ok(())
    }

    fn on_chan_open_ack_execute(
        &mut self,
        _port_id: &PortId,
        _channel_id: &ChannelId,
        _counterparty_version: &Version,
    ) -> Result<ModuleExtras, ChannelError> {
        Ok(ModuleExtras::empty())
    }

    fn on_chan_open_confirm_validate(
        &self,
        _port_id: &PortId,
        _channel_id: &ChannelId,
    ) -> Result<(), ChannelError> {
        Ok(())
    }

    fn on_chan_open_confirm_execute(
        &mut self,
        _port_id: &PortId,
        _channel_id: &ChannelId,
    ) -> Result<ModuleExtras, ChannelError> {
        Ok(ModuleExtras::empty())
    }

    fn on_chan_close_init_validate(
        &self,
        _port_id: &PortId,
        _channel_id: &ChannelId,
    ) -> Result<(), ChannelError> {
        Ok(())
    }

    fn on_chan_close_init_execute(
        &mut self,
        _port_id: &PortId,
        _channel_id: &ChannelId,
    ) -> Result<ModuleExtras, ChannelError> {
        Ok(ModuleExtras::empty())
    }

    fn on_chan_close_confirm_validate(
        &self,
        _port_id: &PortId,
        _channel_id: &ChannelId,
    ) -> Result<(), ChannelError> {
        Ok(())
    }

    fn on_chan_close_confirm_execute(
        &mut self,
        _port_id: &PortId,
        _channel_id: &ChannelId,
    ) -> Result<ModuleExtras, ChannelError> {
        Ok(ModuleExtras::empty())
    }

    fn on_recv_packet_execute(
        &mut self,
        _packet: &Packet,
        _relayer: &Signer,
    ) -> (ModuleExtras, Acknowledgement) {
        self.received += 1;
        (
            ModuleExtras::empty(),
            Acknowledgement::try_from_bytes(vec![1u8]).expect("Never fails"),
        )
    }

    fn on_acknowledgement_packet_validate(
        &self,
        _packet: &Packet,
        _acknowledgement: &Acknowledgement,
        _relayer: &Signer,
    ) -> Result<(), PacketError> {
        if self.refuse {
            Err(PacketError::ModuleRejected)
        } else {
            Ok(())
        }
    }

    fn on_acknowledgement_packet_execute(
        &mut self,
        _packet: &Packet,
        _acknowledgement: &Acknowledgement,
        _relayer: &Signer,
    ) -> (ModuleExtras, Result<(), PacketError>) {
        if self.refuse {
            return (ModuleExtras::empty(), Err(PacketError::ModuleRejected));
        }
        self.acknowledged += 1;
        (ModuleExtras::empty(), Ok(()))
    }

    fn on_timeout_packet_validate(
        &self,
        _packet: &Packet,
        _relayer: &Signer,
    ) -> Result<(), PacketError> {
        Ok(())
    }

    fn on_timeout_packet_execute(
        &mut self,
        _packet: &Packet,
        _relayer: &Signer,
    ) -> (ModuleExtras, Result<(), PacketError>) {
        self.timed_out += 1;
        (ModuleExtras::empty(), Ok(()))
    }
}

fn router_with_transfer() -> MockRouter<DummyTransferModule> {
    let mut router = MockRouter::new();
    let id = ModuleId::new("transfer".to_string());
    router
        .add_route(id.clone(), DummyTransferModule::default())
        .unwrap();
    router.bind_port(PortId::transfer(), id);
    router
}

fn dummy_account_id() -> Signer {
    Signer {
        account: "0CDA3F47EF3C4906693B170EF650EB968C5F4B2C".to_string(),
    }
}

/// A message for receiving packet number one on the transfer port, with a
/// timeout at `height` and a proof taken at `height`.
fn dummy_msg_recv_packet(height: u64) -> MsgRecvPacket {
    let at = Height::new(0, height).unwrap();
    MsgRecvPacket::new(
        Packet {
            seq_on_a: Sequence::from(1),
            port_id_on_a: PortId::transfer(),
            chan_id_on_a: ChannelId::default(),
            port_id_on_b: PortId::transfer(),
            chan_id_on_b: ChannelId::default(),
            data: vec![0],
            timeout_height_on_b: TimeoutHeight::from(at),
            timeout_timestamp_on_b: Timestamp::none(),
        },
        vec![1, 2, 3],
        at,
        dummy_account_id(),
    )
}

struct Fixture {
    context: MockContext,
    router: MockRouter<DummyTransferModule>,
    client_height: Height,
    host_height: Height,
    msg: MsgRecvPacket,
    conn_end_on_b: ConnectionEnd,
    chan_end_on_b: ChannelEnd,
}

fn channel_end(ordering: Order, packet: &Packet) -> ChannelEnd {
    ChannelEnd::new(
        State::Open,
        ordering,
        Counterparty::new(packet.port_id_on_a.clone(), Some(packet.chan_id_on_a)),
        vec![ConnectionId::default()],
        Version::new("ics20-1".to_string()),
    )
}

/// The client of the fixture: the first stand-in client.
fn client_id() -> ClientId {
    ClientId::default()
}

fn fixture() -> Fixture {
    let context = MockContext::default();

    let router = router_with_transfer();

    let host_height = context.host_height().increment();

    let client_height = host_height.increment();

    let msg = dummy_msg_recv_packet(client_height.revision_height());

    let chan_end_on_b = channel_end(Order::default(), &msg.packet);

    let conn_end_on_b = ConnectionEnd::new(
        ConnectionState::Open,
        client_id(),
        ConnectionCounterparty::new(client_id(), Some(ConnectionId::default()), Default::default()),
        get_compatible_versions(),
        Duration::zero(),
    );

    Fixture {
        context,
        router,
        client_height,
        host_height,
        msg,
        conn_end_on_b,
        chan_end_on_b,
    }
}

fn envelope(msg: MsgRecvPacket) -> MsgEnvelope {
    MsgEnvelope::Packet(PacketMsg::Recv(msg))
}

/// The context in which the fixture's packet can be received.
fn ready_context(f: Fixture, ordering: Order) -> (MockContext, MockRouter<DummyTransferModule>, MsgRecvPacket) {
    let Fixture {
        context,
        router,
        msg,
        conn_end_on_b,
        client_height,
        host_height,
        ..
    } = f;
    let packet = msg.packet.clone();
    let mut context = context
        .with_client(&client_id(), client_height)
        .with_connection(ConnectionId::default(), conn_end_on_b)
        .with_channel(
            packet.port_id_on_b.clone(),
            packet.chan_id_on_b,
            channel_end(ordering, &packet),
        )
        .with_send_sequence(packet.port_id_on_b.clone(), packet.chan_id_on_b, 1.into())
        .with_height(host_height)
        // This `with_recv_sequence` is required for ordered channels
        .with_recv_sequence(
            packet.port_id_on_b.clone(),
            packet.chan_id_on_b,
            packet.seq_on_a,
        );

    context.store_update_time(
        ClientConsensusStatePath::new(&client_id(), &client_height),
        Timestamp::from_nanoseconds(1000),
    );
    context.store_update_height(
        ClientConsensusStatePath::new(&client_id(), &client_height),
        Height::new(0, 5).unwrap(),
    );
    (context, router, msg)
}

#[test]
fn recv_packet_fail_no_channel() {
    let Fixture {
        context,
        router,
        msg,
        ..
    } = fixture();

    let msg_envelope = envelope(msg);

    let res = validate(&context, &router, &msg_envelope);

    assert!(
        res.is_err(),
        "Validation fails because no channel exists in the context"
    );
    assert_eq!(
        res,
        Err(RouterError::Context(ContextError::Channel(
            ChannelError::ChannelNotFound
        )))
    );
}

#[test]
fn recv_packet_validate_happy_path() {
    let (context, router, msg) = ready_context(fixture(), Order::default());

    let msg_envelope = envelope(msg);

    let res = validate(&context, &router, &msg_envelope);

    assert!(
        res.is_ok(),
        "Happy path: validation should succeed. err: {res:?}"
    )
}

#[test]
fn recv_packet_timeout_expired() {
    let Fixture {
        context,
        router,
        msg,
        conn_end_on_b,
        chan_end_on_b,
        client_height,
        host_height,
        ..
    } = fixture();

    let packet_old = Packet {
        seq_on_a: 1.into(),
        port_id_on_a: PortId::transfer(),
        chan_id_on_a: ChannelId::default(),
        port_id_on_b: PortId::transfer(),
        chan_id_on_b: ChannelId::default(),
        data: Vec::new(),
        timeout_height_on_b: client_height.into(),
        timeout_timestamp_on_b: Timestamp::from_nanoseconds(1),
    };

    let msg_packet_old = MsgRecvPacket::new(
        packet_old,
        msg.proof_commitment_on_a.clone(),
        msg.proof_height_on_a,
        dummy_account_id(),
    );

    let msg_envelope = envelope(msg_packet_old);

    let context = context
        .with_client(&client_id(), client_height)
        .with_connection(ConnectionId::default(), conn_end_on_b)
        .with_channel(PortId::transfer(), ChannelId::default(), chan_end_on_b)
        .with_send_sequence(PortId::transfer(), ChannelId::default(), 1.into())
        .with_height(host_height);

    let res = validate(&context, &router, &msg_envelope);

    assert!(
        res.is_err(),
        "recv_packet validation should fail when the packet has timed out"
    );
    assert_eq!(
        res,
        Err(RouterError::Context(ContextError::Packet(
            PacketError::TimeoutElapsed
        )))
    );
}

#[test]
fn recv_packet_timeout_height_expired() {
    let (context, router, msg) = ready_context(fixture(), Order::default());
    // The packet can be received up to and including its timeout height, and
    // no longer one block later.
    let at_limit = context.with_height(Height::new(0, 7).unwrap());
    assert!(validate(&at_limit, &router, &envelope(dummy_msg_recv_packet(7))).is_ok());
    let past_limit = at_limit.with_height(Height::new(0, 8).unwrap());
    assert_eq!(
        validate(&past_limit, &router, &envelope(msg)),
        Err(RouterError::Context(ContextError::Packet(
            PacketError::TimeoutElapsed
        )))
    );
}

#[test]
fn recv_packet_execute_happy_path() {
    let Fixture {
        context,
        mut router,
        msg,
        conn_end_on_b,
        chan_end_on_b,
        client_height,
        ..
    } = fixture();
    let mut ctx = context
        .with_client(&client_id(), client_height)
        .with_connection(ConnectionId::default(), conn_end_on_b)
        .with_channel(PortId::transfer(), ChannelId::default(), chan_end_on_b);

    let msg_env = envelope(msg);

    let res = execute(&mut ctx, &mut router, msg_env);

    assert!(res.is_ok());

    assert_eq!(ctx.events.len(), 4);
    assert!(matches!(
        &ctx.events[0],
        &IbcEvent::Message(MessageEvent::Channel)
    ));
    assert!(matches!(&ctx.events[1], &IbcEvent::ReceivePacket(_)));
    assert!(matches!(
        &ctx.events[2],
        &IbcEvent::Message(MessageEvent::Channel)
    ));
    assert!(matches!(&ctx.events[3], &IbcEvent::WriteAcknowledgement(_)));
}

#[test]
fn recv_packet_stores_receipt_and_acknowledgement() {
    let (mut ctx, mut router, msg) = ready_context(fixture(), Order::Unordered);
    let key = PacketPath::new(&PortId::transfer(), &ChannelId::default(), 1.into());
    assert_eq!(
        ctx.get_packet_receipt(&key),
        Err(ContextError::Packet(PacketError::ReceiptNotFound))
    );
    assert!(ctx.get_packet_acknowledgement(&key).is_err());

    assert_eq!(dispatch(&mut ctx, &mut router, envelope(msg)), Ok(()));

    assert_eq!(
        ctx.get_packet_receipt(&key),
        Ok(ibc_mocks::commitment::Receipt::Received)
    );
    // The acknowledgement of the module is the one byte 1.
    let stored = ctx.get_packet_acknowledgement(&key).unwrap();
    assert_eq!(
        stored.digest,
        ibc_mocks::commitment::compute_ack_commitment(&vec![1u8]).digest
    );
    assert_eq!(
        ctx.logs,
        vec![
            "success: packet receive".to_string(),
            "success: packet write acknowledgement".to_string()
        ]
    );
    match &ctx.events[3] {
        IbcEvent::WriteAcknowledgement(data) => {
            assert_eq!(data.acknowledgement.bytes, vec![1u8]);
            assert_eq!(data.packet.seq_on_a, Sequence::from(1));
            assert_eq!(data.connection_id, ConnectionId::default());
        }
        other => panic!("unexpected event {other:?}"),
    }
    let module = router.routes.first().map(|r| &r.1).unwrap();
    assert_eq!(module.received, 1);
}

#[test]
fn unordered_channel_takes_a_packet_once() {
    let (mut ctx, mut router, msg) = ready_context(fixture(), Order::Unordered);
    let again = dummy_msg_recv_packet(7);

    assert_eq!(dispatch(&mut ctx, &mut router, envelope(msg)), Ok(()));
    let events = ctx.events.len();

    assert_eq!(
        validate(&ctx, &router, &envelope(again.clone_for_test())),
        Err(RouterError::Context(ContextError::Packet(
            PacketError::ReceiptExists
        )))
    );
    assert_eq!(
        execute(&mut ctx, &mut router, envelope(again)),
        Err(RouterError::Context(ContextError::Packet(
            PacketError::ReceiptExists
        )))
    );
    // The second attempt changed nothing.
    assert_eq!(ctx.events.len(), events);
    assert_eq!(router.routes[0].1.received, 1);
}

trait CloneForTest {
    fn clone_for_test(&self) -> Self;
}

impl CloneForTest for MsgRecvPacket {
    fn clone_for_test(&self) -> Self {
        MsgRecvPacket::new(
            self.packet.clone(),
            self.proof_commitment_on_a.clone(),
            self.proof_height_on_a,
            self.signer.clone(),
        )
    }
}

#[test]
fn ordered_channel_takes_packets_in_sequence() {
    let (mut ctx, mut router, msg) = ready_context(fixture(), Order::Ordered);

    // Packet two before packet one: turned down.
    let mut second = dummy_msg_recv_packet(7);
    second.packet.seq_on_a = 2.into();
    assert_eq!(
        validate(&ctx, &router, &envelope(second.clone_for_test())),
        Err(RouterError::Context(ContextError::Packet(
            PacketError::SequenceMismatch
        )))
    );

    // Packet one is due.
    assert_eq!(dispatch(&mut ctx, &mut router, envelope(msg)), Ok(()));
    assert_eq!(
        ctx.get_next_sequence_recv(&ibc_mocks::path::ChannelEndPath::new(
            &PortId::transfer(),
            &ChannelId::default()
        )),
        Ok(Sequence::from(2))
    );
    // No receipt is written on an ordered channel.
    assert!(ctx
        .get_packet_receipt(&PacketPath::new(
            &PortId::transfer(),
            &ChannelId::default(),
            1.into()
        ))
        .is_err());

    // Packet one again: no longer due.
    assert_eq!(
        validate(&ctx, &router, &envelope(dummy_msg_recv_packet(7))),
        Err(RouterError::Context(ContextError::Packet(
            PacketError::SequenceMismatch
        )))
    );
    // Now packet two is due.
    assert_eq!(dispatch(&mut ctx, &mut router, envelope(second)), Ok(()));
    assert_eq!(ctx.events.len(), 8);
}

#[test]
fn recv_packet_needs_an_open_channel_and_the_right_counterparty() {
    let (ctx, router, msg) = ready_context(fixture(), Order::Unordered);
    let closed = ChannelEnd::new(
        State::Closed,
        Order::Unordered,
        Counterparty::new(PortId::transfer(), Some(ChannelId::default())),
        vec![ConnectionId::default()],
        Version::new("ics20-1".to_string()),
    );
    let ctx = ctx.with_channel(PortId::transfer(), ChannelId::default(), closed);
    assert_eq!(
        validate(&ctx, &router, &envelope(msg.clone_for_test())),
        Err(RouterError::Context(ContextError::Channel(
            ChannelError::StateMismatch
        )))
    );
    let elsewhere = ChannelEnd::new(
        State::Open,
        Order::Unordered,
        Counterparty::new(PortId::transfer(), Some(ChannelId::new(9))),
        vec![ConnectionId::default()],
        Version::new("ics20-1".to_string()),
    );
    let ctx = ctx.with_channel(PortId::transfer(), ChannelId::default(), elsewhere);
    assert_eq!(
        validate(&ctx, &router, &envelope(msg)),
        Err(RouterError::Context(ContextError::Packet(
            PacketError::CounterpartyMismatch
        )))
    );
}

#[test]
fn recv_packet_needs_a_module_for_the_port() {
    let (mut ctx, _, msg) = ready_context(fixture(), Order::Unordered);
    let mut empty: MockRouter<DummyTransferModule> = MockRouter::new();
    assert_eq!(
        validate(&ctx, &empty, &envelope(msg.clone_for_test())),
        Err(RouterError::UnknownPort)
    );
    empty.bind_port(PortId::transfer(), ModuleId::new("transfer".to_string()));
    assert_eq!(
        validate(&ctx, &empty, &envelope(msg.clone_for_test())),
        Err(RouterError::ModuleNotFound)
    );
    assert_eq!(
        dispatch(&mut ctx, &mut empty, envelope(msg)),
        Err(RouterError::ModuleNotFound)
    );
    assert!(ctx.events.is_empty());
}

#[test]
fn recv_packet_waits_for_the_delay_period() {
    let f = fixture();
    let delayed = ConnectionEnd::new(
        ConnectionState::Open,
        client_id(),
        ConnectionCounterparty::new(client_id(), Some(ConnectionId::default()), Default::default()),
        get_compatible_versions(),
        Duration::from_secs(6),
    );
    let (ctx, router, msg) = ready_context(f, Order::Unordered);
    let mut ctx = ctx.with_connection(ConnectionId::default(), delayed);
    // The consensus state was stored two blocks of three seconds ago: the
    // delay of six seconds stands for two blocks.
    let now = ctx.host_timestamp();
    let path = ClientConsensusStatePath::new(&client_id(), &Height::new(0, 7).unwrap());
    ctx.store_update_time(path, Timestamp::from_nanoseconds(now.nanoseconds() - 5_999_999_999));
    ctx.store_update_height(path, Height::new(0, 4).unwrap());
    assert_eq!(
        validate(&ctx, &router, &envelope(msg.clone_for_test())),
        Err(RouterError::Context(ContextError::Connection(
            ibc_mocks::error::ConnectionError::DelayNotPassed
        )))
    );
    ctx.store_update_time(path, Timestamp::from_nanoseconds(now.nanoseconds() - 6_000_000_000));
    assert_eq!(validate(&ctx, &router, &envelope(msg.clone_for_test())), Ok(()));
    ctx.store_update_height(path, Height::new(0, 5).unwrap());
    assert_eq!(
        validate(&ctx, &router, &envelope(msg)),
        Err(RouterError::Context(ContextError::Connection(
            ibc_mocks::error::ConnectionError::DelayNotPassed
        )))
    );
}

#[test]
fn recv_packet_needs_the_proof_height_of_a_known_consensus_state() {
    let (ctx, router, _) = ready_context(fixture(), Order::Unordered);
    // The client stands at height seven: a proof from height eight is beyond
    // it, and for height six it holds no consensus state.
    let mut beyond = dummy_msg_recv_packet(7);
    beyond.proof_height_on_a = Height::new(0, 8).unwrap();
    assert_eq!(
        validate(&ctx, &router, &envelope(beyond)),
        Err(RouterError::Context(ContextError::Client(
            ClientError::InvalidProofHeight
        )))
    );
    let mut unknown = dummy_msg_recv_packet(7);
    unknown.proof_height_on_a = Height::new(0, 6).unwrap();
    assert_eq!(
        validate(&ctx, &router, &envelope(unknown)),
        Err(RouterError::Context(ContextError::Client(
            ClientError::VerificationFailure
        )))
    );
}

fn sending_context() -> (MockContext, MockRouter<DummyTransferModule>, Packet) {
    let (ctx, router, msg) = ready_context(fixture(), Order::Unordered);
    let mut packet = msg.packet;
    packet.timeout_height_on_b = TimeoutHeight::from(Height::new(0, 20).unwrap());
    (ctx, router, packet)
}

fn ack_msg(packet: &Packet) -> MsgAcknowledgement {
    MsgAcknowledgement {
        packet: packet.clone(),
        acknowledgement: Acknowledgement::try_from_bytes(vec![1u8]).unwrap(),
        proof_acked_on_b: vec![1],
        proof_height_on_b: Height::new(0, 7).unwrap(),
        signer: dummy_account_id(),
    }
}

fn timeout_msg(packet: &Packet) -> MsgTimeout {
    MsgTimeout {
        packet: packet.clone(),
        next_seq_recv_on_b: 1.into(),
        proof_unreceived_on_b: vec![1],
        proof_height_on_b: Height::new(0, 7).unwrap(),
        signer: dummy_account_id(),
    }
}

#[test]
fn send_packet_stores_the_commitment_and_counts_on() {
    let (mut ctx, _, packet) = sending_context();
    let key = PacketPath::new(&PortId::transfer(), &ChannelId::default(), 1.into());
    assert!(ctx.get_packet_commitment(&key).is_err());

    assert_eq!(send_packet(&mut ctx, packet.clone()), Ok(()));

    let expected = compute_packet_commitment(
        &packet.data,
        &packet.timeout_height_on_b,
        &packet.timeout_timestamp_on_b,
    );
    assert_eq!(ctx.get_packet_commitment(&key).unwrap().digest, expected.digest);
    assert_eq!(
        ctx.get_next_sequence_send(&ibc_mocks::path::ChannelEndPath::new(
            &PortId::transfer(),
            &ChannelId::default()
        )),
        Ok(Sequence::from(2))
    );
    assert_eq!(ctx.events.len(), 2);
    assert!(matches!(&ctx.events[1], &IbcEvent::SendPacket(_)));

    // The same sequence number cannot be sent again.
    assert_eq!(
        send_packet(&mut ctx, packet),
        Err(ContextError::Packet(PacketError::SequenceMismatch))
    );
    assert_eq!(ctx.events.len(), 2);
}

#[test]
fn send_packet_refuses_a_timeout_in_the_past() {
    let (mut ctx, _, mut packet) = sending_context();
    packet.timeout_height_on_b = TimeoutHeight::from(Height::new(0, 5).unwrap());
    assert_eq!(
        send_packet(&mut ctx, packet.clone()),
        Err(ContextError::Packet(PacketError::TimeoutElapsed))
    );
    packet.timeout_height_on_b = TimeoutHeight::no_timeout();
    packet.timeout_timestamp_on_b = Timestamp::from_nanoseconds(1);
    assert_eq!(
        send_packet(&mut ctx, packet),
        Err(ContextError::Packet(PacketError::TimeoutElapsed))
    );
}

#[test]
fn acknowledgement_settles_a_packet_once() {
    let (mut ctx, mut router, packet) = sending_context();
    assert_eq!(send_packet(&mut ctx, packet.clone()), Ok(()));
    let key = PacketPath::new(&PortId::transfer(), &ChannelId::default(), 1.into());

    assert_eq!(
        dispatch(
            &mut ctx,
            &mut router,
            MsgEnvelope::Packet(PacketMsg::Ack(ack_msg(&packet)))
        ),
        Ok(())
    );
    assert!(ctx.get_packet_commitment(&key).is_err());
    assert_eq!(router.routes[0].1.acknowledged, 1);
    assert!(matches!(
        ctx.events.last().unwrap(),
        &IbcEvent::AcknowledgePacket(_)
    ));

    // Neither a second acknowledgement nor a timeout is taken any more.
    assert_eq!(
        dispatch(
            &mut ctx,
            &mut router,
            MsgEnvelope::Packet(PacketMsg::Ack(ack_msg(&packet)))
        ),
        Err(RouterError::Context(ContextError::Packet(
            PacketError::CommitmentNotFound
        )))
    );
    let mut late = packet.clone();
    late.timeout_height_on_b = TimeoutHeight::from(Height::new(0, 6).unwrap());
    assert_eq!(
        dispatch(
            &mut ctx,
            &mut router,
            MsgEnvelope::Packet(PacketMsg::Timeout(timeout_msg(&packet)))
        ),
        Err(RouterError::Context(ContextError::Packet(
            PacketError::CommitmentNotFound
        )))
    );
    assert_eq!(
        execute(
            &mut ctx,
            &mut router,
            MsgEnvelope::Packet(PacketMsg::Timeout(timeout_msg(&late)))
        ),
        Err(RouterError::Context(ContextError::Packet(
            PacketError::CommitmentNotFound
        )))
    );
    assert_eq!(router.routes[0].1.timed_out, 0);
}

#[test]
fn timeout_settles_a_packet_once() {
    let (mut ctx, mut router, mut packet) = sending_context();
    // The packet times out at height six on the receiving chain; the proof
    // is taken at height seven.
    packet.timeout_height_on_b = TimeoutHeight::from(Height::new(0, 6).unwrap());
    assert_eq!(send_packet(&mut ctx, packet.clone()), Ok(()));
    let key = PacketPath::new(&PortId::transfer(), &ChannelId::default(), 1.into());

    assert_eq!(
        dispatch(
            &mut ctx,
            &mut router,
            MsgEnvelope::Packet(PacketMsg::Timeout(timeout_msg(&packet)))
        ),
        Ok(())
    );
    assert!(ctx.get_packet_commitment(&key).is_err());
    assert_eq!(router.routes[0].1.timed_out, 1);
    assert!(matches!(
        ctx.events.last().unwrap(),
        &IbcEvent::TimeoutPacket(_)
    ));

    assert_eq!(
        dispatch(
            &mut ctx,
            &mut router,
            MsgEnvelope::Packet(PacketMsg::Ack(ack_msg(&packet)))
        ),
        Err(RouterError::Context(ContextError::Packet(
            PacketError::CommitmentNotFound
        )))
    );
    assert_eq!(
        dispatch(
            &mut ctx,
            &mut router,
            MsgEnvelope::Packet(PacketMsg::Timeout(timeout_msg(&packet)))
        ),
        Err(RouterError::Context(ContextError::Packet(
            PacketError::CommitmentNotFound
        )))
    );
    assert_eq!(router.routes[0].1.acknowledged, 0);
}

#[test]
fn timeout_needs_the_timeout_to_have_passed() {
    let (mut ctx, router, packet) = sending_context();
    // The timeout height is twenty, the proof is taken at height seven.
    assert_eq!(send_packet(&mut ctx, packet.clone()), Ok(()));
    assert_eq!(
        validate(
            &ctx,
            &router,
            &MsgEnvelope::Packet(PacketMsg::Timeout(timeout_msg(&packet)))
        ),
        Err(RouterError::Context(ContextError::Packet(
            PacketError::TimeoutNotReached
        )))
    );
}

#[test]
fn timeout_closes_an_ordered_channel() {
    let (ctx, mut router, msg) = ready_context(fixture(), Order::Ordered);
    let mut packet = msg.packet;
    packet.timeout_height_on_b = TimeoutHeight::from(Height::new(0, 6).unwrap());
    let mut ctx = ctx;
    assert_eq!(send_packet(&mut ctx, packet.clone()), Ok(()));

    let mut msg = timeout_msg(&packet);
    // The receiving chain must be shown to wait for a later packet.
    assert_eq!(
        validate(
            &ctx,
            &router,
            &MsgEnvelope::Packet(PacketMsg::Timeout(timeout_msg(&packet)))
        ),
        Err(RouterError::Context(ContextError::Packet(
            PacketError::SequenceMismatch
        )))
    );
    msg.next_seq_recv_on_b = 2.into();
    assert_eq!(
        dispatch(
            &mut ctx,
            &mut router,
            MsgEnvelope::Packet(PacketMsg::Timeout(msg))
        ),
        Ok(())
    );
    let end = ctx
        .channel_end(&ibc_mocks::path::ChannelEndPath::new(
            &PortId::transfer(),
            &ChannelId::default(),
        ))
        .unwrap();
    assert_eq!(end.state, State::Closed);
    assert_eq!(end.ordering, Order::Ordered);
    assert!(matches!(
        ctx.events.last().unwrap(),
        &IbcEvent::ChannelClosed(_)
    ));
    // Nothing is sent on the closed channel.
    assert_eq!(
        send_packet(&mut ctx, packet.clone()),
        Err(ContextError::Channel(ChannelError::StateMismatch))
    );
    // The packet is settled: its acknowledgement finds no commitment.
    assert_eq!(
        dispatch(
            &mut ctx,
            &mut router,
            MsgEnvelope::Packet(PacketMsg::Ack(ack_msg(&packet)))
        ),
        Err(RouterError::Context(ContextError::Packet(
            PacketError::CommitmentNotFound
        )))
    );
}

#[test]
fn a_module_can_turn_an_acknowledgement_down() {
    let (mut ctx, mut router, packet) = sending_context();
    assert_eq!(send_packet(&mut ctx, packet.clone()), Ok(()));
    router.routes[0].1.refuse = true;
    let events = ctx.events.len();
    assert_eq!(
        dispatch(
            &mut ctx,
            &mut router,
            MsgEnvelope::Packet(PacketMsg::Ack(ack_msg(&packet)))
        ),
        Err(RouterError::Context(ContextError::Packet(
            PacketError::ModuleRejected
        )))
    );
    assert_eq!(
        execute(
            &mut ctx,
            &mut router,
            MsgEnvelope::Packet(PacketMsg::Ack(ack_msg(&packet)))
        ),
        Err(RouterError::Context(ContextError::Packet(
            PacketError::ModuleRejected
        )))
    );
    // The commitment is still there.
    assert_eq!(ctx.events.len(), events);
    assert!(ctx
        .get_packet_commitment(&PacketPath::new(
            &PortId::transfer(),
            &ChannelId::default(),
            1.into()
        ))
        .is_ok());
}

#[test]
fn acknowledgement_needs_the_commitment_of_this_packet() {
    let (mut ctx, router, packet) = sending_context();
    assert_eq!(send_packet(&mut ctx, packet.clone()), Ok(()));
    let mut other = packet.clone();
    other.data = vec![7, 7];
    assert_eq!(
        validate(
            &ctx,
            &router,
            &MsgEnvelope::Packet(PacketMsg::Ack(ack_msg(&other)))
        ),
        Err(RouterError::Context(ContextError::Packet(
            PacketError::CommitmentMismatch
        )))
    );
}

fn history_of(ctx: &MockContext) -> Vec<(Height, u64)> {
    ctx.history
        .iter()
        .map(|b| (b.height(), b.timestamp().nanoseconds()))
        .collect()
}

#[test]
fn delivery_settles_a_packet_once() {
    let (mut ctx, mut router, packet) = sending_context();
    assert_eq!(send_packet(&mut ctx, packet.clone()), Ok(()));
    assert!(ctx.check_well_formed() && ctx.check_can_advance());
    let start = ctx.latest_height();

    assert_eq!(
        ctx.deliver(
            &mut router,
            MsgEnvelope::Packet(PacketMsg::Ack(ack_msg(&packet)))
        ),
        Ok(())
    );
    assert_eq!(ctx.latest_height(), start.increment());
    assert_eq!(router.routes[0].1.acknowledged, 1);

    // The packet is settled: a timeout of it finds no commitment, the chain
    // stays where it is and the module is not told.
    let history = history_of(&ctx);
    let events = ctx.events.len();
    assert_eq!(
        ctx.deliver(
            &mut router,
            MsgEnvelope::Packet(PacketMsg::Timeout(timeout_msg(&packet)))
        ),
        Err(ibc_mocks::error::RelayerError::TransactionFailed(
            RouterError::Context(ContextError::Packet(PacketError::CommitmentNotFound))
        ))
    );
    assert_eq!(history_of(&ctx), history);
    assert_eq!(ctx.events.len(), events);
    assert_eq!(router.routes[0].1.timed_out, 0);
    assert_eq!(router.routes[0].1.acknowledged, 1);
}

#[test]
fn delivery_of_a_packet_without_a_channel_changes_nothing() {
    let f = fixture();
    let mut ctx = f.context;
    let mut router = f.router;
    assert!(ctx.check_well_formed() && ctx.check_can_advance());
    let history = history_of(&ctx);
    let chain = ctx.host_chain_id.clone();
    assert_eq!(
        ctx.deliver(&mut router, envelope(f.msg)),
        Err(ibc_mocks::error::RelayerError::TransactionFailed(
            RouterError::Context(ContextError::Channel(ChannelError::ChannelNotFound))
        ))
    );
    assert_eq!(history_of(&ctx), history);
    assert_eq!(ctx.host_chain_id, chain);
    assert_eq!(ctx.max_history_size, 5);
    assert!(ctx.events.is_empty());
    assert!(ctx.logs.is_empty());
    assert_eq!(router.routes[0].1.received, 0);
}

#[test]
fn delivery_of_a_valid_packet_moves_the_chain_on() {
    let (mut ctx, mut router, msg) = ready_context(fixture(), Order::Unordered);
    assert!(ctx.check_well_formed() && ctx.check_can_advance());
    let start = ctx.latest_height();
    let time = ctx.latest_timestamp().nanoseconds();
    let key = PacketPath::new(
        &msg.packet.port_id_on_b,
        &msg.packet.chan_id_on_b,
        msg.packet.seq_on_a,
    );
    assert_eq!(ctx.deliver(&mut router, envelope(msg.clone_for_test())), Ok(()));
    assert_eq!(ctx.latest_height(), start.increment());
    assert_eq!(
        ctx.latest_timestamp().nanoseconds(),
        time + ctx.block_time.as_nanos()
    );
    assert_eq!(ctx.events.len(), 4);
    assert!(matches!(
        &ctx.events[0],
        &IbcEvent::Message(MessageEvent::Channel)
    ));
    assert!(matches!(&ctx.events[1], &IbcEvent::ReceivePacket(_)));
    assert!(matches!(
        &ctx.events[2],
        &IbcEvent::Message(MessageEvent::Channel)
    ));
    assert!(matches!(&ctx.events[3], &IbcEvent::WriteAcknowledgement(_)));
    assert!(ctx.get_packet_acknowledgement(&key).is_ok());
    assert_eq!(router.routes[0].1.received, 1);

    // The packet is received once.
    let history = history_of(&ctx);
    assert!(ctx.deliver(&mut router, envelope(msg)).is_err());
    assert_eq!(history_of(&ctx), history);
    assert_eq!(ctx.events.len(), 4);
    assert_eq!(router.routes[0].1.received, 1);
}

/// The context in which the fixture's packet can be received, with the
/// library's router for the stand-in transfer application.
fn ready_for_transfer(
    ordering: Order,
) -> (
    MockContext,
    MockRouter<ibc_mocks::router::DummyTransferModule>,
    MsgRecvPacket,
) {
    let (ctx, _, msg) = ready_context(fixture(), ordering);
    (ctx, MockRouter::new_with_transfer(), msg)
}

#[test]
fn the_transfer_application_receives_with_exactly_four_events() {
    let (mut ctx, mut router, msg) = ready_for_transfer(Order::Unordered);
    assert!(ctx.check_well_formed());
    let key = PacketPath::new(
        &msg.packet.port_id_on_b,
        &msg.packet.chan_id_on_b,
        msg.packet.seq_on_a,
    );
    assert_eq!(validate(&ctx, &router, &envelope(msg.clone_for_test())), Ok(()));
    assert_eq!(ctx.deliver(&mut router, envelope(msg)), Ok(()));
    assert_eq!(ctx.events.len(), 4);
    assert!(matches!(
        &ctx.events[0],
        &IbcEvent::Message(MessageEvent::Channel)
    ));
    assert!(matches!(&ctx.events[1], &IbcEvent::ReceivePacket(_)));
    assert!(matches!(
        &ctx.events[2],
        &IbcEvent::Message(MessageEvent::Channel)
    ));
    assert!(matches!(&ctx.events[3], &IbcEvent::WriteAcknowledgement(_)));
    assert_eq!(
        ctx.get_packet_acknowledgement(&key),
        Ok(ibc_mocks::commitment::compute_ack_commitment(&vec![1u8]))
    );
    assert_eq!(
        ctx.get_packet_receipt(&key),
        Ok(ibc_mocks::commitment::Receipt::Received)
    );
}

#[test]
fn delivery_on_an_ordered_channel_counts_the_number_due_on() {
    let (mut ctx, mut router, msg) = ready_for_transfer(Order::Ordered);
    let channel = ibc_mocks::path::ChannelEndPath::new(
        &msg.packet.port_id_on_b,
        &msg.packet.chan_id_on_b,
    );
    let key = PacketPath::new(
        &msg.packet.port_id_on_b,
        &msg.packet.chan_id_on_b,
        msg.packet.seq_on_a,
    );
    assert_eq!(ctx.get_next_sequence_recv(&channel), Ok(Sequence::from(1)));

    // The packet after the one that is due is turned down, and the number
    // due stays.
    let mut second = msg.clone_for_test();
    second.packet.seq_on_a = 2.into();
    let history = history_of(&ctx);
    assert_eq!(
        ctx.deliver(&mut router, envelope(second)),
        Err(ibc_mocks::error::RelayerError::TransactionFailed(
            RouterError::Context(ContextError::Packet(PacketError::SequenceMismatch))
        ))
    );
    assert_eq!(ctx.get_next_sequence_recv(&channel), Ok(Sequence::from(1)));
    assert_eq!(history_of(&ctx), history);
    assert!(ctx.events.is_empty());

    // The packet that is due is received.
    assert_eq!(ctx.deliver(&mut router, envelope(msg)), Ok(()));
    assert_eq!(ctx.get_next_sequence_recv(&channel), Ok(Sequence::from(2)));
    assert!(ctx.get_packet_receipt(&key).is_err());
    assert!(ctx.get_packet_acknowledgement(&key).is_ok());
    assert_eq!(ctx.events.len(), 4);
}

#[test]
fn a_message_that_is_turned_down_needs_no_room_for_a_block() {
    // A chain that stands at the last height there is.
    let mut ctx = MockContext::from(ibc_mocks::mock::context::MockContextConfig {
        host_type: ibc_mocks::host::HostType::Mock,
        host_id: ibc_mocks::identifier::ChainId::new("mockgaia-0").unwrap(),
        block_time: Duration::from_secs(3),
        max_history_size: 5,
        validator_set_history: None,
        latest_height: Height::new(0, u64::MAX).unwrap(),
        latest_timestamp: Timestamp::from_nanoseconds(100_000_000_000),
    });
    assert!(ctx.check_well_formed());
    assert!(!ctx.check_can_advance());
    let mut router = MockRouter::new_with_transfer();
    assert_eq!(
        ctx.deliver(&mut router, envelope(fixture().msg)),
        Err(ibc_mocks::error::RelayerError::TransactionFailed(
            RouterError::Context(ContextError::Channel(ChannelError::ChannelNotFound))
        ))
    );
    assert_eq!(ctx.latest_height(), Height::new(0, u64::MAX).unwrap());
    assert_eq!(ctx.history.len(), 5);
}
