use ibc_mocks::channel::{ChannelEnd, Counterparty, Order, State, Version};
use ibc_mocks::client::{AnyClientState, Status};
use ibc_mocks::commitment::{AcknowledgementCommitment, PacketCommitment, Receipt};
use ibc_mocks::context::ExecutionContext;
use ibc_mocks::error::{ChannelError, ContextError};
use ibc_mocks::height::Height;
use ibc_mocks::identifier::{
    ChannelId, ClientId, ClientType, ConnectionId, PortId, Sequence,
};
use ibc_mocks::mock::context::MockContext;
use ibc_mocks::path::{ChannelEndPath, ClientConsensusStatePath, PacketPath, Path};
use ibc_mocks::query::{ProvableContext, QueryContext};

fn channel(ordering: Order) -> ChannelEnd {
    ChannelEnd::new(
        State::Open,
        ordering,
        Counterparty::new(PortId::transfer(), Some(ChannelId::new(0))),
        vec![ConnectionId::new(0)],
        Version::new("ics20-1".to_string()),
    )
}

fn path(chan: u64) -> ChannelEndPath {
    ChannelEndPath::new(&PortId::transfer(), &ChannelId::new(chan))
}

fn packet(chan: u64, seq: u64) -> PacketPath {
    PacketPath::new(&PortId::transfer(), &ChannelId::new(chan), seq.into())
}

fn sequences(list: &[u64]) -> Vec<Sequence> {
    list.iter().map(|s| Sequence::from(*s)).collect()
}

fn context() -> MockContext {
    let mut ctx = MockContext::default()
        .with_client(&ClientId::new(ClientType::Mock, 0), Height::new(0, 3).unwrap())
        .with_client(&ClientId::new(ClientType::Mock, 1), Height::new(0, 4).unwrap())
        .with_channel(PortId::transfer(), ChannelId::new(0), channel(Order::Unordered))
        .with_channel(PortId::transfer(), ChannelId::new(1), channel(Order::Ordered))
        .with_recv_sequence(PortId::transfer(), ChannelId::new(1), 3.into())
        .with_packet_commitment(
            PortId::transfer(),
            ChannelId::new(0),
            2.into(),
            PacketCommitment::new([1u8; 32]),
        )
        .with_packet_commitment(
            PortId::transfer(),
            ChannelId::new(1),
            5.into(),
            PacketCommitment::new([2u8; 32]),
        )
        .with_packet_commitment(
            PortId::transfer(),
            ChannelId::new(0),
            4.into(),
            PacketCommitment::new([3u8; 32]),
        );
    ctx.store_packet_receipt(packet(0, 1), Receipt::Received);
    ctx.store_packet_receipt(packet(0, 3), Receipt::Received);
    ctx.store_packet_acknowledgement(packet(0, 1), AcknowledgementCommitment::new([4u8; 32]));
    ctx.store_packet_acknowledgement(packet(0, 3), AcknowledgementCommitment::new([5u8; 32]));
    ctx.store_packet_acknowledgement(packet(1, 1), AcknowledgementCommitment::new([6u8; 32]));
    ctx
}

#[test]
fn clients_are_listed_with_their_states() {
    let ctx = context();
    let clients = ctx.client_states().unwrap();
    assert_eq!(clients.len(), 2);
    assert_eq!(clients[0].0, ClientId::new(ClientType::Mock, 0));
    assert_eq!(clients[1].0, ClientId::new(ClientType::Mock, 1));
    assert!(matches!(clients[1].1, AnyClientState::Mock(_)));
    assert_eq!(clients[1].1.latest_height(), Height::new(0, 4).unwrap());
    assert_eq!(
        ctx.allowed_clients(),
        vec![ClientType::Mock, ClientType::Tendermint]
    );
    assert_eq!(
        ctx.client_status(&ClientId::new(ClientType::Mock, 1)),
        Ok(Status::Active)
    );

    let states = ctx
        .consensus_states(&ClientId::new(ClientType::Mock, 1))
        .unwrap();
    assert_eq!(states.len(), 1);
    assert_eq!(states[0].0, Height::new(0, 4).unwrap());
    assert!(ctx
        .consensus_states(&ClientId::new(ClientType::Mock, 2))
        .unwrap()
        .is_empty());

    // A consensus state can be stored before the client state is.
    let mut ctx = ctx;
    let id = ClientId::new(ClientType::Mock, 2);
    ctx.store_consensus_state(
        ClientConsensusStatePath::new(&id, &Height::new(0, 8).unwrap()),
        states[0].1,
    );
    assert_eq!(ctx.client_states().unwrap().len(), 2);
    assert_eq!(
        ctx.consensus_state_heights(&id).unwrap(),
        vec![Height::new(0, 8).unwrap()]
    );
}

#[test]
fn channels_are_listed_with_their_places() {
    let ctx = context();
    let ends = ctx.channel_ends().unwrap();
    assert_eq!(ends.len(), 2);
    assert_eq!(ends[0].port_id, PortId::transfer());
    assert_eq!(ends[0].channel_id, ChannelId::new(0));
    assert_eq!(ends[0].channel_end, channel(Order::Unordered));
    assert_eq!(ends[1].channel_end.ordering, Order::Ordered);
}

#[test]
fn packet_commitments_are_listed_by_channel() {
    let ctx = context();
    assert_eq!(
        ctx.packet_commitments(&path(0)).unwrap(),
        vec![packet(0, 2), packet(0, 4)]
    );
    assert_eq!(ctx.packet_commitments(&path(1)).unwrap(), vec![packet(1, 5)]);
    assert_eq!(ctx.packet_commitments(&path(2)).unwrap(), Vec::new());
}

#[test]
fn acknowledgements_are_listed_by_channel_and_sequence() {
    let ctx = context();
    assert_eq!(
        ctx.packet_acknowledgements(&path(0), &Vec::new()).unwrap(),
        vec![packet(0, 1), packet(0, 3)]
    );
    assert_eq!(
        ctx.packet_acknowledgements(&path(0), &sequences(&[3, 2, 1, 3]))
            .unwrap(),
        vec![packet(0, 3), packet(0, 1), packet(0, 3)]
    );
    assert_eq!(
        ctx.packet_acknowledgements(&path(1), &sequences(&[2]))
            .unwrap(),
        Vec::new()
    );
}

#[test]
fn unreceived_packets_are_those_without_a_receipt_or_not_yet_due() {
    let ctx = context();
    // Unordered: receipts are stored for one and three.
    assert_eq!(
        ctx.unreceived_packets(&path(0), &sequences(&[1, 2, 3, 4]))
            .unwrap(),
        sequences(&[2, 4])
    );
    // Ordered: the next packet to be received is number three.
    assert_eq!(
        ctx.unreceived_packets(&path(1), &sequences(&[5, 1, 2, 3, 4]))
            .unwrap(),
        sequences(&[5, 3, 4])
    );
    assert_eq!(
        ctx.unreceived_packets(&path(0), &Vec::new()).unwrap(),
        Vec::new()
    );
    assert_eq!(
        ctx.unreceived_packets(&path(2), &sequences(&[1])),
        Err(ContextError::Channel(ChannelError::ChannelNotFound))
    );
}

#[test]
fn unreceived_acks_are_the_commitments_that_are_left() {
    let ctx = context();
    assert_eq!(
        ctx.unreceived_acks(&path(0), &sequences(&[1, 2, 3, 4, 5]))
            .unwrap(),
        sequences(&[2, 4])
    );
    assert_eq!(
        ctx.unreceived_acks(&path(0), &Vec::new()).unwrap(),
        sequences(&[2, 4])
    );
    assert_eq!(
        ctx.unreceived_acks(&path(1), &Vec::new()).unwrap(),
        sequences(&[5])
    );
    assert_eq!(
        ctx.unreceived_acks(&path(1), &sequences(&[4])).unwrap(),
        Vec::new()
    );
}

#[test]
fn proofs_are_shown_for_blocks_that_are_kept() {
    let ctx = context();
    let path = Path::Connection(ConnectionId::new(0));
    assert_eq!(
        ctx.get_proof(Height::new(0, 5).unwrap(), &path),
        Some(Vec::new())
    );
    assert_eq!(
        ctx.get_proof(Height::new(0, 1).unwrap(), &path),
        Some(Vec::new())
    );
    assert_eq!(ctx.get_proof(Height::new(0, 6).unwrap(), &path), None);
    let ctx = ctx.with_height(Height::new(0, 6).unwrap());
    assert_eq!(ctx.get_proof(Height::new(0, 1).unwrap(), &path), None);
    assert_eq!(
        ctx.get_proof(Height::new(0, 6).unwrap(), &path),
        Some(Vec::new())
    );
}
