use ibc_mocks::channel::{Acknowledgement, Counterparty, Order, Packet, Version};
use ibc_mocks::commitment::TimeoutHeight;
use ibc_mocks::error::{ChannelError, PacketError};
use ibc_mocks::identifier::{ChannelId, ConnectionId, ModuleId, PortId, Sequence, Signer};
use ibc_mocks::router::{MockRouter, Module, ModuleExtras, Router};
use ibc_mocks::timestamp::Timestamp;

#[derive(Debug, Default)]
struct FooModule {
    counter: usize,
}

#[derive(Debug, Default)]
struct BarModule;

#[derive(Debug)]
enum AnyModule {
    Foo(FooModule),
    Bar(BarModule),
}

impl AnyModule {
    fn received(&self) -> usize {
        match self {
            AnyModule::Foo(m) => m.counter,
            AnyModule::Bar(_) => 0,
        }
    }
}

impl Module for AnyModule {
    fn on_chan_open_init_validate(
        &self,
        _order: Order,
        _connection_hops: &Vec<ConnectionId>,
        _port_id: &PortId,
        _channel_id: &ChannelId,
        _counterparty: &Counterparty,
        version: &Version,
    ) -> Result<Version, ChannelError> {
        Ok(version.clone())
    }

    fn on_chan_open_init_execute(
        &mut self,
        _order: Order,
        _connection_hops: &Vec<ConnectionId>,
        _port_id: &PortId,
        _channel_id: &ChannelId,
        _counterparty: &Counterparty,
        version: &Version,
    ) -> Result<(ModuleExtras, Version), ChannelError> {
        Ok((ModuleExtras::empty(), version.clone()))
    }

    fn on_chan_open_try_validate(
        &self,
        _order: Order,
        _connection_hops: &Vec<ConnectionId>,
        _port_id: &PortId,
        _channel_id: &ChannelId,
        _counterparty: &Counterparty,
        counterparty_version: &Version,
    ) -> Result<Version, ChannelError> {
        Ok(counterparty_version.clone())
    }

    fn on_chan_open_try_execute(
        &mut self,
        _order: Order,
        _connection_hops: &Vec<ConnectionId>,
        _port_id: &PortId,
        _channel_id: &ChannelId,
        _counterparty: &Counterparty,
        counterparty_version: &Version,
    ) -> Result<(ModuleExtras, Version), ChannelError> {
        Ok((ModuleExtras::empty(), counterparty_version.clone()))
    }

    fn on_recv_packet_execute(
        &mut self,
        _packet: &Packet,
        _relayer: &Signer,
    ) -> (ModuleExtras, Acknowledgement) {
        if let AnyModule::Foo(m) = self {
            m.counter += 1;
        }

        (
            ModuleExtras::empty(),
            Acknowledgement::try_from_bytes(vec![1u8]).expect("Never fails"),
        )
    }

    fn on_acknowledgement_packet_validate(
        &self,
        _packet: &Packet,
        _acknowledgement: &Acknowledgement,
        _relayer: &Signer,
    ) -> Result<(), PacketError> {
        Ok(())
    }

    fn on_acknowledgement_packet_execute(
        &mut self,
        _packet: &Packet,
        _acknowledgement: &Acknowledgement,
        _relayer: &Signer,
    ) -> (ModuleExtras, Result<(), PacketError>) {
        (ModuleExtras::empty(), Ok(()))
    }

    fn on_timeout_packet_validate(
        &self,
        _packet: &Packet,
        _relayer: &Signer,
    ) -> Result<(), PacketError> {
        Ok(())
    }

    fn on_timeout_packet_execute(
        &mut self,
        _packet: &Packet,
        _relayer: &Signer,
    ) -> (ModuleExtras, Result<(), PacketError>) {
        (ModuleExtras::empty(), Ok(()))
    }
}

fn dummy_packet() -> Packet {
    Packet {
        seq_on_a: Sequence::from(1),
        port_id_on_a: PortId::transfer(),
        chan_id_on_a: ChannelId::default(),
        port_id_on_b: PortId::transfer(),
        chan_id_on_b: ChannelId::default(),
        data: vec![0],
        timeout_height_on_b: TimeoutHeight::no_timeout(),
        timeout_timestamp_on_b: Timestamp::none(),
    }
}

fn dummy_signer() -> Signer {
    Signer {
        account: "cosmos1wxeyh7zgn4tctjzs0vtqpc6p5cxq5t2muzl7ng".to_string(),
    }
}

#[test]
fn test_router() {
    let mut router = MockRouter::new();
    router
        .add_route(
            ModuleId::new("foomodule".to_string()),
            AnyModule::Foo(FooModule::default()),
        )
        .expect("Never fails");
    router
        .add_route(
            ModuleId::new("barmodule".to_string()),
            AnyModule::Bar(BarModule),
        )
        .expect("Never fails");

    let mut on_recv_packet_result = |module_id: &'static str| {
        let module_id = ModuleId::new(module_id.to_string());
        let m = router.get_route_mut(&module_id).expect("Never fails");

        let packet = dummy_packet();

        let result = m.on_recv_packet_execute(&packet, &dummy_signer());
        (module_id, result)
    };

    let _results = vec![
        on_recv_packet_result("foomodule"),
        on_recv_packet_result("barmodule"),
    ];
}

#[test]
fn routes_are_found_by_identifier() {
    let mut router = MockRouter::new();
    let foo = ModuleId::new("foomodule".to_string());
    let bar = ModuleId::new("barmodule".to_string());
    assert!(router.get_route(&foo).is_none());
    router
        .add_route(foo.clone(), AnyModule::Foo(FooModule::default()))
        .unwrap();
    router.add_route(bar.clone(), AnyModule::Bar(BarModule)).unwrap();
    assert!(matches!(router.get_route(&foo), Some(AnyModule::Foo(_))));
    assert!(matches!(router.get_route(&bar), Some(AnyModule::Bar(_))));
    assert!(router
        .get_route(&ModuleId::new("bazmodule".to_string()))
        .is_none());

    // An identifier is given out once.
    assert!(router
        .add_route(foo.clone(), AnyModule::Bar(BarModule))
        .is_err());
    assert!(matches!(router.get_route(&foo), Some(AnyModule::Foo(_))));
    assert_eq!(router.routes.len(), 2);

    let m = router.get_route_mut(&foo).unwrap();
    m.on_recv_packet_execute(&dummy_packet(), &dummy_signer());
    m.on_recv_packet_execute(&dummy_packet(), &dummy_signer());
    assert_eq!(router.get_route(&foo).unwrap().received(), 2);
}

#[test]
fn a_port_is_bound_to_one_module_at_a_time() {
    let mut router: MockRouter<AnyModule> = MockRouter::new();
    assert!(router.lookup_module_by_port(&PortId::transfer()).is_none());
    router.bind_port(PortId::transfer(), ModuleId::new("foomodule".to_string()));
    assert_eq!(
        router.lookup_module_by_port(&PortId::transfer()).unwrap().id,
        "foomodule"
    );
    router.bind_port(PortId::transfer(), ModuleId::new("barmodule".to_string()));
    assert_eq!(
        router.lookup_module_by_port(&PortId::transfer()).unwrap().id,
        "barmodule"
    );
    assert_eq!(router.ports.len(), 1);
    router.bind_port(PortId::default(), ModuleId::new("foomodule".to_string()));
    assert_eq!(router.ports.len(), 2);
    assert_eq!(
        router.lookup_module_by_port(&PortId::default()).unwrap().id,
        "foomodule"
    );
}

#[test]
fn a_module_that_says_nothing_takes_the_later_steps() {
    let port = PortId::transfer();
    let channel = ChannelId::default();
    let version = Version::new("ics20-1".to_string());
    let mut module = AnyModule::Foo(FooModule { counter: 3 });

    assert_eq!(
        module.on_chan_open_ack_validate(&port, &channel, &version),
        Ok(())
    );
    assert_eq!(
        module.on_chan_open_confirm_validate(&port, &channel),
        Ok(())
    );
    assert_eq!(module.on_chan_close_init_validate(&port, &channel), Ok(()));
    assert_eq!(
        module.on_chan_close_confirm_validate(&port, &channel),
        Ok(())
    );

    let answers = vec![
        module.on_chan_open_ack_execute(&port, &channel, &version),
        module.on_chan_open_confirm_execute(&port, &channel),
        module.on_chan_close_init_execute(&port, &channel),
        module.on_chan_close_confirm_execute(&port, &channel),
    ];
    assert_eq!(answers.len(), 4);
    for answer in answers {
        let extras = answer.expect("a step that nothing is said of is taken");
        assert!(extras.events.is_empty());
        assert!(extras.log.is_empty());
    }
    assert_eq!(module.received(), 3);
}

#[test]
fn the_transfer_router_serves_the_transfer_port() {
    let mut router = MockRouter::new_with_transfer();
    let id = router
        .lookup_module_by_port(&PortId::transfer())
        .expect("the port is bound");
    assert_eq!(id, ModuleId::new("transfer".to_string()));
    assert!(router.get_route(&id).is_some());
    assert!(router
        .lookup_module_by_port(&PortId::new("other".to_string()))
        .is_none());

    let module = router.get_route_mut(&id).unwrap();
    let (extras, ack) = module.on_recv_packet_execute(&dummy_packet(), &dummy_signer());
    assert!(extras.events.is_empty());
    assert!(extras.log.is_empty());
    assert_eq!(ack.as_bytes(), &vec![1u8]);
    let version = Version::new("ics20-1".to_string());
    assert_eq!(
        module.on_chan_open_init_validate(
            Order::Unordered,
            &vec![ConnectionId::new(0)],
            &PortId::transfer(),
            &ChannelId::default(),
            &Counterparty::new(PortId::transfer(), None),
            &version,
        ),
        Ok(version.clone())
    );
    assert_eq!(
        module.on_timeout_packet_execute(&dummy_packet(), &dummy_signer()).1,
        Ok(())
    );
    assert_eq!(
        module.on_chan_close_init_validate(&PortId::transfer(), &ChannelId::default()),
        Ok(())
    );
}
