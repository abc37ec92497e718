//! Application modules and the router that finds the module bound to a port.

use vstd::prelude::*;
use crate::channel::{Acknowledgement, Counterparty, Order, Packet, Version};
use crate::error::{ChannelError, PacketError};
use crate::events::ModuleEvent;
use crate::identifier::{ChannelId, ConnectionId, ModuleId, PortId, Signer};
use crate::table::Key;

verus! {

/// What a module asks the engine to report and to log on its behalf.
#[derive(Debug, PartialEq, Eq)]
pub struct ModuleExtras {
    pub events: Vec<ModuleEvent>,
    pub log: Vec<String>,
}

impl ModuleExtras {
    /// Nothing to report and nothing to log.
    pub fn empty() -> (r: ModuleExtras)
        ensures
            r.events@.len() == 0,
            r.log@.len() == 0,
    {
        ModuleExtras { events: Vec::new(), log: Vec::new() }
    }
}

/// An application that sends and receives packets over channels. Each step of
/// a channel's life and of a packet's life comes to the module twice: first to
/// be validated, where the module may turn it down and changes nothing, then
/// to be executed. What a module answers is its own business: the engine
/// promises nothing of it and is proved for every answer.
pub trait Module: Sized {
    fn on_chan_open_init_validate(
        &self,
        order: Order,
        connection_hops: &Vec<ConnectionId>,
        port_id: &PortId,
        channel_id: &ChannelId,
        counterparty: &Counterparty,
        version: &Version,
    ) -> Result<Version, ChannelError>;

    fn on_chan_open_init_execute(
        &mut self,
        order: Order,
        connection_hops: &Vec<ConnectionId>,
        port_id: &PortId,
        channel_id: &ChannelId,
        counterparty: &Counterparty,
        version: &Version,
    ) -> Result<(ModuleExtras, Version), ChannelError>;

    fn on_chan_open_try_validate(
        &self,
        order: Order,
        connection_hops: &Vec<ConnectionId>,
        port_id: &PortId,
        channel_id: &ChannelId,
        counterparty: &Counterparty,
        counterparty_version: &Version,
    ) -> Result<Version, ChannelError>;

    fn on_chan_open_try_execute(
        &mut self,
        order: Order,
        connection_hops: &Vec<ConnectionId>,
        port_id: &PortId,
        channel_id: &ChannelId,
        counterparty: &Counterparty,
        counterparty_version: &Version,
    ) -> Result<(ModuleExtras, Version), ChannelError>;

    /// A module that says nothing of the step takes it.
    fn on_chan_open_ack_validate(
        &self,
        port_id: &PortId,
        channel_id: &ChannelId,
        counterparty_version: &Version,
    ) -> (r: Result<(), ChannelError>)
        default_ensures
            r is Ok,
    {
        Ok(())
    }

    /// A module that says nothing of the step takes it, and hands nothing
    /// over to report or to log.
    fn on_chan_open_ack_execute(
        &mut self,
        port_id: &PortId,
        channel_id: &ChannelId,
        counterparty_version: &Version,
    ) -> (r: Result<ModuleExtras, ChannelError>)
        default_ensures
            r matches Ok(extras) && extras.events@.len() == 0 && extras.log@.len() == 0,
            *final(self) == *old(self),
    {
        Ok(ModuleExtras::empty())
    }

    /// A module that says nothing of the step takes it.
    fn on_chan_open_confirm_validate(&self, port_id: &PortId, channel_id: &ChannelId) -> (r: Result<
        (),
        ChannelError,
    >)
        default_ensures
            r is Ok,
    {
        Ok(())
    }

    /// A module that says nothing of the step takes it, and hands nothing
    /// over to report or to log.
    fn on_chan_open_confirm_execute(&mut self, port_id: &PortId, channel_id: &ChannelId) -> (r: Result<
        ModuleExtras,
        ChannelError,
    >)
        default_ensures
            r matches Ok(extras) && extras.events@.len() == 0 && extras.log@.len() == 0,
            *final(self) == *old(self),
    {
        Ok(ModuleExtras::empty())
    }

    /// A module that says nothing of the step takes it.
    fn on_chan_close_init_validate(&self, port_id: &PortId, channel_id: &ChannelId) -> (r: Result<
        (),
        ChannelError,
    >)
        default_ensures
            r is Ok,
    {
        Ok(())
    }

    /// A module that says nothing of the step takes it, and hands nothing
    /// over to report or to log.
    fn on_chan_close_init_execute(&mut self, port_id: &PortId, channel_id: &ChannelId) -> (r: Result<
        ModuleExtras,
        ChannelError,
    >)
        default_ensures
            r matches Ok(extras) && extras.events@.len() == 0 && extras.log@.len() == 0,
            *final(self) == *old(self),
    {
        Ok(ModuleExtras::empty())
    }

    /// A module that says nothing of the step takes it.
    fn on_chan_close_confirm_validate(&self, port_id: &PortId, channel_id: &ChannelId) -> (r: Result<
        (),
        ChannelError,
    >)
        default_ensures
            r is Ok,
    {
        Ok(())
    }

    /// A module that says nothing of the step takes it, and hands nothing
    /// over to report or to log.
    fn on_chan_close_confirm_execute(&mut self, port_id: &PortId, channel_id: &ChannelId) -> (r: Result<
        ModuleExtras,
        ChannelError,
    >)
        default_ensures
            r matches Ok(extras) && extras.events@.len() == 0 && extras.log@.len() == 0,
            *final(self) == *old(self),
    {
        Ok(ModuleExtras::empty())
    }

    /// Takes a packet in and answers with an acknowledgement. A module that
    /// cannot handle the packet says so in the acknowledgement.
    fn on_recv_packet_execute(&mut self, packet: &Packet, relayer: &Signer) -> (
        ModuleExtras,
        Acknowledgement,
    );

    fn on_acknowledgement_packet_validate(
        &self,
        packet: &Packet,
        acknowledgement: &Acknowledgement,
        relayer: &Signer,
    ) -> Result<(), PacketError>;

    fn on_acknowledgement_packet_execute(
        &mut self,
        packet: &Packet,
        acknowledgement: &Acknowledgement,
        relayer: &Signer,
    ) -> (ModuleExtras, Result<(), PacketError>);

    fn on_timeout_packet_validate(&self, packet: &Packet, relayer: &Signer) -> Result<
        (),
        PacketError,
    >;

    fn on_timeout_packet_execute(&mut self, packet: &Packet, relayer: &Signer) -> (
        ModuleExtras,
        Result<(), PacketError>,
    );
}

/// Finds application modules: the module bound to a port, and a module by its
/// identifier.
pub trait Router {
    type M: Module;

    /// The module registered under `module_id`.
    fn get_route(&self, module_id: &ModuleId) -> Option<&Self::M>;

    /// The module registered under `module_id`, to be changed.
    fn get_route_mut(&mut self, module_id: &ModuleId) -> Option<&mut Self::M>;

    /// The identifier of the module bound to `port_id`.
    fn lookup_module_by_port(&self, port_id: &PortId) -> Option<ModuleId>;
}

/// A router over modules of one type: a list of routes, each a module under
/// its identifier, and a list of ports, each bound to a module identifier.
pub struct MockRouter<M: Module> {
    pub routes: Vec<(ModuleId, M)>,
    pub ports: Vec<(PortId, ModuleId)>,
}

impl<M: Module> MockRouter<M> {
    /// Whether a route is registered under `id`.
    pub open spec fn has_route(self, id: Seq<char>) -> bool {
        exists|i: int| 0 <= i < self.routes@.len() && (#[trigger] self.routes@[i]).0@ == id
    }

    /// Whether `port` is bound to a module.
    pub open spec fn has_port(self, port: Seq<char>) -> bool {
        exists|i: int| 0 <= i < self.ports@.len() && (#[trigger] self.ports@[i]).0@ == port
    }

    /// Whether the router serves `port`: the port is bound, and each module
    /// that it is bound to is registered.
    pub open spec fn serves(self, port: Seq<char>) -> bool {
        &&& self.has_port(port)
        &&& forall|i: int|
            0 <= i < self.ports@.len() && (#[trigger] self.ports@[i]).0@ == port
                ==> self.has_route(self.ports@[i].1@)
    }

    /// A router with no routes.
    pub fn new() -> (r: Self)
        ensures
            r.routes@.len() == 0,
            r.ports@.len() == 0,
    {
        MockRouter { routes: Vec::new(), ports: Vec::new() }
    }

    /// The place of the route registered under `id`: the first, if there are
    /// several.
    pub fn find_route(&self, id: &ModuleId) -> (r: Option<usize>)
        ensures
            match r {
                Some(i) => i < self.routes@.len() && self.routes@[i as int].0@ == id@ && forall|
                    j: int,
                | 0 <= j < i ==> (#[trigger] self.routes@[j]).0@ != id@,
                None => !self.has_route(id@),
            },
    {
        let mut i: usize = 0;
        while i < self.routes.len()
            invariant
                i <= self.routes.len(),
                forall|j: int| 0 <= j < i ==> (#[trigger] self.routes@[j]).0@ != id@,
            decreases self.routes.len() - i,
        {
            if self.routes[i].0.same(id) {
                return Some(i);
            }
            i += 1;
        }
        None
    }

    /// The place of the binding of `port`: the first, if there are several.
    pub fn find_port(&self, port: &PortId) -> (r: Option<usize>)
        ensures
            match r {
                Some(i) => i < self.ports@.len() && self.ports@[i as int].0@ == port@ && forall|
                    j: int,
                | 0 <= j < i ==> (#[trigger] self.ports@[j]).0@ != port@,
                None => !self.has_port(port@),
            },
    {
        let mut i: usize = 0;
        while i < self.ports.len()
            invariant
                i <= self.ports.len(),
                forall|j: int| 0 <= j < i ==> (#[trigger] self.ports@[j]).0@ != port@,
            decreases self.ports.len() - i,
        {
            if self.ports[i].0.same(port) {
                return Some(i);
            }
            i += 1;
        }
        None
    }

    /// Registers `module` under `module_id`. An identifier can be given out
    /// once: where it is taken, nothing changes and the answer is `Err`.
    pub fn add_route(&mut self, module_id: ModuleId, module: M) -> (r: Result<(), String>)
        ensures
            old(self).has_route(module_id@) ==> r is Err
                && final(self).routes@ == old(self).routes@,
            !old(self).has_route(module_id@) ==> r is Ok
                && final(self).routes@ == old(self).routes@.push((module_id, module)),
            final(self).ports@ == old(self).ports@,
    {
        match self.find_route(&module_id) {
            Some(_) => Err("route already exists".to_owned()),
            None => {
                self.routes.push((module_id, module));
                Ok(())
            },
        }
    }

    /// Binds `port_id` to the module `module_id`. A port is bound to one
    /// module at a time: a new binding takes the place of the old one.
    pub fn bind_port(&mut self, port_id: PortId, module_id: ModuleId)
        ensures
            final(self).routes@ == old(self).routes@,
            !old(self).has_port(port_id@)
                ==> final(self).ports@ == old(self).ports@.push((port_id, module_id)),
            old(self).has_port(port_id@) ==> exists|i: int|
                0 <= i < old(self).ports@.len() && (#[trigger] old(self).ports@[i]).0@ == port_id@
                    && final(self).ports@ == old(self).ports@.update(i, (port_id, module_id)),
    {
        match self.find_port(&port_id) {
            Some(i) => {
                self.ports.set(i, (port_id, module_id));
                assert(old(self).ports@[i as int].0@ == port_id@);
            },
            None => {
                self.ports.push((port_id, module_id));
            },
        }
    }
}

impl<M: Module> Router for MockRouter<M> {
    type M = M;

    fn get_route(&self, module_id: &ModuleId) -> (r: Option<&M>)
        ensures
            r is Some == self.has_route(module_id@),
    {
        match self.find_route(module_id) {
            Some(i) => Some(&self.routes[i].1),
            None => None,
        }
    }

    fn get_route_mut(&mut self, module_id: &ModuleId) -> (r: Option<&mut M>)
        ensures
            r is Some == old(self).has_route(module_id@),
    {
        match self.find_route(module_id) {
            Some(i) => Some(&mut self.routes[i].1),
            None => None,
        }
    }

    fn lookup_module_by_port(&self, port_id: &PortId) -> (r: Option<ModuleId>)
        ensures
            r is Some == self.has_port(port_id@),
            r matches Some(id) ==> exists|i: int|
                0 <= i < self.ports@.len() && (#[trigger] self.ports@[i]).0@ == port_id@
                    && self.ports@[i].1@ == id@,
    {
        match self.find_port(port_id) {
            Some(i) => Some(self.ports[i].1.clone()),
            None => None,
        }
    }
}

/// A stand-in for the token transfer application. It takes every step of a
/// channel's handshake, with the version that is proposed, and every
/// acknowledgement and timeout; it answers every packet with the
/// acknowledgement of the one byte `1`. It hands nothing over to report or to
/// log, and keeps nothing.
#[derive(Debug)]
pub struct DummyTransferModule {}

impl Module for DummyTransferModule {
    fn on_chan_open_init_validate(
        &self,
        order: Order,
        connection_hops: &Vec<ConnectionId>,
        port_id: &PortId,
        channel_id: &ChannelId,
        counterparty: &Counterparty,
        version: &Version,
    ) -> (r: Result<Version, ChannelError>)
        ensures
            r matches Ok(v) && v == *version,
    {
        Ok(version.clone())
    }

    fn on_chan_open_init_execute(
        &mut self,
        order: Order,
        connection_hops: &Vec<ConnectionId>,
        port_id: &PortId,
        channel_id: &ChannelId,
        counterparty: &Counterparty,
        version: &Version,
    ) -> (r: Result<(ModuleExtras, Version), ChannelError>)
        ensures
            r matches Ok((extras, v)) && v == *version && extras.events@.len() == 0
                && extras.log@.len() == 0,
    {
        Ok((ModuleExtras::empty(), version.clone()))
    }

    fn on_chan_open_try_validate(
        &self,
        order: Order,
        connection_hops: &Vec<ConnectionId>,
        port_id: &PortId,
        channel_id: &ChannelId,
        counterparty: &Counterparty,
        counterparty_version: &Version,
    ) -> (r: Result<Version, ChannelError>)
        ensures
            r matches Ok(v) && v == *counterparty_version,
    {
        Ok(counterparty_version.clone())
    }

    fn on_chan_open_try_execute(
        &mut self,
        order: Order,
        connection_hops: &Vec<ConnectionId>,
        port_id: &PortId,
        channel_id: &ChannelId,
        counterparty: &Counterparty,
        counterparty_version: &Version,
    ) -> (r: Result<(ModuleExtras, Version), ChannelError>)
        ensures
            r matches Ok((extras, v)) && v == *counterparty_version && extras.events@.len() == 0
                && extras.log@.len() == 0,
    {
        Ok((ModuleExtras::empty(), counterparty_version.clone()))
    }

    fn on_recv_packet_execute(&mut self, packet: &Packet, relayer: &Signer) -> (r: (
        ModuleExtras,
        Acknowledgement,
    ))
        ensures
            r.0.events@.len() == 0,
            r.0.log@.len() == 0,
            r.1@ == seq![1u8],
    {
        let mut bytes: Vec<u8> = Vec::new();
        bytes.push(1u8);
        assert(bytes@ =~= seq![1u8]);
        (ModuleExtras::empty(), Acknowledgement { bytes })
    }

    fn on_acknowledgement_packet_validate(
        &self,
        packet: &Packet,
        acknowledgement: &Acknowledgement,
        relayer: &Signer,
    ) -> (r: Result<(), PacketError>)
        ensures
            r is Ok,
    {
        Ok(())
    }

    fn on_acknowledgement_packet_execute(
        &mut self,
        packet: &Packet,
        acknowledgement: &Acknowledgement,
        relayer: &Signer,
    ) -> (r: (ModuleExtras, Result<(), PacketError>))
        ensures
            r.0.events@.len() == 0,
            r.0.log@.len() == 0,
            r.1 is Ok,
    {
        (ModuleExtras::empty(), Ok(()))
    }

    fn on_timeout_packet_validate(&self, packet: &Packet, relayer: &Signer) -> (r: Result<
        (),
        PacketError,
    >)
        ensures
            r is Ok,
    {
        Ok(())
    }

    fn on_timeout_packet_execute(&mut self, packet: &Packet, relayer: &Signer) -> (r: (
        ModuleExtras,
        Result<(), PacketError>,
    ))
        ensures
            r.0.events@.len() == 0,
            r.0.log@.len() == 0,
            r.1 is Ok,
    {
        (ModuleExtras::empty(), Ok(()))
    }
}

impl MockRouter<DummyTransferModule> {
    /// A router with the stand-in transfer application, registered as
    /// `transfer` and bound to the port `transfer`.
    pub fn new_with_transfer() -> (r: Self)
        ensures
            r.routes@.len() == 1,
            r.ports@.len() == 1,
            r.routes@[0].0@ == "transfer"@,
            r.ports@[0].0@ == "transfer"@,
            r.ports@[0].1@ == "transfer"@,
            r.serves("transfer"@),
    {
        let mut router = MockRouter { routes: Vec::new(), ports: Vec::new() };
        router.routes.push((ModuleId::new("transfer".to_owned()), DummyTransferModule {}));
        router.ports.push((PortId::transfer(), ModuleId::new("transfer".to_owned())));
        assert(router.ports@[0].0@ == "transfer"@);
        assert(router.routes@[0].0@ == "transfer"@);
        assert(router.has_port("transfer"@));
        assert(router.has_route("transfer"@));
        router
    }
}

} // verus!
