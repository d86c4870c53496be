//! The addressing the agent configures. It is fixed: nothing is read from
//! the command line or the environment.

use vstd::prelude::*;
use crate::addr::Ipv4Address;
use crate::model::MAX_PREFIX_LENGTH;

verus! {

/// The name of the interface the agent configures.
pub const INTERFACE_NAME: &'static str = "eth0";

/// The prefix length of the guest's address.
pub const PREFIX_LENGTH: u8 = 24;

/// The host-channel port the agent listens on. The host dials this port.
pub const LISTENER_PORT: u32 = 8000;

/// The guest's address, `172.16.0.2`.
pub open spec fn guest_address() -> Ipv4Address {
    Ipv4Address { a: 172, b: 16, c: 0, d: 2 }
}

/// The gateway of the default route, `172.16.0.1`.
pub open spec fn gateway_address() -> Ipv4Address {
    Ipv4Address { a: 172, b: 16, c: 0, d: 1 }
}

/// The mathematical content of a [`BootstrapConfig`].
pub struct ConfigView {
    pub interface_name: Seq<char>,
    pub address: Ipv4Address,
    pub prefix_length: u8,
    pub gateway: Ipv4Address,
    pub listener_port: u32,
}

impl ConfigView {
    /// The interface has a name and the prefix length is one that an IPv4
    /// address can have.
    pub open spec fn well_formed(self) -> bool {
        self.interface_name.len() > 0 && self.prefix_length <= MAX_PREFIX_LENGTH
    }

    /// The fixed addressing: `eth0`, `172.16.0.2/24`, gateway `172.16.0.1`,
    /// port 8000.
    pub open spec fn fixed() -> ConfigView {
        ConfigView {
            interface_name: INTERFACE_NAME@,
            address: guest_address(),
            prefix_length: PREFIX_LENGTH,
            gateway: gateway_address(),
            listener_port: LISTENER_PORT,
        }
    }
}

/// The options of one bootstrap. A value of this type is always well formed.
#[derive(Debug, PartialEq, Eq)]
pub struct BootstrapConfig {
    interface_name: String,
    address: Ipv4Address,
    prefix_length: u8,
    gateway: Ipv4Address,
    listener_port: u32,
}

impl View for BootstrapConfig {
    type V = ConfigView;

    closed spec fn view(&self) -> ConfigView {
        ConfigView {
            interface_name: self.interface_name@,
            address: self.address,
            prefix_length: self.prefix_length,
            gateway: self.gateway,
            listener_port: self.listener_port,
        }
    }
}

impl Clone for BootstrapConfig {
    fn clone(&self) -> (copy: BootstrapConfig)
        ensures
            copy@ == self@,
    {
        proof {
            use_type_invariant(self);
        }
        BootstrapConfig {
            interface_name: self.interface_name.clone(),
            address: self.address,
            prefix_length: self.prefix_length,
            gateway: self.gateway,
            listener_port: self.listener_port,
        }
    }
}

impl BootstrapConfig {
    /// What holds of every value of this type.
    #[verifier::type_invariant]
    pub open spec fn valid(self) -> bool {
        self@.well_formed()
    }

    /// The options as given, or `None` where the interface name is empty or
    /// the prefix length is above 32.
    pub fn new(
        interface_name: String,
        address: Ipv4Address,
        prefix_length: u8,
        gateway: Ipv4Address,
        listener_port: u32,
    ) -> (config: Option<BootstrapConfig>)
        ensures
            config is Some <==> interface_name@.len() > 0 && prefix_length <= MAX_PREFIX_LENGTH,
            config matches Some(c) ==> c@ == (ConfigView {
                interface_name: interface_name@,
                address,
                prefix_length,
                gateway,
                listener_port,
            }),
    {
        if interface_name.as_str().is_empty() || prefix_length > MAX_PREFIX_LENGTH {
            None
        } else {
            Some(BootstrapConfig { interface_name, address, prefix_length, gateway, listener_port })
        }
    }

    /// The fixed addressing of the guest.
    pub fn fixed() -> (config: BootstrapConfig)
        ensures
            config@ == ConfigView::fixed(),
            config@.well_formed(),
    {
        proof {
            reveal_strlit("eth0");
        }
        BootstrapConfig {
            interface_name: INTERFACE_NAME.to_owned(),
            address: Ipv4Address::new(172, 16, 0, 2),
            prefix_length: PREFIX_LENGTH,
            gateway: Ipv4Address::new(172, 16, 0, 1),
            listener_port: LISTENER_PORT,
        }
    }

    /// The name of the interface to configure.
    pub fn interface_name(&self) -> (name: &String)
        ensures
            name@ == self@.interface_name,
            name@.len() > 0,
    {
        proof {
            use_type_invariant(self);
        }
        &self.interface_name
    }

    /// The address to attach to the interface.
    pub fn address(&self) -> (address: Ipv4Address)
        ensures
            address == self@.address,
    {
        self.address
    }

    /// The prefix length of that address.
    pub fn prefix_length(&self) -> (prefix_length: u8)
        ensures
            prefix_length == self@.prefix_length,
            prefix_length <= MAX_PREFIX_LENGTH,
    {
        proof {
            use_type_invariant(self);
        }
        self.prefix_length
    }

    /// The gateway of the default route.
    pub fn gateway(&self) -> (gateway: Ipv4Address)
        ensures
            gateway == self@.gateway,
    {
        self.gateway
    }

    /// The host-channel port to listen on.
    pub fn listener_port(&self) -> (port: u32)
        ensures
            port == self@.listener_port,
    {
        self.listener_port
    }
}

} // verus!
