//! What the agent asks the kernel for: an interface, an address on it, a
//! route through it.

use vstd::prelude::*;
use crate::addr::Ipv4Address;

verus! {

/// A network interface as the kernel names it: the mathematical content of
/// a [`LinkRecord`] and of a [`NetworkInterfaceHandle`].
pub struct Link {
    pub name: Seq<char>,
    pub index: u32,
}

/// One interface in the kernel's answer to a link query.
#[derive(Clone, Debug, PartialEq, Eq)]
pub struct LinkRecord {
    pub name: String,
    pub index: u32,
}

impl View for LinkRecord {
    type V = Link;

    open spec fn view(&self) -> Link {
        Link { name: self.name@, index: self.index }
    }
}

impl LinkRecord {
    /// The record of the interface `name` with kernel index `index`.
    pub fn new(name: String, index: u32) -> (record: LinkRecord)
        ensures
            record@ == (Link { name: name@, index }),
    {
        LinkRecord { name, index }
    }
}

/// The links of a query's answer, each by its view.
pub open spec fn links_view(records: Seq<LinkRecord>) -> Seq<Link> {
    records.map_values(|r: LinkRecord| r@)
}

/// An interface that a query has found. Nothing outside this crate can
/// make one: [`resolve`](crate::resolver::resolve) hands it out for a link
/// that the kernel reported, and the agent for the interface it resolved.
#[derive(Clone, Debug, PartialEq, Eq)]
pub struct NetworkInterfaceHandle {
    name: String,
    index: u32,
}

impl View for NetworkInterfaceHandle {
    type V = Link;

    closed spec fn view(&self) -> Link {
        Link { name: self.name@, index: self.index }
    }
}

impl NetworkInterfaceHandle {
    pub(crate) fn from_parts(name: String, index: u32) -> (handle: NetworkInterfaceHandle)
        ensures
            handle@ == (Link { name: name@, index }),
    {
        NetworkInterfaceHandle { name, index }
    }

    /// The name the interface was looked up by.
    pub fn name(&self) -> (name: &String)
        ensures
            name@ == self@.name,
    {
        &self.name
    }

    /// The index the kernel gave the interface.
    pub fn index(&self) -> (index: u32)
        ensures
            index == self@.index,
    {
        self.index
    }
}

/// The largest prefix length of an IPv4 address.
pub const MAX_PREFIX_LENGTH: u8 = 32;

/// A request to attach an IPv4 address to an interface.
#[derive(Clone, Copy, Debug, PartialEq, Eq, Structural, Hash)]
pub struct AddressAssignment {
    pub index: u32,
    pub address: Ipv4Address,
    pub prefix_length: u8,
}

impl AddressAssignment {
    /// The prefix length is one that an IPv4 address can have.
    pub open spec fn well_formed(self) -> bool {
        self.prefix_length <= MAX_PREFIX_LENGTH
    }

    /// The assignment of `address/prefix_length` to the interface `handle`.
    pub fn for_interface(
        handle: &NetworkInterfaceHandle,
        address: Ipv4Address,
        prefix_length: u8,
    ) -> (assignment: AddressAssignment)
        requires
            prefix_length <= MAX_PREFIX_LENGTH,
        ensures
            assignment == (AddressAssignment { index: handle@.index, address, prefix_length }),
            assignment.well_formed(),
    {
        AddressAssignment { index: handle.index(), address, prefix_length }
    }
}

/// A route: traffic to `destination/destination_prefix_length` goes to
/// `gateway` through the interface `input_interface_index`.
#[derive(Clone, Copy, Debug, PartialEq, Eq, Structural, Hash)]
pub struct RouteEntry {
    pub destination: Ipv4Address,
    pub destination_prefix_length: u8,
    pub gateway: Ipv4Address,
    pub input_interface_index: u32,
}

impl RouteEntry {
    /// The route to everything (`0.0.0.0/0`) by `gateway` through the
    /// interface `index`.
    pub open spec fn default_route(index: u32, gateway: Ipv4Address) -> RouteEntry {
        RouteEntry {
            destination: Ipv4Address::spec_unspecified(),
            destination_prefix_length: 0,
            gateway,
            input_interface_index: index,
        }
    }

    /// Whether the route matches every destination.
    pub open spec fn spec_is_default(&self) -> bool {
        self.destination == Ipv4Address::spec_unspecified() && self.destination_prefix_length == 0
    }

    /// The default route by `gateway` through the interface `handle`.
    pub fn default_via(handle: &NetworkInterfaceHandle, gateway: Ipv4Address) -> (route: RouteEntry)
        ensures
            route == RouteEntry::default_route(handle@.index, gateway),
            route.spec_is_default(),
    {
        RouteEntry {
            destination: Ipv4Address::unspecified(),
            destination_prefix_length: 0,
            gateway,
            input_interface_index: handle.index(),
        }
    }

    /// Whether the route matches every destination.
    #[verifier::when_used_as_spec(spec_is_default)]
    pub fn is_default(&self) -> (r: bool)
        ensures
            r == self.spec_is_default(),
    {
        self.destination.is_unspecified() && self.destination_prefix_length == 0
    }
}

} // verus!
