//! IPv4 addresses as four octets.

use vstd::prelude::*;

verus! {

/// An IPv4 address, most significant octet first.
#[derive(Clone, Copy, Debug, PartialEq, Eq, Structural, Hash)]
pub struct Ipv4Address {
    pub a: u8,
    pub b: u8,
    pub c: u8,
    pub d: u8,
}

impl Ipv4Address {
    /// The address `0.0.0.0`.
    pub open spec fn spec_unspecified() -> Ipv4Address {
        Ipv4Address { a: 0, b: 0, c: 0, d: 0 }
    }

    /// The address `a.b.c.d`.
    pub fn new(a: u8, b: u8, c: u8, d: u8) -> (addr: Ipv4Address)
        ensures
            addr == (Ipv4Address { a, b, c, d }),
    {
        Ipv4Address { a, b, c, d }
    }

    /// The address `0.0.0.0`, which as a route destination with prefix
    /// length 0 matches every destination.
    #[verifier::when_used_as_spec(spec_unspecified)]
    pub fn unspecified() -> (addr: Ipv4Address)
        ensures
            addr == Ipv4Address::spec_unspecified(),
    {
        Ipv4Address { a: 0, b: 0, c: 0, d: 0 }
    }

    /// The four octets in network order.
    pub fn octets(&self) -> (o: [u8; 4])
        ensures
            o@ == seq![self.a, self.b, self.c, self.d],
    {
        [self.a, self.b, self.c, self.d]
    }

    /// Whether this is `0.0.0.0`.
    pub fn is_unspecified(&self) -> (r: bool)
        ensures
            r == (*self == Ipv4Address::spec_unspecified()),
    {
        self.a == 0 && self.b == 0 && self.c == 0 && self.d == 0
    }
}

} // verus!
