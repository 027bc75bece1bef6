//! Network endpoints as plain values.

use vstd::prelude::*;

verus! {

/// A network endpoint: an IP address and a port.
///
/// The IP address is held as its bits in network order read as one integer,
/// so `127.0.0.1` is `0x7f00_0001`.
#[derive(Clone, Copy, Debug, PartialEq, Eq, Hash)]
pub enum Address {
    /// An IPv4 endpoint.
    V4 { ipv4: u32, port: u16 },
    /// An IPv6 endpoint, with its flow information and scope.
    V6 { ipv6: u128, port: u16, flowinfo: u32, scope_id: u32 },
}

impl Address {
    /// The port of the endpoint.
    pub open spec fn spec_port(self) -> u16 {
        match self {
            Address::V4 { port, .. } => port,
            Address::V6 { port, .. } => port,
        }
    }

    /// An IPv4 endpoint from the four parts of its dotted form and a port.
    pub fn ipv4(a: u8, b: u8, c: u8, d: u8, port: u16) -> (addr: Address)
        ensures
            addr == (Address::V4 {
                ipv4: (a as u32 * 0x100_0000 + b as u32 * 0x1_0000 + c as u32 * 0x100 + d as u32) as u32,
                port,
            }),
    {
        let hi: u32 = a as u32 * 0x100_0000 + b as u32 * 0x1_0000;
        let lo: u32 = c as u32 * 0x100 + d as u32;
        Address::V4 { ipv4: hi + lo, port }
    }

    /// The port of the endpoint.
    pub fn port(&self) -> (p: u16)
        ensures
            p == self.spec_port(),
    {
        match self {
            Address::V4 { port, .. } => *port,
            Address::V6 { port, .. } => *port,
        }
    }

    /// Whether this is an IPv4 endpoint.
    pub fn is_ipv4(&self) -> (v4: bool)
        ensures
            v4 == (self is V4),
    {
        match self {
            Address::V4 { .. } => true,
            Address::V6 { .. } => false,
        }
    }
}

} // verus!
