//! Socket addresses as plain values.

use vstd::prelude::*;

verus! {

/// An IPv4 address: four octets, the first one first on the wire.
#[derive(Clone, Copy, Debug, PartialEq, Eq)]
pub struct Ipv4Addr {
    pub octets: [u8; 4],
}

/// An IPv6 address: sixteen octets, the first one first on the wire.
#[derive(Clone, Copy, Debug, PartialEq, Eq)]
pub struct Ipv6Addr {
    pub octets: [u8; 16],
}

/// An IPv4 address and a port.
#[derive(Clone, Copy, Debug, PartialEq, Eq)]
pub struct SocketAddrV4 {
    pub ip: Ipv4Addr,
    pub port: u16,
}

/// An IPv6 address and a port, with the flow information and the scope of
/// the address.
#[derive(Clone, Copy, Debug, PartialEq, Eq)]
pub struct SocketAddrV6 {
    pub ip: Ipv6Addr,
    pub port: u16,
    pub flowinfo: u32,
    pub scope_id: u32,
}

/// The address of one end of a connection.
#[derive(Clone, Copy, Debug, PartialEq, Eq)]
pub enum SocketAddr {
    V4(SocketAddrV4),
    V6(SocketAddrV6),
}

impl Ipv4Addr {
    /// The address `a.b.c.d`.
    pub fn new(a: u8, b: u8, c: u8, d: u8) -> (ip: Ipv4Addr)
        ensures
            ip == (Ipv4Addr { octets: [a, b, c, d] }),
    {
        Ipv4Addr { octets: [a, b, c, d] }
    }

    pub fn from_octets(octets: [u8; 4]) -> (ip: Ipv4Addr)
        ensures
            ip == (Ipv4Addr { octets }),
    {
        Ipv4Addr { octets }
    }

    pub fn octets(&self) -> (octets: [u8; 4])
        ensures
            octets == self.octets,
    {
        self.octets
    }
}

impl Ipv6Addr {
    pub fn from_octets(octets: [u8; 16]) -> (ip: Ipv6Addr)
        ensures
            ip == (Ipv6Addr { octets }),
    {
        Ipv6Addr { octets }
    }

    pub fn octets(&self) -> (octets: [u8; 16])
        ensures
            octets == self.octets,
    {
        self.octets
    }
}

impl SocketAddrV4 {
    pub fn new(ip: Ipv4Addr, port: u16) -> (addr: SocketAddrV4)
        ensures
            addr == (SocketAddrV4 { ip, port }),
    {
        SocketAddrV4 { ip, port }
    }

    pub fn ip(&self) -> (ip: &Ipv4Addr)
        ensures
            *ip == self.ip,
    {
        &self.ip
    }

    pub fn port(&self) -> (port: u16)
        ensures
            port == self.port,
    {
        self.port
    }
}

impl SocketAddrV6 {
    pub fn new(ip: Ipv6Addr, port: u16, flowinfo: u32, scope_id: u32) -> (addr: SocketAddrV6)
        ensures
            addr == (SocketAddrV6 { ip, port, flowinfo, scope_id }),
    {
        SocketAddrV6 { ip, port, flowinfo, scope_id }
    }

    pub fn ip(&self) -> (ip: &Ipv6Addr)
        ensures
            *ip == self.ip,
    {
        &self.ip
    }

    pub fn port(&self) -> (port: u16)
        ensures
            port == self.port,
    {
        self.port
    }

    pub fn flowinfo(&self) -> (flowinfo: u32)
        ensures
            flowinfo == self.flowinfo,
    {
        self.flowinfo
    }

    pub fn scope_id(&self) -> (scope_id: u32)
        ensures
            scope_id == self.scope_id,
    {
        self.scope_id
    }
}

} // verus!
