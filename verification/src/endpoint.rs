//! Network endpoints as plain values.

use vstd::prelude::*;

verus! {

/// A socket address: an IP address and a port, with the two further fields
/// that an IPv6 socket address carries. Two endpoints are the same endpoint
/// exactly when all their fields agree.
#[allow(inconsistent_fields)]
#[derive(Clone, Copy, Debug, PartialEq, Eq, Hash, Structural)]
pub enum Endpoint {
    /// An IPv4 address, as its 32 bits in host byte order, and a port.
    V4 { ip: u32, port: u16 },
    /// An IPv6 address, as its 128 bits in host byte order, a port, the flow
    /// information and the scope.
    V6 { ip: u128, port: u16, flowinfo: u32, scope_id: u32 },
}

impl Endpoint {
    /// The port of the endpoint.
    pub open spec fn port_of(self) -> u16 {
        match self {
            Endpoint::V4 { port, .. } => port,
            Endpoint::V6 { port, .. } => port,
        }
    }

    /// The endpoint with its port replaced by `port`.
    pub open spec fn on_port(self, port: u16) -> Endpoint {
        match self {
            Endpoint::V4 { ip, .. } => Endpoint::V4 { ip, port },
            Endpoint::V6 { ip, flowinfo, scope_id, .. } => Endpoint::V6 {
                ip,
                port,
                flowinfo,
                scope_id,
            },
        }
    }

    /// The port of the endpoint.
    pub fn port(&self) -> (r: u16)
        ensures
            r == self.port_of(),
    {
        match self {
            Endpoint::V4 { port, .. } => *port,
            Endpoint::V6 { port, .. } => *port,
        }
    }

    /// The same address on another port.
    pub fn with_port(&self, port: u16) -> (r: Endpoint)
        ensures
            r == self.on_port(port),
    {
        match self {
            Endpoint::V4 { ip, .. } => Endpoint::V4 { ip: *ip, port },
            Endpoint::V6 { ip, flowinfo, scope_id, .. } => Endpoint::V6 {
                ip: *ip,
                port,
                flowinfo: *flowinfo,
                scope_id: *scope_id,
            },
        }
    }
}

} // verus!
