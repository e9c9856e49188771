//! Socket addresses as plain values.

use vstd::prelude::*;

verus! {

/// The address of one end of a connection: an IP address and a port.
#[derive(Clone, Copy, Debug, PartialEq, Eq, Hash)]
pub enum SocketAddr {
    /// An IPv4 address, by its four octets, and a port.
    IPv4 { octets: [u8; 4], port: u16 },
    /// An IPv6 address, by its eight segments, a port, and the flow and scope
    /// fields that come with it.
    IPv6 { segments: [u16; 8], port: u16, flowinfo: u32, scope_id: u32 },
}

impl SocketAddr {
    /// The port of the address.
    pub open spec fn spec_port(&self) -> u16 {
        match *self {
            SocketAddr::IPv4 { port, .. } => port,
            SocketAddr::IPv6 { port, .. } => port,
        }
    }

    /// The port of the address.
    #[verifier::when_used_as_spec(spec_port)]
    pub fn port(&self) -> (port: u16)
        ensures
            port == self.spec_port(),
    {
        match self {
            SocketAddr::IPv4 { port, .. } => *port,
            SocketAddr::IPv6 { port, .. } => *port,
        }
    }
}

} // verus!
