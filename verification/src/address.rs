//! Socket addresses of the client surfaces.
use vstd::prelude::*;

verus! {

/// An IP address and a port.
#[derive(Debug, Clone, Copy, PartialEq, Eq, Structural)]
pub enum SocketAddress {
    V4 { a: u8, b: u8, c: u8, d: u8, port: u16 },
    V6 { bits: u128, port: u16, flowinfo: u32, scope_id: u32 },
}

impl SocketAddress {
    /// Whether the address stays on this machine: 127.0.0.0/8 or ::1.
    pub open spec fn spec_is_loopback(self) -> bool {
        match self {
            SocketAddress::V4 { a, .. } => a == 127,
            SocketAddress::V6 { bits, .. } => bits == 1,
        }
    }

    pub fn is_loopback(self) -> (r: bool)
        ensures
            r == self.spec_is_loopback(),
    {
        match self {
            SocketAddress::V4 { a, .. } => a == 127,
            SocketAddress::V6 { bits, .. } => bits == 1,
        }
    }

    /// The address 127.0.0.1 with `port`.
    pub open spec fn spec_localhost(port: u16) -> SocketAddress {
        SocketAddress::V4 { a: 127, b: 0, c: 0, d: 1, port }
    }

    pub fn localhost(port: u16) -> (r: SocketAddress)
        ensures
            r == SocketAddress::spec_localhost(port),
    {
        SocketAddress::V4 { a: 127, b: 0, c: 0, d: 1, port }
    }
}

} // verus!
