//! Socket addresses held as plain values, together with the fixed loopback
//! endpoints that the test doubles report.

use vstd::prelude::*;

verus! {

/// An IP address held as plain values.
#[derive(Clone, Copy, PartialEq, Eq, Structural, Debug)]
pub enum Ip {
    /// An IPv4 address given by its four octets.
    V4(u8, u8, u8, u8),
    /// An IPv6 address given by its eight 16-bit segments.
    V6(u16, u16, u16, u16, u16, u16, u16, u16),
}

/// A socket address: an IP address together with a port.
#[derive(Clone, Copy, PartialEq, Eq, Structural, Debug)]
pub struct SockAddr {
    /// The host part.
    pub ip: Ip,
    /// The port part.
    pub port: u16,
}

/// The fixed synthetic peer address every mock stream reports: `[::1]:2468`.
pub open spec fn spec_peer_addr() -> SockAddr {
    SockAddr { ip: Ip::V6(0, 0, 0, 0, 0, 0, 0, 1), port: 2468 }
}

/// The fixed loopback address used for a mock request's local and remote
/// endpoints: `127.0.0.1:3000`.
pub open spec fn spec_request_addr() -> SockAddr {
    SockAddr { ip: Ip::V4(127, 0, 0, 1), port: 3000 }
}

/// The synthetic peer address, `[::1]:2468`, as a runtime value.
pub fn peer_addr_value() -> (a: SockAddr)
    ensures
        a == spec_peer_addr(),
{
    SockAddr { ip: Ip::V6(0, 0, 0, 0, 0, 0, 0, 1), port: 2468 }
}

/// The request-side loopback address, `127.0.0.1:3000`, as a runtime value.
pub fn request_addr_value() -> (a: SockAddr)
    ensures
        a == spec_request_addr(),
{
    SockAddr { ip: Ip::V4(127, 0, 0, 1), port: 3000 }
}

} // verus!
