//! Addresses: the texts a driver binds and connects to, and the address of a
//! datagram's peer as plain numbers.

use crate::text::{decimal, port_text};
use vstd::prelude::*;
use vstd::string::*;

verus! {

/// The address of a datagram peer.
#[derive(Clone, Copy, Debug, PartialEq, Eq, Hash, Structural)]
pub enum PeerAddr {
    /// An IPv4 address, as its 32 bits, and a port.
    V4 { bits: u32, port: u16 },
    /// An IPv6 address, as its 128 bits, a port, flow information and scope.
    V6 { wide: u128, port: u16, flowinfo: u32, scope_id: u32 },
}

impl PeerAddr {
    /// Whether the address is of the IPv4 family.
    pub fn is_ipv4(&self) -> (v4: bool)
        ensures
            v4 == (*self is V4),
    {
        match self {
            PeerAddr::V4 { .. } => true,
            PeerAddr::V6 { .. } => false,
        }
    }
}

/// `host`, a colon, and `port` in decimal.
pub open spec fn endpoint_text(host: Seq<char>, port: u16) -> Seq<char> {
    host + ":"@ + decimal(port as nat)
}

/// The address that stands for `port` on every IPv4 interface.
pub open spec fn any_interface_text(port: u16) -> Seq<char> {
    "0.0.0.0:"@ + decimal(port as nat)
}

/// The address to bind a socket that talks to `remote`: any interface of the
/// remote's family, on a port that the system picks.
pub open spec fn ephemeral_text(remote: PeerAddr) -> Seq<char> {
    if remote is V4 {
        "0.0.0.0:0"@
    } else {
        "[::]:0"@
    }
}

/// Writes the address of `port` at `host`.
pub fn endpoint(host: &str, port: u16) -> (addr: String)
    ensures
        addr@ == endpoint_text(host@, port),
{
    let digits: String = port_text(port);
    String::from_str(host).concat(":").concat(digits.as_str())
}

/// Writes the address of `port` on every IPv4 interface.
pub fn any_interface(port: u16) -> (addr: String)
    ensures
        addr@ == any_interface_text(port),
{
    let digits: String = port_text(port);
    String::from_str("0.0.0.0:").concat(digits.as_str())
}

/// The address to bind a socket that talks to `remote`.
pub fn ephemeral(remote: &PeerAddr) -> (addr: &'static str)
    ensures
        addr@ == ephemeral_text(*remote),
{
    if remote.is_ipv4() {
        "0.0.0.0:0"
    } else {
        "[::]:0"
    }
}

} // verus!
