//! Types for EPP host requests (RFC 5732).
use vstd::prelude::*;

pub mod delete;
pub mod update;

verus! {

/// XML namespace of the EPP host mapping.
pub const XMLNS: &'static str = "urn:ietf:params:xml:ns:host-1.0";

/// Status of a host object (RFC 5732, section 2.3).
#[derive(Clone, Copy, Debug, PartialEq, Eq)]
pub enum Status {
    ClientDeleteProhibited,
    ServerDeleteProhibited,
    ClientUpdateProhibited,
    ServerUpdateProhibited,
    Linked,
    /// The host has no pending operation and no prohibition (`ok`).
    Okay,
    PendingCreate,
    PendingDelete,
    PendingTransfer,
    PendingUpdate,
}

/// An IP address of a host: the four octets of an IPv4 address or the eight
/// 16-bit groups of an IPv6 address, most significant first.
#[derive(Clone, Copy, Debug, PartialEq, Eq)]
pub enum IpAddr {
    V4([u8; 4]),
    V6([u16; 8]),
}

impl From<[u8; 4]> for IpAddr {
    fn from(octets: [u8; 4]) -> (r: IpAddr) {
        IpAddr::V4(octets)
    }
}

impl vstd::std_specs::convert::FromSpecImpl<[u8; 4]> for IpAddr {
    open spec fn obeys_from_spec() -> bool {
        true
    }

    open spec fn from_spec(v: [u8; 4]) -> IpAddr {
        IpAddr::V4(v)
    }
}

impl From<[u16; 8]> for IpAddr {
    fn from(segments: [u16; 8]) -> (r: IpAddr) {
        IpAddr::V6(segments)
    }
}

impl vstd::std_specs::convert::FromSpecImpl<[u16; 8]> for IpAddr {
    open spec fn obeys_from_spec() -> bool {
        true
    }

    open spec fn from_spec(v: [u16; 8]) -> IpAddr {
        IpAddr::V6(v)
    }
}

} // verus!
