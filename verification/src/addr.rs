//! Network addresses as plain values.

use vstd::prelude::*;

verus! {

/// The address of a peer: an IP address and a port, with the two extra
/// fields that an IPv6 socket address carries.
#[derive(Clone, Copy, Debug, PartialEq, Eq, Hash)]
pub enum PeerAddr {
    V4 { octets: [u8; 4], port: u16 },
    V6 { segments: [u16; 8], port: u16, flowinfo: u32, scope_id: u32 },
}

} // verus!
