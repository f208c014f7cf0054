//! The transport's own types, as far as the bridge handles them.
//!
//! The bridge never looks inside any of these values: it carries them from
//! the caller to the worker and back. Nothing here is proved; each item says
//! what it takes on trust.

use vstd::prelude::*;
use crossbeam::channel::Sender;

verus! {

/// `laminar::Packet`: a payload with its peer address and delivery
/// guarantees.
#[verifier::external_type_specification]
#[verifier::external_body]
pub struct ExPacket(laminar::Packet);

/// `laminar::Socket`: the bound transport, which the worker owns and polls.
#[verifier::external_type_specification]
#[verifier::external_body]
pub struct ExTransport(laminar::Socket);

/// `laminar::ErrorKind`: what the transport reports when it cannot bind.
#[verifier::external_type_specification]
#[verifier::external_body]
pub struct ExErrorKind(laminar::ErrorKind);

/// `Clone::clone` of `laminar::Packet`, which the crate derives: the copy has
/// the address, payload and guarantees of the packet it was made from.
pub assume_specification[ <laminar::Packet as Clone>::clone ](packet: &laminar::Packet) -> (copy:
    laminar::Packet)
    ensures
        copy == *packet,
;

/// `laminar::Socket::get_packet_sender`: another handle on the queue of
/// packets that the transport sends at its next poll. Nothing is claimed of
/// the handle.
pub assume_specification[ laminar::Socket::get_packet_sender ](transport: &laminar::Socket) -> (sender:
    Sender<laminar::Packet>)
;

} // verus!
