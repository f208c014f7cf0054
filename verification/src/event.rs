//! What the transport reports, and what the application is shown.

use vstd::prelude::*;
use crate::addr::PeerAddr;

verus! {

/// An event as the transport produces it.
#[derive(Clone, Debug, PartialEq)]
pub enum TransportEvent {
    /// A packet arrived from a peer.
    Packet(laminar::Packet),
    /// A connection with the peer has been established.
    Connect(PeerAddr),
    /// The peer has been idle for longer than the transport allows.
    Timeout(PeerAddr),
    /// The established connection to the peer is gone.
    Disconnect(PeerAddr),
}

/// An event as the application's loop sees it.
#[derive(Clone, Debug, PartialEq)]
pub enum NetworkEvent {
    Message(laminar::Packet),
    Connect(PeerAddr),
    Timeout(PeerAddr),
    Disconnect(PeerAddr),
}

/// The application-level event that stands for a transport event.
pub open spec fn normalized(event: TransportEvent) -> NetworkEvent {
    match event {
        TransportEvent::Packet(packet) => NetworkEvent::Message(packet),
        TransportEvent::Connect(peer) => NetworkEvent::Connect(peer),
        TransportEvent::Timeout(peer) => NetworkEvent::Timeout(peer),
        TransportEvent::Disconnect(peer) => NetworkEvent::Disconnect(peer),
    }
}

/// Turns a transport event into the one application event that stands for it.
pub fn normalize(event: TransportEvent) -> (out: NetworkEvent)
    ensures
        out == normalized(event),
{
    match event {
        TransportEvent::Packet(packet) => NetworkEvent::Message(packet),
        TransportEvent::Connect(peer) => NetworkEvent::Connect(peer),
        TransportEvent::Timeout(peer) => NetworkEvent::Timeout(peer),
        TransportEvent::Disconnect(peer) => NetworkEvent::Disconnect(peer),
    }
}

/// Normalising loses nothing: two transport events that normalise to the
/// same application event are the same event.
pub proof fn lemma_normalized_injective(a: TransportEvent, b: TransportEvent)
    requires
        normalized(a) == normalized(b),
    ensures
        a == b,
{
}

} // verus!
