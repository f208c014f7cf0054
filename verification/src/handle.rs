//! The handle through which the application sends.

use vstd::prelude::*;
use crossbeam::channel::Sender;
use crate::channel::offer;
use crate::signal::StopSignal;

verus! {

/// The error of a send that came after the worker had ended. It holds the
/// packet that could not be queued.
#[derive(Debug, PartialEq)]
pub struct SendAfterShutdown {
    pub packet: laminar::Packet,
}

/// What a send returns, given what the channel did with the packet: success
/// if it was taken, the error with the packet if it was handed back.
pub open spec fn send_result(refused: Option<laminar::Packet>) -> Result<(), SendAfterShutdown> {
    match refused {
        None => Ok(()),
        Some(packet) => Err(SendAfterShutdown { packet }),
    }
}

/// Reports a send from what the channel did with the packet.
pub fn conclude_send(refused: Option<laminar::Packet>) -> (out: Result<(), SendAfterShutdown>)
    ensures
        out == send_result(refused),
{
    match refused {
        None => Ok(()),
        Some(packet) => Err(SendAfterShutdown { packet }),
    }
}

/// The application's handle on a bound transport. Packets sent through it
/// are queued for the worker; releasing it raises the stop flag, which is the
/// only way the worker is told to end.
#[derive(Debug)]
pub struct OutboundHandle {
    sender: Sender<laminar::Packet>,
    stop_signal: StopSignal,
}

impl OutboundHandle {
    /// The channel side on which packets are queued.
    pub closed spec fn sender(&self) -> Sender<laminar::Packet> {
        self.sender
    }

    /// The flag that releasing the handle raises.
    pub closed spec fn stop_signal(&self) -> StopSignal {
        self.stop_signal
    }

    /// A handle that queues on `sender` and raises `stop_signal` when it is
    /// released.
    pub fn new(sender: Sender<laminar::Packet>, stop_signal: StopSignal) -> (handle: OutboundHandle)
        ensures
            handle.sender() == sender,
            handle.stop_signal() == stop_signal,
    {
        OutboundHandle { sender, stop_signal }
    }

    /// Whether `refused` is what this handle's queue returned when it was
    /// offered `packet`: nothing if it took the packet, the packet if it did
    /// not.
    pub closed spec fn offered(&self, packet: laminar::Packet, refused: Option<laminar::Packet>) -> bool {
        call_ensures(offer::<laminar::Packet>, (&self.sender, packet), refused)
    }

    /// Queues a packet for the transport, behind those already waiting,
    /// without blocking. Fails, with the packet, if the queue does not take
    /// it, which on the queue of a bound transport means that the worker has
    /// ended: the packet is never dropped in silence.
    pub fn send(&self, packet: laminar::Packet) -> (out: Result<(), SendAfterShutdown>)
        ensures
            exists|refused: Option<laminar::Packet>| #[trigger]
                self.offered(packet, refused) && out == send_result(refused),
            out == send_result(None) || out == send_result(Some(packet)),
    {
        let refused = offer(&self.sender, packet);
        assert(self.offered(packet, refused));
        conclude_send(refused)
    }
}

impl Drop for OutboundHandle {
    /// Releasing the handle stores `true` into its stop flag.
    fn drop(&mut self)
        ensures
            exists|was: bool| #[trigger] old(self).stop_signal().raised_over(was),
        opens_invariants none
        no_unwind
    {
        let was = self.stop_signal.raise();
        assert(old(self).stop_signal().raised_over(was));
    }
}

} // verus!
