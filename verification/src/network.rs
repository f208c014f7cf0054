//! The bridge: the frame loop's side of a bound transport.

use vstd::prelude::*;
use crossbeam::channel::{unbounded, Receiver};
use crate::channel::{try_receive, Polled};
use crate::event::{normalize, normalized, NetworkEvent, TransportEvent};
use crate::handle::OutboundHandle;
use crate::signal::StopSignal;
use crate::worker::{EventFeed, Worker};

verus! {

/// The transport could not be bound. Holds what the transport reported.
#[derive(Debug)]
pub struct BindError {
    pub cause: laminar::ErrorKind,
}

/// What a bridge holds: its worker and its side of the event channel. Both
/// are present while the bridge runs and both are absent while it does not.
pub struct NetworkView<W> {
    pub worker: Option<W>,
    pub receiver: Option<Receiver<TransportEvent>>,
}

impl<W> NetworkView<W> {
    /// A bridge that has no worker: never bound, or stopped and joined.
    pub open spec fn idle() -> Self {
        NetworkView { worker: None, receiver: None }
    }

    /// Whether a worker is attached.
    pub open spec fn is_running(self) -> bool {
        self.worker is Some
    }

    /// The bridge after one look into the channel gave `polled`: unchanged,
    /// unless the channel was found disconnected, which stops it.
    pub open spec fn after(self, polled: Polled) -> Self {
        if polled is Disconnected {
            Self::idle()
        } else {
            self
        }
    }

    /// One call for an event: the bridge afterwards and what the call
    /// returns, where `polled` is what a look into the channel would find.
    /// A bridge that is not running does not look.
    pub open spec fn poll(self, polled: Polled) -> (Self, Option<NetworkEvent>) {
        if self.is_running() {
            (self.after(polled), delivered(polled))
        } else {
            (self, None)
        }
    }

    /// A run of calls for an event, one for each entry of `looks`: the bridge
    /// at the end and what the calls return, in order.
    pub open spec fn poll_all(self, looks: Seq<Polled>) -> (Self, Seq<Option<NetworkEvent>>)
        decreases looks.len(),
    {
        if looks.len() == 0 {
            (self, Seq::empty())
        } else {
            let (next, event) = self.poll(looks[0]);
            let (last, events) = next.poll_all(looks.skip(1));
            (last, seq![event] + events)
        }
    }
}

/// The event that one look into the channel delivers to the application.
pub open spec fn delivered(polled: Polled) -> Option<NetworkEvent> {
    match polled {
        Polled::Event(event) => Some(normalized(event)),
        Polled::Empty => None,
        Polled::Disconnected => None,
    }
}

/// The frame loop's side of a bound transport. It owns the worker and drains
/// the event channel, one event per call.
#[derive(Debug)]
pub struct Network<W> {
    socket_thread: Option<W>,
    receiver: Option<Receiver<TransportEvent>>,
}

impl<W> View for Network<W> {
    type V = NetworkView<W>;

    closed spec fn view(&self) -> NetworkView<W> {
        NetworkView { worker: self.socket_thread, receiver: self.receiver }
    }
}

impl<W> Default for Network<W> {
    /// A bridge with no transport bound yet.
    fn default() -> (network: Self)
        ensures
            network@ == NetworkView::<W>::idle(),
    {
        Network::new()
    }
}

impl<W> Network<W> {
    #[verifier::type_invariant]
    spec fn paired(self) -> bool {
        self.socket_thread is Some <==> self.receiver is Some
    }

    /// Whether `polled` is what a look into this bridge's own event channel
    /// found: what `try_recv` on its receiver returned. A bridge without a
    /// receiver has nothing to look into.
    pub closed spec fn looked(&self, polled: Polled) -> bool {
        self.receiver is Some && call_ensures(try_receive, (&self.receiver->Some_0,), polled)
    }

    /// A bridge with no transport bound yet.
    pub fn new() -> (network: Self)
        ensures
            network@ == NetworkView::<W>::idle(),
    {
        Network { socket_thread: None, receiver: None }
    }

    /// Whether a worker is attached. A bridge has its side of the event
    /// channel exactly while it has a worker.
    pub fn is_running(&self) -> (running: bool)
        ensures
            running == self@.is_running(),
            running == (self@.receiver is Some),
    {
        proof {
            use_type_invariant(self);
        }
        self.socket_thread.is_some()
    }

    /// Attaches a started worker and the receiving side of its event
    /// channel. A worker that was attached before is let go without being
    /// joined.
    pub fn adopt(&mut self, worker: W, receiver: Receiver<TransportEvent>)
        ensures
            final(self)@ == (NetworkView { worker: Some(worker), receiver: Some(receiver) }),
    {
        *self = Network { socket_thread: Some(worker), receiver: Some(receiver) };
    }
}

impl<W: Worker> Network<W> {
    /// Acts on what one look into the event channel found. An event is
    /// handed on in its application form. A disconnected channel means that
    /// the worker has ended: it is joined and the bridge is cleared.
    pub fn settle(&mut self, polled: Polled) -> (event: Option<NetworkEvent>)
        ensures
            event == delivered(polled),
            final(self)@ == old(self)@.after(polled),
            polled is Disconnected && old(self)@.worker is Some ==> call_ensures(
                <W as Worker>::join,
                (old(self)@.worker->Some_0,),
                (),
            ),
    {
        match polled {
            Polled::Event(event) => Some(normalize(event)),
            Polled::Empty => None,
            Polled::Disconnected => {
                let mut ended = Network { socket_thread: None, receiver: None };
                std::mem::swap(self, &mut ended);
                let Network { socket_thread, receiver: _receiver } = ended;
                match socket_thread {
                    Some(worker) => worker.join(),
                    None => {},
                }
                None
            },
        }
    }

    /// Takes at most one event out of the channel, the oldest, without
    /// blocking. Returns `None` if the bridge is not running or nothing is
    /// waiting. The call that finds the channel disconnected joins the worker
    /// and clears the bridge; later calls return `None` at once.
    pub fn get_event(&mut self) -> (event: Option<NetworkEvent>)
        ensures
            exists|polled: Polled| (final(self)@, event) == #[trigger] old(self)@.poll(polled),
            old(self)@.is_running() ==> exists|polled: Polled| #[trigger]
                old(self).looked(polled) && (final(self)@, event) == old(self)@.poll(polled),
            !old(self)@.is_running() ==> event is None && final(self)@ == old(self)@,
            event is Some ==> final(self)@ == old(self)@,
            final(self)@ == old(self)@ || final(self)@ == NetworkView::<W>::idle(),
            old(self)@.is_running() && !final(self)@.is_running() ==> call_ensures(
                <W as Worker>::join,
                (old(self)@.worker->Some_0,),
                (),
            ),
    {
        proof {
            use_type_invariant(&*self);
        }
        let polled = match &self.receiver {
            Some(receiver) => try_receive(receiver),
            None => {
                assert((self@, None::<NetworkEvent>) == self@.poll(Polled::Empty));
                return None;
            },
        };
        assert(self.looked(polled));
        let event = self.settle(polled);
        assert(old(self).looked(polled));
        assert((self@, event) == old(self)@.poll(polled));
        event
    }

    /// Puts a bound transport to work. On `Ok`, has `launch` start a worker
    /// on the transport, attaches that worker, and returns the handle for
    /// sending. The worker is handed the transport for good, the sending
    /// side of a new event channel whose receiving side the bridge keeps,
    /// and the stop flag that the handle raises when it is released, which
    /// starts lowered. The handle queues on the transport's own packet
    /// queue. A worker that was attached before is let go without being
    /// joined. On `Err`, starts nothing and reports the cause.
    pub fn bind_with_config<F>(
        &mut self,
        bound: Result<laminar::Socket, laminar::ErrorKind>,
        launch: F,
    ) -> (out: Result<OutboundHandle, BindError>) where F: FnOnce(laminar::Socket, EventFeed, StopSignal) -> W
        requires
            forall|transport: laminar::Socket, feed: EventFeed, stop: StopSignal|
                launch.requires((transport, feed, stop)),
        ensures
            bound is Err ==> out == Err::<OutboundHandle, BindError>(BindError { cause: bound->Err_0 })
                && final(self)@ == old(self)@,
            bound is Ok ==> out is Ok && final(self)@.is_running() && exists|feed: EventFeed| #[trigger]
                launch.ensures(
                    (bound->Ok_0, feed, out->Ok_0.stop_signal()),
                    final(self)@.worker->Some_0,
                ) && call_ensures(
                    unbounded::<TransportEvent>,
                    (),
                    (feed.sender(), final(self)@.receiver->Some_0),
                ),
            bound is Ok ==> call_ensures(
                laminar::Socket::get_packet_sender,
                (&bound->Ok_0,),
                out->Ok_0.sender(),
            ),
            bound is Ok ==> out->Ok_0.stop_signal().made_lowered(),
    {
        match bound {
            Err(cause) => Err(BindError { cause }),
            Ok(transport) => {
                let sender = transport.get_packet_sender();
                let (feed_side, receiver) = unbounded();
                let feed = EventFeed::new(feed_side);
                let stop_signal = StopSignal::new();
                let stop = stop_signal.share();
                let ghost handed = (transport, feed, stop);
                let worker = launch(transport, feed, stop);
                self.adopt(worker, receiver);
                let handle = OutboundHandle::new(sender, stop_signal);
                let out = Ok(handle);
                assert(launch.ensures((bound->Ok_0, handed.1, out->Ok_0.stop_signal()), self@.worker->Some_0)
                    && call_ensures(
                    unbounded::<TransportEvent>,
                    (),
                    (handed.1.sender(), self@.receiver->Some_0),
                ));
                out
            },
        }
    }
}

/// What the calls return when every look finds what `delivered` says of it.
pub open spec fn deliveries(looks: Seq<Polled>) -> Seq<Option<NetworkEvent>> {
    Seq::new(looks.len(), |i: int| delivered(looks[i]))
}

/// The looks of a frame loop that finds the given events waiting, oldest
/// first, and then an empty channel.
pub open spec fn looks_finding(events: Seq<TransportEvent>) -> Seq<Polled> {
    Seq::new(
        events.len() + 1,
        |i: int|
            if i < events.len() {
                Polled::Event(events[i])
            } else {
                Polled::Empty
            },
    )
}

/// The given events in their application form, each once and in order, and
/// then `None`.
pub open spec fn each_once_then_none(events: Seq<TransportEvent>) -> Seq<Option<NetworkEvent>> {
    Seq::new(
        events.len() + 1,
        |i: int|
            if i < events.len() {
                Some(normalized(events[i]))
            } else {
                None
            },
    )
}

/// As long as the channel is not found disconnected, a running bridge stays
/// as it is and every call returns exactly what its look found: nothing is
/// held back, merged, repeated or reordered.
pub proof fn lemma_one_result_per_look<W>(bridge: NetworkView<W>, looks: Seq<Polled>)
    requires
        bridge.is_running(),
        forall|i: int| 0 <= i < looks.len() ==> !(looks[i] is Disconnected),
    ensures
        bridge.poll_all(looks) == (bridge, deliveries(looks)),
    decreases looks.len(),
{
    if looks.len() == 0 {
        assert(deliveries(looks) =~= Seq::empty());
    } else {
        let rest = looks.skip(1);
        lemma_one_result_per_look(bridge, rest);
        assert(deliveries(looks) =~= seq![delivered(looks[0])] + deliveries(rest));
    }
}

/// Events that the transport produced come out of a running bridge in the
/// order in which they went into the channel, each exactly once, and the
/// call after the last of them returns `None`. The bridge is still running.
pub proof fn lemma_events_delivered_in_order<W>(bridge: NetworkView<W>, events: Seq<TransportEvent>)
    requires
        bridge.is_running(),
    ensures
        bridge.poll_all(looks_finding(events)) == (bridge, each_once_then_none(events)),
{
    lemma_one_result_per_look(bridge, looks_finding(events));
    assert(deliveries(looks_finding(events)) =~= each_once_then_none(events));
}

/// A bridge that is not running returns `None` to every call and stays as it
/// is, whatever a look into the channel would have found: it does not look,
/// and it joins nothing.
pub proof fn lemma_stopped_bridge_is_silent<W>(bridge: NetworkView<W>, looks: Seq<Polled>)
    requires
        !bridge.is_running(),
    ensures
        bridge.poll_all(looks) == (bridge, Seq::new(looks.len(), |i: int| None::<NetworkEvent>)),
    decreases looks.len(),
{
    let silent = Seq::new(looks.len(), |i: int| None::<NetworkEvent>);
    if looks.len() == 0 {
        assert(silent =~= Seq::empty());
    } else {
        let rest = looks.skip(1);
        lemma_stopped_bridge_is_silent(bridge, rest);
        assert(silent =~= seq![None::<NetworkEvent>] + Seq::new(rest.len(), |i: int| None::<NetworkEvent>));
    }
}

/// The call that finds the channel disconnected returns `None` and leaves
/// the bridge without worker and channel; every call after it returns `None`
/// and changes nothing.
pub proof fn lemma_disconnect_stops_bridge<W>(bridge: NetworkView<W>, later: Seq<Polled>)
    requires
        bridge.is_running(),
    ensures
        bridge.poll_all(seq![Polled::Disconnected] + later) == (
            NetworkView::<W>::idle(),
            Seq::new(later.len() + 1, |i: int| None::<NetworkEvent>),
        ),
{
    let looks = seq![Polled::Disconnected] + later;
    assert(looks.skip(1) =~= later);
    lemma_stopped_bridge_is_silent(NetworkView::<W>::idle(), later);
    assert(Seq::new(later.len() + 1, |i: int| None::<NetworkEvent>) =~= seq![None::<NetworkEvent>] + Seq::new(
        later.len(),
        |i: int| None::<NetworkEvent>,
    ));
}

} // verus!
