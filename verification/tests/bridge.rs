use std::cell::Cell;
use std::rc::Rc;

use crossbeam::channel::unbounded;
use laminar::Packet;
use netbridge::{normalize, EventFeed, Network, NetworkEvent, PeerAddr, Polled, TransportEvent, Worker};

struct Counted {
    joins: Rc<Cell<u32>>,
}

impl Worker for Counted {
    fn join(self) {
        self.joins.set(self.joins.get() + 1);
    }
}

fn peer(port: u16) -> PeerAddr {
    PeerAddr::V4 { octets: [127, 0, 0, 1], port }
}

fn packet(bytes: &[u8]) -> Packet {
    Packet::reliable_unordered("127.0.0.1:4000".parse().unwrap(), bytes.to_vec())
}

fn running() -> (Network<Counted>, EventFeed, Rc<Cell<u32>>) {
    let joins = Rc::new(Cell::new(0));
    let (sender, receiver) = unbounded();
    let mut network = Network::new();
    network.adopt(Counted { joins: joins.clone() }, receiver);
    (network, EventFeed::new(sender), joins)
}

#[test]
fn new_bridge_is_idle_and_silent() {
    let mut network: Network<Counted> = Network::new();
    assert!(!network.is_running());
    assert_eq!(network.get_event(), None);
    assert_eq!(network.get_event(), None);
    assert!(!network.is_running());
}

#[test]
fn default_bridge_is_idle() {
    let mut network: Network<Counted> = Network::default();
    assert!(!network.is_running());
    assert_eq!(network.get_event(), None);
}

#[test]
fn adopted_worker_makes_the_bridge_run() {
    let (mut network, _feed, joins) = running();
    assert!(network.is_running());
    assert_eq!(network.get_event(), None);
    assert!(network.is_running());
    assert_eq!(joins.get(), 0);
}

#[test]
fn events_come_out_in_order_each_once() {
    let (mut network, feed, _joins) = running();
    assert_eq!(feed.publish(TransportEvent::Connect(peer(1))), None);
    assert_eq!(feed.publish(TransportEvent::Packet(packet(b"one"))), None);
    assert_eq!(feed.publish(TransportEvent::Packet(packet(b"two"))), None);
    assert_eq!(feed.publish(TransportEvent::Timeout(peer(1))), None);
    assert_eq!(feed.publish(TransportEvent::Disconnect(peer(1))), None);

    assert_eq!(network.get_event(), Some(NetworkEvent::Connect(peer(1))));
    assert_eq!(network.get_event(), Some(NetworkEvent::Message(packet(b"one"))));
    assert_eq!(network.get_event(), Some(NetworkEvent::Message(packet(b"two"))));
    assert_eq!(network.get_event(), Some(NetworkEvent::Timeout(peer(1))));
    assert_eq!(network.get_event(), Some(NetworkEvent::Disconnect(peer(1))));
    assert_eq!(network.get_event(), None);
    assert!(network.is_running());
}

#[test]
fn one_call_takes_one_event() {
    let (mut network, feed, _joins) = running();
    feed.publish(TransportEvent::Connect(peer(7)));
    feed.publish(TransportEvent::Connect(peer(8)));
    assert_eq!(network.get_event(), Some(NetworkEvent::Connect(peer(7))));
    feed.publish(TransportEvent::Connect(peer(9)));
    assert_eq!(network.get_event(), Some(NetworkEvent::Connect(peer(8))));
    assert_eq!(network.get_event(), Some(NetworkEvent::Connect(peer(9))));
    assert_eq!(network.get_event(), None);
}

#[test]
fn equal_events_are_not_merged() {
    let (mut network, feed, _joins) = running();
    feed.publish(TransportEvent::Timeout(peer(5)));
    feed.publish(TransportEvent::Timeout(peer(5)));
    assert_eq!(network.get_event(), Some(NetworkEvent::Timeout(peer(5))));
    assert_eq!(network.get_event(), Some(NetworkEvent::Timeout(peer(5))));
    assert_eq!(network.get_event(), None);
}

#[test]
fn disconnect_joins_the_worker_and_clears_the_bridge() {
    let (mut network, feed, joins) = running();
    drop(feed);
    assert!(network.is_running());
    assert_eq!(network.get_event(), None);
    assert!(!network.is_running());
    assert_eq!(joins.get(), 1);
}

#[test]
fn stopped_bridge_returns_none_without_joining_again() {
    let (mut network, feed, joins) = running();
    drop(feed);
    assert_eq!(network.get_event(), None);
    assert_eq!(joins.get(), 1);
    for _ in 0..10 {
        assert_eq!(network.get_event(), None);
        assert!(!network.is_running());
    }
    assert_eq!(joins.get(), 1);
}

#[test]
fn events_queued_before_the_worker_ended_are_still_delivered() {
    let (mut network, feed, joins) = running();
    feed.publish(TransportEvent::Packet(packet(b"last words")));
    feed.publish(TransportEvent::Disconnect(peer(3)));
    drop(feed);
    assert_eq!(network.get_event(), Some(NetworkEvent::Message(packet(b"last words"))));
    assert_eq!(network.get_event(), Some(NetworkEvent::Disconnect(peer(3))));
    assert!(network.is_running());
    assert_eq!(joins.get(), 0);
    assert_eq!(network.get_event(), None);
    assert!(!network.is_running());
    assert_eq!(joins.get(), 1);
}

#[test]
fn settle_hands_an_event_on() {
    let (mut network, _feed, joins) = running();
    let event = network.settle(Polled::Event(TransportEvent::Packet(packet(b"abc"))));
    assert_eq!(event, Some(NetworkEvent::Message(packet(b"abc"))));
    assert!(network.is_running());
    assert_eq!(joins.get(), 0);
}

#[test]
fn settle_on_an_empty_channel_changes_nothing() {
    let (mut network, _feed, joins) = running();
    assert_eq!(network.settle(Polled::Empty), None);
    assert!(network.is_running());
    assert_eq!(joins.get(), 0);
}

#[test]
fn settle_on_a_disconnected_channel_stops_the_bridge() {
    let (mut network, _feed, joins) = running();
    assert_eq!(network.settle(Polled::Disconnected), None);
    assert!(!network.is_running());
    assert_eq!(joins.get(), 1);
}

#[test]
fn settle_on_an_idle_bridge_joins_nothing() {
    let mut network: Network<Counted> = Network::new();
    assert_eq!(network.settle(Polled::Disconnected), None);
    assert!(!network.is_running());
    assert_eq!(
        network.settle(Polled::Event(TransportEvent::Connect(peer(2)))),
        Some(NetworkEvent::Connect(peer(2)))
    );
    assert!(!network.is_running());
}

#[test]
fn adopting_again_replaces_the_worker_without_joining_it() {
    let (mut network, first_feed, first_joins) = running();
    first_feed.publish(TransportEvent::Connect(peer(1)));

    let second_joins = Rc::new(Cell::new(0));
    let (sender, receiver) = unbounded();
    network.adopt(Counted { joins: second_joins.clone() }, receiver);
    let second_feed = EventFeed::new(sender);
    second_feed.publish(TransportEvent::Connect(peer(2)));

    assert_eq!(network.get_event(), Some(NetworkEvent::Connect(peer(2))));
    assert_eq!(network.get_event(), None);
    drop(second_feed);
    assert_eq!(network.get_event(), None);
    assert_eq!(first_joins.get(), 0);
    assert_eq!(second_joins.get(), 1);
}

#[test]
fn normalize_maps_each_kind_to_its_own() {
    assert_eq!(
        normalize(TransportEvent::Packet(packet(b"payload"))),
        NetworkEvent::Message(packet(b"payload"))
    );
    assert_eq!(normalize(TransportEvent::Connect(peer(10))), NetworkEvent::Connect(peer(10)));
    assert_eq!(normalize(TransportEvent::Timeout(peer(11))), NetworkEvent::Timeout(peer(11)));
    assert_eq!(normalize(TransportEvent::Disconnect(peer(12))), NetworkEvent::Disconnect(peer(12)));
}

#[test]
fn normalize_keeps_an_ipv6_peer_whole() {
    let peer = PeerAddr::V6 { segments: [0xfe80, 0, 0, 0, 0, 0, 0, 1], port: 9000, flowinfo: 7, scope_id: 3 };
    assert_eq!(normalize(TransportEvent::Connect(peer)), NetworkEvent::Connect(peer));
}

#[test]
fn normalize_keeps_the_packet_as_it_is() {
    let sent = Packet::reliable_ordered("10.1.2.3:77".parse().unwrap(), vec![1, 2, 3, 255], Some(4));
    match normalize(TransportEvent::Packet(sent.clone())) {
        NetworkEvent::Message(got) => {
            assert_eq!(got.payload(), &[1, 2, 3, 255]);
            assert_eq!(got.addr(), sent.addr());
            assert_eq!(got.delivery_guarantee(), laminar::DeliveryGuarantee::Reliable);
            assert_eq!(got.order_guarantee(), laminar::OrderingGuarantee::Ordered(Some(4)));
        },
        other => panic!("expected a message, got {:?}", other),
    }
}

#[test]
fn cloned_event_equals_its_source() {
    let event = NetworkEvent::Message(packet(b"copy me"));
    let copy = event.clone();
    assert_eq!(copy, event);
    match copy {
        NetworkEvent::Message(got) => assert_eq!(got.payload(), b"copy me"),
        other => panic!("expected a message, got {:?}", other),
    }
}
