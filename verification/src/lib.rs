//! A bridge between a poll-driven UDP transport and a frame loop.
//!
//! A background worker owns the transport and feeds what it produces into a
//! channel; the frame loop drains that channel one event per call through
//! [`Network::get_event`], and sends packets through the [`OutboundHandle`]
//! whose release ends the worker.

pub mod addr;
pub mod channel;
pub mod event;
pub mod handle;
pub mod network;
pub mod signal;
pub mod transport;
pub mod worker;

pub use addr::PeerAddr;
pub use channel::Polled;
pub use event::{normalize, NetworkEvent, TransportEvent};
pub use handle::{conclude_send, OutboundHandle, SendAfterShutdown};
pub use network::{BindError, Network, NetworkView};
pub use signal::StopSignal;
pub use worker::{next_action, ErrorPolicy, EventFeed, PollReport, Worker, WorkerAction, POLL_INTERVAL_MILLIS};
