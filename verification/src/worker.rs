//! The background worker: what it is handed, and what it does next.
//!
//! The worker owns the transport. It polls it, feeds what the transport
//! produced into the event channel, pauses, and looks at the stop flag again.
//! Running it takes a thread and a clock, which belong to the application;
//! every decision it makes is taken here.

use vstd::prelude::*;
use crossbeam::channel::Sender;
use crate::channel::offer;
use crate::event::TransportEvent;

verus! {

/// How long the worker pauses between two polls, in milliseconds. It bounds
/// both the delay of an event and the delay of a shutdown.
pub const POLL_INTERVAL_MILLIS: u64 = 1;

/// What the worker does when a poll of the transport has failed.
#[derive(Clone, Copy, Debug, PartialEq, Eq)]
pub enum ErrorPolicy {
    /// Keep polling: the failure is taken to be passing.
    Continue,
    /// Stop the worker, as if the handle had been released.
    Exit,
}

/// How the last poll of the transport went.
#[derive(Clone, Copy, Debug, PartialEq, Eq)]
pub enum PollReport {
    Completed,
    Failed,
}

/// The worker's next move.
#[derive(Clone, Copy, Debug, PartialEq, Eq)]
pub enum WorkerAction {
    /// Poll the transport once, then pause for so many milliseconds.
    Poll { pause_millis: u64 },
    /// Leave the loop and release the transport.
    Exit,
}

/// The move that the worker's rules prescribe: it leaves once the stop flag
/// is seen raised, or after a failed poll where the policy says so, and polls
/// again otherwise.
pub open spec fn action_for(policy: ErrorPolicy, stop_raised: bool, last_poll: PollReport) -> WorkerAction {
    if stop_raised {
        WorkerAction::Exit
    } else if policy == ErrorPolicy::Exit && last_poll == PollReport::Failed {
        WorkerAction::Exit
    } else {
        WorkerAction::Poll { pause_millis: POLL_INTERVAL_MILLIS }
    }
}

/// Decides the worker's next move from the stop flag as it was just read and
/// the outcome of the last poll (`Completed` before the first one).
pub fn next_action(policy: ErrorPolicy, stop_raised: bool, last_poll: PollReport) -> (action: WorkerAction)
    ensures
        action == action_for(policy, stop_raised, last_poll),
{
    if stop_raised {
        return WorkerAction::Exit;
    }
    match (policy, last_poll) {
        (ErrorPolicy::Exit, PollReport::Failed) => WorkerAction::Exit,
        _ => WorkerAction::Poll { pause_millis: POLL_INTERVAL_MILLIS },
    }
}

/// Once the stop flag is read as raised the worker leaves its loop, whatever
/// the policy and however the last poll went.
pub proof fn lemma_raised_flag_ends_worker(policy: ErrorPolicy, last_poll: PollReport)
    ensures
        action_for(policy, true, last_poll) == WorkerAction::Exit,
{
}

/// How many polls a worker makes whose loop takes the given turns. Each turn
/// is the stop flag as the worker reads it at the top of the loop, and how
/// the poll of that turn goes if the worker gets to make it. The count ends
/// with the turn at which the worker leaves, or with the last turn given.
pub open spec fn polls_made(policy: ErrorPolicy, turns: Seq<(bool, PollReport)>, last_poll: PollReport) -> nat
    decreases turns.len(),
{
    if turns.len() == 0 {
        0
    } else if action_for(policy, turns[0].0, last_poll) is Exit {
        0
    } else {
        1 + polls_made(policy, turns.skip(1), turns[0].1)
    }
}

/// A worker that reads the flag as raised at its turn `k` has left the loop
/// by then: it makes at most `k` polls, and so pauses at most `k` times,
/// however the polls go and whatever the policy.
pub proof fn lemma_worker_stops_at_first_raised_look(
    policy: ErrorPolicy,
    turns: Seq<(bool, PollReport)>,
    last_poll: PollReport,
    k: int,
)
    requires
        0 <= k < turns.len(),
        turns[k].0,
    ensures
        polls_made(policy, turns, last_poll) <= k,
    decreases turns.len(),
{
    if k > 0 && !(action_for(policy, turns[0].0, last_poll) is Exit) {
        lemma_worker_stops_at_first_raised_look(policy, turns.skip(1), turns[0].1, k - 1);
    }
}

/// While the flag is lowered and the polls complete, the worker goes on
/// polling, with the fixed pause between two polls.
pub proof fn lemma_worker_keeps_polling(policy: ErrorPolicy)
    ensures
        action_for(policy, false, PollReport::Completed) == (WorkerAction::Poll {
            pause_millis: POLL_INTERVAL_MILLIS,
        }),
{
}

/// The worker's end of the event channel. When the worker drops it, the
/// bridge finds the channel disconnected.
#[derive(Debug)]
pub struct EventFeed {
    sender: Sender<TransportEvent>,
}

impl EventFeed {
    /// The channel side that this feed sends on.
    pub closed spec fn sender(&self) -> Sender<TransportEvent> {
        self.sender
    }

    /// A feed that sends on the given channel side.
    pub fn new(sender: Sender<TransportEvent>) -> (feed: EventFeed)
        ensures
            feed.sender() == sender,
    {
        EventFeed { sender }
    }

    /// Whether `refused` is what this feed's channel returned when it was
    /// offered `event`: nothing if it took the event, the event if it did
    /// not.
    pub closed spec fn offered(&self, event: TransportEvent, refused: Option<TransportEvent>) -> bool {
        call_ensures(offer::<TransportEvent>, (&self.sender, event), refused)
    }

    /// Queues an event for the bridge, behind those already waiting. Hands
    /// the event back if the bridge is gone.
    pub fn publish(&self, event: TransportEvent) -> (refused: Option<TransportEvent>)
        ensures
            self.offered(event, refused),
            refused is Some ==> refused == Some(event),
    {
        offer(&self.sender, event)
    }
}

/// A started background unit of execution, as the bridge holds it.
pub trait Worker: Sized {
    /// Waits until the unit has ended.
    fn join(self);
}

} // verus!
