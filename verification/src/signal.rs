//! The flag by which the handle tells the worker to stop.

use vstd::prelude::*;
use std::sync::atomic::{AtomicBool, Ordering};
use std::sync::Arc;

verus! {

/// A flag shared between the handle and the worker. It starts lowered, and
/// the only write the library ever makes to it, when the handle is released,
/// raises it: once raised it stays raised.
#[derive(Debug)]
pub struct StopSignal {
    flag: Arc<AtomicBool>,
}

impl StopSignal {
    /// Whether the flag is one that was made lowered: what
    /// `AtomicBool::new(false)` returned.
    pub closed spec fn made_lowered(&self) -> bool {
        call_ensures(AtomicBool::new, (false,), *self.flag)
    }

    /// Whether `raised` is what a read of this very flag returned: a relaxed
    /// `AtomicBool::load` of it.
    pub closed spec fn read_as(&self, raised: bool) -> bool {
        call_ensures(AtomicBool::load, (&*self.flag, Ordering::Relaxed), raised)
    }

    /// Whether `was` is what the flag held when `true` was stored into this
    /// very flag: what a relaxed `AtomicBool::swap` of `true` into it
    /// returned.
    pub closed spec fn raised_over(&self, was: bool) -> bool {
        call_ensures(AtomicBool::swap, (&*self.flag, true, Ordering::Relaxed), was)
    }

    /// `AtomicBool::swap`: stores `true` into the flag and returns what the
    /// flag held before. Taken on trust: that the call neither unwinds nor
    /// opens an invariant, which the swap of an atomic cannot do.
    #[verifier::external_body]
    pub(crate) fn raise(&self) -> (was: bool)
        ensures
            self.raised_over(was),
        opens_invariants none
        no_unwind
    {
        self.flag.swap(true, Ordering::Relaxed)
    }

    /// A new flag, lowered.
    pub fn new() -> (signal: StopSignal)
        ensures
            signal.made_lowered(),
    {
        StopSignal { flag: Arc::new(AtomicBool::new(false)) }
    }

    /// Whether the flag has been raised: what a read of the flag gives at
    /// the time of the call. That depends on what the other holders of the
    /// flag have done by then.
    pub fn is_raised(&self) -> (raised: bool)
        ensures
            self.read_as(raised),
    {
        self.flag.load(Ordering::Relaxed)
    }

    /// Another handle on the same flag.
    pub fn share(&self) -> (other: StopSignal)
        ensures
            other == *self,
    {
        StopSignal { flag: self.flag.clone() }
    }
}

} // verus!
