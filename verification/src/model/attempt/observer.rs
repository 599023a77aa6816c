//! The observer protocol: events, the observer capability, and the mux
//! that fans events out.

use vstd::prelude::*;

use super::super::aggregate::{Kind, Source};
use super::super::category::Info;
use super::super::history::FullyTimed;
use super::super::pace::{PacedTime, SplitInRun};
use super::super::time::Time;

verus! {

/// What a time carried by a split event means.
#[derive(Debug, Clone, Copy, PartialEq, Eq, Structural)]
pub enum TimeKind {
    /// The time was just pushed onto the split.
    Pushed,
    /// The time was just popped off the split.
    Popped,
    /// The time is a freshly computed aggregate of the given kind.
    Aggregate(Kind),
}

/// An event on one split.
#[derive(Debug, Clone, Copy, PartialEq, Eq, Structural)]
pub enum SplitEvent {
    /// A time was logged, removed, or recomputed on the split.
    Time(Time, TimeKind),
    /// The split's pace in the run was reclassified.
    Pace(SplitInRun),
}

/// An event broadcast to every attached observer.
#[derive(Debug, Clone, PartialEq, Eq)]
pub enum Event {
    /// Initial information about one split: its short identifier and its
    /// display name, in split order.
    AddSplit(String, String),
    /// The run was reset; the payload carries the outgoing run as a
    /// historic record, or nothing if the run had never started.
    Reset(Option<FullyTimed>),
    /// The run is now on the given attempt number.
    Attempt(u64),
    /// Information about the game and category being run.
    GameCategory(Info),
    /// An event on the split with the given short identifier.
    Split(String, SplitEvent),
    /// A fresh running total for the given source, with its pace verdict.
    Total(PacedTime, Source),
}

/// An observer attached to the session.
///
/// Implementations live outside this crate's proofs; an observer that
/// wants to record what it sees does so behind its own interior
/// mutability.  Observers must not block: they run synchronously on the
/// session's only thread of control.
pub trait Observer {
    /// Observes one event.
    fn observe(&self, evt: &Event);
}

/// An ordered collection of observers that delivers every event, in
/// emission order, to every observer, in attachment order.
pub struct Mux<O> {
    /// The attached observers, in attachment order.
    pub observers: Vec<O>,
}

impl<O: Observer> Mux<O> {
    /// Creates a mux with no observers attached.
    pub fn new() -> (r: Self)
        ensures
            r.observers@.len() == 0,
    {
        Mux { observers: Vec::new() }
    }

    /// The number of attached observers.
    pub fn num_observers(&self) -> (r: usize)
        ensures
            r == self.observers@.len(),
    {
        self.observers.len()
    }

    /// Attaches one more observer, after all existing ones.
    pub fn attach(&mut self, observer: O)
        ensures
            final(self).observers@ == old(self).observers@.push(observer),
    {
        self.observers.push(observer);
    }

    /// Delivers one event to every observer, in attachment order,
    /// synchronously.
    pub fn observe(&self, evt: &Event) {
        let mut i: usize = 0;
        while i < self.observers.len()
            invariant
                0 <= i <= self.observers@.len(),
            decreases self.observers@.len() - i,
        {
            self.observers[i].observe(evt);
            i = i + 1;
        }
    }

    /// Delivers a batch of events, in order, each to every observer.
    pub fn observe_all(&self, evts: &Vec<Event>) {
        let mut i: usize = 0;
        while i < evts.len()
            invariant
                0 <= i <= evts@.len(),
            decreases evts@.len() - i,
        {
            self.observe(&evts[i]);
            i = i + 1;
        }
    }
}

} // verus!
