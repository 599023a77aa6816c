//! Actions: the only mutation surface into a session.

use vstd::prelude::*;

use super::super::time::Time;

verus! {

/// An address for one split of the run: either its zero-based index or
/// its short symbolic identifier.
#[derive(Debug, Clone, PartialEq, Eq)]
pub enum Locator {
    /// The zero-based index of the split.
    Index(usize),
    /// The short identifier of the split.
    Name(String),
}

/// One mutation of the session's run.
///
/// A locator that resolves to no split makes the whole action a silent
/// no-op: no event is emitted and no error is raised, so a stale address
/// cannot derail the run.
#[derive(Debug, Clone, PartialEq, Eq)]
pub enum Action {
    /// Logs the given time onto the addressed split.
    Push(Locator, Time),
    /// Removes the most recent time from the addressed split, if any.
    Pop(Locator),
    /// Empties the addressed split's logged times in one step.
    Clear(Locator),
    /// Ends the attempt: files the outgoing run, clears every split, and
    /// counts one more attempt.
    NewRun,
}

} // verus!
