//! Historic records of finished (or abandoned) runs.
//!
//! These are the artifacts handed to an external history store when a run
//! is reset; the engine itself persists nothing.

use vstd::prelude::*;

use super::category::ShortDescriptor;
use super::clock::Timestamp;
use super::time::Time;

verus! {

/// The identity of one split together with every time logged on it.
#[derive(Debug, Clone, PartialEq, Eq)]
pub struct SplitTiming {
    /// The short identifier of the split.
    pub short: String,
    /// The display name of the split.
    pub name: String,
    /// All logged times, oldest first.
    pub times: Vec<Time>,
}

/// A snapshot of one attempt, with full per-split timing, ready for a
/// history store.
#[derive(Debug, Clone, PartialEq, Eq)]
pub struct FullyTimed {
    /// The locator of the category the run belongs to.
    pub category_locator: ShortDescriptor,
    /// Whether every split had at least one logged time when the snapshot
    /// was taken.
    pub was_completed: bool,
    /// When the snapshot was taken.
    pub date: Timestamp,
    /// The identity and logged times of each split, in split order.
    pub timing: Vec<SplitTiming>,
}

} // verus!
