//! Pace classification: how the live attempt compares to the baseline.

use vstd::prelude::*;

use super::aggregate::Full;
use super::time::{spec_from_millis, Time};

verus! {

/// The pace of one split within the run so far.
///
/// The delta carried by `Ahead` and `Behind` is the absolute difference
/// between the comparison cumulative and the attempt cumulative; a
/// positive difference (comparison larger) means the attempt is ahead.
#[derive(Debug, Clone, Copy, PartialEq, Eq, Structural)]
pub enum SplitInRun {
    /// No comparison data, or the split has no logged time: no verdict.
    Inconclusive,
    /// The attempt is ahead of the comparison by the given amount.
    Ahead(Time),
    /// The attempt is behind the comparison by the given amount.
    Behind(Time),
    /// The attempt matches the comparison exactly.
    OnPace,
}

/// The overall pace of a run, as carried by a total event.
#[derive(Debug, Clone, Copy, PartialEq, Eq, Structural)]
pub enum Pace {
    /// No verdict is available.
    Inconclusive,
    /// The run is ahead of the comparison.
    Ahead,
    /// The run is behind the comparison.
    Behind,
    /// The run matches the comparison exactly.
    OnPace,
}

impl SplitInRun {
    /// The overall pace that this split pace contributes to a total.
    pub open spec fn spec_overall(&self) -> Pace {
        match self {
            SplitInRun::Inconclusive => Pace::Inconclusive,
            SplitInRun::Ahead(_) => Pace::Ahead,
            SplitInRun::Behind(_) => Pace::Behind,
            SplitInRun::OnPace => Pace::OnPace,
        }
    }

    /// Forgets the delta, leaving the overall verdict.
    pub fn overall(&self) -> (r: Pace)
        ensures
            r == self.spec_overall(),
    {
        match self {
            SplitInRun::Inconclusive => Pace::Inconclusive,
            SplitInRun::Ahead(_) => Pace::Ahead,
            SplitInRun::Behind(_) => Pace::Behind,
            SplitInRun::OnPace => Pace::OnPace,
        }
    }
}

/// The pace of one split, given its cached aggregate times and the number
/// of times logged on it.
///
/// The verdict is inconclusive when the split has no logged time (there
/// is nothing to judge), or when either cumulative needed for the
/// difference is missing.  Otherwise the difference between the
/// comparison cumulative and the attempt cumulative decides: the attempt
/// is ahead when it is below the comparison, behind when above, and on
/// pace when they agree exactly.
pub open spec fn spec_split_pace(num_times: nat, agg: Full) -> SplitInRun {
    if num_times == 0 {
        SplitInRun::Inconclusive
    } else {
        match (agg.comparison.cumulative, agg.attempt.cumulative) {
            (Some(c), Some(a)) => if a@ < c@ {
                SplitInRun::Ahead(spec_from_millis(c@ - a@))
            } else if c@ < a@ {
                SplitInRun::Behind(spec_from_millis(a@ - c@))
            } else {
                SplitInRun::OnPace
            },
            _ => SplitInRun::Inconclusive,
        }
    }
}

/// Classifies the pace of one split from its cached aggregate times and
/// its logged-time count.
pub fn split_pace(num_times: usize, agg: &Full) -> (r: SplitInRun)
    ensures
        r == spec_split_pace(num_times as nat, *agg),
{
    if num_times == 0 {
        return SplitInRun::Inconclusive;
    }
    match (agg.comparison.cumulative, agg.attempt.cumulative) {
        (Some(c), Some(a)) => {
            let cm = c.total_millis();
            let am = a.total_millis();
            if am < cm {
                SplitInRun::Ahead(Time::from_millis(cm - am))
            } else if cm < am {
                SplitInRun::Behind(Time::from_millis(am - cm))
            } else {
                SplitInRun::OnPace
            }
        },
        _ => SplitInRun::Inconclusive,
    }
}

/// A time annotated with the pace verdict that accompanied it.
#[derive(Debug, Clone, Copy, PartialEq, Eq, Structural)]
pub struct PacedTime {
    /// The pace verdict.
    pub pace: Pace,
    /// The time the verdict was issued over.
    pub time: Time,
}

impl PacedTime {
    /// The zero time with no verdict.
    pub fn empty() -> (r: Self)
        ensures
            r == (PacedTime { pace: Pace::Inconclusive, time: spec_from_millis(0) }),
            r.time@ == 0,
    {
        PacedTime { pace: Pace::Inconclusive, time: Time::zero() }
    }

    /// Wraps a time with no verdict.
    pub fn inconclusive(time: Time) -> (r: Self)
        ensures
            r == (PacedTime { pace: Pace::Inconclusive, time }),
    {
        PacedTime { pace: Pace::Inconclusive, time }
    }
}

} // verus!
