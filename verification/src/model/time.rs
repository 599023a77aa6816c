//! Exact, comparable, addable durations.
//!
//! A [`Time`] is a non-negative duration.  It is decomposed into hours,
//! minutes, seconds and milliseconds for display, but stored and compared
//! as a single millisecond count, so that adding two times carries
//! overflowing sub-units into the next unit automatically.

use vstd::prelude::*;

verus! {

/// Milliseconds in one second.
pub const MILLIS_PER_SEC: u64 = 1000;

/// Milliseconds in one minute.
pub const MILLIS_PER_MIN: u64 = 60000;

/// Milliseconds in one hour.
pub const MILLIS_PER_HOUR: u64 = 3600000;

/// The time component that a malformed construction was rejected over.
#[derive(Debug, Clone, Copy, PartialEq, Eq, Structural)]
pub enum Field {
    /// The minutes component (valid range `0..60`).
    Minutes,
    /// The seconds component (valid range `0..60`).
    Seconds,
    /// The milliseconds component (valid range `0..1000`).
    Milliseconds,
}

/// An error in constructing a [`Time`].
#[derive(Debug, Clone, Copy, PartialEq, Eq, Structural)]
pub enum Error {
    /// A component exceeded its natural range; the payload names which.
    InvalidComponent(Field),
}

/// One position in a time's displayed decomposition.
#[derive(Debug, Clone, Copy, PartialEq, Eq, Structural, Hash)]
pub enum Position {
    /// The hours field.
    Hours,
    /// The minutes field.
    Minutes,
    /// The seconds field.
    Seconds,
    /// The milliseconds field.
    Milliseconds,
}

/// A non-negative duration, exact to the millisecond.
#[derive(Debug, Clone, Copy, PartialEq, Eq, Structural, PartialOrd, Ord, Hash)]
pub struct Time {
    /// The duration, as a total count of milliseconds.
    millis: u64,
}

impl View for Time {
    type V = int;

    closed spec fn view(&self) -> int {
        self.millis as int
    }
}

/// A time always denotes a non-negative number of milliseconds.
pub broadcast proof fn lemma_time_view_nonneg(t: Time)
    ensures
        #[trigger] t@ >= 0,
{
}

/// The time denoting the given count of milliseconds, for use in
/// specifications; [`Time::from_millis`] is its executable twin.
pub closed spec fn spec_from_millis(ms: int) -> Time {
    Time { millis: ms as u64 }
}

/// Within the counter's range, `spec_from_millis` denotes exactly its
/// argument.
pub broadcast proof fn lemma_spec_from_millis(ms: int)
    requires
        0 <= ms <= u64::MAX,
    ensures
        (#[trigger] spec_from_millis(ms))@ == ms,
{
}

/// Two times denoting the same number of milliseconds are the same time.
pub proof fn lemma_time_view_injective(a: Time, b: Time)
    requires
        a@ == b@,
    ensures
        a == b,
{
}

/// The millisecond count denoted by one hour/minute/second/millisecond
/// decomposition.
pub open spec fn component_millis(hours: int, mins: int, secs: int, millis: int) -> int {
    ((hours * 3600 + mins * 60 + secs) * 1000) + millis
}

impl Time {
    /// The zero duration: the additive identity and the minimum time.
    pub fn zero() -> (r: Self)
        ensures
            r@ == 0,
            r == spec_from_millis(0),
    {
        Time { millis: 0 }
    }

    /// Whether this time is the zero duration.
    pub fn is_zero(&self) -> (r: bool)
        ensures
            r == (self@ == 0),
    {
        self.millis == 0
    }

    /// The total number of milliseconds in this time.
    pub fn total_millis(&self) -> (r: u64)
        ensures
            r == self@,
    {
        self.millis
    }

    /// Builds a time directly from a total millisecond count.
    pub fn from_millis(millis: u64) -> (r: Self)
        ensures
            r@ == millis,
            r == spec_from_millis(millis as int),
    {
        Time { millis }
    }

    /// Builds a time from an hours/minutes/seconds/milliseconds
    /// decomposition.
    ///
    /// Rejects the first component, scanning minutes before seconds before
    /// milliseconds, that exceeds its natural range; hours has no upper
    /// bound beyond its machine type.
    pub fn from_components(hours: u32, mins: u32, secs: u32, millis: u32) -> (r: Result<Self, Error>)
        ensures
            mins < 60 && secs < 60 && millis < 1000 ==> (r matches Ok(t) && t@ == component_millis(
                hours as int,
                mins as int,
                secs as int,
                millis as int,
            )),
            mins >= 60 ==> r == Err::<Time, Error>(Error::InvalidComponent(Field::Minutes)),
            mins < 60 && secs >= 60 ==> r == Err::<Time, Error>(
                Error::InvalidComponent(Field::Seconds),
            ),
            mins < 60 && secs < 60 && millis >= 1000 ==> r == Err::<Time, Error>(
                Error::InvalidComponent(Field::Milliseconds),
            ),
    {
        if mins >= 60 {
            Err(Error::InvalidComponent(Field::Minutes))
        } else if secs >= 60 {
            Err(Error::InvalidComponent(Field::Seconds))
        } else if millis >= 1000 {
            Err(Error::InvalidComponent(Field::Milliseconds))
        } else {
            let total: u64 = (hours as u64) * MILLIS_PER_HOUR + (mins as u64) * MILLIS_PER_MIN + (
            secs as u64) * MILLIS_PER_SEC + (millis as u64);
            Ok(Time { millis: total })
        }
    }

    /// Adds two times exactly.
    ///
    /// The sum must fit the millisecond counter; that is the one machine
    /// limit on an otherwise total operation.
    pub fn add(self, other: Self) -> (r: Self)
        requires
            self@ + other@ <= u64::MAX,
        ensures
            r@ == self@ + other@,
            r == spec_from_millis(self@ + other@),
    {
        Time { millis: self.millis + other.millis }
    }

    /// Whether this time is strictly less than `other`.
    pub fn lt(&self, other: &Self) -> (r: bool)
        ensures
            r == (self@ < other@),
    {
        self.millis < other.millis
    }

    /// The hours component of this time's decomposition.
    pub fn hours(&self) -> (r: u64)
        ensures
            r == self@ / 3600000,
    {
        self.millis / MILLIS_PER_HOUR
    }

    /// The minutes component of this time's decomposition.
    pub fn mins(&self) -> (r: u64)
        ensures
            r == (self@ / 60000) % 60,
    {
        (self.millis / MILLIS_PER_MIN) % 60
    }

    /// The seconds component of this time's decomposition.
    pub fn secs(&self) -> (r: u64)
        ensures
            r == (self@ / 1000) % 60,
    {
        (self.millis / MILLIS_PER_SEC) % 60
    }

    /// The milliseconds component of this time's decomposition.
    pub fn millis(&self) -> (r: u64)
        ensures
            r == self@ % 1000,
    {
        self.millis % MILLIS_PER_SEC
    }
}

} // verus!
