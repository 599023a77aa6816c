//! Timestamps and the injectable clock that produces them.

use vstd::prelude::*;

verus! {

/// A wall-clock timestamp, as whole milliseconds since the Unix epoch.
#[derive(Debug, Clone, Copy, PartialEq, Eq, Structural, PartialOrd, Ord, Hash)]
pub struct Timestamp {
    /// Milliseconds since the Unix epoch; negative for instants before it.
    pub unix_millis: i64,
}

/// A source of the current time, injected into the session so that tests
/// can fix it.
///
/// The session reads the clock only when it materialises a historic
/// record of an outgoing run.
pub trait Clock {
    /// The current time.
    fn now(&self) -> Timestamp;
}

/// Relies on `chrono::Utc::now` for the current wall-clock time; nothing
/// can be promised of its result.
#[verifier::external_body]
pub(crate) fn chrono_now_unix_millis() -> i64 {
    chrono::Utc::now().timestamp_millis()
}

/// The wall clock, read through `chrono`.
#[derive(Debug, Clone, Copy, PartialEq, Eq, Structural)]
pub struct SystemClock;

impl Clock for SystemClock {
    fn now(&self) -> Timestamp {
        Timestamp { unix_millis: chrono_now_unix_millis() }
    }
}

} // verus!
