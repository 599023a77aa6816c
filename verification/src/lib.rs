//! Core engine of a split timer.
//!
//! The heart of the crate is the attempt session: an in-memory model of a
//! run (ordered splits with logged times and attempt metadata), the
//! aggregate-time computation over it, pace classification against a
//! comparison baseline, and the observer protocol that broadcasts every
//! state change to attached listeners.
//!
//! The `model` module holds that engine; the `ui` module holds the
//! presenter state that mirrors it on the other side of the observer
//! protocol, and the layout logic for drawing it.

pub mod model;
pub mod ui;
