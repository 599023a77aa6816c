//! Font identifiers and metrics.

use vstd::prelude::*;

verus! {

/// A font the renderer can be asked to draw with.
#[derive(Debug, Clone, Copy, PartialEq, Eq, Structural, Hash)]
pub enum Id {
    /// The small font.
    Small,
    /// The medium font.
    Medium,
    /// The large font.
    Large,
}

/// The metrics of a fixed-pitch font.
#[derive(Debug, Clone, Copy, PartialEq, Eq, Structural)]
pub struct Metrics {
    /// The width of one character cell in pixels.
    pub char_w: u32,
    /// The height of one character cell in pixels.
    pub char_h: u32,
}

} // verus!
