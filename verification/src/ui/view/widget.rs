//! The widget tree the view draws.

pub mod split;

use vstd::prelude::*;

use super::super::super::model::time::Position;
use super::super::gfx::font::Metrics;
use super::super::gfx::metrics::{Rect, WindowMetrics};
use super::super::gfx::render::{RenderError, Renderer};
use super::super::presenter::state::State;

verus! {

/// How one time field of a split row is laid out.
#[derive(Debug, Clone, Copy, PartialEq, Eq, Structural)]
pub struct IndexLayout {
    /// Which field of the time decomposition is shown.
    pub index: Position,
    /// How many digits the field is padded to.
    pub num_digits: u8,
}

/// The three time fields a split row shows, in drawing order.
#[derive(Debug, Clone, Copy, PartialEq, Eq, Structural)]
pub struct TimeLayout {
    /// The leftmost field.
    pub first: IndexLayout,
    /// The middle field.
    pub second: IndexLayout,
    /// The rightmost field.
    pub third: IndexLayout,
}

/// Everything a widget needs to lay itself out.
#[derive(Debug, Clone, Copy, PartialEq, Eq, Structural)]
pub struct LayoutContext {
    /// The metrics of the whole window.
    pub wmetrics: WindowMetrics,
    /// The rectangle the widget may draw into.
    pub bounds: Rect,
    /// The metrics of the font in force.
    pub font_metrics: Metrics,
    /// How the time fields of a split row are laid out.
    pub time_positions: TimeLayout,
}

impl LayoutContext {
    /// This context narrowed to the given bounds.
    pub fn with_bounds(&self, bounds: Rect) -> (r: Self)
        ensures
            r == (LayoutContext { bounds, ..*self }),
    {
        LayoutContext { bounds, ..*self }
    }
}

/// The root widget: the split viewer filling the window.
pub struct Root {
    /// The split viewer.
    splits: split::Widget,
}

impl Root {
    /// A root widget that has not been laid out yet.
    pub fn new() -> Self {
        Root { splits: split::Widget::new() }
    }

    /// Lays the widget tree out for the given context.
    pub fn layout(&mut self, ctx: &LayoutContext) {
        self.splits.layout(ctx);
    }

    /// Draws the widget tree from the given presenter state.
    pub fn render<R: Renderer>(&self, r: &mut R, state: &State) -> Result<(), RenderError> {
        self.splits.render(r, state)
    }
}

} // verus!
