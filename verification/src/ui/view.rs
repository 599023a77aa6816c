//! The visual portion of the user interface: the top-level view and its
//! widget tree.

pub mod widget;

use vstd::prelude::*;

use super::super::model::time::Position;
use super::gfx::metrics::WindowMetrics;
use super::gfx::render::{RenderError, Renderer};
use super::presenter::state::State;
use widget::{IndexLayout, LayoutContext, Root, TimeLayout};

verus! {

/// The time fields a split row shows, and how many digits each gets:
/// two-digit minutes, two-digit seconds, three-digit milliseconds.
pub fn time_positions() -> (r: TimeLayout)
    ensures
        r == (TimeLayout {
            first: IndexLayout { index: Position::Minutes, num_digits: 2u8 },
            second: IndexLayout { index: Position::Seconds, num_digits: 2u8 },
            third: IndexLayout { index: Position::Milliseconds, num_digits: 3u8 },
        }),
{
    TimeLayout {
        first: IndexLayout { index: Position::Minutes, num_digits: 2 },
        second: IndexLayout { index: Position::Seconds, num_digits: 2 },
        third: IndexLayout { index: Position::Milliseconds, num_digits: 3 },
    }
}

/// Creates the layout context covering the whole window.
pub fn root_layout_context<R: Renderer>(renderer: &R, wmetrics: WindowMetrics) -> (r: LayoutContext)
    ensures
        r.wmetrics == wmetrics,
        r.bounds == wmetrics.win_rect_spec(),
{
    let bounds = wmetrics.win_rect();
    let font_metrics = renderer.font_metrics();
    LayoutContext { wmetrics, bounds, font_metrics, time_positions: time_positions() }
}

/// The top-level view.
pub struct View<R> {
    /// The renderer the view draws through.
    renderer: R,
    /// The root widget of the user interface.
    root: Root,
}

impl<R: Renderer> View<R> {
    /// Creates a view over the given renderer, laid out for the given
    /// window metrics.
    pub fn new(renderer: R, wmetrics: WindowMetrics) -> Self {
        let ctx = root_layout_context(&renderer, wmetrics);
        let mut root = Root::new();
        root.layout(&ctx);
        View { renderer, root }
    }

    /// Redraws the user interface from the given presenter state.
    ///
    /// Returns an error if the renderer fails to draw.
    pub fn redraw(&mut self, state: &State) -> Result<(), RenderError> {
        self.renderer.clear();
        let r = self.root.render(&mut self.renderer, state);
        match r {
            Ok(()) => {
                self.renderer.present();
                Ok(())
            },
            Err(e) => Err(e),
        }
    }
}

} // verus!
