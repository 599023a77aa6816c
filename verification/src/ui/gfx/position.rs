//! Plotter positions: where the renderer's pen goes next.

use vstd::prelude::*;

use super::metrics::{sat_i32, spec_sat, Rect};
use super::font::Metrics;

verus! {

/// One axis of a position: an absolute window coordinate, or a move
/// relative to where the pen stands.
#[derive(Debug, Clone, Copy, PartialEq, Eq, Structural)]
pub enum Disp {
    /// An absolute coordinate in pixels.
    Abs(i32),
    /// A move relative to the current pen position, in pixels.
    Rel(i32),
}

/// A position for the renderer's pen.
#[derive(Debug, Clone, Copy, PartialEq, Eq, Structural)]
pub struct Position {
    /// The horizontal axis.
    pub x: Disp,
    /// The vertical axis.
    pub y: Disp,
}

impl Position {
    /// An absolute position.
    pub fn abs(x: i32, y: i32) -> (r: Self)
        ensures
            r == (Position { x: Disp::Abs(x), y: Disp::Abs(y) }),
    {
        Position { x: Disp::Abs(x), y: Disp::Abs(y) }
    }

    /// A relative move in pixels.
    pub fn rel(dx: i32, dy: i32) -> (r: Self)
        ensures
            r == (Position { x: Disp::Rel(dx), y: Disp::Rel(dy) }),
    {
        Position { x: Disp::Rel(dx), y: Disp::Rel(dy) }
    }

    /// A relative move in character cells of the given font.
    pub fn rel_chars(fm: &Metrics, dx: i32, dy: i32) -> (r: Self)
        ensures
            r matches (Position { x: Disp::Rel(px), y: Disp::Rel(py) }) && px as int == spec_sat(
                dx * fm.char_w,
            ) && py as int == spec_sat(dy * fm.char_h),
    {
        proof {
            assert(dx * fm.char_w <= 0x7fffffff00000000int && dx * fm.char_w
                >= -0x8000000000000000int && dy * fm.char_h <= 0x7fffffff00000000int && dy
                * fm.char_h >= -0x8000000000000000int) by (nonlinear_arith)
                requires
                    -0x80000000 <= dx <= 0x7fffffff,
                    -0x80000000 <= dy <= 0x7fffffff,
                    0 <= fm.char_w <= 0xffffffff,
                    0 <= fm.char_h <= 0xffffffff,
            ;
        }
        Position {
            x: Disp::Rel(sat_i32(dx as i128 * fm.char_w as i128)),
            y: Disp::Rel(sat_i32(dy as i128 * fm.char_h as i128)),
        }
    }

    /// This position with its absolute coordinates re-anchored to the
    /// top-left corner of the given rectangle; relative moves pass
    /// through untouched.
    pub fn normalise_to_rect(self, rect: &Rect) -> (r: Self)
        ensures
            r.x == match self.x {
                Disp::Abs(x) => Disp::Abs((spec_sat(x + rect.top_left.x) as i32)),
                Disp::Rel(d) => Disp::Rel(d),
            },
            r.y == match self.y {
                Disp::Abs(y) => Disp::Abs((spec_sat(y + rect.top_left.y) as i32)),
                Disp::Rel(d) => Disp::Rel(d),
            },
    {
        let x = match self.x {
            Disp::Abs(x) => Disp::Abs(sat_i32(x as i128 + rect.top_left.x as i128)),
            Disp::Rel(d) => Disp::Rel(d),
        };
        let y = match self.y {
            Disp::Abs(y) => Disp::Abs(sat_i32(y as i128 + rect.top_left.y as i128)),
            Disp::Rel(d) => Disp::Rel(d),
        };
        Position { x, y }
    }
}

} // verus!
