//! Integer layout metrics: sizes, points, rectangles, and the window
//! metrics that frame them.

use vstd::prelude::*;

verus! {

/// Clamps a wide signed value into the plotter's coordinate range.
pub fn sat_i32(x: i128) -> (r: i32)
    ensures
        r as int == if x < i32::MIN as int {
            i32::MIN as int
        } else if x > i32::MAX as int {
            i32::MAX as int
        } else {
            x as int
        },
{
    if x < i32::MIN as i128 {
        i32::MIN
    } else if x > i32::MAX as i128 {
        i32::MAX
    } else {
        x as i32
    }
}

/// A width and height in pixels.
#[derive(Debug, Clone, Copy, PartialEq, Eq, Structural)]
pub struct Size {
    /// Width in pixels.
    pub w: u32,
    /// Height in pixels.
    pub h: u32,
}

/// A point on the window, in pixels from its top-left corner.
#[derive(Debug, Clone, Copy, PartialEq, Eq, Structural)]
pub struct Point {
    /// Pixels from the left edge.
    pub x: i32,
    /// Pixels from the top edge.
    pub y: i32,
}

/// The corner of a rectangle an offset is anchored to.
#[derive(Debug, Clone, Copy, PartialEq, Eq, Structural)]
pub enum Anchor {
    /// The top-left corner.
    TopLeft,
    /// The top-right corner.
    TopRight,
    /// The bottom-left corner.
    BottomLeft,
    /// The bottom-right corner.
    BottomRight,
}

/// An axis-aligned rectangle.
#[derive(Debug, Clone, Copy, PartialEq, Eq, Structural)]
pub struct Rect {
    /// The top-left corner.
    pub top_left: Point,
    /// The extent.
    pub size: Size,
}

/// The x coordinate of the given anchor of a rectangle.
pub open spec fn spec_anchor_x(r: Rect, anchor: Anchor) -> int {
    match anchor {
        Anchor::TopLeft | Anchor::BottomLeft => r.top_left.x as int,
        Anchor::TopRight | Anchor::BottomRight => r.top_left.x + r.size.w,
    }
}

/// The y coordinate of the given anchor of a rectangle.
pub open spec fn spec_anchor_y(r: Rect, anchor: Anchor) -> int {
    match anchor {
        Anchor::TopLeft | Anchor::TopRight => r.top_left.y as int,
        Anchor::BottomLeft | Anchor::BottomRight => r.top_left.y + r.size.h,
    }
}

/// Clamps a mathematical coordinate into the plotter's range.
pub open spec fn spec_sat(x: int) -> int {
    if x < i32::MIN as int {
        i32::MIN as int
    } else if x > i32::MAX as int {
        i32::MAX as int
    } else {
        x
    }
}

impl Rect {
    /// The point `dx, dy` away from the given anchor of this rectangle,
    /// clamped into the plotter's range.
    pub fn point(&self, dx: i32, dy: i32, anchor: Anchor) -> (r: Point)
        ensures
            r.x as int == spec_sat(spec_anchor_x(*self, anchor) + dx),
            r.y as int == spec_sat(spec_anchor_y(*self, anchor) + dy),
    {
        let ax: i128 = match anchor {
            Anchor::TopLeft | Anchor::BottomLeft => self.top_left.x as i128,
            Anchor::TopRight | Anchor::BottomRight => self.top_left.x as i128 + self.size.w
                as i128,
        };
        let ay: i128 = match anchor {
            Anchor::TopLeft | Anchor::TopRight => self.top_left.y as i128,
            Anchor::BottomLeft | Anchor::BottomRight => self.top_left.y as i128 + self.size.h
                as i128,
        };
        Point { x: sat_i32(ax + dx as i128), y: sat_i32(ay + dy as i128) }
    }
}

/// The fixed metrics of the window being drawn into.
#[derive(Debug, Clone, Copy, PartialEq, Eq, Structural)]
pub struct WindowMetrics {
    /// The window's width in pixels.
    pub win_w: u32,
    /// The window's height in pixels.
    pub win_h: u32,
    /// The height of one split row in pixels.
    pub split_h: u32,
}

impl WindowMetrics {
    /// The rectangle covering the whole window.
    pub open spec fn win_rect_spec(&self) -> Rect {
        Rect { top_left: Point { x: 0, y: 0 }, size: Size { w: self.win_w, h: self.win_h } }
    }

    /// The rectangle covering the whole window.
    pub fn win_rect(&self) -> (r: Rect)
        ensures
            r == self.win_rect_spec(),
    {
        Rect { top_left: Point { x: 0, y: 0 }, size: Size { w: self.win_w, h: self.win_h } }
    }
}

} // verus!
