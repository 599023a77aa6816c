//! The rendering capability, and a region adapter that fences drawing
//! into a rectangle.

use vstd::prelude::*;

use super::colour::Key;
use super::font::{Id, Metrics};
use super::metrics::Rect;
use super::position::Position;

verus! {

/// An error reported by a renderer.
#[derive(Debug, Clone, PartialEq, Eq)]
pub struct RenderError {
    /// What went wrong, as the backend reported it.
    pub message: String,
}

/// A provider of rendering facilities.
///
/// Implementations live at the edge of the program, over whatever
/// graphics backend is in use; nothing is proved about what they draw.
pub trait Renderer {
    /// Moves the pen to the given position.
    fn set_pos(&mut self, pos: Position);

    /// Moves the pen by the given number of characters in the current
    /// font.
    fn move_chars(&mut self, dx: i32, dy: i32);

    /// Selects the current font.
    fn set_font(&mut self, font: Id);

    /// Selects the current foreground colour.
    fn set_fg_colour(&mut self, colour: Key);

    /// The metrics of the current font.
    fn font_metrics(&self) -> Metrics;

    /// Draws a string at the pen, leaving the pen where it was.
    fn put_str(&mut self, text: &str) -> Result<(), RenderError>;

    /// Clears the screen to the background colour.
    fn clear(&mut self);

    /// Presents everything drawn since the last clear.
    fn present(&mut self);

    /// Draws a string with its right edge at the pen, leaving the pen
    /// where it was.
    fn put_str_r(&mut self, text: &str) -> Result<(), RenderError> {
        let n = text.unicode_len();
        let len: i32 = if n > i32::MAX as usize {
            i32::MAX
        } else {
            n as i32
        };
        self.move_chars(0i32 - len, 0);
        let r = self.put_str(text);
        self.move_chars(len, 0);
        r
    }
}

/// A renderer that delegates to an underlying renderer, but re-anchors
/// absolute positions into a fenced rectangle.
pub struct Region<'a, R> {
    /// The underlying renderer.
    renderer: &'a mut R,
    /// The fence, relative to the underlying renderer.
    rect: Rect,
}

impl<'a, R: Renderer> Region<'a, R> {
    /// Fences the given renderer into the given rectangle.
    pub fn new(renderer: &'a mut R, rect: Rect) -> Self {
        Region { renderer, rect }
    }
}

impl<'a, R: Renderer> Renderer for Region<'a, R> {
    fn set_pos(&mut self, pos: Position) {
        let p = pos.normalise_to_rect(&self.rect);
        self.renderer.set_pos(p);
    }

    fn move_chars(&mut self, dx: i32, dy: i32) {
        self.renderer.move_chars(dx, dy);
    }

    fn set_font(&mut self, font: Id) {
        self.renderer.set_font(font);
    }

    fn set_fg_colour(&mut self, colour: Key) {
        self.renderer.set_fg_colour(colour);
    }

    fn font_metrics(&self) -> Metrics {
        self.renderer.font_metrics()
    }

    fn put_str(&mut self, text: &str) -> Result<(), RenderError> {
        self.renderer.put_str(text)
    }

    fn clear(&mut self) {
        self.renderer.clear();
    }

    fn present(&mut self) {
        self.renderer.present();
    }
}

} // verus!
