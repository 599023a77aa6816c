//! The split viewer: one row per visible split.

use vstd::prelude::*;

use super::super::super::super::model::time::{Position, Time};
use super::super::super::gfx::colour::Key;
use super::super::super::gfx::font::Id;
use super::super::super::gfx::metrics::{sat_i32, spec_sat, Anchor, Rect, Size};
use super::super::super::gfx::position::Position as PenPos;
use super::super::super::gfx::render::{RenderError, Renderer};
use super::super::super::presenter::state::split::Split as SplitState;
use super::super::super::presenter::state::State;
use super::super::super::text::{padded_dec_string, spec_padded_dec};
use super::{IndexLayout, LayoutContext, TimeLayout};

verus! {

/// The value a time shows in the given field of its decomposition.
pub open spec fn spec_field_value(ms: int, pos: Position) -> int {
    match pos {
        Position::Hours => ms / 3600000,
        Position::Minutes => (ms / 60000) % 60,
        Position::Seconds => (ms / 1000) % 60,
        Position::Milliseconds => ms % 1000,
    }
}

/// The separator drawn before the given field.
pub open spec fn spec_sep(pos: Position) -> Seq<char> {
    if pos == Position::Milliseconds {
        seq!['.']
    } else {
        seq![':']
    }
}

/// The text one field layout renders a time to.
pub open spec fn spec_field_text(ms: int, layout: IndexLayout) -> Seq<char> {
    spec_padded_dec(spec_field_value(ms, layout.index), layout.num_digits as int)
}

/// The text a time renders to under the given field layouts: the three
/// fields in order, each preceded from the second on by its separator.
pub open spec fn spec_time_text(ms: int, positions: TimeLayout) -> Seq<char> {
    spec_field_text(ms, positions.first) + spec_sep(positions.second.index) + spec_field_text(
        ms,
        positions.second,
    ) + spec_sep(positions.third.index) + spec_field_text(ms, positions.third)
}

/// The value the given time shows in the given field.
fn field_value(t: &Time, pos: Position) -> (r: u64)
    ensures
        r == spec_field_value(t@, pos),
{
    match pos {
        Position::Hours => t.hours(),
        Position::Minutes => t.mins(),
        Position::Seconds => t.secs(),
        Position::Milliseconds => t.millis(),
    }
}

/// The separator drawn before the given field.
fn sep_char(pos: Position) -> (c: char)
    ensures
        seq![c] == spec_sep(pos),
{
    if matches!(pos, Position::Milliseconds) {
        '.'
    } else {
        ':'
    }
}

/// Renders one field of a time under its layout.
fn field_text(t: &Time, layout: IndexLayout) -> (r: String)
    ensures
        r@ == spec_field_text(t@, layout),
{
    padded_dec_string(field_value(t, layout.index), layout.num_digits as usize)
}

/// Renders a time under the given field layouts.
pub fn time_text(t: &Time, positions: &TimeLayout) -> (r: String)
    ensures
        r@ == spec_time_text(t@, *positions),
{
    let mut out = field_text(t, positions.first);
    out.push(sep_char(positions.second.index));
    let second = field_text(t, positions.second);
    out.append(second.as_str());
    out.push(sep_char(positions.third.index));
    let third = field_text(t, positions.third);
    out.append(third.as_str());
    proof {
        assert(out@ =~= spec_time_text(t@, *positions));
    }
    out
}

/// One split row: where it sits, and how its time fields are laid out.
#[derive(Debug, Clone, Copy, PartialEq, Eq, Structural)]
pub struct Row {
    /// The bounding box of the row.
    pub rect: Rect,
    /// How the row's time fields are laid out.
    pub time_positions: TimeLayout,
}

impl Row {
    /// Draws one split into this row: its name on the left, coloured by
    /// its cursor position, and its paced cumulative time on the right,
    /// coloured by its pace.
    pub fn render<R: Renderer>(&self, r: &mut R, split: &SplitState) -> Result<(), RenderError> {
        r.set_font(Id::Medium);
        r.set_fg_colour(Key::Name(split.position));
        r.set_pos(PenPos::abs(self.rect.top_left.x, self.rect.top_left.y));
        let outcome = r.put_str(split.name.as_str());
        if let Err(e) = outcome {
            return Err(e);
        }
        let pc = split.paced_cumulative();
        r.set_fg_colour(Key::Time(pc.pace));
        let corner = self.rect.point(0, 0, Anchor::TopRight);
        r.set_pos(PenPos::abs(corner.x, corner.y));
        let text = time_text(&pc.time, &self.time_positions);
        let outcome = r.put_str_r(text.as_str());
        if let Err(e) = outcome {
            return Err(e);
        }
        Ok(())
    }
}

/// The number of rows that fit the given context: as many whole split
/// heights as fit the bounds, or none if the split height is zero.
pub open spec fn spec_num_rows(ctx: LayoutContext) -> int {
    if ctx.wmetrics.split_h == 0 {
        0
    } else {
        ctx.bounds.size.h as int / ctx.wmetrics.split_h as int
    }
}

/// Whether `r` is the bounding box of row `index`: one split height
/// tall, as wide as the bounds, stacked downwards from their top-left
/// corner.
pub open spec fn spec_row_rect(ctx: LayoutContext, index: int, r: Rect) -> bool {
    &&& r.size == (Size { w: ctx.bounds.size.w, h: ctx.wmetrics.split_h })
    &&& r.top_left.x as int == spec_sat(ctx.bounds.top_left.x as int)
    &&& r.top_left.y as int == spec_sat(
        ctx.bounds.top_left.y + spec_sat(index * ctx.wmetrics.split_h),
    )
}

/// The bounding box of row `index`: one split height tall, as wide as
/// the bounds, stacked downwards from their top-left corner.
pub fn row_bounds(ctx: &LayoutContext, index: usize) -> (r: Rect)
    ensures
        spec_row_rect(*ctx, index as int, r),
{
    proof {
        assert(index * ctx.wmetrics.split_h <= 0xffffffffffffffff00000000int && index
            * ctx.wmetrics.split_h >= 0) by (nonlinear_arith)
            requires
                0 <= index <= 0xffffffffffffffffint,
                0 <= ctx.wmetrics.split_h <= 0xffffffff,
        ;
    }
    let dy = sat_i32(index as i128 * ctx.wmetrics.split_h as i128);
    Rect {
        top_left: ctx.bounds.point(0, dy, Anchor::TopLeft),
        size: Size { w: ctx.bounds.size.w, h: ctx.wmetrics.split_h },
    }
}

/// Builds the row widget at `index` for the given context.
pub fn row(ctx: &LayoutContext, index: usize) -> (r: Row)
    ensures
        r.time_positions == ctx.time_positions,
        spec_row_rect(*ctx, index as int, r.rect),
{
    Row { rect: row_bounds(ctx, index), time_positions: ctx.time_positions }
}

/// Builds one row widget for each whole split height that fits the
/// context's bounds.
pub fn rows(ctx: &LayoutContext) -> (r: Vec<Row>)
    ensures
        r@.len() == spec_num_rows(*ctx),
        forall|j: int|
            0 <= j < r@.len() ==> r@[j].time_positions == ctx.time_positions && spec_row_rect(
                *ctx,
                j,
                r@[j].rect,
            ),
{
    let n: usize = if ctx.wmetrics.split_h == 0 {
        0
    } else {
        (ctx.bounds.size.h / ctx.wmetrics.split_h) as usize
    };
    let mut out: Vec<Row> = Vec::new();
    let mut i: usize = 0;
    while i < n
        invariant
            0 <= i <= n,
            n == spec_num_rows(*ctx),
            out@.len() == i,
            forall|j: int|
                0 <= j < i ==> out@[j].time_positions == ctx.time_positions && spec_row_rect(
                    *ctx,
                    j,
                    out@[j].rect,
                ),
        decreases n - i,
    {
        out.push(row(ctx, i));
        i = i + 1;
    }
    out
}

/// The split viewer widget: a stack of rows, one per visible split.
pub struct Widget {
    /// The bounding box of the widget.
    pub rect: Rect,
    /// The rows, topmost first; enough for one layout.
    pub rows: Vec<Row>,
}

impl Widget {
    /// A split viewer that has not been laid out yet.
    pub fn new() -> (r: Self)
        ensures
            r.rows@.len() == 0,
    {
        Widget {
            rect: Rect {
                top_left: super::super::super::gfx::metrics::Point { x: 0, y: 0 },
                size: Size { w: 0, h: 0 },
            },
            rows: Vec::new(),
        }
    }

    /// Lays the viewer out: one row per split height that fits, each
    /// with its own stacked bounding box.
    pub fn layout(&mut self, ctx: &LayoutContext)
        ensures
            final(self).rect == ctx.bounds,
            final(self).rows@.len() == spec_num_rows(*ctx),
            forall|j: int|
                0 <= j < final(self).rows@.len() ==> final(self).rows@[j].time_positions
                    == ctx.time_positions && spec_row_rect(*ctx, j, final(self).rows@[j].rect),
    {
        self.rect = ctx.bounds;
        self.rows = rows(ctx);
    }

    /// Draws one split into each row, topmost first, stopping at
    /// whichever runs out first of rows and splits.
    pub fn render<R: Renderer>(&self, r: &mut R, state: &State) -> Result<(), RenderError> {
        let mut i: usize = 0;
        while i < self.rows.len()
            invariant
                0 <= i <= self.rows@.len(),
            decreases self.rows@.len() - i,
        {
            match state.splits.at_index(i) {
                Some(split) => {
                    let outcome = self.rows[i].render(r, split);
                    if let Err(e) = outcome {
                        return Err(e);
                    }
                },
                None => {},
            }
            i = i + 1;
        }
        Ok(())
    }
}

} // verus!
