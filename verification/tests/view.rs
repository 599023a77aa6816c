//! Tests for the view: layout arithmetic and rendering through a fake
//! renderer.

use std::cell::RefCell;
use std::rc::Rc;

use zombiesplit::model::aggregate::{Kind, Scope, Source};
use zombiesplit::model::attempt::observer::{SplitEvent, TimeKind};
use zombiesplit::model::time::Time;
use zombiesplit::ui::gfx::colour::Key;
use zombiesplit::ui::gfx::font::{Id, Metrics};
use zombiesplit::ui::gfx::metrics::{sat_i32, Anchor, Point, Rect, Size, WindowMetrics};
use zombiesplit::ui::gfx::position::{Disp, Position};
use zombiesplit::ui::gfx::render::{Region, RenderError, Renderer};
use zombiesplit::ui::presenter::state::State;
use zombiesplit::ui::view::widget::split::{row_bounds, rows};
use zombiesplit::ui::view::widget::LayoutContext;
use zombiesplit::ui::view::{time_positions, View};

/// A renderer that logs the strings it is asked to draw.
#[derive(Clone)]
struct Fake {
    log: Rc<RefCell<Vec<String>>>,
    pos: Rc<RefCell<Vec<Position>>>,
}

impl Fake {
    fn new() -> Self {
        Fake { log: Rc::new(RefCell::new(Vec::new())), pos: Rc::new(RefCell::new(Vec::new())) }
    }
}

impl Renderer for Fake {
    fn set_pos(&mut self, pos: Position) {
        self.pos.borrow_mut().push(pos);
    }

    fn move_chars(&mut self, _dx: i32, _dy: i32) {}

    fn set_font(&mut self, _font: Id) {}

    fn set_fg_colour(&mut self, _colour: Key) {}

    fn font_metrics(&self) -> Metrics {
        Metrics { char_w: 8, char_h: 16 }
    }

    fn put_str(&mut self, text: &str) -> Result<(), RenderError> {
        self.log.borrow_mut().push(text.to_string());
        Ok(())
    }

    fn clear(&mut self) {}

    fn present(&mut self) {}
}

fn wmetrics() -> WindowMetrics {
    WindowMetrics { win_w: 320, win_h: 240, split_h: 16 }
}

fn ctx() -> LayoutContext {
    LayoutContext {
        wmetrics: wmetrics(),
        bounds: Rect { top_left: Point { x: 0, y: 0 }, size: Size { w: 320, h: 240 } },
        font_metrics: Metrics { char_w: 8, char_h: 16 },
        time_positions: time_positions(),
    }
}

#[test]
fn sat_clamps_into_plotter_range() {
    assert_eq!(5, sat_i32(5));
    assert_eq!(i32::MAX, sat_i32(i32::MAX as i128 + 1));
    assert_eq!(i32::MIN, sat_i32(i32::MIN as i128 - 1));
}

#[test]
fn rect_point_anchors() {
    let r = Rect { top_left: Point { x: 10, y: 20 }, size: Size { w: 100, h: 50 } };
    assert_eq!(Point { x: 10, y: 20 }, r.point(0, 0, Anchor::TopLeft));
    assert_eq!(Point { x: 110, y: 70 }, r.point(0, 0, Anchor::BottomRight));
    assert_eq!(Point { x: 108, y: 22 }, r.point(-2, 2, Anchor::TopRight));
}

#[test]
fn rows_fill_the_bounds() {
    let built = rows(&ctx());
    assert_eq!(15, built.len());
    let r3 = row_bounds(&ctx(), 3);
    assert_eq!(Point { x: 0, y: 48 }, r3.top_left);
    assert_eq!(Size { w: 320, h: 16 }, r3.size);
}

#[test]
fn region_offsets_absolute_positions() {
    let mut fake = Fake::new();
    let positions = fake.pos.clone();
    let rect = Rect { top_left: Point { x: 10, y: 20 }, size: Size { w: 50, h: 50 } };
    let mut region = Region::new(&mut fake, rect);
    region.set_pos(Position::abs(1, 2));
    region.set_pos(Position::rel(3, 4));
    let seen = positions.borrow();
    assert_eq!(Position { x: Disp::Abs(11), y: Disp::Abs(22) }, seen[0]);
    assert_eq!(Position { x: Disp::Rel(3), y: Disp::Rel(4) }, seen[1]);
}

#[test]
fn view_redraw_draws_names_and_times() {
    let fake = Fake::new();
    let log = fake.log.clone();
    let mut state = State::new();
    state.add_split("pp1".to_string(), "Palmtree Panic 1".to_string());
    state.handle_split_event(
        &"pp1".to_string(),
        &SplitEvent::Time(
            Time::from_components(0, 1, 30, 0).unwrap(),
            TimeKind::Aggregate(Kind { source: Source::Attempt, scope: Scope::Cumulative }),
        ),
    );
    let mut view = View::new(fake, wmetrics());
    view.redraw(&state).unwrap();
    let drawn = log.borrow();
    assert!(drawn.contains(&"Palmtree Panic 1".to_string()));
    assert!(drawn.contains(&"01:30.000".to_string()));
}
