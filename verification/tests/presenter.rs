//! Tests for the presenter state, cursor, modes and text rendering.

use zombiesplit::model::aggregate::{Kind, Scope, Source};
use zombiesplit::model::attempt::action::{Action, Locator};
use zombiesplit::model::attempt::observer::{SplitEvent, TimeKind};
use zombiesplit::model::attempt::run::Run;
use zombiesplit::model::attempt::split::Identity;
use zombiesplit::model::pace::{Pace, SplitInRun};
use zombiesplit::model::time::{Position, Time};
use zombiesplit::ui::presenter::cursor::{Cursor, Motion, SplitPosition};
use zombiesplit::ui::presenter::mode::editor::Editor;
use zombiesplit::ui::presenter::mode::nav::Nav;
use zombiesplit::ui::presenter::mode::{Modal, Mode, Outcome, Transition};
use zombiesplit::ui::presenter::state::split::SplitSet;
use zombiesplit::ui::presenter::state::State;
use zombiesplit::ui::text::{dec_string, padded_dec_string};
use zombiesplit::ui::view::widget::split::time_text;
use zombiesplit::ui::view::time_positions;

fn t(h: u32, m: u32, s: u32, ms: u32) -> Time {
    Time::from_components(h, m, s, ms).unwrap()
}

fn three_split_state() -> State {
    let mut s = State::new();
    s.add_split("pp1".to_string(), "Palmtree Panic 1".to_string());
    s.add_split("sp1".to_string(), "Special Stage 1".to_string());
    s.add_split("pp2".to_string(), "Palmtree Panic 2".to_string());
    s
}

#[test]
fn state_counts_added_splits() {
    let s = State::new();
    assert_eq!(0, s.num_splits());
    let s = three_split_state();
    assert_eq!(3, s.num_splits());
}

#[test]
fn split_event_reaches_only_the_named_split() {
    // The bidirectional map must route the event to "sp1" alone.
    let mut s = three_split_state();
    s.handle_split_event(
        &"sp1".to_string(),
        &SplitEvent::Time(t(0, 0, 10, 0), TimeKind::Pushed),
    );
    assert_eq!(0, s.splits.at_index(0).unwrap().num_times);
    assert_eq!(1, s.splits.at_index(1).unwrap().num_times);
    assert_eq!(0, s.splits.at_index(2).unwrap().num_times);
}

#[test]
fn unknown_short_name_is_ignored() {
    let mut s = three_split_state();
    s.handle_split_event(
        &"zz9".to_string(),
        &SplitEvent::Time(t(0, 0, 10, 0), TimeKind::Pushed),
    );
    for i in 0..3 {
        assert_eq!(0, s.splits.at_index(i).unwrap().num_times);
    }
}

#[test]
fn aggregate_event_lands_in_its_slot() {
    let mut s = three_split_state();
    s.handle_split_event(
        &"pp1".to_string(),
        &SplitEvent::Time(
            t(0, 1, 20, 0),
            TimeKind::Aggregate(Kind { source: Source::Comparison, scope: Scope::Cumulative }),
        ),
    );
    let sp = s.splits.at_index(0).unwrap();
    assert_eq!(Some(t(0, 1, 20, 0)), sp.aggregates.comparison.cumulative);
    assert_eq!(
        Some(t(0, 1, 20, 0)),
        sp.aggregates.get_kind(Source::Comparison.with(Scope::Cumulative))
    );
    assert_eq!(None, sp.aggregates.attempt.cumulative);
}

#[test]
fn pace_event_replaces_verdict() {
    let mut s = three_split_state();
    s.handle_split_event(
        &"pp1".to_string(),
        &SplitEvent::Pace(SplitInRun::Ahead(t(0, 0, 2, 0))),
    );
    assert_eq!(
        SplitInRun::Ahead(t(0, 0, 2, 0)),
        s.splits.at_index(0).unwrap().pace_in_run
    );
}

#[test]
fn popped_event_never_underflows_count() {
    let mut s = three_split_state();
    s.handle_split_event(
        &"pp1".to_string(),
        &SplitEvent::Time(t(0, 0, 1, 0), TimeKind::Popped),
    );
    assert_eq!(0, s.splits.at_index(0).unwrap().num_times);
}

#[test]
fn state_reset_clears_split_data() {
    let mut s = three_split_state();
    s.handle_split_event(
        &"pp1".to_string(),
        &SplitEvent::Time(t(0, 0, 10, 0), TimeKind::Pushed),
    );
    s.reset();
    assert_eq!(0, s.splits.at_index(0).unwrap().num_times);
    assert_eq!("Palmtree Panic 1", s.splits.at_index(0).unwrap().name);
}

#[test]
fn paced_cumulative_reads_attempt_cumulative() {
    let mut s = three_split_state();
    s.handle_split_event(
        &"pp1".to_string(),
        &SplitEvent::Time(
            t(0, 2, 15, 0),
            TimeKind::Aggregate(Kind { source: Source::Attempt, scope: Scope::Cumulative }),
        ),
    );
    s.handle_split_event(&"pp1".to_string(), &SplitEvent::Pace(SplitInRun::OnPace));
    let pc = s.splits.at_index(0).unwrap().paced_cumulative();
    assert_eq!(Pace::OnPace, pc.pace);
    assert_eq!(t(0, 2, 15, 0), pc.time);
}

#[test]
fn split_set_from_dump_mirrors_run() {
    let mut run = Run::new(vec![
        zombiesplit::model::attempt::split::Split::new(Identity::new(
            "a".to_string(),
            "A".to_string(),
        )),
        zombiesplit::model::attempt::split::Split::new(Identity::new(
            "b".to_string(),
            "B".to_string(),
        )),
    ]);
    run.splits[0].push(t(0, 0, 5, 0));
    let set = SplitSet::from_dump(&run);
    assert_eq!(2, set.len());
    assert!(!set.is_empty());
    assert_eq!(Some(0), set.index_of(&"a".to_string()));
    assert_eq!(Some(1), set.index_of(&"b".to_string()));
    assert_eq!(None, set.index_of(&"c".to_string()));
    assert_eq!(1, set.at_index(0).unwrap().num_times);
    assert_eq!("B", set.at_index(1).unwrap().name);
}

#[test]
fn cursor_moves_and_clamps() {
    let mut cur = Cursor::new(2);
    assert_eq!(0, cur.position());
    assert_eq!(0, cur.move_by(Motion::Up, 1));
    assert_eq!(1, cur.move_by(Motion::Down, 1));
    assert_eq!(1, cur.move_by(Motion::Down, 5));
    assert_eq!(2, cur.position());
    assert_eq!(2, cur.move_by(Motion::Up, 2));
    assert_eq!(0, cur.position());
}

#[test]
fn cursor_classifies_split_positions() {
    let mut cur = Cursor::new(2);
    cur.move_by(Motion::Down, 1);
    assert_eq!(SplitPosition::Done, cur.split_position(0));
    assert_eq!(SplitPosition::Cursor, cur.split_position(1));
    assert_eq!(SplitPosition::Coming, cur.split_position(2));
}

#[test]
fn nav_expands_undo_and_delete_at_cursor() {
    let mut cur = Cursor::new(2);
    cur.move_by(Motion::Down, 1);
    let mut nav = Nav::new(cur);
    let mut state = three_split_state();
    assert_eq!(
        Outcome::Expanded(Action::Pop(Locator::Index(1))),
        nav.on_event(&Modal::Undo, &mut state)
    );
    assert_eq!(
        Outcome::Expanded(Action::Clear(Locator::Index(1))),
        nav.on_event(&Modal::Delete, &mut state)
    );
}

#[test]
fn nav_cursor_motion_updates_state() {
    let mut nav = Nav::new(Cursor::new(2));
    let mut state = three_split_state();
    assert_eq!(
        Outcome::Handled,
        nav.on_event(&Modal::Cursor(Motion::Down), &mut state)
    );
    assert_eq!(Some(1), state.cursor_pos);
}

#[test]
fn nav_enter_field_opens_editor() {
    let mut nav = Nav::new(Cursor::new(2));
    let mut state = three_split_state();
    match nav.on_event(&Modal::EnterField(Position::Seconds), &mut state) {
        Outcome::Switch(Transition::ToEditor(e)) => {
            assert_eq!(
                Some(Position::Seconds),
                e.field.map(|f| f.position)
            );
        },
        other => panic!("expected an editor transition, got {:?}", other),
    }
}

#[test]
fn editor_mirrors_into_split_state() {
    let mut s = three_split_state();
    let mut e = Editor::new(Cursor::new(2), Some(Position::Seconds));
    e.mins = 1;
    e.secs = 30;
    if let Some(f) = &mut e.field {
        f.value = 7;
    }
    s.splits.set_editor(0, Some(&e));
    let st = s.splits.at_index(0).unwrap().editor.as_ref().unwrap();
    assert_eq!("0", st.hours);
    assert_eq!("1", st.mins);
    // The field being typed into shows the typed value.
    assert_eq!("7", st.secs);
    assert_eq!("0", st.msecs);
    assert_eq!(Some(Position::Seconds), st.field);
    s.splits.set_editor(0, None);
    assert!(s.splits.at_index(0).unwrap().editor.is_none());
}

#[test]
fn reset_leaves_open_editor_alone() {
    // A reset clears per-run data but does not close an open editor.
    let mut s = three_split_state();
    let e = Editor::new(Cursor::new(2), Some(Position::Seconds));
    s.splits.set_editor(0, Some(&e));
    s.reset();
    assert!(s.splits.at_index(0).unwrap().editor.is_some());
    assert_eq!(0, s.splits.at_index(0).unwrap().num_times);
}

#[test]
fn decimal_rendering_is_exact() {
    assert_eq!("0", dec_string(0));
    assert_eq!("45", dec_string(45));
    assert_eq!("12030", dec_string(12030));
    assert_eq!("05", padded_dec_string(5, 2));
    assert_eq!("000", padded_dec_string(0, 3));
    assert_eq!("1234", padded_dec_string(1234, 2));
}

#[test]
fn time_text_renders_minutes_seconds_millis() {
    let positions = time_positions();
    assert_eq!("01:30.000", time_text(&t(0, 1, 30, 0), &positions));
    assert_eq!("02:15.250", time_text(&t(0, 2, 15, 250), &positions));
    assert_eq!("00:00.000", time_text(&Time::zero(), &positions));
}
