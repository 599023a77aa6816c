//! Tests for the session engine: aggregates, paces, event sequences.

use std::cell::RefCell;
use std::rc::Rc;

use zombiesplit::model::aggregate::{Kind, Pair, Scope, Source};
use zombiesplit::model::attempt::action::{Action, Locator};
use zombiesplit::model::attempt::aggregator::aggregates_of;
use zombiesplit::model::attempt::observer::{Event, Observer, SplitEvent, TimeKind};
use zombiesplit::model::attempt::run::{Run, Status};
use zombiesplit::model::attempt::session::{comparison_events, dump_events, sweep_events, Session};
use zombiesplit::model::attempt::split::{Identity, Split};
use zombiesplit::model::category::{Info, ShortDescriptor};
use zombiesplit::model::clock::{Clock, Timestamp};
use zombiesplit::model::comparison::{Comparison, Provider};
use zombiesplit::model::pace::{split_pace, Pace, PacedTime, SplitInRun};
use zombiesplit::model::time::Time;

fn t(h: u32, m: u32, s: u32, ms: u32) -> Time {
    Time::from_components(h, m, s, ms).unwrap()
}

fn split(short: &str, name: &str) -> Split {
    Split::new(Identity::new(short.to_string(), name.to_string()))
}

fn metadata() -> Info {
    Info::new(
        "Sonic CD".to_string(),
        "Any%".to_string(),
        ShortDescriptor::new("scd".to_string(), "any".to_string()),
    )
}

/// An observer that records every event it sees, in order.
#[derive(Clone)]
struct Rec(Rc<RefCell<Vec<Event>>>);

impl Rec {
    fn new() -> Self {
        Rec(Rc::new(RefCell::new(Vec::new())))
    }

    fn events(&self) -> Vec<Event> {
        self.0.borrow().clone()
    }

    fn clear(&self) {
        self.0.borrow_mut().clear();
    }
}

impl Observer for Rec {
    fn observe(&self, evt: &Event) {
        self.0.borrow_mut().push(evt.clone());
    }
}

/// A provider that hands out a fixed comparison, or nothing.
struct Fixed(Option<Comparison>);

impl Provider for Fixed {
    fn comparison(&mut self) -> Option<Comparison> {
        self.0.clone()
    }
}

/// A clock stopped at a fixed instant.
struct Stopped(i64);

impl Clock for Stopped {
    fn now(&self) -> Timestamp {
        Timestamp { unix_millis: self.0 }
    }
}

fn two_split_session() -> (Session<Fixed, Stopped, Rec>, Rec) {
    let run = Run::new(vec![split("pp1", "Palmtree Panic 1"), split("pp2", "Palmtree Panic 2")]);
    let mut session = Session::new(metadata(), run);
    let rec = Rec::new();
    session.attach(rec.clone());
    (session, rec)
}

#[test]
fn scenario_cumulative_and_status_after_two_pushes() {
    // Two splits; pushing 1:30 then 0:45 makes the second cumulative 2:15
    // and the run complete.
    let (mut session, _rec) = two_split_session();
    session.perform(Action::Push(Locator::Index(0), t(0, 1, 30, 0)));
    session.perform(Action::Push(Locator::Index(1), t(0, 0, 45, 0)));
    let aggs = aggregates_of(&session.run.splits, &session.comparison);
    assert_eq!(Some(t(0, 2, 15, 0)), aggs[1].attempt.cumulative);
    assert_eq!(Status::Complete, session.run.status());
}

#[test]
fn scenario_pop_makes_pace_inconclusive() {
    // Popping the second split's only time empties it, so its pace has no
    // verdict and the run is back in progress.
    let (mut session, _rec) = two_split_session();
    session.perform(Action::Push(Locator::Index(0), t(0, 1, 30, 0)));
    session.perform(Action::Push(Locator::Index(1), t(0, 0, 45, 0)));
    session.perform(Action::Pop(Locator::Index(1)));
    assert_eq!(0, session.run.splits[1].num_times());
    let aggs = aggregates_of(&session.run.splits, &session.comparison);
    let pace = split_pace(session.run.splits[1].num_times(), &aggs[1]);
    assert_eq!(SplitInRun::Inconclusive, pace);
    assert_eq!(Status::InProgress, session.run.status());
}

#[test]
fn scenario_behind_comparison() {
    // Comparison cumulative 1:20 against attempt cumulative 1:30: ten
    // seconds behind.
    let mut cmp = Comparison::empty();
    cmp.push_entry(
        "pp1".to_string(),
        Pair { split: Some(t(0, 1, 20, 0)), cumulative: Some(t(0, 1, 20, 0)) },
    );
    let (mut session, _rec) = two_split_session();
    session.set_comparison_provider(Fixed(Some(cmp)));
    session.perform(Action::Push(Locator::Index(0), t(0, 1, 30, 0)));
    let aggs = aggregates_of(&session.run.splits, &session.comparison);
    let pace = split_pace(session.run.splits[0].num_times(), &aggs[0]);
    assert_eq!(SplitInRun::Behind(t(0, 0, 10, 0)), pace);
}

#[test]
fn scenario_new_run_on_unstarted_run_resets_with_no_record() {
    // A reset of a run that was never started files nothing.
    let (mut session, rec) = two_split_session();
    session.perform(Action::NewRun);
    let events = rec.events();
    assert_eq!(Event::Reset(None), events[0]);
    assert_eq!(Event::Attempt(1), events[1]);
}

#[test]
fn reset_clears_counts_and_increments_attempt() {
    let (mut session, _rec) = two_split_session();
    session.perform(Action::Push(Locator::Index(0), t(0, 0, 5, 0)));
    session.perform(Action::NewRun);
    assert_eq!(0, session.run.splits[0].num_times());
    assert_eq!(0, session.run.splits[1].num_times());
    assert_eq!(1, session.run.attempt_number);
    assert!(session.run_as_historic().is_none());
}

#[test]
fn reset_files_started_run_with_fixed_clock() {
    let (mut session, rec) = two_split_session();
    session.set_timestamper(Stopped(1234));
    session.perform(Action::Push(Locator::Index(0), t(0, 0, 5, 0)));
    rec.clear();
    session.perform(Action::NewRun);
    let events = rec.events();
    match &events[0] {
        Event::Reset(Some(h)) => {
            assert_eq!("scd", h.category_locator.game);
            assert_eq!("any", h.category_locator.category);
            assert!(!h.was_completed);
            assert_eq!(1234, h.date.unix_millis);
            assert_eq!(2, h.timing.len());
            assert_eq!(vec![t(0, 0, 5, 0)], h.timing[0].times);
        },
        other => panic!("expected a filed run, got {:?}", other),
    }
}

#[test]
fn push_pop_restores_aggregates_bit_for_bit() {
    // A push followed by its pop leaves every cached aggregate set as it
    // was.
    let (mut session, _rec) = two_split_session();
    session.perform(Action::Push(Locator::Index(0), t(0, 1, 30, 0)));
    let before = aggregates_of(&session.run.splits, &session.comparison);
    session.perform(Action::Push(Locator::Index(1), t(0, 0, 45, 0)));
    session.perform(Action::Pop(Locator::Index(1)));
    let after = aggregates_of(&session.run.splits, &session.comparison);
    assert_eq!(before, after);
}

#[test]
fn cumulative_is_monotone_within_sweep() {
    let (mut session, _rec) = two_split_session();
    session.perform(Action::Push(Locator::Index(0), t(0, 1, 0, 0)));
    session.perform(Action::Push(Locator::Index(1), t(0, 0, 30, 0)));
    let aggs = aggregates_of(&session.run.splits, &session.comparison);
    let c0 = aggs[0].attempt.cumulative.unwrap();
    let c1 = aggs[1].attempt.cumulative.unwrap();
    assert!(c0 <= c1);
}

#[test]
fn unresolvable_locator_is_silent_no_op() {
    let (mut session, rec) = two_split_session();
    rec.clear();
    session.perform(Action::Push(Locator::Name("zz9".to_string()), t(0, 0, 5, 0)));
    session.perform(Action::Push(Locator::Index(9), t(0, 0, 5, 0)));
    session.perform(Action::Pop(Locator::Index(9)));
    session.perform(Action::Clear(Locator::Name("zz9".to_string())));
    assert!(rec.events().is_empty());
    assert_eq!(0, session.run.splits[0].num_times());
}

#[test]
fn pop_of_empty_split_emits_nothing() {
    let (mut session, rec) = two_split_session();
    rec.clear();
    session.perform(Action::Pop(Locator::Index(0)));
    assert!(rec.events().is_empty());
}

#[test]
fn clear_emits_nothing_but_empties_the_split() {
    // Deliberately, a clear triggers no sweep.
    let (mut session, rec) = two_split_session();
    session.perform(Action::Push(Locator::Index(0), t(0, 0, 5, 0)));
    rec.clear();
    session.perform(Action::Clear(Locator::Index(0)));
    assert!(rec.events().is_empty());
    assert_eq!(0, session.run.splits[0].num_times());
}

#[test]
fn push_emits_push_then_sweep_then_total() {
    let (mut session, rec) = two_split_session();
    session.perform(Action::Push(Locator::Name("pp1".to_string()), t(0, 1, 30, 0)));
    let events = rec.events();
    let expected = vec![
        Event::Split("pp1".to_string(), SplitEvent::Time(t(0, 1, 30, 0), TimeKind::Pushed)),
        Event::Split(
            "pp1".to_string(),
            SplitEvent::Pace(SplitInRun::Inconclusive),
        ),
        Event::Split(
            "pp1".to_string(),
            SplitEvent::Time(
                t(0, 1, 30, 0),
                TimeKind::Aggregate(Kind { source: Source::Attempt, scope: Scope::Split }),
            ),
        ),
        Event::Split(
            "pp1".to_string(),
            SplitEvent::Time(
                t(0, 1, 30, 0),
                TimeKind::Aggregate(Kind { source: Source::Attempt, scope: Scope::Cumulative }),
            ),
        ),
        Event::Split(
            "pp2".to_string(),
            SplitEvent::Pace(SplitInRun::Inconclusive),
        ),
        Event::Total(
            PacedTime { pace: Pace::Inconclusive, time: t(0, 1, 30, 0) },
            Source::Attempt,
        ),
    ];
    assert_eq!(expected, events);
}

#[test]
fn sweep_events_totals_last_defined_cumulative() {
    let mut run = Run::new(vec![split("a", "A"), split("b", "B")]);
    run.splits[0].push(t(0, 0, 10, 0));
    let evs = sweep_events(&run.splits, &Comparison::empty());
    match evs.last().unwrap() {
        Event::Total(pt, Source::Attempt) => {
            assert_eq!(t(0, 0, 10, 0), pt.time);
            assert_eq!(Pace::Inconclusive, pt.pace);
        },
        other => panic!("expected a total, got {:?}", other),
    }
}

#[test]
fn comparison_events_lead_with_total() {
    let mut cmp = Comparison::empty();
    cmp.set_total(Some(t(1, 2, 3, 4)));
    cmp.push_entry(
        "a".to_string(),
        Pair { split: Some(t(0, 0, 10, 0)), cumulative: None },
    );
    let run = Run::new(vec![split("a", "A")]);
    let evs = comparison_events(&run.splits, &cmp);
    assert_eq!(
        Event::Total(PacedTime::inconclusive(t(1, 2, 3, 4)), Source::Comparison),
        evs[0]
    );
    assert_eq!(
        Event::Split(
            "a".to_string(),
            SplitEvent::Time(
                t(0, 0, 10, 0),
                TimeKind::Aggregate(Kind { source: Source::Comparison, scope: Scope::Split }),
            ),
        ),
        evs[1]
    );
    assert_eq!(2, evs.len());
}

#[test]
fn dump_events_order() {
    let run = Run::new(vec![split("a", "A"), split("b", "B")]);
    let evs = dump_events(&metadata(), &run, &Comparison::empty());
    assert_eq!(Event::GameCategory(metadata()), evs[0]);
    assert_eq!(Event::AddSplit("a".to_string(), "A".to_string()), evs[1]);
    assert_eq!(Event::AddSplit("b".to_string(), "B".to_string()), evs[2]);
    assert_eq!(Event::Attempt(0), evs[3]);
    assert!(matches!(evs[4], Event::Total(_, Source::Comparison)));
    assert_eq!(5, evs.len());
}

#[test]
fn provider_with_nothing_keeps_old_comparison() {
    let mut cmp = Comparison::empty();
    cmp.set_total(Some(t(0, 5, 0, 0)));
    let (mut session, _rec) = two_split_session();
    session.set_comparison_provider(Fixed(Some(cmp.clone())));
    assert_eq!(Some(t(0, 5, 0, 0)), session.comparison.total);
    // A reset pulls again; a provider with nothing leaves it in force.
    session.comparator = Some(Fixed(None));
    session.perform(Action::NewRun);
    assert_eq!(Some(t(0, 5, 0, 0)), session.comparison.total);
}

#[test]
fn adopt_keeps_old_comparison_on_none() {
    let mut cmp = Comparison::empty();
    cmp.set_total(Some(t(0, 5, 0, 0)));
    let mut current = cmp.clone();
    current.adopt(None);
    assert_eq!(cmp, current);
    let mut fresh = Comparison::empty();
    fresh.set_total(Some(t(0, 4, 0, 0)));
    current.adopt(Some(fresh.clone()));
    assert_eq!(fresh, current);
}

#[test]
fn set_comparison_provider_installs_the_provider() {
    let (mut session, _rec) = two_split_session();
    assert!(session.comparator.is_none());
    session.set_comparison_provider(Fixed(None));
    assert!(session.comparator.is_some());
}

#[test]
fn observers_see_events_in_attachment_order() {
    let run = Run::new(vec![split("a", "A")]);
    let mut session: Session<Fixed, Stopped, Rec> = Session::new(metadata(), run);
    let first = Rec::new();
    let second = Rec::new();
    session.attach(first.clone());
    session.attach(second.clone());
    session.dump_to_observers();
    assert_eq!(first.events(), second.events());
    assert!(!first.events().is_empty());
}
