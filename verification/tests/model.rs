//! Tests for the data model: times, splits, runs.

use zombiesplit::model::attempt::run::{check_shorts_unique, Run, Status};
use zombiesplit::model::attempt::split::{Identity, Split};
use zombiesplit::model::time::{Error, Field, Time};

fn t(h: u32, m: u32, s: u32, ms: u32) -> Time {
    Time::from_components(h, m, s, ms).unwrap()
}

fn split(short: &str, name: &str) -> Split {
    Split::new(Identity::new(short.to_string(), name.to_string()))
}

#[test]
fn time_from_components_exact() {
    let x = t(0, 1, 30, 0);
    assert_eq!(90_000, x.total_millis());
    let y = t(2, 3, 4, 5);
    assert_eq!(2 * 3_600_000 + 3 * 60_000 + 4 * 1000 + 5, y.total_millis());
}

#[test]
fn time_components_round_trip() {
    let x = t(2, 3, 4, 5);
    assert_eq!(2, x.hours());
    assert_eq!(3, x.mins());
    assert_eq!(4, x.secs());
    assert_eq!(5, x.millis());
}

#[test]
fn time_rejects_component_out_of_range() {
    assert_eq!(
        Err(Error::InvalidComponent(Field::Minutes)),
        Time::from_components(0, 60, 0, 0)
    );
    assert_eq!(
        Err(Error::InvalidComponent(Field::Seconds)),
        Time::from_components(0, 0, 60, 0)
    );
    assert_eq!(
        Err(Error::InvalidComponent(Field::Milliseconds)),
        Time::from_components(0, 0, 0, 1000)
    );
}

#[test]
fn time_add_carries_subunits() {
    // 45 seconds plus 30 seconds carries into the minutes.
    let x = t(0, 0, 45, 0).add(t(0, 0, 30, 0));
    assert_eq!(0, x.hours());
    assert_eq!(1, x.mins());
    assert_eq!(15, x.secs());
}

#[test]
fn time_zero_is_identity_and_minimum() {
    let z = Time::zero();
    assert!(z.is_zero());
    let x = t(0, 1, 0, 0);
    assert_eq!(x, z.add(x));
    assert!(z < x);
    assert!(!z.lt(&z));
}

#[test]
fn split_push_pop_counts() {
    // The count is pushes minus matched pops, clamped at zero.
    let mut s = split("pp1", "Palmtree Panic 1");
    assert_eq!(0, s.num_times());
    assert_eq!(None, s.pop());
    assert_eq!(0, s.num_times());
    s.push(t(0, 0, 10, 0));
    s.push(t(0, 0, 20, 0));
    assert_eq!(2, s.num_times());
    assert_eq!(Some(t(0, 0, 20, 0)), s.pop());
    assert_eq!(1, s.num_times());
    assert_eq!(Some(t(0, 0, 10, 0)), s.pop());
    assert_eq!(None, s.pop());
    assert_eq!(0, s.num_times());
}

#[test]
fn split_total_sums_times() {
    let mut s = split("pp1", "Palmtree Panic 1");
    assert!(s.total().is_zero());
    s.push(t(0, 1, 30, 0));
    s.push(t(0, 0, 45, 500));
    assert_eq!(90_000 + 45_500, s.total().total_millis());
}

#[test]
fn split_clear_is_idempotent() {
    let mut s = split("pp1", "Palmtree Panic 1");
    s.push(t(0, 0, 10, 0));
    s.clear();
    let once = s.clone();
    s.clear();
    assert_eq!(once, s);
    assert_eq!(0, s.num_times());
}

#[test]
fn run_status_is_derived() {
    let mut run = Run::new(vec![split("a", "A"), split("b", "B")]);
    assert_eq!(Status::NotStarted, run.status());
    run.splits[0].push(t(0, 0, 5, 0));
    assert_eq!(Status::InProgress, run.status());
    run.splits[1].push(t(0, 0, 6, 0));
    assert_eq!(Status::Complete, run.status());
}

#[test]
fn status_completeness() {
    assert_eq!(None, Status::NotStarted.to_completeness());
    assert_eq!(Some(false), Status::InProgress.to_completeness());
    assert_eq!(Some(true), Status::Complete.to_completeness());
}

#[test]
fn run_position_of_finds_first_match() {
    let run = Run::new(vec![split("a", "A"), split("b", "B"), split("c", "C")]);
    assert_eq!(Some(1), run.position_of(&"b".to_string()));
    assert_eq!(None, run.position_of(&"z".to_string()));
}

#[test]
fn run_reset_clears_times_and_counts_attempt() {
    let mut run = Run::new(vec![split("a", "A"), split("b", "B")]);
    run.splits[0].push(t(0, 0, 5, 0));
    assert_eq!(0, run.attempt_number);
    run.reset();
    assert_eq!(1, run.attempt_number);
    assert_eq!(0, run.splits[0].num_times());
    assert_eq!("a", run.splits[0].info.short);
    assert_eq!(Status::NotStarted, run.status());
}

#[test]
fn run_timing_as_historic_snapshots_all_times() {
    let mut run = Run::new(vec![split("a", "A"), split("b", "B")]);
    run.splits[0].push(t(0, 0, 5, 0));
    run.splits[0].push(t(0, 0, 7, 0));
    let timing = run.timing_as_historic();
    assert_eq!(2, timing.len());
    assert_eq!("a", timing[0].short);
    assert_eq!("A", timing[0].name);
    assert_eq!(vec![t(0, 0, 5, 0), t(0, 0, 7, 0)], timing[0].times);
    assert!(timing[1].times.is_empty());
}

#[test]
fn shorts_unique_check() {
    assert!(check_shorts_unique(&vec![split("a", "A"), split("b", "B")]));
    assert!(!check_shorts_unique(&vec![split("a", "A"), split("a", "B")]));
}
