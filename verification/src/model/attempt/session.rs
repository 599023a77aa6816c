//! The session: the controller that owns a run and a comparison, applies
//! actions, recomputes aggregates and paces, and notifies observers.
//!
//! The recompute step is a family of pure functions from the run and the
//! comparison to the exact sequence of events owed to observers; the
//! notify step hands that sequence to the mux.  The two steps are kept
//! separate so that recomputation can be examined with no observer
//! attached.

use vstd::prelude::*;

use super::super::aggregate::{Full, Kind, Pair, Scope, Source};
use super::super::category::Info;
use super::super::clock::{chrono_now_unix_millis, Clock, Timestamp};
use super::super::comparison::{spec_lookup, spec_total_or_zero, Comparison, Entry, Provider};
use super::super::history::FullyTimed;
use super::super::pace::{spec_split_pace, split_pace, Pace, PacedTime};
use super::super::time::{spec_from_millis, Time};
use super::action::{Action, Locator};
use super::aggregator::{
    aggregates_of, lemma_run_sum_all_empty, lemma_run_sum_update, lemma_sum_millis_push,
    run_sum_millis, spec_attempt_cum_ms, spec_full_at,
};
use super::observer::{Event, Mux, Observer, SplitEvent, TimeKind};
use super::run::{
    shorts_unique, spec_locate, spec_position, spec_status, splits_all_cleared, splits_with_clear,
    splits_with_pop, splits_with_push, Run, Status,
};
use super::split::{lemma_sum_millis_nonneg, spec_cleared, sum_millis, Split};

verus! {

broadcast use crate::model::time::lemma_time_view_nonneg, crate::model::time::lemma_spec_from_millis;

/// The aggregate and pace events owed for split `i` during a sweep: its
/// fresh pace verdict, then its attempt-side split total and cumulative,
/// each only where defined.
pub open spec fn spec_split_events(splits: Seq<Split>, entries: Seq<Entry>, i: int) -> Seq<Event> {
    let agg = spec_full_at(splits, entries, i);
    let short = splits[i].info.short;
    let pace_evts = seq![
        Event::Split(short, SplitEvent::Pace(spec_split_pace(splits[i].times_seq().len(), agg))),
    ];
    let split_evts: Seq<Event> = match agg.attempt.split {
        Some(t) => seq![
            Event::Split(
                short,
                SplitEvent::Time(
                    t,
                    TimeKind::Aggregate(Kind { source: Source::Attempt, scope: Scope::Split }),
                ),
            ),
        ],
        None => Seq::empty(),
    };
    let cum_evts: Seq<Event> = match agg.attempt.cumulative {
        Some(t) => seq![
            Event::Split(
                short,
                SplitEvent::Time(
                    t,
                    TimeKind::Aggregate(Kind { source: Source::Attempt, scope: Scope::Cumulative }),
                ),
            ),
        ],
        None => Seq::empty(),
    };
    pace_evts + split_evts + cum_evts
}

/// The sweep events owed for splits `0..i`, in split order.
pub open spec fn spec_sweep_prefix(splits: Seq<Split>, entries: Seq<Entry>, i: int) -> Seq<Event>
    decreases i,
{
    if i <= 0 {
        Seq::empty()
    } else {
        spec_sweep_prefix(splits, entries, i - 1) + spec_split_events(splits, entries, i - 1)
    }
}

/// The greatest index not above `i` whose attempt cumulative is defined,
/// if any.
pub open spec fn spec_last_cum_index(splits: Seq<Split>, i: int) -> Option<int>
    decreases i + 1,
{
    if i < 0 {
        None
    } else if spec_attempt_cum_ms(splits, i) is Some {
        Some(i)
    } else {
        spec_last_cum_index(splits, i - 1)
    }
}

/// The running total after sweeping splits `0..i`: the cumulative of the
/// last split for which it is defined, carrying that split's overall
/// pace; the zero time with no verdict if there is none yet.  Ties on
/// equal cumulatives go to the later split.
pub open spec fn spec_total_upto(splits: Seq<Split>, entries: Seq<Entry>, i: int) -> PacedTime {
    match spec_last_cum_index(splits, i - 1) {
        Some(k) => match spec_attempt_cum_ms(splits, k) {
            Some(c) => PacedTime {
                pace: spec_split_pace(
                    splits[k].times_seq().len(),
                    spec_full_at(splits, entries, k),
                ).spec_overall(),
                time: spec_from_millis(c),
            },
            None => PacedTime { pace: Pace::Inconclusive, time: spec_from_millis(0) },
        },
        None => PacedTime { pace: Pace::Inconclusive, time: spec_from_millis(0) },
    }
}

/// The running total the whole sweep reports.
pub open spec fn spec_total_paced(splits: Seq<Split>, entries: Seq<Entry>) -> PacedTime {
    spec_total_upto(splits, entries, splits.len() as int)
}

/// Every event one full sweep owes the observers: pace and aggregate
/// events for each split in order, then the attempt-side running total.
pub open spec fn spec_sweep_events(splits: Seq<Split>, entries: Seq<Entry>) -> Seq<Event> {
    spec_sweep_prefix(splits, entries, splits.len() as int) + seq![
        Event::Total(spec_total_paced(splits, entries), Source::Attempt),
    ]
}

/// Recomputes every aggregate and pace for the given splits against the
/// given comparison, and returns the exact sequence of events owed to
/// observers: per split in order, its pace verdict and its defined
/// attempt-side aggregates; finally the attempt-side running total.
///
/// The run's total logged time must fit the millisecond counter; that is
/// the one machine limit on the computation.
pub fn sweep_events(splits: &Vec<Split>, cmp: &Comparison) -> (r: Vec<Event>)
    requires
        run_sum_millis(splits@) <= u64::MAX,
    ensures
        r@ == spec_sweep_events(splits@, cmp.entries@),
{
    let aggs = aggregates_of(splits, cmp);
    let mut evs: Vec<Event> = Vec::new();
    let mut total: PacedTime = PacedTime::empty();
    let mut i: usize = 0;
    while i < splits.len()
        invariant
            0 <= i <= splits@.len(),
            aggs@.len() == splits@.len(),
            forall|j: int| 0 <= j < aggs@.len() ==> aggs@[j] == spec_full_at(splits@, cmp.entries@, j),
            evs@ == spec_sweep_prefix(splits@, cmp.entries@, i as int),
            total == spec_total_upto(splits@, cmp.entries@, i as int),
        decreases splits@.len() - i,
    {
        let ghost prev = evs@;
        let agg = aggs[i];
        let short = &splits[i].info.short;
        let num = splits[i].num_times();
        let pace = split_pace(num, &agg);
        evs.push(Event::Split(short.clone(), SplitEvent::Pace(pace)));
        match agg.attempt.split {
            Some(t) => {
                evs.push(
                    Event::Split(
                        short.clone(),
                        SplitEvent::Time(
                            t,
                            TimeKind::Aggregate(
                                Kind { source: Source::Attempt, scope: Scope::Split },
                            ),
                        ),
                    ),
                );
            },
            None => {},
        }
        match agg.attempt.cumulative {
            Some(t) => {
                evs.push(
                    Event::Split(
                        short.clone(),
                        SplitEvent::Time(
                            t,
                            TimeKind::Aggregate(
                                Kind { source: Source::Attempt, scope: Scope::Cumulative },
                            ),
                        ),
                    ),
                );
                total = PacedTime { pace: pace.overall(), time: t };
            },
            None => {},
        }
        proof {
            assert(evs@ =~= prev + spec_split_events(splits@, cmp.entries@, i as int));
        }
        i = i + 1;
    }
    evs.push(Event::Total(total, Source::Attempt));
    proof {
        assert(evs@ =~= spec_sweep_events(splits@, cmp.entries@));
    }
    evs
}

/// The comparison-side aggregate events owed for split `i`: its recorded
/// split and cumulative times, each only where the snapshot has it;
/// nothing when the snapshot has no entry for the split.
pub open spec fn spec_comparison_split_events(
    splits: Seq<Split>,
    entries: Seq<Entry>,
    i: int,
) -> Seq<Event> {
    let short = splits[i].info.short;
    match spec_lookup(entries, short@) {
        Some(p) => {
            let split_evts: Seq<Event> = match p.split {
                Some(t) => seq![
                    Event::Split(
                        short,
                        SplitEvent::Time(
                            t,
                            TimeKind::Aggregate(
                                Kind { source: Source::Comparison, scope: Scope::Split },
                            ),
                        ),
                    ),
                ],
                None => Seq::empty(),
            };
            let cum_evts: Seq<Event> = match p.cumulative {
                Some(t) => seq![
                    Event::Split(
                        short,
                        SplitEvent::Time(
                            t,
                            TimeKind::Aggregate(
                                Kind { source: Source::Comparison, scope: Scope::Cumulative },
                            ),
                        ),
                    ),
                ],
                None => Seq::empty(),
            };
            split_evts + cum_evts
        },
        None => Seq::empty(),
    }
}

/// The comparison-side events owed for splits `0..i`, in split order.
pub open spec fn spec_comparison_prefix(
    splits: Seq<Split>,
    entries: Seq<Entry>,
    i: int,
) -> Seq<Event>
    decreases i,
{
    if i <= 0 {
        Seq::empty()
    } else {
        spec_comparison_prefix(splits, entries, i - 1) + spec_comparison_split_events(
            splits,
            entries,
            i - 1,
        )
    }
}

/// Every event a comparison refresh owes the observers: the baseline's
/// total, then each split's recorded comparison times in split order.
pub open spec fn spec_comparison_events(
    splits: Seq<Split>,
    entries: Seq<Entry>,
    total: Option<Time>,
) -> Seq<Event> {
    seq![
        Event::Total(
            PacedTime { pace: Pace::Inconclusive, time: spec_total_or_zero(total) },
            Source::Comparison,
        ),
    ] + spec_comparison_prefix(splits, entries, splits.len() as int)
}

/// Returns the exact sequence of events that tells observers what the
/// current comparison holds for the given splits.
pub fn comparison_events(splits: &Vec<Split>, cmp: &Comparison) -> (r: Vec<Event>)
    ensures
        r@ == spec_comparison_events(splits@, cmp.entries@, cmp.total),
{
    let mut evs: Vec<Event> = Vec::new();
    evs.push(
        Event::Total(PacedTime::inconclusive(cmp.total_or_zero()), Source::Comparison),
    );
    let mut i: usize = 0;
    proof {
        assert(evs@ =~= seq![
            Event::Total(
                PacedTime { pace: Pace::Inconclusive, time: spec_total_or_zero(cmp.total) },
                Source::Comparison,
            ),
        ] + spec_comparison_prefix(splits@, cmp.entries@, 0));
    }
    while i < splits.len()
        invariant
            0 <= i <= splits@.len(),
            evs@ == seq![
                Event::Total(
                    PacedTime { pace: Pace::Inconclusive, time: spec_total_or_zero(cmp.total) },
                    Source::Comparison,
                ),
            ] + spec_comparison_prefix(splits@, cmp.entries@, i as int),
        decreases splits@.len() - i,
    {
        let ghost prev = evs@;
        let short = &splits[i].info.short;
        match cmp.aggregate_for(short) {
            Some(p) => {
                match p.split {
                    Some(t) => {
                        evs.push(
                            Event::Split(
                                short.clone(),
                                SplitEvent::Time(
                                    t,
                                    TimeKind::Aggregate(
                                        Kind { source: Source::Comparison, scope: Scope::Split },
                                    ),
                                ),
                            ),
                        );
                    },
                    None => {},
                }
                match p.cumulative {
                    Some(t) => {
                        evs.push(
                            Event::Split(
                                short.clone(),
                                SplitEvent::Time(
                                    t,
                                    TimeKind::Aggregate(
                                        Kind {
                                            source: Source::Comparison,
                                            scope: Scope::Cumulative,
                                        },
                                    ),
                                ),
                            ),
                        );
                    },
                    None => {},
                }
            },
            None => {},
        }
        proof {
            assert(evs@ =~= prev + spec_comparison_split_events(splits@, cmp.entries@, i as int));
        }
        i = i + 1;
    }
    evs
}

/// The initial-information events owed for splits `0..i`: each split's
/// identity, in split order.
pub open spec fn spec_add_split_prefix(splits: Seq<Split>, i: int) -> Seq<Event>
    decreases i,
{
    if i <= 0 {
        Seq::empty()
    } else {
        spec_add_split_prefix(splits, i - 1) + seq![
            Event::AddSplit(splits[i - 1].info.short, splits[i - 1].info.name),
        ]
    }
}

/// Every event owed to a freshly attached listener: the game/category
/// metadata, each split's identity in order, the attempt number, and the
/// full comparison picture.
pub open spec fn spec_dump_events(
    metadata: Info,
    splits: Seq<Split>,
    entries: Seq<Entry>,
    total: Option<Time>,
    attempt_number: u64,
) -> Seq<Event> {
    seq![Event::GameCategory(metadata)] + spec_add_split_prefix(splits, splits.len() as int)
        + seq![Event::Attempt(attempt_number)] + spec_comparison_events(splits, entries, total)
}

/// Returns the exact sequence of events that synchronises a listener
/// that has seen nothing yet.
pub fn dump_events(metadata: &Info, run: &Run, cmp: &Comparison) -> (r: Vec<Event>)
    ensures
        r@ == spec_dump_events(
            *metadata,
            run.splits@,
            cmp.entries@,
            cmp.total,
            run.attempt_number,
        ),
{
    let mut evs: Vec<Event> = Vec::new();
    evs.push(Event::GameCategory(metadata.duplicate()));
    let mut i: usize = 0;
    proof {
        assert(evs@ =~= seq![Event::GameCategory(*metadata)] + spec_add_split_prefix(
            run.splits@,
            0,
        ));
    }
    while i < run.splits.len()
        invariant
            0 <= i <= run.splits@.len(),
            evs@ == seq![Event::GameCategory(*metadata)] + spec_add_split_prefix(
                run.splits@,
                i as int,
            ),
        decreases run.splits@.len() - i,
    {
        let ghost prev = evs@;
        let sp = &run.splits[i];
        evs.push(Event::AddSplit(sp.info.short.clone(), sp.info.name.clone()));
        proof {
            assert(evs@ =~= prev + seq![
                Event::AddSplit(run.splits@[i as int].info.short, run.splits@[i as int].info.name),
            ]);
        }
        i = i + 1;
    }
    evs.push(Event::Attempt(run.attempt_number));
    let mut rest = comparison_events(&run.splits, cmp);
    let ghost before_append = evs@;
    let ghost rest_seq = rest@;
    evs.append(&mut rest);
    proof {
        assert(evs@ =~= spec_dump_events(
            *metadata,
            run.splits@,
            cmp.entries@,
            cmp.total,
            run.attempt_number,
        ));
    }
    evs
}

/// After a reset, no split has a logged time, so the run counts as not
/// started and has no historic record to offer.
pub proof fn lemma_reset_semantics(a: Seq<Split>, b: Seq<Split>)
    requires
        splits_all_cleared(a, b),
    ensures
        forall|i: int| 0 <= i < b.len() ==> b[i].times_seq().len() == 0,
        spec_status(b) == Status::NotStarted,
{
}

/// The attempt session: one mutable run, the comparison it is judged
/// against, the observers kept in step with both, and the injected
/// comparison provider and clock.
///
/// All mutation is meant to flow through [`Session::perform`], which
/// runs to completion before returning; observers are notified
/// synchronously and in order during the call.  The fields are left
/// readable so that callers can inspect the state the contracts speak
/// of.
pub struct Session<C, K, O> {
    /// Metadata for the game/category currently being run.
    pub metadata: Info,
    /// The current run.
    pub run: Run,
    /// The comparison baseline currently in force.
    pub comparison: Comparison,
    /// The attached observers.
    pub observers: Mux<O>,
    /// The comparison provider, once injected.
    pub comparator: Option<C>,
    /// The clock used to timestamp outgoing runs, once injected; absent,
    /// the wall clock serves.
    pub clock: Option<K>,
}

impl<C: Provider, K: Clock, O: Observer> Session<C, K, O> {
    /// The session's standing invariant: the run's short identifiers are
    /// distinct, and its logged total fits the millisecond counter.
    pub open spec fn wf(&self) -> bool {
        shorts_unique(self.run.splits@) && run_sum_millis(self.run.splits@) <= u64::MAX
    }

    /// Starts a session over the given metadata and starting run, with
    /// no observers, no comparison provider (so the null comparison) and
    /// the wall clock.
    pub fn new(metadata: Info, run: Run) -> (r: Self)
        requires
            shorts_unique(run.splits@),
            run_sum_millis(run.splits@) <= u64::MAX,
        ensures
            r.wf(),
            r.metadata == metadata,
            r.run == run,
            r.comparison.entries@.len() == 0 && r.comparison.total is None,
            r.observers.observers@.len() == 0,
            r.comparator is None,
            r.clock is None,
    {
        Session {
            metadata,
            run,
            comparison: Comparison::empty(),
            observers: Mux::new(),
            comparator: None,
            clock: None,
        }
    }

    /// Attaches one more observer; it will see every later event, after
    /// all observers attached before it.
    pub fn attach(&mut self, observer: O)
        ensures
            final(self).observers.observers@ == old(self).observers.observers@.push(observer),
            final(self).metadata == old(self).metadata,
            final(self).run == old(self).run,
            final(self).comparison == old(self).comparison,
            final(self).comparator == old(self).comparator,
            final(self).clock == old(self).clock,
    {
        self.observers.attach(observer);
    }

    /// Replaces the session's clock; useful for fixing time in tests.
    pub fn set_timestamper(&mut self, clock: K)
        ensures
            final(self).clock == Some(clock),
            final(self).metadata == old(self).metadata,
            final(self).run == old(self).run,
            final(self).comparison == old(self).comparison,
            final(self).comparator == old(self).comparator,
            final(self).observers == old(self).observers,
    {
        self.clock = Some(clock);
    }

    /// Replaces the session's comparison provider and pulls a fresh
    /// comparison from it at once, re-emitting the comparison picture.
    ///
    /// Which baseline the provider hands back cannot be pinned down
    /// here; what can is that the provider is installed, that the run,
    /// metadata, observers and clock stay untouched, and — through
    /// [`Comparison::adopt`], which the refresh goes through — that an
    /// answer of nothing leaves the old comparison in force.
    pub fn set_comparison_provider(&mut self, provider: C)
        requires
            old(self).wf(),
        ensures
            final(self).wf(),
            final(self).comparator is Some,
            final(self).metadata == old(self).metadata,
            final(self).run == old(self).run,
            final(self).observers == old(self).observers,
            final(self).clock == old(self).clock,
    {
        self.comparator = Some(provider);
        self.refresh_comparison();
    }

    /// Pulls a fresh comparison from the provider, if there is one, and
    /// adopts its answer — a provider with nothing to offer leaves the
    /// current comparison in force, per [`Comparison::adopt`] — then
    /// tells the observers what the comparison now holds.  Without a
    /// provider the comparison stays as it was.
    fn refresh_comparison(&mut self)
        requires
            old(self).wf(),
        ensures
            final(self).wf(),
            (final(self).comparator is Some) == (old(self).comparator is Some),
            old(self).comparator is None ==> final(self).comparison == old(self).comparison,
            final(self).metadata == old(self).metadata,
            final(self).run == old(self).run,
            final(self).observers == old(self).observers,
            final(self).clock == old(self).clock,
    {
        let provider = self.comparator.take();
        match provider {
            Some(mut p) => {
                let got = p.comparison();
                self.comparator = Some(p);
                self.comparison.adopt(got);
            },
            None => {},
        }
        let evs = comparison_events(&self.run.splits, &self.comparison);
        self.observers.observe_all(&evs);
    }

    /// The timestamp for an outgoing run: the injected clock's, or the
    /// wall clock's if none was injected.
    fn now_timestamp(&self) -> Timestamp {
        match &self.clock {
            Some(k) => k.now(),
            None => Timestamp { unix_millis: chrono_now_unix_millis() },
        }
    }

    /// Converts the current run to a historic record, or `None` if no
    /// split has ever been logged on it.
    pub fn run_as_historic(&self) -> (r: Option<FullyTimed>)
        ensures
            (r is Some) == (spec_status(self.run.splits@) != Status::NotStarted),
            match r {
                Some(h) => {
                    &&& h.category_locator == self.metadata.short
                    &&& h.was_completed == (spec_status(self.run.splits@) == Status::Complete)
                    &&& h.timing@.len() == self.run.splits@.len()
                    &&& forall|i: int|
                        0 <= i < h.timing@.len() ==> h.timing@[i].short
                            == self.run.splits@[i].info.short && h.timing@[i].name
                            == self.run.splits@[i].info.name && h.timing@[i].times@
                            == self.run.splits@[i].times_seq()
                },
                None => true,
            },
    {
        let status = self.run.status();
        match status.to_completeness() {
            Some(completed) => Some(
                self.run.as_historic_record(
                    self.metadata.short.duplicate(),
                    completed,
                    self.now_timestamp(),
                ),
            ),
            None => None,
        }
    }

    /// Replays, for a freshly attached listener, the game/category
    /// metadata, each split's identity, the attempt number, and the full
    /// comparison picture, exactly once.
    pub fn dump_to_observers(&self) {
        let evs = dump_events(&self.metadata, &self.run, &self.comparison);
        self.observers.observe_all(&evs);
    }

    /// The number of splits in the run.
    pub fn num_splits(&self) -> (r: usize)
        ensures
            r == self.run.splits@.len(),
    {
        self.run.num_splits()
    }

    /// The position of the split with the given short identifier, if any.
    pub fn position_of(&self, short: &String) -> (r: Option<usize>)
        ensures
            match r {
                Some(i) => spec_position(self.run.splits@, short@) == Some(i as int),
                None => spec_position(self.run.splits@, short@) == None::<int>,
            },
    {
        self.run.position_of(short)
    }

    /// Performs one action on the current run, emitting every owed
    /// notification before returning.
    ///
    /// An unresolvable locator makes the action a silent no-op.  The two
    /// `requires` beyond the invariant are machine limits: a pushed time
    /// must keep the run's total within the millisecond counter, and a
    /// reset must not exhaust the attempt counter.
    pub fn perform(&mut self, action: Action)
        requires
            old(self).wf(),
            match action {
                Action::Push(loc, t) => spec_locate(old(self).run.splits@, loc) is Some
                    ==> run_sum_millis(old(self).run.splits@) + t@ <= u64::MAX,
                Action::NewRun => old(self).run.attempt_number < u64::MAX,
                _ => true,
            },
        ensures
            final(self).wf(),
            final(self).metadata == old(self).metadata,
            final(self).clock == old(self).clock,
            final(self).observers == old(self).observers,
            match action {
                Action::Push(loc, t) => final(self).comparison == old(self).comparison
                    && final(self).run.attempt_number == old(self).run.attempt_number
                    && final(self).comparator == old(self).comparator
                    && match spec_locate(old(self).run.splits@, loc) {
                    Some(i) => splits_with_push(
                        old(self).run.splits@,
                        final(self).run.splits@,
                        i,
                        t,
                    ),
                    None => final(self).run == old(self).run,
                },
                Action::Pop(loc) => final(self).comparison == old(self).comparison
                    && final(self).run.attempt_number == old(self).run.attempt_number
                    && final(self).comparator == old(self).comparator
                    && match spec_locate(old(self).run.splits@, loc) {
                    Some(i) => if old(self).run.splits@[i].times_seq().len() > 0 {
                        splits_with_pop(old(self).run.splits@, final(self).run.splits@, i)
                    } else {
                        final(self).run == old(self).run
                    },
                    None => final(self).run == old(self).run,
                },
                Action::Clear(loc) => final(self).comparison == old(self).comparison
                    && final(self).run.attempt_number == old(self).run.attempt_number
                    && final(self).comparator == old(self).comparator
                    && match spec_locate(old(self).run.splits@, loc) {
                    Some(i) => splits_with_clear(
                        old(self).run.splits@,
                        final(self).run.splits@,
                        i,
                    ),
                    None => final(self).run == old(self).run,
                },
                Action::NewRun => splits_all_cleared(old(self).run.splits@, final(self).run.splits@)
                    && final(self).run.attempt_number == old(self).run.attempt_number + 1,
            },
    {
        match action {
            Action::Clear(loc) => self.clear_at(&loc),
            Action::NewRun => self.reset(),
            Action::Pop(loc) => self.pop_from(&loc),
            Action::Push(loc, t) => self.push_to(&loc, t),
        }
    }

    /// Logs a time onto the located split, then announces the push and
    /// sweeps every aggregate and pace.
    fn push_to(&mut self, loc: &Locator, time: Time)
        requires
            old(self).wf(),
            spec_locate(old(self).run.splits@, *loc) is Some ==> run_sum_millis(
                old(self).run.splits@,
            ) + time@ <= u64::MAX,
        ensures
            final(self).wf(),
            final(self).metadata == old(self).metadata,
            final(self).comparison == old(self).comparison,
            final(self).comparator == old(self).comparator,
            final(self).clock == old(self).clock,
            final(self).observers == old(self).observers,
            final(self).run.attempt_number == old(self).run.attempt_number,
            match spec_locate(old(self).run.splits@, *loc) {
                Some(i) => splits_with_push(old(self).run.splits@, final(self).run.splits@, i, time),
                None => final(self).run == old(self).run,
            },
    {
        match self.run.locate(loc) {
            Some(i) => {
                let ghost before = self.run.splits@;
                self.run.splits[i].push(time);
                proof {
                    lemma_run_sum_update(before, i as int, self.run.splits@[i as int]);
                    lemma_sum_millis_push(before[i as int].times_seq(), time);
                    lemma_sum_millis_nonneg(before[i as int].times_seq());
                    assert(splits_with_push(before, self.run.splits@, i as int, time));
                    assert(shorts_unique(self.run.splits@));
                }
                let short = self.run.splits[i].info.short.clone();
                let announce = Event::Split(short, SplitEvent::Time(time, TimeKind::Pushed));
                self.observers.observe(&announce);
                let sweep = sweep_events(&self.run.splits, &self.comparison);
                self.observers.observe_all(&sweep);
            },
            None => {},
        }
    }

    /// Removes the most recent time from the located split, if it has
    /// one, then announces the pop and sweeps every aggregate and pace.
    /// Popping an empty split is a silent no-op.
    fn pop_from(&mut self, loc: &Locator)
        requires
            old(self).wf(),
        ensures
            final(self).wf(),
            final(self).metadata == old(self).metadata,
            final(self).comparison == old(self).comparison,
            final(self).comparator == old(self).comparator,
            final(self).clock == old(self).clock,
            final(self).observers == old(self).observers,
            final(self).run.attempt_number == old(self).run.attempt_number,
            match spec_locate(old(self).run.splits@, *loc) {
                Some(i) => if old(self).run.splits@[i].times_seq().len() > 0 {
                    splits_with_pop(old(self).run.splits@, final(self).run.splits@, i)
                } else {
                    final(self).run == old(self).run
                },
                None => final(self).run == old(self).run,
            },
    {
        match self.run.locate(loc) {
            Some(i) => {
                if self.run.splits[i].num_times() > 0 {
                    let ghost before = self.run.splits@;
                    let popped = self.run.splits[i].pop();
                    let time = match popped {
                        Some(t) => t,
                        None => Time::zero(),
                    };
                    proof {
                        lemma_run_sum_update(before, i as int, self.run.splits@[i as int]);
                        lemma_sum_millis_nonneg(self.run.splits@[i as int].times_seq());
                        assert(before[i as int].times_seq() == self.run.splits@[i as int].times_seq().push(time));
                        lemma_sum_millis_push(self.run.splits@[i as int].times_seq(), time);
                        assert(splits_with_pop(before, self.run.splits@, i as int));
                        assert(shorts_unique(self.run.splits@));
                    }
                    let short = self.run.splits[i].info.short.clone();
                    let announce = Event::Split(short, SplitEvent::Time(time, TimeKind::Popped));
                    self.observers.observe(&announce);
                    let sweep = sweep_events(&self.run.splits, &self.comparison);
                    self.observers.observe_all(&sweep);
                }
            },
            None => {},
        }
    }

    /// Empties the located split's logged times in one step.
    ///
    /// Deliberately, and unlike push and pop, this emits no events and
    /// triggers no sweep: a clear is treated as a soft delete whose
    /// presentation is settled elsewhere, and observers hear of the
    /// change with the next sweep.
    fn clear_at(&mut self, loc: &Locator)
        requires
            old(self).wf(),
        ensures
            final(self).wf(),
            final(self).metadata == old(self).metadata,
            final(self).comparison == old(self).comparison,
            final(self).comparator == old(self).comparator,
            final(self).clock == old(self).clock,
            final(self).observers == old(self).observers,
            final(self).run.attempt_number == old(self).run.attempt_number,
            match spec_locate(old(self).run.splits@, *loc) {
                Some(i) => splits_with_clear(old(self).run.splits@, final(self).run.splits@, i),
                None => final(self).run == old(self).run,
            },
    {
        match self.run.locate(loc) {
            Some(i) => {
                let ghost before = self.run.splits@;
                self.run.splits[i].clear();
                proof {
                    lemma_run_sum_update(before, i as int, self.run.splits@[i as int]);
                    lemma_sum_millis_nonneg(before[i as int].times_seq());
                    assert(splits_with_clear(before, self.run.splits@, i as int));
                    assert(shorts_unique(self.run.splits@));
                }
            },
            None => {},
        }
    }

    /// Ends the attempt: emits the outgoing run as a historic record (or
    /// none, if it never started), clears every split, counts one more
    /// attempt and announces it, then pulls and re-emits a fresh
    /// comparison.
    fn reset(&mut self)
        requires
            old(self).wf(),
            old(self).run.attempt_number < u64::MAX,
        ensures
            final(self).wf(),
            final(self).metadata == old(self).metadata,
            final(self).clock == old(self).clock,
            final(self).observers == old(self).observers,
            splits_all_cleared(old(self).run.splits@, final(self).run.splits@),
            final(self).run.attempt_number == old(self).run.attempt_number + 1,
    {
        let historic = self.run_as_historic();
        self.observers.observe(&Event::Reset(historic));
        self.run.reset();
        proof {
            lemma_run_sum_all_empty(self.run.splits@);
            assert(shorts_unique(self.run.splits@));
        }
        self.observers.observe(&Event::Attempt(self.run.attempt_number));
        self.refresh_comparison();
    }
}

} // verus!
