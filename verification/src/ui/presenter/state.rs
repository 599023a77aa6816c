//! The presenter's internal state: its picture of the model, kept in step
//! by the events it observes.

pub mod split;

use vstd::prelude::*;

use super::super::super::model::attempt::observer::Event;
use super::super::super::model::category::Info;
use super::super::super::model::pace::{PacedTime, SplitInRun};
use super::super::super::model::aggregate::{Full, Source};
use super::super::super::model::short::ShortMapFwd;
use split::SplitSet;

verus! {

/// The presenter's picture of the model.
pub struct State {
    /// The attempt number last announced.
    pub attempt: u64,
    /// The game/category metadata last announced.
    pub game_category: Option<Info>,
    /// The per-split state, addressable by position and by short name.
    pub splits: SplitSet,
    /// The cursor position last mirrored in, if any.
    pub cursor_pos: Option<usize>,
    /// The attempt-side running total last announced, if any.
    pub total: Option<PacedTime>,
    /// The comparison total last announced, if any.
    pub comparison_total: Option<PacedTime>,
}

impl State {
    /// A state that has seen nothing yet.
    pub fn new() -> (r: Self)
        ensures
            r.attempt == 0,
            r.game_category is None,
            r.splits.vec@.len() == 0,
            r.cursor_pos is None,
            r.total is None,
            r.comparison_total is None,
    {
        State {
            attempt: 0,
            game_category: None,
            splits: SplitSet::new(),
            cursor_pos: None,
            total: None,
            comparison_total: None,
        }
    }

    /// Makes the state reflect a reset of the run.
    ///
    /// This clears the per-split aggregate, pace and count data; it
    /// leaves names, positions and open editors in place, and does not
    /// touch the attempt number, which a separate event announces.
    pub fn reset(&mut self)
        ensures
            final(self).attempt == old(self).attempt,
            final(self).game_category == old(self).game_category,
            final(self).cursor_pos == old(self).cursor_pos,
            final(self).total == old(self).total,
            final(self).comparison_total == old(self).comparison_total,
            final(self).splits.short_map == old(self).splits.short_map,
            final(self).splits.vec@.len() == old(self).splits.vec@.len(),
            forall|j: int|
                0 <= j < old(self).splits.vec@.len() ==> final(self).splits.vec@[j].num_times == 0
                    && final(self).splits.vec@[j].name == old(self).splits.vec@[j].name && final(self).splits.vec@[j].aggregates == Full::spec_empty()
                    && final(self).splits.vec@[j].pace_in_run
                    == SplitInRun::Inconclusive && final(self).splits.vec@[j].position == old(self).splits.vec@[j].position && final(self).splits.vec@[j].editor == old(self).splits.vec@[j].editor,
    {
        self.splits.reset();
    }

    /// Appends one split with the given short name and display name; the
    /// new split starts with nothing logged, and the splits already in
    /// place are untouched.
    pub fn add_split(&mut self, short: String, name: String)
        requires
            old(self).splits.vec@.len() < usize::MAX,
        ensures
            final(self).attempt == old(self).attempt,
            final(self).game_category == old(self).game_category,
            final(self).cursor_pos == old(self).cursor_pos,
            final(self).total == old(self).total,
            final(self).comparison_total == old(self).comparison_total,
            final(self).splits.vec@.len() == old(self).splits.vec@.len() + 1,
            forall|j: int|
                0 <= j < old(self).splits.vec@.len() ==> final(self).splits.vec@[j] == old(self).splits.vec@[j],
            final(self).splits.vec@.last().name == name,
            final(self).splits.vec@.last().num_times == 0,
            final(self).splits.vec@.last().aggregates
                == Full::spec_empty(),
            final(self).splits.vec@.last().pace_in_run
                == SplitInRun::Inconclusive,
            final(self).splits.vec@.last().editor is None,
            final(self).splits.short_map.fwd().dom().contains(short@),
            final(self).splits.short_map.fwd()[short@] == old(self).splits.vec@.len(),
    {
        self.splits.add(short, name);
    }

    /// Applies one observed event for the split with the given short
    /// name; an unknown or stale name is ignored.
    pub fn handle_split_event(
        &mut self,
        short: &String,
        evt: &super::super::super::model::attempt::observer::SplitEvent,
    )
        ensures
            final(self).attempt == old(self).attempt,
            final(self).game_category == old(self).game_category,
            final(self).cursor_pos == old(self).cursor_pos,
            final(self).total == old(self).total,
            final(self).comparison_total == old(self).comparison_total,
            final(self).splits.short_map == old(self).splits.short_map,
            final(self).splits.vec@.len() == old(self).splits.vec@.len(),
            if old(self).splits.short_map.fwd().dom().contains(short@) && old(self).splits.short_map.fwd()[short@] < old(self).splits.vec@.len() {
                {
                    let i = old(self).splits.short_map.fwd()[short@] as int;
                    split::spec_event_effect(
                        old(self).splits.vec@[i],
                        final(self).splits.vec@[i],
                        *evt,
                    ) && forall|j: int|
                        0 <= j < old(self).splits.vec@.len() && j != i ==> final(self).splits.vec@[j]
                            == old(self).splits.vec@[j]
                }
            } else {
                final(self).splits.vec@ == old(self).splits.vec@
            },
    {
        self.splits.handle_event(short, evt);
    }

    /// The number of splits the presenter is tracking.
    pub fn num_splits(&self) -> (r: usize)
        ensures
            r == self.splits.vec@.len(),
    {
        self.splits.len()
    }

    /// Mirrors in a new cursor position.
    pub fn set_cursor(&mut self, pos: Option<usize>)
        ensures
            *final(self) == (State { cursor_pos: pos, ..*old(self) }),
    {
        self.cursor_pos = pos;
    }

    /// Applies one observed event to the state: initial split
    /// information appends a split, a reset clears the per-split data,
    /// attempt and game/category announcements land in their fields, a
    /// split event is routed by its short name, and totals land by
    /// their source.
    pub fn handle_event(&mut self, evt: &Event)
        requires
            evt matches Event::AddSplit(_, _) ==> old(self).splits.vec@.len() < usize::MAX,
        ensures
            match evt {
                Event::AddSplit(short, name) => {
                    &&& final(self).attempt == old(self).attempt
                    &&& final(self).game_category == old(self).game_category
                    &&& final(self).cursor_pos == old(self).cursor_pos
                    &&& final(self).total == old(self).total
                    &&& final(self).comparison_total == old(self).comparison_total
                    &&& final(self).splits.vec@.len() == old(self).splits.vec@.len() + 1
                    &&& forall|j: int|
                        0 <= j < old(self).splits.vec@.len() ==> final(self).splits.vec@[j] == old(self).splits.vec@[j]
                    &&& final(self).splits.vec@.last().name == name
                    &&& final(self).splits.vec@.last().num_times == 0
                    &&& final(self).splits.short_map.fwd().dom().contains(short@)
                    &&& final(self).splits.short_map.fwd()[short@] == old(self).splits.vec@.len()
                },
                Event::Reset(_) => {
                    &&& final(self).attempt == old(self).attempt
                    &&& final(self).game_category == old(self).game_category
                    &&& final(self).cursor_pos == old(self).cursor_pos
                    &&& final(self).total == old(self).total
                    &&& final(self).comparison_total == old(self).comparison_total
                    &&& final(self).splits.short_map == old(self).splits.short_map
                    &&& final(self).splits.vec@.len() == old(self).splits.vec@.len()
                    &&& forall|j: int|
                        0 <= j < old(self).splits.vec@.len() ==> final(self).splits.vec@[j].num_times == 0 && final(self).splits.vec@[j].name == old(self).splits.vec@[j].name
                            && final(self).splits.vec@[j].aggregates == Full::spec_empty()
                            && final(self).splits.vec@[j].pace_in_run == SplitInRun::Inconclusive
                            && final(self).splits.vec@[j].position == old(self).splits.vec@[j].position && final(self).splits.vec@[j].editor == old(self).splits.vec@[j].editor
                },
                Event::Attempt(n) => *final(self) == (State { attempt: *n, ..*old(self) }),
                Event::GameCategory(info) => *final(self) == (State {
                    game_category: Some(*info),
                    ..*old(self)
                }),
                Event::Split(short, e) => {
                    &&& final(self).attempt == old(self).attempt
                    &&& final(self).game_category == old(self).game_category
                    &&& final(self).cursor_pos == old(self).cursor_pos
                    &&& final(self).total == old(self).total
                    &&& final(self).comparison_total == old(self).comparison_total
                    &&& final(self).splits.short_map == old(self).splits.short_map
                    &&& final(self).splits.vec@.len() == old(self).splits.vec@.len()
                    &&& if old(self).splits.short_map.fwd().dom().contains(short@) && old(self).splits.short_map.fwd()[short@] < old(self).splits.vec@.len() {
                        {
                            let i = old(self).splits.short_map.fwd()[short@] as int;
                            split::spec_event_effect(
                                old(self).splits.vec@[i],
                                final(self).splits.vec@[i],
                                *e,
                            ) && forall|j: int|
                                0 <= j < old(self).splits.vec@.len() && j != i ==> final(self).splits.vec@[j] == old(self).splits.vec@[j]
                        }
                    } else {
                        final(self).splits.vec@ == old(self).splits.vec@
                    }
                },
                Event::Total(pt, source) => match source {
                    Source::Attempt => *final(self) == (State {
                        total: Some(*pt),
                        ..*old(self)
                    }),
                    Source::Comparison => *final(self) == (State {
                        comparison_total: Some(*pt),
                        ..*old(self)
                    }),
                },
            },
    {
        match evt {
            Event::AddSplit(short, name) => {
                self.add_split(short.clone(), name.clone());
            },
            Event::Reset(_) => {
                self.reset();
            },
            Event::Attempt(n) => {
                self.attempt = *n;
            },
            Event::GameCategory(info) => {
                self.game_category = Some(info.duplicate());
            },
            Event::Split(short, e) => {
                self.handle_split_event(short, e);
            },
            Event::Total(pt, source) => {
                match source {
                    Source::Attempt => {
                        self.total = Some(*pt);
                    },
                    Source::Comparison => {
                        self.comparison_total = Some(*pt);
                    },
                }
            },
        }
    }
}

} // verus!
