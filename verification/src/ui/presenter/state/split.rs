//! Presenter state for individual splits.

use vstd::prelude::*;

use super::super::super::super::model::aggregate::{Full, Kind, Scope, Source};
use super::super::super::super::model::pace::{Pace, PacedTime, SplitInRun};
use super::super::super::super::model::attempt::observer::{SplitEvent, TimeKind};
use super::super::super::super::model::attempt::run::{shorts_unique, Run};
use super::super::super::super::model::short::{
    bimap_get_by_left, bimap_insert, bimap_new, ShortMap, ShortMapFwd,
};
use super::super::super::super::model::time::{spec_from_millis, Position, Time};
use super::super::super::text::{dec_string, spec_dec};
use super::super::cursor::{Cursor, SplitPosition};
use super::super::mode::editor::Editor;

verus! {

/// The visual state of an editor shown on one split: each time field
/// rendered as text, and which field is active.
#[derive(Debug, Clone, PartialEq, Eq)]
pub struct EditorState {
    /// The rendered hours field.
    pub hours: String,
    /// The rendered minutes field.
    pub mins: String,
    /// The rendered seconds field.
    pub secs: String,
    /// The rendered milliseconds field.
    pub msecs: String,
    /// The field being typed into, if any.
    pub field: Option<Position>,
}

/// Presenter state about one split.
#[derive(Debug, Clone, PartialEq, Eq)]
pub struct Split {
    /// How many times the presenter believes are logged on this split.
    pub num_times: usize,
    /// The display name of the split.
    pub name: String,
    /// The cached aggregate times last observed for this split.
    pub aggregates: Full,
    /// The pace last observed for this split.
    pub pace_in_run: SplitInRun,
    /// Where the split stands relative to the cursor.
    pub position: SplitPosition,
    /// Any editor shown on this split.
    pub editor: Option<EditorState>,
}

/// How one observed split event changes the presenter's picture of a
/// split: an aggregate lands in its slot, a push or pop adjusts the time
/// count (a pop of a count already zero leaves it at zero), and a pace
/// event replaces the verdict; nothing else moves.
pub open spec fn spec_split_event_applies(
    old: Split,
    new: Split,
    time: Option<Time>,
    kind_opt: Option<Kind>,
    delta: int,
    pace: Option<SplitInRun>,
) -> bool {
    &&& new.name == old.name
    &&& new.position == old.position
    &&& new.editor == old.editor
    &&& new.num_times == if delta == 1 && old.num_times < usize::MAX {
        old.num_times + 1
    } else if delta == -1 && old.num_times > 0 {
        old.num_times - 1
    } else {
        old.num_times as int
    }
    &&& new.pace_in_run == match pace {
        Some(p) => p,
        None => old.pace_in_run,
    }
    &&& match kind_opt {
        Some(kind) => new.aggregates.spec_get(kind.source).spec_get(kind.scope) == time
            && forall|s: Source, c: Scope|
                (Kind { source: s, scope: c }) != kind ==> new.aggregates.spec_get(s).spec_get(c)
                    == old.aggregates.spec_get(s).spec_get(c),
        None => new.aggregates == old.aggregates,
    }
}

/// The effect one observed split event has on the presenter's picture of
/// a split.
pub open spec fn spec_event_effect(old: Split, new: Split, evt: SplitEvent) -> bool {
    match evt {
        SplitEvent::Time(t, k) => match k {
            TimeKind::Pushed => spec_split_event_applies(old, new, None, None, 1, None),
            TimeKind::Popped => spec_split_event_applies(old, new, None, None, -1, None),
            TimeKind::Aggregate(kind) => spec_split_event_applies(
                old,
                new,
                Some(t),
                Some(kind),
                0,
                None,
            ),
        },
        SplitEvent::Pace(p) => spec_split_event_applies(old, new, None, None, 0, Some(p)),
    }
}

impl Split {
    /// A split with the given display name and nothing logged.
    pub fn new(name: String) -> (r: Self)
        ensures
            r.name == name,
            r.num_times == 0,
            r.aggregates.attempt.split is None && r.aggregates.attempt.cumulative is None,
            r.aggregates.comparison.split is None && r.aggregates.comparison.cumulative is None,
            r.pace_in_run == SplitInRun::Inconclusive,
            r.position == SplitPosition::Coming,
            r.editor is None,
    {
        Split {
            num_times: 0,
            name,
            aggregates: Full::empty(),
            pace_in_run: SplitInRun::Inconclusive,
            position: SplitPosition::Coming,
            editor: None,
        }
    }

    /// The presenter's picture of one model split, as dumped: its name
    /// and time count, with no aggregates, pace or editor yet.
    pub fn from_dump(
        dump: &super::super::super::super::model::attempt::split::Split,
    ) -> (r: Self)
        ensures
            r.name == dump.info.name,
            r.num_times == dump.times_seq().len(),
            r.aggregates.attempt.split is None && r.aggregates.attempt.cumulative is None,
            r.aggregates.comparison.split is None && r.aggregates.comparison.cumulative is None,
            r.pace_in_run == SplitInRun::Inconclusive,
            r.position == SplitPosition::Coming,
            r.editor is None,
    {
        Split {
            num_times: dump.num_times(),
            name: dump.info.name.clone(),
            aggregates: Full::empty(),
            pace_in_run: SplitInRun::Inconclusive,
            position: SplitPosition::Coming,
            editor: None,
        }
    }

    /// Resets the per-run state of this split: the aggregates, pace and
    /// time count clear; the name, cursor position and any open editor
    /// stay as they were.
    pub fn reset(&mut self)
        ensures
            final(self).num_times == 0,
            final(self).name == old(self).name,
            final(self).aggregates == Full::spec_empty(),
            final(self).pace_in_run == SplitInRun::Inconclusive,
            final(self).position == old(self).position,
            final(self).editor == old(self).editor,
    {
        self.num_times = 0;
        self.aggregates = Full::empty();
        self.pace_in_run = SplitInRun::Inconclusive;
    }

    /// Replaces the split's cursor-relative position.
    pub fn set_position(&mut self, position: SplitPosition)
        ensures
            *final(self) == (Split { position, ..*old(self) }),
    {
        self.position = position;
    }

    /// The cumulative time at this split, under its overall pace verdict;
    /// the zero time if no cumulative has been observed.
    pub fn paced_cumulative(&self) -> (r: PacedTime)
        ensures
            r.pace == self.pace_in_run.spec_overall(),
            r.time == match self.aggregates.attempt.cumulative {
                Some(t) => t,
                None => spec_from_millis(0),
            },
    {
        let time = match self.aggregates.attempt.cumulative {
            Some(t) => t,
            None => Time::zero(),
        };
        PacedTime { pace: self.pace_in_run.overall(), time }
    }

    /// Applies one observed split event to this picture of the split.
    pub fn handle_event(&mut self, evt: &SplitEvent)
        ensures
            spec_event_effect(*old(self), *final(self), *evt),
    {
        match evt {
            SplitEvent::Time(t, k) => {
                match k {
                    TimeKind::Pushed => {
                        if self.num_times < usize::MAX {
                            self.num_times = self.num_times + 1;
                        }
                    },
                    TimeKind::Popped => {
                        if self.num_times > 0 {
                            self.num_times = self.num_times - 1;
                        }
                    },
                    TimeKind::Aggregate(kind) => {
                        self.aggregates.set_kind(*kind, Some(*t));
                    },
                }
            },
            SplitEvent::Pace(p) => {
                self.pace_in_run = *p;
            },
        }
    }

    /// Mirrors the given editor into this split's visual state: each time
    /// field rendered in decimal, with the field being typed into showing
    /// the typed value instead.
    pub fn set_editor(&mut self, editor: Option<&Editor>)
        ensures
            final(self).num_times == old(self).num_times,
            final(self).name == old(self).name,
            final(self).aggregates == old(self).aggregates,
            final(self).pace_in_run == old(self).pace_in_run,
            final(self).position == old(self).position,
            match editor {
                None => final(self).editor is None,
                Some(e) => match final(self).editor {
                    Some(st) => {
                        &&& st.hours@ == spec_editor_field(*e, Position::Hours)
                        &&& st.mins@ == spec_editor_field(*e, Position::Minutes)
                        &&& st.secs@ == spec_editor_field(*e, Position::Seconds)
                        &&& st.msecs@ == spec_editor_field(*e, Position::Milliseconds)
                        &&& st.field == match e.field {
                            Some(f) => Some(f.position),
                            None => None::<Position>,
                        }
                    },
                    None => false,
                },
            },
    {
        match editor {
            None => {
                self.editor = None;
            },
            Some(e) => {
                let hours = dec_string(editor_field_value(e, Position::Hours));
                let mins = dec_string(editor_field_value(e, Position::Minutes));
                let secs = dec_string(editor_field_value(e, Position::Seconds));
                let msecs = dec_string(editor_field_value(e, Position::Milliseconds));
                let field = match e.field {
                    Some(f) => Some(f.position),
                    None => None,
                };
                self.editor = Some(EditorState { hours, mins, secs, msecs, field });
            },
        }
    }
}

/// The value an editor shows in the given field: the typed value where
/// that field is being typed into, else the field's stored value.
pub open spec fn spec_editor_field_value(e: Editor, pos: Position) -> u64 {
    match e.field {
        Some(f) => if f.position == pos {
            f.value
        } else {
            spec_editor_stored(e, pos)
        },
        None => spec_editor_stored(e, pos),
    }
}

/// The value an editor stores in the given field.
pub open spec fn spec_editor_stored(e: Editor, pos: Position) -> u64 {
    match pos {
        Position::Hours => e.hours,
        Position::Minutes => e.mins,
        Position::Seconds => e.secs,
        Position::Milliseconds => e.millis,
    }
}

/// The text an editor shows in the given field.
pub open spec fn spec_editor_field(e: Editor, pos: Position) -> Seq<char> {
    spec_dec(spec_editor_field_value(e, pos) as int)
}

/// The value an editor shows in the given field.
fn editor_field_value(e: &Editor, pos: Position) -> (r: u64)
    ensures
        r == spec_editor_field_value(*e, pos),
{
    match e.field {
        Some(f) => if f.position == pos {
            f.value
        } else {
            editor_stored(e, pos)
        },
        None => editor_stored(e, pos),
    }
}

/// The value an editor stores in the given field.
fn editor_stored(e: &Editor, pos: Position) -> (r: u64)
    ensures
        r == spec_editor_stored(*e, pos),
{
    match pos {
        Position::Hours => e.hours,
        Position::Minutes => e.mins,
        Position::Seconds => e.secs,
        Position::Milliseconds => e.millis,
    }
}

/// A set of per-split presenter state.
///
/// The set keeps the splits in order and, beside them, a bidirectional
/// map from short names to positions, so that every split can be found
/// both ways; the map's one-to-one invariant is enforced by the map
/// itself on every insert.
pub struct SplitSet {
    /// The bidirectional short-name-to-position map.
    pub short_map: ShortMap,
    /// The per-split state, in split order.
    pub vec: Vec<Split>,
}

impl SplitSet {
    /// A set with no splits.
    pub fn new() -> (r: Self)
        ensures
            r.vec@.len() == 0,
            forall|k: Seq<char>| !r.short_map.fwd().dom().contains(k),
    {
        SplitSet { short_map: bimap_new(), vec: Vec::new() }
    }

    /// Appends one split with the given short name and display name, and
    /// files the short name at the new position.
    pub fn add(&mut self, short: String, name: String)
        requires
            old(self).vec@.len() < usize::MAX,
        ensures
            final(self).vec@.len() == old(self).vec@.len() + 1,
            forall|j: int| 0 <= j < old(self).vec@.len() ==> final(self).vec@[j] == old(self).vec@[j],
            final(self).vec@.last().name == name,
            final(self).vec@.last().num_times == 0,
            final(self).vec@.last().aggregates == Full::spec_empty(),
            final(self).vec@.last().pace_in_run == SplitInRun::Inconclusive,
            final(self).vec@.last().position == SplitPosition::Coming,
            final(self).vec@.last().editor is None,
            final(self).short_map.fwd().dom().contains(short@),
            final(self).short_map.fwd()[short@] == old(self).vec@.len(),
            forall|k: Seq<char>|
                k != short@ && old(self).short_map.fwd().dom().contains(k) && old(self).short_map.fwd()[k] != old(self).vec@.len()
                    ==> final(self).short_map.fwd().dom().contains(k)
                    && final(self).short_map.fwd()[k] == old(self).short_map.fwd()[k],
            forall|k: Seq<char>|
                final(self).short_map.fwd().dom().contains(k) ==> k == short@ || old(self).short_map.fwd().dom().contains(k),
    {
        self.vec.push(Split::new(name));
        bimap_insert(&mut self.short_map, short, self.vec.len() - 1);
    }

    /// The number of splits in the set.
    pub fn len(&self) -> (r: usize)
        ensures
            r == self.vec@.len(),
    {
        self.vec.len()
    }

    /// Whether the set has no splits.
    pub fn is_empty(&self) -> (r: bool)
        ensures
            r == (self.vec@.len() == 0),
    {
        self.vec.is_empty()
    }

    /// The position filed for the given short name, if any.
    pub fn index_of(&self, short: &String) -> (r: Option<usize>)
        ensures
            r == (if self.short_map.fwd().dom().contains(short@) {
                Some(self.short_map.fwd()[short@])
            } else {
                None::<usize>
            }),
    {
        bimap_get_by_left(&self.short_map, short)
    }

    /// The split at the given position, if any.
    pub fn at_index(&self, index: usize) -> (r: Option<&Split>)
        ensures
            match r {
                Some(s) => index < self.vec@.len() && *s == self.vec@[index as int],
                None => index >= self.vec@.len(),
            },
    {
        if index < self.vec.len() {
            Some(&self.vec[index])
        } else {
            None
        }
    }

    /// Applies one observed split event to the split filed under the
    /// given short name; a name filed at no live position is ignored.
    pub fn handle_event(&mut self, short: &String, evt: &SplitEvent)
        ensures
            final(self).short_map == old(self).short_map,
            final(self).vec@.len() == old(self).vec@.len(),
            if old(self).short_map.fwd().dom().contains(short@) && old(self).short_map.fwd()[short@]
                < old(self).vec@.len() {
                {
                    let i = old(self).short_map.fwd()[short@] as int;
                    spec_event_effect(old(self).vec@[i], final(self).vec@[i], *evt) && forall|
                        j: int,
                    |
                        0 <= j < old(self).vec@.len() && j != i ==> final(self).vec@[j] == old(self).vec@[j]
                }
            } else {
                final(self).vec@ == old(self).vec@
            },
    {
        match bimap_get_by_left(&self.short_map, short) {
            Some(i) => {
                if i < self.vec.len() {
                    self.vec[i].handle_event(evt);
                }
            },
            None => {},
        }
    }

    /// Resets every split for a new run, keeping names, positions and
    /// any open editors.
    pub fn reset(&mut self)
        ensures
            final(self).short_map == old(self).short_map,
            final(self).vec@.len() == old(self).vec@.len(),
            forall|j: int|
                0 <= j < old(self).vec@.len() ==> final(self).vec@[j].num_times == 0 && final(self).vec@[j].name == old(self).vec@[j].name && final(self).vec@[j].aggregates
                    == Full::spec_empty() && final(self).vec@[j].pace_in_run
                    == SplitInRun::Inconclusive && final(self).vec@[j].position == old(self).vec@[j].position && final(self).vec@[j].editor == old(self).vec@[j].editor,
    {
        let mut i: usize = 0;
        while i < self.vec.len()
            invariant
                0 <= i <= self.vec@.len(),
                self.short_map == old(self).short_map,
                self.vec@.len() == old(self).vec@.len(),
                forall|j: int|
                    0 <= j < i ==> self.vec@[j].num_times == 0 && self.vec@[j].name == old(self).vec@[j].name && self.vec@[j].aggregates == Full::spec_empty()
                        && self.vec@[j].pace_in_run == SplitInRun::Inconclusive
                        && self.vec@[j].position == old(self).vec@[j].position
                        && self.vec@[j].editor == old(self).vec@[j].editor,
                forall|j: int| i <= j < self.vec@.len() ==> self.vec@[j] == old(self).vec@[j],
            decreases self.vec@.len() - i,
        {
            self.vec[i].reset();
            i = i + 1;
        }
    }

    /// Refreshes each split's cursor-relative position from the cursor.
    pub fn refresh_cursors(&mut self, cur: &Cursor)
        ensures
            final(self).short_map == old(self).short_map,
            final(self).vec@.len() == old(self).vec@.len(),
            forall|j: int|
                0 <= j < old(self).vec@.len() ==> final(self).vec@[j] == (Split {
                    position: if j < cur.spec_position() {
                        SplitPosition::Done
                    } else if j == cur.spec_position() {
                        SplitPosition::Cursor
                    } else {
                        SplitPosition::Coming
                    },
                    ..old(self).vec@[j]
                }),
    {
        let mut i: usize = 0;
        while i < self.vec.len()
            invariant
                0 <= i <= self.vec@.len(),
                self.short_map == old(self).short_map,
                self.vec@.len() == old(self).vec@.len(),
                forall|j: int|
                    0 <= j < i ==> self.vec@[j] == (Split {
                        position: if j < cur.spec_position() {
                            SplitPosition::Done
                        } else if j == cur.spec_position() {
                            SplitPosition::Cursor
                        } else {
                            SplitPosition::Coming
                        },
                        ..old(self).vec@[j]
                    }),
                forall|j: int| i <= j < self.vec@.len() ==> self.vec@[j] == old(self).vec@[j],
            decreases self.vec@.len() - i,
        {
            let p = cur.split_position(i);
            self.vec[i].set_position(p);
            i = i + 1;
        }
    }

    /// Shows the given editor on the split at `position`, if it is live;
    /// the editors of all other splits are untouched.
    pub fn set_editor(&mut self, position: usize, editor: Option<&Editor>)
        ensures
            final(self).short_map == old(self).short_map,
            final(self).vec@.len() == old(self).vec@.len(),
            forall|j: int|
                0 <= j < old(self).vec@.len() && j != position ==> final(self).vec@[j] == old(self).vec@[j],
            (position as int) < old(self).vec@.len() ==> {
                let oldsp = old(self).vec@[position as int];
                let newsp = final(self).vec@[position as int];
                &&& newsp.num_times == oldsp.num_times
                &&& newsp.name == oldsp.name
                &&& newsp.aggregates == oldsp.aggregates
                &&& newsp.pace_in_run == oldsp.pace_in_run
                &&& newsp.position == oldsp.position
                &&& match editor {
                    None => newsp.editor is None,
                    Some(e) => match newsp.editor {
                        Some(st) => st.hours@ == spec_editor_field(*e, Position::Hours)
                            && st.mins@ == spec_editor_field(*e, Position::Minutes) && st.secs@
                            == spec_editor_field(*e, Position::Seconds) && st.msecs@
                            == spec_editor_field(*e, Position::Milliseconds) && st.field == match e.field {
                            Some(f) => Some(f.position),
                            None => None::<Position>,
                        },
                        None => false,
                    },
                }
            },
    {
        if position < self.vec.len() {
            self.vec[position].set_editor(editor);
        }
    }

    /// Sets the number of splits to `count`: splits beyond it are
    /// dropped, and any new positions are filled with blank splits.  The
    /// short-name map is left alone, so names filed at dropped positions
    /// go stale until the next rebuild.
    pub fn set_split_count(&mut self, count: usize)
        ensures
            final(self).short_map == old(self).short_map,
            final(self).vec@.len() == count,
            forall|j: int|
                0 <= j < count && j < old(self).vec@.len() ==> final(self).vec@[j] == old(
                    self,
                ).vec@[j],
            forall|j: int|
                old(self).vec@.len() <= j < count ==> final(self).vec@[j].name@ == Seq::<
                    char,
                >::empty() && final(self).vec@[j].num_times == 0 && final(self).vec@[j].aggregates
                    == Full::spec_empty() && final(self).vec@[j].pace_in_run
                    == SplitInRun::Inconclusive && final(self).vec@[j].position
                    == SplitPosition::Coming && final(self).vec@[j].editor is None,
    {
        if count <= self.vec.len() {
            self.vec.truncate(count);
        } else {
            while self.vec.len() < count
                invariant
                    self.short_map == old(self).short_map,
                    old(self).vec@.len() <= self.vec@.len() <= count,
                    forall|j: int| 0 <= j < old(self).vec@.len() ==> self.vec@[j] == old(self).vec@[j],
                    forall|j: int|
                        old(self).vec@.len() <= j < self.vec@.len() ==> self.vec@[j].name@ == Seq::<
                            char,
                        >::empty() && self.vec@[j].num_times == 0 && self.vec@[j].aggregates
                            == Full::spec_empty() && self.vec@[j].pace_in_run
                            == SplitInRun::Inconclusive && self.vec@[j].position
                            == SplitPosition::Coming && self.vec@[j].editor is None,
                decreases count - self.vec@.len(),
            {
                self.vec.push(Split::new(String::new()));
            }
        }
    }

    /// Rebuilds the set from a dumped run: one split per model split, in
    /// order, each filed under its short name.
    pub fn from_dump(run: &Run) -> (r: Self)
        requires
            shorts_unique(run.splits@),
        ensures
            r.vec@.len() == run.splits@.len(),
            forall|j: int|
                0 <= j < r.vec@.len() ==> r.vec@[j].name == run.splits@[j].info.name
                    && r.vec@[j].num_times == run.splits@[j].times_seq().len()
                    && r.vec@[j].aggregates == Full::spec_empty() && r.vec@[j].pace_in_run
                    == SplitInRun::Inconclusive && r.vec@[j].position == SplitPosition::Coming
                    && r.vec@[j].editor is None,
            forall|j: int|
                0 <= j < r.vec@.len() ==> r.short_map.fwd().dom().contains(
                    run.splits@[j].info.short@,
                ) && r.short_map.fwd()[run.splits@[j].info.short@] == j,
            forall|k: Seq<char>|
                r.short_map.fwd().dom().contains(k) ==> exists|j: int|
                    0 <= j < run.splits@.len() && run.splits@[j].info.short@ == k,
    {
        let mut out = SplitSet::new();
        let mut i: usize = 0;
        while i < run.splits.len()
            invariant
                0 <= i <= run.splits@.len(),
                shorts_unique(run.splits@),
                out.vec@.len() == i,
                forall|j: int|
                    0 <= j < i ==> out.vec@[j].name == run.splits@[j].info.name
                        && out.vec@[j].num_times == run.splits@[j].times_seq().len()
                        && out.vec@[j].aggregates == Full::spec_empty() && out.vec@[j].pace_in_run
                        == SplitInRun::Inconclusive && out.vec@[j].position
                        == SplitPosition::Coming && out.vec@[j].editor is None,
                forall|j: int|
                    0 <= j < i ==> out.short_map.fwd().dom().contains(run.splits@[j].info.short@)
                        && out.short_map.fwd()[run.splits@[j].info.short@] == j,
                forall|k: Seq<char>|
                    out.short_map.fwd().dom().contains(k) ==> exists|j: int|
                        0 <= j < i && run.splits@[j].info.short@ == k,
            decreases run.splits@.len() - i,
        {
            let sp = &run.splits[i];
            out.vec.push(Split::from_dump(sp));
            let ghost before = out.short_map.fwd();
            bimap_insert(&mut out.short_map, sp.info.short.clone(), i);
            proof {
                assert forall|k: Seq<char>| out.short_map.fwd().dom().contains(k) implies exists|
                    j: int,
                |
                    0 <= j < i + 1 && run.splits@[j].info.short@ == k by {
                    if k == run.splits@[i as int].info.short@ {
                        assert(run.splits@[i as int].info.short@ == k);
                    } else {
                        assert(before.dom().contains(k));
                        let j = choose|j: int| 0 <= j < i && run.splits@[j].info.short@ == k;
                        assert(0 <= j < i + 1 && run.splits@[j].info.short@ == k);
                    }
                }
            }
            i = i + 1;
        }
        out
    }
}

} // verus!
