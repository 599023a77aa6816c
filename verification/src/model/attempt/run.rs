//! The ordered collection of splits under attempt, plus attempt metadata.

use vstd::prelude::*;

use super::super::category::ShortDescriptor;
use super::super::clock::Timestamp;
use super::super::history::{FullyTimed, SplitTiming};
use super::super::time::Time;
use super::action::Locator;
use super::split::{spec_cleared, Split};

verus! {

/// The derived progress status of a run.  It is never stored: it is
/// recomputed from which splits have logged times.
#[derive(Debug, Clone, Copy, PartialEq, Eq, Structural)]
pub enum Status {
    /// No split has any logged time.
    NotStarted,
    /// Some splits have logged times, but not all.
    InProgress,
    /// Every split has at least one logged time.
    Complete,
}

impl Status {
    /// The completion flag a historic record would carry: `None` when the
    /// run never started (nothing worth recording), and otherwise whether
    /// it was completed.
    pub fn to_completeness(self) -> (r: Option<bool>)
        ensures
            r == self.spec_completeness(),
    {
        match self {
            Status::NotStarted => None,
            Status::InProgress => Some(false),
            Status::Complete => Some(true),
        }
    }

    /// The completion flag a historic record would carry.
    pub open spec fn spec_completeness(self) -> Option<bool> {
        match self {
            Status::NotStarted => None,
            Status::InProgress => Some(false),
            Status::Complete => Some(true),
        }
    }
}

/// Whether every short identifier in a sequence of splits is distinct.
pub open spec fn shorts_unique(splits: Seq<Split>) -> bool {
    forall|i: int, j: int|
        0 <= i < j < splits.len() ==> splits[i].info.short@ != splits[j].info.short@
}

/// The index of the first split in `splits` whose short identifier is
/// `short`, if any.
pub open spec fn spec_position(splits: Seq<Split>, short: Seq<char>) -> Option<int>
    decreases splits.len(),
{
    if splits.len() == 0 {
        None
    } else if splits[0].info.short@ == short {
        Some(0int)
    } else {
        match spec_position(splits.drop_first(), short) {
            Some(i) => Some(i + 1),
            None => None,
        }
    }
}

/// `spec_position` finds exactly the first index carrying the
/// identifier: a match at `i` with no earlier match resolves to `i`, and
/// no match at all resolves to nothing.
pub proof fn lemma_spec_position_first(splits: Seq<Split>, short: Seq<char>, i: int)
    requires
        0 <= i < splits.len(),
        splits[i].info.short@ == short,
        forall|j: int| 0 <= j < i ==> splits[j].info.short@ != short,
    ensures
        spec_position(splits, short) == Some(i),
    decreases splits.len(),
{
    if i > 0 {
        lemma_spec_position_first(splits.drop_first(), short, i - 1);
    }
}

/// When no split carries the identifier, `spec_position` resolves to
/// nothing.
pub proof fn lemma_spec_position_none(splits: Seq<Split>, short: Seq<char>)
    requires
        forall|j: int| 0 <= j < splits.len() ==> splits[j].info.short@ != short,
    ensures
        spec_position(splits, short) == None::<int>,
    decreases splits.len(),
{
    if splits.len() > 0 {
        assert(splits[0].info.short@ != short);
        lemma_spec_position_none(splits.drop_first(), short);
    }
}

/// The index the given locator resolves to, if any: an index locator
/// resolves to itself when in range, and a name locator to the first
/// split carrying the name.
pub open spec fn spec_locate(splits: Seq<Split>, loc: Locator) -> Option<int> {
    match loc {
        Locator::Index(i) => if i < splits.len() {
            Some(i as int)
        } else {
            None
        },
        Locator::Name(s) => spec_position(splits, s@),
    }
}

/// How a sequence of splits changes when a time is pushed onto split
/// `i`: that split gains the time on top of its stack, and everything
/// else stays as it was.
pub open spec fn splits_with_push(a: Seq<Split>, b: Seq<Split>, i: int, t: Time) -> bool {
    &&& b.len() == a.len()
    &&& b[i].times_seq() == a[i].times_seq().push(t)
    &&& b[i].info == a[i].info
    &&& forall|j: int| 0 <= j < a.len() && j != i ==> b[j] == a[j]
}

/// How a sequence of splits changes when the most recent time is popped
/// off split `i` (which must have one): that split loses its top time,
/// and everything else stays as it was.
pub open spec fn splits_with_pop(a: Seq<Split>, b: Seq<Split>, i: int) -> bool {
    &&& b.len() == a.len()
    &&& b[i].times_seq() == a[i].times_seq().drop_last()
    &&& b[i].info == a[i].info
    &&& forall|j: int| 0 <= j < a.len() && j != i ==> b[j] == a[j]
}

/// How a sequence of splits changes when split `i` is cleared: that
/// split's stack empties, and everything else stays as it was.
pub open spec fn splits_with_clear(a: Seq<Split>, b: Seq<Split>, i: int) -> bool {
    &&& b.len() == a.len()
    &&& b[i].times_seq() == spec_cleared(a[i].times_seq())
    &&& b[i].info == a[i].info
    &&& forall|j: int| 0 <= j < a.len() && j != i ==> b[j] == a[j]
}

/// How a sequence of splits changes on reset: every stack empties and
/// every identity stays.
pub open spec fn splits_all_cleared(a: Seq<Split>, b: Seq<Split>) -> bool {
    &&& b.len() == a.len()
    &&& forall|j: int|
        0 <= j < a.len() ==> b[j].times_seq() == spec_cleared(a[j].times_seq()) && b[j].info
            == a[j].info
}

/// Clearing one split twice leaves the same state as clearing it once:
/// every split's stack and identity agree after the first and the second
/// clear.
pub proof fn lemma_clear_action_idempotent(
    s0: Seq<Split>,
    s1: Seq<Split>,
    s2: Seq<Split>,
    i: int,
)
    requires
        0 <= i < s0.len(),
        splits_with_clear(s0, s1, i),
        splits_with_clear(s1, s2, i),
    ensures
        splits_with_clear(s0, s2, i),
        s2.len() == s1.len(),
        forall|j: int|
            0 <= j < s1.len() ==> s2[j].times_seq() == s1[j].times_seq() && s2[j].info
                == s1[j].info,
{
}

/// The derived status of a sequence of splits.  A run with no splits at
/// all counts as not started.
pub open spec fn spec_status(splits: Seq<Split>) -> Status {
    if forall|i: int| 0 <= i < splits.len() ==> splits[i].times_seq().len() == 0 {
        Status::NotStarted
    } else if forall|i: int| 0 <= i < splits.len() ==> splits[i].times_seq().len() > 0 {
        Status::Complete
    } else {
        Status::InProgress
    }
}

/// An ordered collection of splits, plus the number of the attempt being
/// made over them.
#[derive(Debug, Clone, PartialEq, Eq)]
pub struct Run {
    /// The splits, in order.
    pub splits: Vec<Split>,
    /// How many times the run has been reset; increments exactly once per
    /// reset and never decreases.
    pub attempt_number: u64,
}

/// Checks that every short identifier in `splits` is distinct, so that
/// each resolves to at most one split.
pub fn check_shorts_unique(splits: &Vec<Split>) -> (r: bool)
    ensures
        r == shorts_unique(splits@),
{
    let mut i: usize = 0;
    while i < splits.len()
        invariant
            0 <= i <= splits@.len(),
            forall|p: int, q: int|
                0 <= p < q < splits@.len() && p < i ==> splits@[p].info.short@
                    != splits@[q].info.short@,
        decreases splits@.len() - i,
    {
        let mut j: usize = i + 1;
        while j < splits.len()
            invariant
                0 <= i < j <= splits@.len(),
                forall|q: int| i < q < j ==> splits@[i as int].info.short@ != splits@[q].info.short@,
            decreases splits@.len() - j,
        {
            if splits[i].info.short == splits[j].info.short {
                return false;
            }
            j = j + 1;
        }
        i = i + 1;
    }
    true
}

/// Copies a stack of times element by element.
fn copy_times(times: &Vec<Time>) -> (r: Vec<Time>)
    ensures
        r@ == times@,
{
    let mut out: Vec<Time> = Vec::new();
    let mut i: usize = 0;
    while i < times.len()
        invariant
            0 <= i <= times@.len(),
            out@ == times@.subrange(0, i as int),
        decreases times@.len() - i,
    {
        out.push(times[i]);
        i = i + 1;
    }
    proof {
        assert(times@.subrange(0, times@.len() as int) =~= times@);
    }
    out
}

impl Run {
    /// Creates a run over the given splits, with no attempts made yet.
    ///
    /// The splits' short identifiers must be distinct, so that each
    /// resolves to at most one index; [`check_shorts_unique`] tests this.
    pub fn new(splits: Vec<Split>) -> (r: Self)
        requires
            shorts_unique(splits@),
        ensures
            r.splits == splits,
            r.attempt_number == 0,
    {
        Run { splits, attempt_number: 0 }
    }

    /// The number of splits in the run.
    pub fn num_splits(&self) -> (r: usize)
        ensures
            r == self.splits@.len(),
    {
        self.splits.len()
    }

    /// The index of the split with the given short identifier, or `None`
    /// if no split has it.  When the run's identifiers are distinct, the
    /// returned index is the only one.
    pub fn position_of(&self, short: &String) -> (r: Option<usize>)
        ensures
            match r {
                Some(i) => spec_position(self.splits@, short@) == Some(i as int) && i
                    < self.splits@.len() && self.splits@[i as int].info.short@ == short@
                    && forall|j: int| 0 <= j < i ==> self.splits@[j].info.short@ != short@,
                None => spec_position(self.splits@, short@) == None::<int> && forall|j: int|
                    0 <= j < self.splits@.len() ==> self.splits@[j].info.short@ != short@,
            },
    {
        let mut i: usize = 0;
        while i < self.splits.len()
            invariant
                0 <= i <= self.splits@.len(),
                forall|j: int| 0 <= j < i ==> self.splits@[j].info.short@ != short@,
            decreases self.splits@.len() - i,
        {
            if self.splits[i].info.short == *short {
                proof {
                    lemma_spec_position_first(self.splits@, short@, i as int);
                }
                return Some(i);
            }
            i = i + 1;
        }
        proof {
            lemma_spec_position_none(self.splits@, short@);
        }
        None
    }

    /// The index the given locator resolves to, if any.
    pub fn locate(&self, loc: &Locator) -> (r: Option<usize>)
        ensures
            match r {
                Some(i) => spec_locate(self.splits@, *loc) == Some(i as int) && (i as int)
                    < self.splits@.len(),
                None => spec_locate(self.splits@, *loc) == None::<int>,
            },
    {
        match loc {
            Locator::Index(i) => if *i < self.splits.len() {
                Some(*i)
            } else {
                None
            },
            Locator::Name(n) => self.position_of(n),
        }
    }

    /// The derived status of the run.
    pub fn status(&self) -> (r: Status)
        ensures
            r == spec_status(self.splits@),
    {
        let mut any: bool = false;
        let mut all: bool = true;
        let mut i: usize = 0;
        while i < self.splits.len()
            invariant
                0 <= i <= self.splits@.len(),
                any == exists|j: int| 0 <= j < i && self.splits@[j].times_seq().len() > 0,
                all == forall|j: int| 0 <= j < i ==> self.splits@[j].times_seq().len() > 0,
            decreases self.splits@.len() - i,
        {
            if self.splits[i].num_times() > 0 {
                proof {
                    assert(self.splits@[i as int].times_seq().len() > 0);
                }
                any = true;
            } else {
                all = false;
            }
            i = i + 1;
        }
        if !any {
            Status::NotStarted
        } else if all {
            Status::Complete
        } else {
            Status::InProgress
        }
    }

    /// Clears every split's logged times, leaving all metadata in place,
    /// and counts one more attempt.
    ///
    /// The attempt counter must not be exhausted; that is the one machine
    /// limit on the operation.
    pub fn reset(&mut self)
        requires
            old(self).attempt_number < u64::MAX,
        ensures
            final(self).splits@.len() == old(self).splits@.len(),
            forall|i: int|
                0 <= i < old(self).splits@.len() ==> final(self).splits@[i].times_seq()
                    == spec_cleared(old(self).splits@[i].times_seq())
                    && final(self).splits@[i].info == old(self).splits@[i].info,
            final(self).attempt_number == old(self).attempt_number + 1,
    {
        let mut i: usize = 0;
        while i < self.splits.len()
            invariant
                0 <= i <= self.splits@.len(),
                self.splits@.len() == old(self).splits@.len(),
                self.attempt_number == old(self).attempt_number,
                forall|j: int|
                    0 <= j < i ==> self.splits@[j].times_seq() == Seq::<Time>::empty()
                        && self.splits@[j].info == old(self).splits@[j].info,
                forall|j: int| i <= j < self.splits@.len() ==> self.splits@[j] == old(self).splits@[j],
            decreases self.splits@.len() - i,
        {
            self.splits[i].clear();
            i = i + 1;
        }
        self.attempt_number = self.attempt_number + 1;
    }

    /// Snapshots the identity and logged times of each split, in order.
    pub fn timing_as_historic(&self) -> (r: Vec<SplitTiming>)
        ensures
            r@.len() == self.splits@.len(),
            forall|i: int|
                0 <= i < r@.len() ==> r@[i].short == self.splits@[i].info.short && r@[i].name
                    == self.splits@[i].info.name && r@[i].times@ == self.splits@[i].times_seq(),
    {
        let mut out: Vec<SplitTiming> = Vec::new();
        let mut i: usize = 0;
        while i < self.splits.len()
            invariant
                0 <= i <= self.splits@.len(),
                out@.len() == i,
                forall|j: int|
                    0 <= j < i ==> out@[j].short == self.splits@[j].info.short && out@[j].name
                        == self.splits@[j].info.name && out@[j].times@
                        == self.splits@[j].times_seq(),
            decreases self.splits@.len() - i,
        {
            let sp = &self.splits[i];
            out.push(
                SplitTiming {
                    short: sp.info.short.clone(),
                    name: sp.info.name.clone(),
                    times: copy_times(&sp.times),
                },
            );
            i = i + 1;
        }
        out
    }

    /// Snapshots the whole run as a historic record, under the given
    /// category locator, completion flag and timestamp.
    pub fn as_historic_record(
        &self,
        category_locator: ShortDescriptor,
        was_completed: bool,
        date: Timestamp,
    ) -> (r: FullyTimed)
        ensures
            r.category_locator == category_locator,
            r.was_completed == was_completed,
            r.date == date,
            r.timing@.len() == self.splits@.len(),
            forall|i: int|
                0 <= i < r.timing@.len() ==> r.timing@[i].short == self.splits@[i].info.short
                    && r.timing@[i].name == self.splits@[i].info.name && r.timing@[i].times@
                    == self.splits@[i].times_seq(),
    {
        FullyTimed { category_locator, was_completed, date, timing: self.timing_as_historic() }
    }
}

} // verus!
