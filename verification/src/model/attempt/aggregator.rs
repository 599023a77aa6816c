//! The aggregate engine: per-split and cumulative totals, from both the
//! live attempt and the comparison baseline.
//!
//! The engine is a pure function of the run's splits and the current
//! comparison snapshot; it is recomputed fresh on every call and caches
//! nothing across calls.

use vstd::prelude::*;

use super::super::aggregate::{Full, Pair};
use super::super::comparison::{spec_lookup, Comparison, Entry};
use super::super::time::{spec_from_millis, Time};
use super::split::{
    lemma_sum_millis_nonneg, lemma_sum_millis_prefix_le, lemma_sum_millis_prefix_succ, sum_millis,
    Split,
};

verus! {

broadcast use crate::model::time::lemma_time_view_nonneg, crate::model::time::lemma_spec_from_millis;

/// Lifts an optional millisecond count to an optional time.
pub open spec fn spec_opt_time(o: Option<int>) -> Option<Time> {
    match o {
        Some(ms) => Some(spec_from_millis(ms)),
        None => None,
    }
}

/// The attempt-side total of one split: the sum of its logged times, or
/// nothing when none has been logged yet.
pub open spec fn spec_attempt_split_ms(sp: Split) -> Option<int> {
    if sp.times_seq().len() == 0 {
        None
    } else {
        Some(sum_millis(sp.times_seq()))
    }
}

/// The attempt-side cumulative total at split `i`: the sum of the splits'
/// totals over `0..=i`, defined only once every one of those splits has
/// been logged at least once.
pub open spec fn spec_attempt_cum_ms(splits: Seq<Split>, i: int) -> Option<int>
    decreases i,
{
    if i < 0 || i >= splits.len() {
        None
    } else if i == 0 {
        spec_attempt_split_ms(splits[0])
    } else {
        match (spec_attempt_cum_ms(splits, i - 1), spec_attempt_split_ms(splits[i])) {
            (Some(c), Some(h)) => Some(c + h),
            _ => None,
        }
    }
}

/// The comparison-side pair for the given split identifier, copied
/// verbatim from the snapshot; both times absent when the snapshot has no
/// entry for it.
pub open spec fn spec_comparison_pair(entries: Seq<Entry>, short: Seq<char>) -> Pair {
    match spec_lookup(entries, short) {
        Some(p) => p,
        None => Pair { split: None, cumulative: None },
    }
}

/// The full aggregate set the engine produces for split `i`.
pub open spec fn spec_full_at(splits: Seq<Split>, entries: Seq<Entry>, i: int) -> Full {
    Full {
        attempt: Pair {
            split: spec_opt_time(spec_attempt_split_ms(splits[i])),
            cumulative: spec_opt_time(spec_attempt_cum_ms(splits, i)),
        },
        comparison: spec_comparison_pair(entries, splits[i].info.short@),
    }
}

/// The total number of milliseconds logged across a whole run.
pub open spec fn run_sum_millis(splits: Seq<Split>) -> int
    decreases splits.len(),
{
    if splits.len() == 0 {
        0
    } else {
        run_sum_millis(splits.drop_last()) + sum_millis(splits.last().times_seq())
    }
}

/// A run's logged times never sum to a negative duration.
pub proof fn lemma_run_sum_nonneg(splits: Seq<Split>)
    ensures
        run_sum_millis(splits) >= 0,
    decreases splits.len(),
{
    if splits.len() > 0 {
        lemma_run_sum_nonneg(splits.drop_last());
        lemma_sum_millis_nonneg(splits.last().times_seq());
    }
}

/// Extending a prefix of a run by one split adds exactly that split's
/// sum.
pub proof fn lemma_run_sum_prefix_succ(splits: Seq<Split>, i: int)
    requires
        0 <= i < splits.len(),
    ensures
        run_sum_millis(splits.subrange(0, i + 1)) == run_sum_millis(splits.subrange(0, i))
            + sum_millis(splits[i].times_seq()),
{
    assert(splits.subrange(0, i + 1).drop_last() =~= splits.subrange(0, i));
    assert(splits.subrange(0, i + 1).last() == splits[i]);
}

/// The sum over a prefix of a run never exceeds the sum over the whole.
pub proof fn lemma_run_sum_prefix_le(splits: Seq<Split>, i: int)
    requires
        0 <= i <= splits.len(),
    ensures
        run_sum_millis(splits.subrange(0, i)) <= run_sum_millis(splits),
    decreases splits.len() - i,
{
    if i == splits.len() {
        assert(splits.subrange(0, i) =~= splits);
    } else {
        lemma_run_sum_prefix_succ(splits, i);
        lemma_sum_millis_nonneg(splits[i].times_seq());
        lemma_run_sum_prefix_le(splits, i + 1);
    }
}

/// One split's sum never exceeds the sum over the whole run.
pub proof fn lemma_split_sum_le_run_sum(splits: Seq<Split>, i: int)
    requires
        0 <= i < splits.len(),
    ensures
        sum_millis(splits[i].times_seq()) <= run_sum_millis(splits),
{
    lemma_run_sum_prefix_succ(splits, i);
    lemma_run_sum_prefix_le(splits, i + 1);
    assert(splits.subrange(0, i) =~= splits.subrange(0, i).subrange(0, i));
    lemma_run_sum_nonneg(splits.subrange(0, i));
}

/// A defined cumulative at split `i` is exactly the run sum over splits
/// `0..=i`.
pub proof fn lemma_cum_is_prefix_sum(splits: Seq<Split>, i: int)
    requires
        0 <= i < splits.len(),
        spec_attempt_cum_ms(splits, i) is Some,
    ensures
        spec_attempt_cum_ms(splits, i) == Some(run_sum_millis(splits.subrange(0, i + 1))),
    decreases i,
{
    lemma_run_sum_prefix_succ(splits, i);
    if i == 0 {
        assert(splits.subrange(0, 0) =~= Seq::<Split>::empty());
    } else {
        lemma_cum_is_prefix_sum(splits, i - 1);
    }
}

/// A defined cumulative lies between zero and the whole run's sum.
pub proof fn lemma_cum_bounds(splits: Seq<Split>, i: int)
    requires
        0 <= i < splits.len(),
        spec_attempt_cum_ms(splits, i) is Some,
    ensures
        0 <= spec_attempt_cum_ms(splits, i)->Some_0 <= run_sum_millis(splits),
{
    lemma_cum_is_prefix_sum(splits, i);
    lemma_run_sum_prefix_le(splits, i + 1);
    lemma_run_sum_nonneg(splits.subrange(0, i + 1));
}

/// Within one sweep, the cumulative for the next split, if defined, is at
/// least the cumulative for the split before it.
pub proof fn lemma_cum_monotone(splits: Seq<Split>, i: int)
    requires
        0 <= i,
        i + 1 < splits.len(),
        spec_attempt_cum_ms(splits, i + 1) is Some,
    ensures
        spec_attempt_cum_ms(splits, i) is Some,
        spec_attempt_cum_ms(splits, i)->Some_0 <= spec_attempt_cum_ms(splits, i + 1)->Some_0,
{
    lemma_sum_millis_nonneg(splits[i + 1].times_seq());
}

/// Replacing one split changes the run sum by the difference of the two
/// splits' sums.
pub proof fn lemma_run_sum_update(splits: Seq<Split>, i: int, sp: Split)
    requires
        0 <= i < splits.len(),
    ensures
        run_sum_millis(splits.update(i, sp)) == run_sum_millis(splits) - sum_millis(
            splits[i].times_seq(),
        ) + sum_millis(sp.times_seq()),
    decreases splits.len(),
{
    let updated = splits.update(i, sp);
    if i == splits.len() - 1 {
        assert(updated.drop_last() =~= splits.drop_last());
        assert(updated.last() == sp);
    } else {
        assert(updated.drop_last() =~= splits.drop_last().update(i, sp));
        assert(updated.last() == splits.last());
        lemma_run_sum_update(splits.drop_last(), i, sp);
    }
}

/// Pushing one time onto a stack adds exactly that time to its sum.
pub proof fn lemma_sum_millis_push(times: Seq<Time>, t: Time)
    ensures
        sum_millis(times.push(t)) == sum_millis(times) + t@,
{
    assert(times.push(t).drop_last() =~= times);
    assert(times.push(t).last() == t);
}

/// A run whose every split has an empty stack has logged nothing.
pub proof fn lemma_run_sum_all_empty(splits: Seq<Split>)
    requires
        forall|i: int| 0 <= i < splits.len() ==> splits[i].times_seq().len() == 0,
    ensures
        run_sum_millis(splits) == 0,
    decreases splits.len(),
{
    if splits.len() > 0 {
        assert(splits.last() == splits[splits.len() - 1]);
        assert(forall|i: int|
            0 <= i < splits.drop_last().len() ==> splits.drop_last()[i].times_seq().len() == 0);
        lemma_run_sum_all_empty(splits.drop_last());
    }
}

/// The attempt cumulative depends only on the splits' stacks: two runs
/// whose splits log the same times agree on it.
pub proof fn lemma_cum_congruence(a: Seq<Split>, b: Seq<Split>, i: int)
    requires
        a.len() == b.len(),
        forall|j: int| 0 <= j < a.len() ==> a[j].times_seq() == b[j].times_seq(),
        0 <= i < a.len(),
    ensures
        spec_attempt_cum_ms(a, i) == spec_attempt_cum_ms(b, i),
    decreases i,
{
    if i > 0 {
        lemma_cum_congruence(a, b, i - 1);
    }
}

/// The full aggregate set depends only on the splits' stacks and
/// identities: two runs that agree on both agree on every cached set.
pub proof fn lemma_full_congruence(a: Seq<Split>, b: Seq<Split>, entries: Seq<Entry>, i: int)
    requires
        a.len() == b.len(),
        forall|j: int| 0 <= j < a.len() ==> a[j].times_seq() == b[j].times_seq(),
        forall|j: int| 0 <= j < a.len() ==> a[j].info == b[j].info,
        0 <= i < a.len(),
    ensures
        spec_full_at(a, entries, i) == spec_full_at(b, entries, i),
{
    lemma_cum_congruence(a, b, i);
}

/// Pushing a time onto a split and then popping it restores every cached
/// aggregate set, bit for bit, whatever the comparison snapshot.
pub proof fn lemma_push_pop_round_trip(
    s0: Seq<Split>,
    s1: Seq<Split>,
    s2: Seq<Split>,
    entries: Seq<Entry>,
    i: int,
    t: Time,
)
    requires
        0 <= i < s0.len(),
        super::run::splits_with_push(s0, s1, i, t),
        super::run::splits_with_pop(s1, s2, i),
    ensures
        forall|j: int|
            0 <= j < s0.len() ==> spec_full_at(s2, entries, j) == spec_full_at(s0, entries, j),
{
    assert(s1[i].times_seq().drop_last() =~= s0[i].times_seq());
    assert(forall|j: int| 0 <= j < s0.len() ==> s2[j].times_seq() == s0[j].times_seq());
    assert(forall|j: int| 0 <= j < s0.len() ==> s2[j].info == s0[j].info);
    assert forall|j: int| 0 <= j < s0.len() implies spec_full_at(s2, entries, j) == spec_full_at(
        s0,
        entries,
        j,
    ) by {
        lemma_full_congruence(s2, s0, entries, j);
    }
}

/// Produces, for each split in order, the full set of cached aggregate
/// times: the attempt side freshly computed from the logged times, the
/// comparison side copied verbatim from the snapshot.
///
/// The run's total logged time must fit the millisecond counter; that is
/// the one machine limit on the computation.
pub fn aggregates_of(splits: &Vec<Split>, cmp: &Comparison) -> (r: Vec<Full>)
    requires
        run_sum_millis(splits@) <= u64::MAX,
    ensures
        r@.len() == splits@.len(),
        forall|i: int| 0 <= i < r@.len() ==> r@[i] == spec_full_at(splits@, cmp.entries@, i),
{
    let mut out: Vec<Full> = Vec::new();
    let mut cum: Option<u64> = Some(0);
    let mut i: usize = 0;
    while i < splits.len()
        invariant
            0 <= i <= splits@.len(),
            run_sum_millis(splits@) <= u64::MAX,
            out@.len() == i,
            forall|j: int| 0 <= j < i ==> out@[j] == spec_full_at(splits@, cmp.entries@, j),
            match cum {
                Some(c) => if i == 0 {
                    c == 0
                } else {
                    spec_attempt_cum_ms(splits@, i - 1) == Some(c as int)
                },
                None => i > 0 && spec_attempt_cum_ms(splits@, i - 1) is None,
            },
        decreases splits@.len() - i,
    {
        let sp = &splits[i];
        let num = sp.num_times();
        proof {
            lemma_split_sum_le_run_sum(splits@, i as int);
            lemma_sum_millis_nonneg(sp.times_seq());
        }
        let att_split: Option<Time> = if num == 0 {
            None
        } else {
            Some(sp.total())
        };
        let att_cum: Option<u64> = match (cum, att_split) {
            (Some(c), Some(t)) => {
                proof {
                    if i > 0 {
                        lemma_cum_bounds(splits@, i as int - 1);
                    }
                    assert(spec_attempt_cum_ms(splits@, i as int) == Some(
                        c + sum_millis(sp.times_seq()),
                    ));
                    lemma_cum_bounds(splits@, i as int);
                }
                Some(c + t.total_millis())
            },
            _ => {
                proof {
                    assert(spec_attempt_cum_ms(splits@, i as int) is None);
                }
                None
            },
        };
        let cmp_pair = match cmp.aggregate_for(&sp.info.short) {
            Some(p) => p,
            None => Pair::empty(),
        };
        let cum_time: Option<Time> = match att_cum {
            Some(c) => Some(Time::from_millis(c)),
            None => None,
        };
        let full = Full {
            attempt: Pair { split: att_split, cumulative: cum_time },
            comparison: cmp_pair,
        };
        proof {
            assert(full == spec_full_at(splits@, cmp.entries@, i as int));
        }
        out.push(full);
        cum = att_cum;
        i = i + 1;
    }
    out
}

} // verus!
