//! One named segment of a run, with the stack of times logged on it.

use vstd::prelude::*;

use super::super::time::{spec_from_millis, Time};

verus! {

broadcast use crate::model::time::lemma_time_view_nonneg;

/// The identity metadata of a split: a short symbolic identifier, used to
/// address the split, and a display name.
///
/// Identities are assigned once, when a run is constructed, and never
/// reassigned.
#[derive(Debug, Clone, PartialEq, Eq)]
pub struct Identity {
    /// The short identifier of the split.
    pub short: String,
    /// The display name of the split.
    pub name: String,
}

impl Identity {
    /// Creates an identity from a short identifier and a display name.
    pub fn new(short: String, name: String) -> (r: Self)
        ensures
            r == (Identity { short, name }),
    {
        Identity { short, name }
    }
}

/// The total number of milliseconds across a stack of logged times.
pub open spec fn sum_millis(times: Seq<Time>) -> int
    decreases times.len(),
{
    if times.len() == 0 {
        0
    } else {
        sum_millis(times.drop_last()) + times.last()@
    }
}

/// A stack of times never sums to a negative duration.
pub proof fn lemma_sum_millis_nonneg(times: Seq<Time>)
    ensures
        sum_millis(times) >= 0,
    decreases times.len(),
{
    if times.len() > 0 {
        lemma_sum_millis_nonneg(times.drop_last());
    }
}

/// Extending a prefix of a stack by one time adds exactly that time to
/// its sum.
pub proof fn lemma_sum_millis_prefix_succ(times: Seq<Time>, i: int)
    requires
        0 <= i < times.len(),
    ensures
        sum_millis(times.subrange(0, i + 1)) == sum_millis(times.subrange(0, i)) + times[i]@,
{
    assert(times.subrange(0, i + 1).drop_last() =~= times.subrange(0, i));
    assert(times.subrange(0, i + 1).last() == times[i]);
}

/// The sum of a prefix of a stack never exceeds the sum of the whole.
pub proof fn lemma_sum_millis_prefix_le(times: Seq<Time>, i: int)
    requires
        0 <= i <= times.len(),
    ensures
        sum_millis(times.subrange(0, i)) <= sum_millis(times),
    decreases times.len() - i,
{
    if i == times.len() {
        assert(times.subrange(0, i) =~= times);
    } else {
        lemma_sum_millis_prefix_succ(times, i);
        lemma_sum_millis_prefix_le(times, i + 1);
    }
}

/// What clearing does to a stack of logged times.
pub open spec fn spec_cleared(times: Seq<Time>) -> Seq<Time> {
    Seq::empty()
}

/// Clearing a stack twice yields the same stack as clearing it once.
pub proof fn lemma_clear_idempotent(times: Seq<Time>)
    ensures
        spec_cleared(spec_cleared(times)) == spec_cleared(times),
{
}

/// An ordered, named segment of the run, holding the stack of times
/// logged on it during the current attempt.
#[derive(Debug, Clone, PartialEq, Eq)]
pub struct Split {
    /// The identity metadata of this split.
    pub info: Identity,
    /// The logged times, oldest first; mutated only through
    /// [`Split::push`], [`Split::pop`] and [`Split::clear`].
    pub times: Vec<Time>,
}

impl Split {
    /// The logged times, oldest first.
    pub open spec fn times_seq(&self) -> Seq<Time> {
        self.times@
    }

    /// Creates a split with the given identity and no logged times.
    pub fn new(info: Identity) -> (r: Self)
        ensures
            r.info == info,
            r.times_seq() == Seq::<Time>::empty(),
    {
        Split { info, times: Vec::new() }
    }

    /// The number of times logged on this split.
    pub fn num_times(&self) -> (r: usize)
        ensures
            r == self.times_seq().len(),
    {
        self.times.len()
    }

    /// Reads the logged times, oldest first.
    pub fn all_times(&self) -> (r: &Vec<Time>)
        ensures
            r@ == self.times_seq(),
    {
        &self.times
    }

    /// Appends a time to the stack.  Always succeeds.
    pub fn push(&mut self, time: Time)
        ensures
            final(self).times_seq() == old(self).times_seq().push(time),
            final(self).info == old(self).info,
    {
        self.times.push(time);
    }

    /// Removes and returns the most recently pushed time, or `None`
    /// (leaving the split unchanged) if the stack is empty.
    pub fn pop(&mut self) -> (r: Option<Time>)
        ensures
            old(self).times_seq().len() == 0 ==> r is None && final(self).times_seq()
                == old(self).times_seq(),
            old(self).times_seq().len() > 0 ==> r == Some(old(self).times_seq().last())
                && final(self).times_seq() == old(self).times_seq().drop_last(),
            final(self).info == old(self).info,
    {
        self.times.pop()
    }

    /// Empties the stack in one step, without touching the metadata.
    pub fn clear(&mut self)
        ensures
            final(self).times_seq() == spec_cleared(old(self).times_seq()),
            final(self).info == old(self).info,
    {
        self.times.clear();
    }

    /// The sum of all logged times; the zero time if there are none.
    ///
    /// The sum must fit the millisecond counter; that is the one machine
    /// limit on the operation.
    pub fn total(&self) -> (r: Time)
        requires
            sum_millis(self.times_seq()) <= u64::MAX,
        ensures
            r@ == sum_millis(self.times_seq()),
            r == spec_from_millis(sum_millis(self.times_seq())),
    {
        let mut acc = Time::zero();
        let mut i: usize = 0;
        proof {
            assert(self.times@.subrange(0, 0) =~= Seq::<Time>::empty());
        }
        while i < self.times.len()
            invariant
                0 <= i <= self.times@.len(),
                sum_millis(self.times@) <= u64::MAX,
                acc@ == sum_millis(self.times@.subrange(0, i as int)),
            decreases self.times@.len() - i,
        {
            proof {
                lemma_sum_millis_prefix_succ(self.times@, i as int);
                lemma_sum_millis_prefix_le(self.times@, i + 1);
                lemma_sum_millis_nonneg(self.times@.subrange(0, i as int));
            }
            acc = acc.add(self.times[i]);
            i = i + 1;
        }
        proof {
            assert(self.times@.subrange(0, self.times@.len() as int) =~= self.times@);
            crate::model::time::lemma_spec_from_millis(sum_millis(self.times@));
            crate::model::time::lemma_time_view_injective(
                acc,
                spec_from_millis(sum_millis(self.times@)),
            );
        }
        acc
    }
}

/// One operation on a split's stack of times.
pub enum StackOp {
    /// Appending the given time.
    Push(Time),
    /// Removing the most recent time, if any.
    Pop,
}

/// The stack left after applying a sequence of pushes and pops, earliest
/// operation first, where a pop of an empty stack leaves it unchanged.
pub open spec fn apply_ops(times: Seq<Time>, ops: Seq<StackOp>) -> Seq<Time>
    decreases ops.len(),
{
    if ops.len() == 0 {
        times
    } else {
        let rest = apply_ops(times, ops.drop_last());
        match ops.last() {
            StackOp::Push(t) => rest.push(t),
            StackOp::Pop => if rest.len() == 0 {
                rest
            } else {
                rest.drop_last()
            },
        }
    }
}

/// The number of times left after a sequence of pushes and pops: each push
/// adds one, each pop subtracts one, and the count is clamped at zero, so
/// a pop of an empty stack changes nothing.
pub open spec fn net_count(len: nat, ops: Seq<StackOp>) -> nat
    decreases ops.len(),
{
    if ops.len() == 0 {
        len
    } else {
        let rest = net_count(len, ops.drop_last());
        match ops.last() {
            StackOp::Push(_) => rest + 1,
            StackOp::Pop => if rest == 0 {
                0
            } else {
                (rest - 1) as nat
            },
        }
    }
}

/// For every sequence of pushes and pops on one split, the number of
/// logged times afterwards is the number of pushes minus the number of
/// matched pops, clamped at zero; in particular a pop of an empty split
/// never changes the count.
pub proof fn lemma_push_pop_counts(times: Seq<Time>, ops: Seq<StackOp>)
    ensures
        apply_ops(times, ops).len() == net_count(times.len(), ops),
    decreases ops.len(),
{
    if ops.len() > 0 {
        lemma_push_pop_counts(times, ops.drop_last());
    }
}

} // verus!
