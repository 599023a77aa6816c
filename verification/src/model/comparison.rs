//! Comparison baselines and the provider that supplies them.

use vstd::prelude::*;

use super::aggregate::Pair;
use super::time::{spec_from_millis, Time};

verus! {

/// The comparison-side aggregate times recorded for one split.
#[derive(Debug, Clone, PartialEq, Eq)]
pub struct Entry {
    /// The short identifier of the split the times belong to.
    pub short: String,
    /// The comparison-side split and cumulative times.
    pub pair: Pair,
}

/// The pair recorded for the first entry carrying the given short
/// identifier, if any.
pub open spec fn spec_lookup(entries: Seq<Entry>, short: Seq<char>) -> Option<Pair>
    decreases entries.len(),
{
    if entries.len() == 0 {
        None
    } else if entries[0].short@ == short {
        Some(entries[0].pair)
    } else {
        spec_lookup(entries.drop_first(), short)
    }
}

/// Skipping past an entry whose identifier differs leaves a lookup
/// unchanged.
pub proof fn lemma_lookup_skip(entries: Seq<Entry>, short: Seq<char>, i: int)
    requires
        0 <= i < entries.len(),
        entries[i].short@ != short,
    ensures
        spec_lookup(entries.skip(i), short) == spec_lookup(entries.skip(i + 1), short),
{
    assert(entries.skip(i).drop_first() =~= entries.skip(i + 1));
    assert(entries.skip(i)[0] == entries[i]);
}

/// A baseline snapshot against which pace is computed.
///
/// A comparison is replaced wholesale on refresh, never patched; the
/// empty ("null") comparison has no entries and an absent total.
#[derive(Debug, Clone, PartialEq, Eq)]
pub struct Comparison {
    /// The per-split comparison times.  A lookup takes the first entry
    /// with a matching identifier.
    pub entries: Vec<Entry>,
    /// The total time of the baseline run, if known.
    pub total: Option<Time>,
}

impl Comparison {
    /// The null comparison: no per-split data and an absent total.
    pub fn empty() -> (r: Self)
        ensures
            r.entries@ == Seq::<Entry>::empty(),
            r.total == None::<Time>,
    {
        Comparison { entries: Vec::new(), total: None }
    }

    /// Records comparison times for one more split.
    pub fn push_entry(&mut self, short: String, pair: Pair)
        ensures
            final(self).entries@ == old(self).entries@.push(Entry { short, pair }),
            final(self).total == old(self).total,
    {
        self.entries.push(Entry { short, pair });
    }

    /// Replaces the baseline's total time.
    pub fn set_total(&mut self, total: Option<Time>)
        ensures
            final(self).entries@ == old(self).entries@,
            final(self).total == total,
    {
        self.total = total;
    }

    /// The baseline's total time, or the zero time if it is absent.
    pub fn total_or_zero(&self) -> (r: Time)
        ensures
            r == spec_total_or_zero(self.total),
    {
        match self.total {
            Some(t) => t,
            None => Time::zero(),
        }
    }

    /// Adopts a provider's answer: a fresh baseline replaces this one
    /// wholesale, and no answer leaves the one in force unchanged —
    /// stale-but-valid beats undefined.
    pub fn adopt(&mut self, got: Option<Comparison>)
        ensures
            *final(self) == match got {
                Some(c) => c,
                None => *old(self),
            },
    {
        match got {
            Some(c) => {
                *self = c;
            },
            None => {},
        }
    }

    /// The comparison-side times recorded for the split with the given
    /// short identifier, copied verbatim; `None` if the baseline has no
    /// entry for it.
    pub fn aggregate_for(&self, short: &String) -> (r: Option<Pair>)
        ensures
            r == spec_lookup(self.entries@, short@),
    {
        let mut i: usize = 0;
        proof {
            assert(self.entries@.skip(0) =~= self.entries@);
        }
        while i < self.entries.len()
            invariant
                0 <= i <= self.entries@.len(),
                spec_lookup(self.entries@, short@) == spec_lookup(self.entries@.skip(i as int), short@),
            decreases self.entries@.len() - i,
        {
            if self.entries[i].short == *short {
                proof {
                    assert(self.entries@.skip(i as int)[0] == self.entries@[i as int]);
                }
                return Some(self.entries[i].pair);
            }
            proof {
                lemma_lookup_skip(self.entries@, short@, i as int);
            }
            i = i + 1;
        }
        None
    }
}

/// An optional total, or the zero time if it is absent.
pub open spec fn spec_total_or_zero(total: Option<Time>) -> Time {
    match total {
        Some(t) => t,
        None => spec_from_millis(0),
    }
}

/// A source of comparison baselines, injected into the session.
///
/// The session pulls from the provider only at construction, on an
/// explicit provider change, and when the run is reset — never on every
/// push or pop.  Returning `None` means "no fresh baseline"; the session
/// then keeps the one it has.
pub trait Provider {
    /// The current baseline, if the provider can supply one.
    fn comparison(&mut self) -> Option<Comparison>;
}

/// A provider that never supplies a baseline.
#[derive(Debug, Clone, Copy, PartialEq, Eq, Structural)]
pub struct NullProvider;

impl Provider for NullProvider {
    fn comparison(&mut self) -> Option<Comparison> {
        None
    }
}

} // verus!
