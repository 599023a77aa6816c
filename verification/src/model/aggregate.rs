//! Kinds and storage for aggregate times on splits.
//!
//! The engine tracks two [`Scope`]s of aggregate (the total across all
//! times in one split, and the cumulative total over all splits up to and
//! including it) and two [`Source`]s (the current attempt, and the
//! comparison baseline).  A [`Full`] caches one time of each kind for one
//! split.

use vstd::prelude::*;

use super::time::Time;

verus! {

/// Enumeration of sources for aggregate times.
#[derive(Debug, Clone, Copy, PartialEq, Eq, Structural, Hash)]
pub enum Source {
    /// The time comes from the current run attempt.
    Attempt,
    /// The time comes from the comparison baseline.
    Comparison,
}

/// Enumeration of scopes for aggregate times.
#[derive(Debug, Clone, Copy, PartialEq, Eq, Structural, Hash)]
pub enum Scope {
    /// The total of all times logged on one split.
    Split,
    /// The cumulative total over all splits up to and including one split.
    Cumulative,
}

/// The kind ([`Source`] and [`Scope`]) of an aggregate time.
#[derive(Debug, Clone, Copy, PartialEq, Eq, Structural, Hash)]
pub struct Kind {
    /// The source of this aggregate time.
    pub source: Source,
    /// The scope of this aggregate time.
    pub scope: Scope,
}

impl Source {
    /// Creates a [`Kind`] from this source and the given scope.
    pub fn with(self, scope: Scope) -> (r: Kind)
        ensures
            r == (Kind { source: self, scope }),
    {
        Kind { source: self, scope }
    }
}

/// A pair of cached aggregate times for one source, organised by [`Scope`].
#[derive(Debug, Clone, Copy, PartialEq, Eq, Structural)]
pub struct Pair {
    /// The total for this split only, if every input to it is known.
    pub split: Option<Time>,
    /// The cumulative total up to and including this split, if defined.
    pub cumulative: Option<Time>,
}

impl Pair {
    /// A pair with neither time known.
    pub fn empty() -> (r: Self)
        ensures
            r == (Pair { split: None::<Time>, cumulative: None::<Time> }),
    {
        Pair { split: None, cumulative: None }
    }

    /// Reads the time of the given scope.
    pub fn get(&self, scope: Scope) -> (r: Option<Time>)
        ensures
            r == self.spec_get(scope),
    {
        match scope {
            Scope::Split => self.split,
            Scope::Cumulative => self.cumulative,
        }
    }

    /// The time of the given scope.
    pub open spec fn spec_get(&self, scope: Scope) -> Option<Time> {
        match scope {
            Scope::Split => self.split,
            Scope::Cumulative => self.cumulative,
        }
    }

    /// Replaces the time of the given scope.
    pub fn set(&mut self, scope: Scope, time: Option<Time>)
        ensures
            final(self).spec_get(scope) == time,
            forall|s: Scope| s != scope ==> final(self).spec_get(s) == old(self).spec_get(s),
    {
        match scope {
            Scope::Split => self.split = time,
            Scope::Cumulative => self.cumulative = time,
        }
    }
}

/// The full cached set of aggregate times for one split, organised by
/// [`Source`].
#[derive(Debug, Clone, Copy, PartialEq, Eq, Structural)]
pub struct Full {
    /// Times for the current attempt.
    pub attempt: Pair,
    /// Times for the comparison.
    pub comparison: Pair,
}

impl Full {
    /// The set with no time known.
    pub open spec fn spec_empty() -> Full {
        Full {
            attempt: Pair { split: None, cumulative: None },
            comparison: Pair { split: None, cumulative: None },
        }
    }

    /// A set with no time known.
    pub fn empty() -> (r: Self)
        ensures
            r == Full::spec_empty(),
    {
        Full { attempt: Pair::empty(), comparison: Pair::empty() }
    }

    /// Reads the pair of the given source.
    pub fn get(&self, source: Source) -> (r: Pair)
        ensures
            r == self.spec_get(source),
    {
        match source {
            Source::Attempt => self.attempt,
            Source::Comparison => self.comparison,
        }
    }

    /// The pair of the given source.
    pub open spec fn spec_get(&self, source: Source) -> Pair {
        match source {
            Source::Attempt => self.attempt,
            Source::Comparison => self.comparison,
        }
    }

    /// Reads the time of the given kind.
    pub fn get_kind(&self, kind: Kind) -> (r: Option<Time>)
        ensures
            r == self.spec_get(kind.source).spec_get(kind.scope),
    {
        self.get(kind.source).get(kind.scope)
    }

    /// Replaces the time of the given kind.
    pub fn set_kind(&mut self, kind: Kind, time: Option<Time>)
        ensures
            final(self).spec_get(kind.source).spec_get(kind.scope) == time,
            forall|s: Source, c: Scope|
                (Kind { source: s, scope: c }) != kind ==> final(self).spec_get(s).spec_get(c)
                    == old(self).spec_get(s).spec_get(c),
    {
        match kind.source {
            Source::Attempt => self.attempt.set(kind.scope, time),
            Source::Comparison => self.comparison.set(kind.scope, time),
        }
    }
}

} // verus!
