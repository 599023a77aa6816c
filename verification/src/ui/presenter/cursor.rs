//! The split cursor: which split the user is standing on.

use vstd::prelude::*;

verus! {

/// A direction to move the cursor in.
#[derive(Debug, Clone, Copy, PartialEq, Eq, Structural)]
pub enum Motion {
    /// Towards earlier splits.
    Up,
    /// Towards later splits.
    Down,
}

/// Where a split stands relative to the cursor.
#[derive(Debug, Clone, Copy, PartialEq, Eq, Structural)]
pub enum SplitPosition {
    /// The split is before the cursor: already done.
    Done,
    /// The split is under the cursor.
    Cursor,
    /// The split is after the cursor: still coming.
    Coming,
}

/// A cursor over the splits `0..=max`.
#[derive(Debug, Clone, Copy, PartialEq, Eq, Structural)]
pub struct Cursor {
    /// The current position.
    pos: usize,
    /// The largest position the cursor can reach.
    max: usize,
}

impl Cursor {
    /// The current position.
    pub closed spec fn spec_position(&self) -> int {
        self.pos as int
    }

    /// The largest position the cursor can reach.
    pub closed spec fn spec_max(&self) -> int {
        self.max as int
    }

    /// The cursor's standing invariant.
    pub open spec fn wf(&self) -> bool {
        self.spec_position() <= self.spec_max()
    }

    /// Creates a cursor at the first split of `0..=max`.
    pub fn new(max: usize) -> (r: Self)
        ensures
            r.wf(),
            r.spec_position() == 0,
            r.spec_max() == max,
    {
        Cursor { pos: 0, max }
    }

    /// The current position.
    pub fn position(&self) -> (r: usize)
        ensures
            r == self.spec_position(),
    {
        self.pos
    }

    /// Moves the cursor `multiplier` splits in the given direction,
    /// stopping at the ends, and reports how far it actually moved.
    pub fn move_by(&mut self, motion: Motion, multiplier: usize) -> (moved: usize)
        ensures
            final(self).wf(),
            final(self).spec_max() == old(self).spec_max(),
            old(self).wf() ==> match motion {
                Motion::Up => final(self).spec_position() == old(self).spec_position() - moved
                    && (moved == multiplier || final(self).spec_position() == 0),
                Motion::Down => final(self).spec_position() == old(self).spec_position() + moved
                    && (moved == multiplier || final(self).spec_position()
                    == final(self).spec_max()),
            },
    {
        match motion {
            Motion::Up => {
                let moved = if self.pos < multiplier {
                    self.pos
                } else {
                    multiplier
                };
                self.pos = self.pos - moved;
                if self.pos > self.max {
                    self.pos = self.max;
                }
                moved
            },
            Motion::Down => {
                let room = if self.pos < self.max {
                    self.max - self.pos
                } else {
                    0
                };
                let moved = if room < multiplier {
                    room
                } else {
                    multiplier
                };
                self.pos = self.pos + moved;
                if self.pos > self.max {
                    self.pos = self.max;
                }
                moved
            },
        }
    }

    /// Where split `index` stands relative to the cursor.
    pub fn split_position(&self, index: usize) -> (r: SplitPosition)
        ensures
            r == (if index < self.spec_position() {
                SplitPosition::Done
            } else if index == self.spec_position() {
                SplitPosition::Cursor
            } else {
                SplitPosition::Coming
            }),
    {
        if index < self.pos {
            SplitPosition::Done
        } else if index == self.pos {
            SplitPosition::Cursor
        } else {
            SplitPosition::Coming
        }
    }
}

} // verus!
