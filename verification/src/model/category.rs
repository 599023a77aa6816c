//! Metadata about the game and category being run.

use vstd::prelude::*;

verus! {

/// A short locator for a game/category pairing, as used to file historic
/// runs.
#[derive(Debug, Clone, PartialEq, Eq)]
pub struct ShortDescriptor {
    /// The short name of the game.
    pub game: String,
    /// The short name of the category.
    pub category: String,
}

impl ShortDescriptor {
    /// Creates a descriptor from the two short names.
    pub fn new(game: String, category: String) -> (r: Self)
        ensures
            r == (ShortDescriptor { game, category }),
    {
        ShortDescriptor { game, category }
    }

    /// Copies this descriptor, yielding an equal value.
    pub fn duplicate(&self) -> (r: Self)
        ensures
            r == *self,
    {
        ShortDescriptor { game: self.game.clone(), category: self.category.clone() }
    }
}

/// Display metadata for the game/category currently being run.
#[derive(Debug, Clone, PartialEq, Eq)]
pub struct Info {
    /// The display name of the game.
    pub game: String,
    /// The display name of the category.
    pub category: String,
    /// The locator used to file historic runs of this category.
    pub short: ShortDescriptor,
}

impl Info {
    /// Creates category metadata.
    pub fn new(game: String, category: String, short: ShortDescriptor) -> (r: Self)
        ensures
            r == (Info { game, category, short }),
    {
        Info { game, category, short }
    }

    /// Copies this metadata, yielding an equal value.
    pub fn duplicate(&self) -> (r: Self)
        ensures
            r == *self,
    {
        Info {
            game: self.game.clone(),
            category: self.category.clone(),
            short: self.short.duplicate(),
        }
    }
}

} // verus!
