//! Symbolic colour keys; an actual palette maps them to pixels outside
//! this crate.

use vstd::prelude::*;

use super::super::super::model::pace::Pace;
use super::super::presenter::cursor::SplitPosition;

verus! {

/// A symbolic foreground colour.
#[derive(Debug, Clone, Copy, PartialEq, Eq, Structural)]
pub enum Key {
    /// The header text.
    Header,
    /// A split name, coloured by where it stands against the cursor.
    Name(SplitPosition),
    /// A time, coloured by its pace verdict.
    Time(Pace),
    /// Text inside an editor.
    Editor,
}

} // verus!
