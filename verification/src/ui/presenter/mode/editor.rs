//! The split-time editor mode's state.

use vstd::prelude::*;

use super::super::super::super::model::time::Position;
use super::super::cursor::Cursor;

verus! {

/// One field of the editor being typed into.
#[derive(Debug, Clone, Copy, PartialEq, Eq, Structural)]
pub struct FieldEdit {
    /// Which field is being edited.
    pub position: Position,
    /// The value typed so far.
    pub value: u64,
}

/// An editor over the time fields of the split under the cursor.
#[derive(Debug, Clone, Copy, PartialEq, Eq, Structural)]
pub struct Editor {
    /// The cursor the editor was opened at.
    pub cur: Cursor,
    /// The hours field.
    pub hours: u64,
    /// The minutes field.
    pub mins: u64,
    /// The seconds field.
    pub secs: u64,
    /// The milliseconds field.
    pub millis: u64,
    /// The field currently being typed into, if any.
    pub field: Option<FieldEdit>,
}

impl Editor {
    /// Opens an editor at the given cursor, with all fields zero and the
    /// given field, if any, ready to be typed into.
    pub fn new(cur: Cursor, field: Option<Position>) -> (r: Self)
        ensures
            r.cur == cur,
            r.hours == 0 && r.mins == 0 && r.secs == 0 && r.millis == 0,
            r.field == match field {
                Some(p) => Some(FieldEdit { position: p, value: 0u64 }),
                None => None::<FieldEdit>,
            },
    {
        let fe = match field {
            Some(p) => Some(FieldEdit { position: p, value: 0 }),
            None => None,
        };
        Editor { cur, hours: 0, mins: 0, secs: 0, millis: 0, field: fe }
    }
}

} // verus!
