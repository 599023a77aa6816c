//! The navigation mode: moving the cursor over splits.

use vstd::prelude::*;

use super::super::super::super::model::attempt::action::{Action, Locator};
use super::super::super::super::model::time::Position;
use super::super::cursor::{Cursor, Motion};
use super::super::state::State;
use super::editor::Editor;
use super::{Modal, Mode, Outcome, Transition};

verus! {

/// The mode in which the user navigates between splits.
#[derive(Debug, Clone, Copy, PartialEq, Eq, Structural)]
pub struct Nav {
    /// The cursor.
    cur: Cursor,
}

impl Mode for Nav {
    fn on_entry(&mut self, state: &mut State) {
        state.set_cursor(Some(self.cur.position()));
    }

    fn on_event(&mut self, event: &Modal, state: &mut State) -> Outcome {
        match event {
            Modal::Cursor(m) => self.move_cursor(*m, state),
            Modal::EnterField(f) => self.enter_field(*f),
            Modal::Undo => self.undo(),
            Modal::Delete => self.delete(),
            _ => Outcome::Handled,
        }
    }

    fn on_exit(&mut self, _state: &mut State) -> Option<Action> {
        // The cursor is left alone: the next mode will likely reuse it.
        None
    }
}

impl Nav {
    /// The cursor the mode navigates with.
    pub closed spec fn spec_cursor(&self) -> Cursor {
        self.cur
    }

    /// Creates a navigation mode over the given cursor.
    pub fn new(cur: Cursor) -> (r: Self)
        ensures
            r.spec_cursor() == cur,
    {
        Nav { cur }
    }

    /// The transition that switches the presenter to navigation from the
    /// given cursor.
    pub fn transition(cur: Cursor) -> (r: Outcome)
        ensures
            r == Outcome::Switch(Transition::ToNav(cur)),
    {
        Outcome::Switch(Transition::ToNav(cur))
    }

    /// Expands an undo on the current split: pop its most recent time.
    fn undo(&mut self) -> (r: Outcome)
        ensures
            r == Outcome::Expanded(Action::Pop(Locator::Index(old(self).spec_cursor().spec_position() as usize))),
            *final(self) == *old(self),
    {
        Outcome::Expanded(Action::Pop(Locator::Index(self.cur.position())))
    }

    /// Expands a delete on the current split: clear all its times.
    fn delete(&mut self) -> (r: Outcome)
        ensures
            r == Outcome::Expanded(Action::Clear(Locator::Index(old(self).spec_cursor().spec_position() as usize))),
            *final(self) == *old(self),
    {
        Outcome::Expanded(Action::Clear(Locator::Index(self.cur.position())))
    }

    /// Moves the cursor one split in the given direction, if possible, and
    /// mirrors the new position into the visual state.
    fn move_cursor(&mut self, motion: Motion, state: &mut State) -> (r: Outcome)
        ensures
            r == Outcome::Handled,
            final(self).spec_cursor().wf(),
    {
        self.cur.move_by(motion, 1);
        state.set_cursor(Some(self.cur.position()));
        Outcome::Handled
    }

    /// Switches to an editor entering the given field of the current
    /// split.
    fn enter_field(&self, field: Position) -> (r: Outcome)
        ensures
            r matches Outcome::Switch(t) && t matches Transition::ToEditor(e) && e.cur
                == self.spec_cursor(),
    {
        let editor = Editor::new(self.cur, Some(field));
        Outcome::Switch(Transition::ToEditor(editor))
    }
}

} // verus!
