//! Presenter modes: modal interpretation of user events.
//!
//! The presenter is heavily modal: what a user event means depends on the
//! current mode.  A mode can interpret events, adjust the visual state,
//! and hand actions on to the session when it is swapped out.

pub mod editor;
pub mod nav;

use vstd::prelude::*;

use super::super::super::model::attempt::action::Action;
use super::super::super::model::time::Position;
use super::cursor::Motion;
use super::state::State;
use editor::Editor;

verus! {

/// A user event that the current mode interprets.
#[derive(Debug, Clone, Copy, PartialEq, Eq, Structural)]
pub enum Modal {
    /// Move the cursor.
    Cursor(Motion),
    /// Start editing the given field of the current split.
    EnterField(Position),
    /// Undo the most recent time on the current split.
    Undo,
    /// Delete every time on the current split.
    Delete,
    /// Leave the session.
    Quit,
}

/// A switch of mode requested by the current mode.
#[derive(Debug, Clone, PartialEq, Eq)]
pub enum Transition {
    /// Switch to navigation with the given cursor.
    ToNav(super::cursor::Cursor),
    /// Switch to editing with the given editor.
    ToEditor(Editor),
}

/// What handling one modal event amounts to.
#[derive(Debug, Clone, PartialEq, Eq)]
pub enum Outcome {
    /// The event was consumed by the mode itself.
    Handled,
    /// The event expands to an action on the session.
    Expanded(Action),
    /// The event switches the presenter to another mode.
    Switch(Transition),
}

/// A presenter mode.
///
/// Modes interpret a subset of user events, turning them into actions on
/// the model or transitions to other modes, and may adjust the visual
/// state on entry and exit.
pub trait Mode {
    /// Called when the mode has been swapped in; the mode may initialise
    /// the visual state here.
    fn on_entry(&mut self, state: &mut State);

    /// Handles one mode-specific event against the visual state.
    fn on_event(&mut self, event: &Modal, state: &mut State) -> Outcome;

    /// Called when the mode is about to be swapped out; the mode may
    /// adjust the visual state and hand back a follow-on action that
    /// applies its efforts to the model.
    fn on_exit(&mut self, state: &mut State) -> Option<Action>;

    /// Whether the client keeps running while this mode is active.
    fn is_running(&self) -> bool {
        true
    }
}

} // verus!
