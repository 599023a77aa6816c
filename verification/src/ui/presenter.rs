//! The presenter: modal input handling and the visual state it maintains
//! from observed events.

pub mod cursor;
pub mod mode;
pub mod state;
