//! The data model: times, splits, runs, comparisons, and the session that
//! drives them.

pub mod aggregate;
pub mod category;
pub mod clock;
pub mod comparison;
pub mod history;
pub mod attempt;
pub mod pace;
pub mod short;
pub mod time;
