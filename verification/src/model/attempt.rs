//! The live attempt: splits, the run over them, and the session driving
//! it.

pub mod action;
pub mod aggregator;
pub mod observer;
pub mod run;
pub mod session;
pub mod split;
