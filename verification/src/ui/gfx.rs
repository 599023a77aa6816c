//! Graphics support: layout metrics, colours, fonts, and the rendering
//! capability the view draws through.

pub mod colour;
pub mod font;
pub mod metrics;
pub mod position;
pub mod render;
