//! User-interface support: presenter state mirroring the model, and layout
//! logic for drawing it.

pub mod gfx;
pub mod presenter;
pub mod text;
pub mod view;
