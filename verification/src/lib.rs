//! In-memory core of a small terminal text editor: a line buffer, a cursor,
//! a scrollable viewport, a key-event router and a renderer, with verified
//! contracts over a sequence-of-characters model of the buffer.

pub mod editor;
pub mod input;
pub mod laws;
pub mod model;
pub mod render;
pub mod text;
