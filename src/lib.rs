//! The editing core of a small text editor: a buffer of lines, a cursor
//! with column affinity and a mouse selection, the scroll offset of the
//! viewport, hit-testing of pointer positions, and the draw commands that
//! the renderer turns into pixels.

pub mod location;
pub mod text;
pub mod cursor;
pub mod edit;
pub mod view;
pub mod input;
pub mod buffer;
pub mod editor;
pub mod draw;
