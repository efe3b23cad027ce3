//! A small terminal text editor's core: a line buffer, the cursor and its
//! viewport, key bindings, the modal input dispatcher, the colon-command
//! line, and the file format.
pub mod buffer;
pub mod command;
pub mod display;
pub mod editor;
pub mod keys;
pub mod text;
pub mod viewport;
