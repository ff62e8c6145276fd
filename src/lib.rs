//! Core of a minimal full-screen terminal editor: frame composition into a
//! staging buffer, the cursor state machine, and the decisions of the
//! render / read-key event loop. Device I/O is left to the caller.

pub mod ansi;
pub mod contents;
pub mod cursor;
pub mod editor;
pub mod input;
pub mod laws;
pub mod render;
