//! A minimal terminal text editor core: a line buffer with tab-aware
//! rendering, a cursor/viewport controller, a frame builder, and the
//! key-dispatch and prompt state machines that drive them.
pub mod chars;
pub mod render;
pub mod textfile;
pub mod rows;
pub mod cursor;
pub mod input;
pub mod help;
pub mod prompt;
pub mod term;
pub mod frame;
pub mod editor;
