//! The editing engine of a modal terminal text editor.
//!
//! The engine keeps a text buffer in memory and changes it one input event at
//! a time. It draws nothing and reads no device: a front end hands it events
//! and reads back what to show.

pub mod buffer;
pub mod command;
pub mod cursor;
pub mod editor;
pub mod input;
pub mod shortcut;
pub mod state;
