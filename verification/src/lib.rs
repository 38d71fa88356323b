//! The editing core of a terminal text editor.
//!
//! The core keeps a document, the part of it that is on screen, and a cursor.
//! It keeps three kinds of coordinates in step: byte offsets into the
//! document, columns relative to the start of a line, and rows and columns on
//! the screen. It never touches a terminal or a file: a program around it
//! reads keys, hands commands to the core and paints what the core reports.
//!
//! - [`rope`] holds the text in a rope of the `xi_rope` crate and states what
//!   is assumed of that crate.
//! - [`lines`] says, over the bytes of a text, where its lines start and end.
//! - [`text_store`] is the document's text: slices, edits and line searches,
//!   all by byte offset.
//! - [`model`] is the editor as a state machine over plain mathematics.
//! - [`state`] is the editor itself, proved to do what the model says.
//! - [`mode`] is the editor's modes, and what a key means in each.
//! - [`laws`] proves what holds of the editor whatever the user does.

pub mod laws;
pub mod lines;
pub mod mode;
pub mod model;
pub mod rope;
pub mod state;
pub mod text_store;
