//! Core of a single-document text editor.
//!
//! The library owns the document state machine: an in-memory text buffer with
//! a cursor, an optional backing file path, a dirty flag, and the last seen
//! error. A single-threaded controller consumes [`controller::Message`]
//! values one at a time, mutates the state synchronously, and may schedule
//! one asynchronous [`controller::Effect`] (a file load, a file save, or a
//! file-chooser dialog) whose result re-enters the loop as a new message.
//!
//! Slow work (disk reads and writes, native dialogs) is performed by the
//! embedding program; the decisions around it — which effect to schedule,
//! how an outcome maps back into state — live here and are verified.

pub mod content;
pub mod controller;
pub mod document;
pub mod effects;
pub mod errors;
pub mod highlight;
pub mod laws;
pub mod shortcuts;
