//! Core of a small text-to-speech client: building the synthesis request,
//! judging the response envelope, and the dialog-first flow that saves the
//! resulting audio to a user-chosen path.
//!
//! The network transport, the native save dialog and the application shell
//! live outside this crate; they hand these modules plain values and carry
//! out the commands the save flow asks for.

pub mod error;
pub mod save;
pub mod synth;
