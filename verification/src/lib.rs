//! Core of a modal terminal text editor: the line buffer and its mutation
//! primitives, the cursor/viewport model with clamping and scroll-follow,
//! the mode state machine with its pending-operator protocol, and the
//! projection of editor state into a renderable frame.
//!
//! Everything here is pure computation over plain values; reading input
//! events, painting frames and touching the file system are left to the
//! surrounding binary.

pub mod actions;
pub mod config;
pub mod editor;
pub mod keys;
pub mod modes;
pub mod render;
pub mod term;
