//! The closed action sets: what a key press can mean at the editor level and
//! in each mode. Every set ends in a `Nop` that stands for "no binding found",
//! which is always a silent no-op.

use vstd::prelude::*;

verus! {

/// The outcome of processing one input event that the surrounding binary
/// must act on: keep going, leave the session, or write the buffer out.
#[derive(Clone, Copy, PartialEq, Eq, Structural, Debug)]
pub enum EditorAction {
    Nop,
    Exit,
    Save,
}

/// What a key does while in insert mode.
#[derive(Clone, Copy, PartialEq, Eq, Structural, Debug)]
pub enum InsertAction {
    Write(char),
    DelForw,
    DelBack,
    NewLine,
    Indent,
    Up,
    Down,
    Left,
    Right,
    NormalMode,
    Nop,
}

/// What a key does while in normal mode.
#[derive(Clone, Copy, PartialEq, Eq, Structural, Debug)]
pub enum NormalAction {
    ReplaceChar,
    Delete,
    DeleteChar,
    Change,
    Yank,
    LineStart,
    LineEnd,
    Up,
    Down,
    Left,
    Right,
    InsertMode,
    VisualMode,
    Exit,
    Nop,
}

/// What a key does while in visual mode.
#[derive(Clone, Copy, PartialEq, Eq, Structural, Debug)]
pub enum VisualAction {
    ReplaceChar,
    Delete,
    DeleteChar,
    Change,
    Yank,
    LineStart,
    LineEnd,
    Up,
    Down,
    Left,
    Right,
    NormalMode,
    Exit,
    Nop,
}

} // verus!
