//! The mode state machine: the three editing modes and the ephemeral
//! pending-operator sub-state that waits for exactly one more key.

use vstd::prelude::*;
use crate::actions::EditorAction;
use crate::actions::InsertAction;
use crate::actions::NormalAction;
use crate::actions::VisualAction;
use crate::config::assoc;
use crate::editor::EditorModel;
use crate::editor::EditorState;
use crate::editor::TextObject;
use crate::editor::backspace_step;
use crate::editor::cursor_in_bounds;
use crate::editor::delete_newline_step;
use crate::editor::indent_step;
use crate::editor::insert_newline_step;
use crate::editor::insert_text_step;
use crate::editor::line_end_spec;
use crate::editor::line_start_spec;
use crate::editor::move_down_spec;
use crate::editor::move_left_spec;
use crate::editor::move_right_spec;
use crate::editor::move_up_spec;
use crate::editor::object_ok;
use crate::editor::remove_char_step;
use crate::editor::replace_step;
use crate::editor::valid_pos;
use crate::editor::word_object_spec;
use crate::editor::yank_step;
use crate::keys::Key;
use crate::keys::KeyInput;
use crate::keys::key_name_spec;

verus! {

/// The active editing mode. It decides which binding table a key is looked
/// up in, the column rule the cursor is clamped by, and the cursor shape the
/// frame asks for.
#[derive(Clone, Copy, PartialEq, Eq, Structural, Debug)]
pub enum Mode {
    Insert,
    Normal,
    Visual,
}

impl Mode {
    /// The name shown in the status line.
    pub open spec fn name_spec(self) -> Seq<char> {
        match self {
            Mode::Insert => "Insert"@,
            Mode::Normal => "Normal"@,
            Mode::Visual => "Visual"@,
        }
    }

    pub fn get_name(&self) -> (r: &str)
        ensures
            r@ == self.name_spec(),
    {
        match self {
            Mode::Insert => "Insert",
            Mode::Normal => "Normal",
            Mode::Visual => "Visual",
        }
    }
}

/// The operator that opened a pending-operator wait and now awaits a text
/// object to act on.
#[derive(Clone, Copy, PartialEq, Eq, Structural, Debug)]
pub enum PendingOp {
    Delete,
    Change,
    Yank,
}

/// The pending-operator sub-state. `AwaitChar` waits for the replacement
/// character of a replace action; `AwaitObject` carries the operator and the
/// key that triggered it (pressing that key again selects the whole current
/// line).
#[derive(Clone, Copy, PartialEq, Eq, Structural, Debug)]
pub enum Pending {
    Idle,
    AwaitChar,
    AwaitObject(PendingOp, Key),
}


// ---------------------------------------------------------------------------
// One step of the state machine, in the model
// ---------------------------------------------------------------------------

/// What one insert-mode action does to the state. Every branch guards the
/// bounds its primitive needs; a guard that fails leaves the state alone.
pub open spec fn insert_action_step(m: EditorModel, a: InsertAction) -> EditorModel {
    match a {
        InsertAction::Write(c) => if c != '\n' && m.cursor.index < usize::MAX && valid_pos(
            m.lines,
            m.cursor,
        ) {
            move_right_spec(insert_text_step(m, m.cursor, seq![c]))
        } else {
            m
        },
        InsertAction::DelForw => if object_ok(m, TextObject::Char(m.cursor)) {
            remove_char_step(m, m.cursor)
        } else {
            m
        },
        InsertAction::DelBack => if m.cursor.index == 0 {
            if m.cursor.lnum != 0 && m.cursor.lnum < m.lines.len() {
                delete_newline_step(m, m.cursor.lnum - 1)
            } else {
                m
            }
        } else if m.cursor.lnum < m.lines.len() && m.cursor.index <= m.lines[
            m.cursor.lnum as int
        ].len() {
            backspace_step(m, m.cursor)
        } else {
            m
        },
        InsertAction::NewLine => if valid_pos(m.lines, m.cursor) {
            insert_newline_step(m)
        } else {
            m
        },
        InsertAction::Indent => if valid_pos(m.lines, m.cursor) {
            indent_step(m)
        } else {
            m
        },
        InsertAction::Up => move_up_spec(m),
        InsertAction::Down => move_down_spec(m),
        InsertAction::Left => move_left_spec(m),
        InsertAction::Right => move_right_spec(m),
        InsertAction::NormalMode => EditorModel { mode: Mode::Normal, ..m },
        InsertAction::Nop => m,
    }
}

/// One insert-mode key: a character key writes itself; anything else goes
/// through the insert binding table, an unbound key doing nothing.
pub open spec fn insert_step(m: EditorModel, k: Key) -> EditorModel {
    match k {
        Key::Char(c) => insert_action_step(m, InsertAction::Write(c)),
        _ => match assoc(m.config.insert, key_name_spec(k)) {
            Some(a) => insert_action_step(m, a),
            _ => m,
        },
    }
}

/// What one normal-mode action does. The operators only open the pending
/// sub-state here; the mutation happens when the next key resolves it.
pub open spec fn normal_action_step(m: EditorModel, a: NormalAction, k: Key) -> (
    EditorModel,
    EditorAction,
) {
    match a {
        NormalAction::ReplaceChar => (
            EditorModel { pending: Pending::AwaitChar, ..m },
            EditorAction::Nop,
        ),
        NormalAction::Delete => (
            EditorModel { pending: Pending::AwaitObject(PendingOp::Delete, k), ..m },
            EditorAction::Nop,
        ),
        NormalAction::Change => (
            EditorModel { pending: Pending::AwaitObject(PendingOp::Change, k), ..m },
            EditorAction::Nop,
        ),
        NormalAction::Yank => (
            EditorModel { pending: Pending::AwaitObject(PendingOp::Yank, k), ..m },
            EditorAction::Nop,
        ),
        NormalAction::DeleteChar => (
            if object_ok(m, TextObject::Char(m.cursor)) {
                replace_step(m, TextObject::Char(m.cursor), Seq::<char>::empty())
            } else {
                m
            },
            EditorAction::Nop,
        ),
        NormalAction::LineStart => (line_start_spec(m), EditorAction::Nop),
        NormalAction::LineEnd => (
            if m.cursor.lnum < m.lines.len() {
                line_end_spec(m)
            } else {
                m
            },
            EditorAction::Nop,
        ),
        NormalAction::Up => (move_up_spec(m), EditorAction::Nop),
        NormalAction::Down => (move_down_spec(m), EditorAction::Nop),
        NormalAction::Left => (move_left_spec(m), EditorAction::Nop),
        NormalAction::Right => (move_right_spec(m), EditorAction::Nop),
        NormalAction::InsertMode => (EditorModel { mode: Mode::Insert, ..m }, EditorAction::Nop),
        NormalAction::VisualMode => (
            EditorModel { mode: Mode::Visual, anchor: m.cursor, ..m },
            EditorAction::Nop,
        ),
        NormalAction::Exit => (m, EditorAction::Exit),
        NormalAction::Nop => (m, EditorAction::Nop),
    }
}

pub open spec fn normal_step(m: EditorModel, k: Key) -> (EditorModel, EditorAction) {
    match assoc(m.config.normal, key_name_spec(k)) {
        Some(a) => normal_action_step(m, a, k),
        _ => (m, EditorAction::Nop),
    }
}

/// What one visual-mode action does. The operators act on the selection
/// between the anchor and the cursor, inclusive of both, and return to
/// normal mode.
pub open spec fn visual_action_step(m: EditorModel, a: VisualAction) -> (
    EditorModel,
    EditorAction,
) {
    match a {
        VisualAction::ReplaceChar => (
            EditorModel { pending: Pending::AwaitChar, ..m },
            EditorAction::Nop,
        ),
        VisualAction::Delete => (
            if object_ok(m, TextObject::Selection(m.cursor)) {
                replace_step(m, TextObject::Selection(m.cursor), Seq::<char>::empty())
            } else {
                m
            },
            EditorAction::Nop,
        ),
        VisualAction::DeleteChar => (
            if object_ok(m, TextObject::Char(m.cursor)) {
                replace_step(m, TextObject::Char(m.cursor), Seq::<char>::empty())
            } else {
                m
            },
            EditorAction::Nop,
        ),
        VisualAction::Change => (
            EditorModel {
                mode: Mode::Insert,
                ..(if object_ok(m, TextObject::Selection(m.cursor)) {
                    replace_step(m, TextObject::Selection(m.cursor), Seq::<char>::empty())
                } else {
                    m
                })
            },
            EditorAction::Nop,
        ),
        VisualAction::Yank => (
            if object_ok(m, TextObject::Selection(m.cursor)) {
                yank_step(m, TextObject::Selection(m.cursor))
            } else {
                m
            },
            EditorAction::Nop,
        ),
        VisualAction::LineStart => (line_start_spec(m), EditorAction::Nop),
        VisualAction::LineEnd => (
            if m.cursor.lnum < m.lines.len() {
                line_end_spec(m)
            } else {
                m
            },
            EditorAction::Nop,
        ),
        VisualAction::Up => (move_up_spec(m), EditorAction::Nop),
        VisualAction::Down => (move_down_spec(m), EditorAction::Nop),
        VisualAction::Left => (move_left_spec(m), EditorAction::Nop),
        VisualAction::Right => (move_right_spec(m), EditorAction::Nop),
        VisualAction::NormalMode => (EditorModel { mode: Mode::Normal, ..m }, EditorAction::Nop),
        VisualAction::Exit => (m, EditorAction::Exit),
        VisualAction::Nop => (m, EditorAction::Nop),
    }
}

pub open spec fn visual_step(m: EditorModel, k: Key) -> (EditorModel, EditorAction) {
    match assoc(m.config.visual, key_name_spec(k)) {
        Some(a) => visual_action_step(m, a),
        _ => (m, EditorAction::Nop),
    }
}

/// Resolve the second key of a pending operator into a concrete object.
/// Pressing the operator key again selects the whole current line; a key
/// bound to a template instantiates it at the cursor; any other key, and
/// the cancel binding, abort the operator.
pub open spec fn resolve_object(m: EditorModel, trigger: Key, k: Key) -> TextObject {
    if k == trigger {
        TextObject::Line(m.cursor.lnum)
    } else {
        match assoc(m.config.textobjects, key_name_spec(k)) {
            Some(template) => match template {
                TextObject::Char(_) => TextObject::Char(m.cursor),
                TextObject::Line(_) => TextObject::Line(m.cursor.lnum),
                TextObject::LineEnd(_, _) => TextObject::LineEnd(
                    m.cursor,
                    (m.lines[m.cursor.lnum as int].len() - m.cursor.index) as usize,
                ),
                TextObject::Word(_, _) => word_object_spec(m, m.cursor),
                _ => TextObject::CancelOp,
            },
            _ => TextObject::CancelOp,
        }
    }
}

/// The pending operator consumes its second key: the wait ends, and unless
/// the key aborted it, the operator acts on the resolved object.
pub open spec fn await_object_step(m: EditorModel, op: PendingOp, trigger: Key, k: Key) -> EditorModel {
    let t = resolve_object(m, trigger, k);
    let m1 = EditorModel { pending: Pending::Idle, ..m };
    if t is CancelOp {
        m1
    } else {
        match op {
            PendingOp::Delete => if object_ok(m1, t) {
                replace_step(m1, t, Seq::<char>::empty())
            } else {
                m1
            },
            PendingOp::Change => EditorModel {
                mode: Mode::Insert,
                ..(if object_ok(m1, t) {
                    replace_step(m1, t, Seq::<char>::empty())
                } else {
                    m1
                })
            },
            PendingOp::Yank => if object_ok(m1, t) {
                yank_step(m1, t)
            } else {
                m1
            },
        }
    }
}

/// The replace wait consumes its key: a character key replaces the target
/// (the selection in visual mode, the cursor character otherwise); any
/// other key leaves the wait standing.
pub open spec fn await_char_step(m: EditorModel, k: Key) -> EditorModel {
    match k {
        Key::Char(c) => {
            let obj = if m.mode is Visual {
                TextObject::Selection(m.cursor)
            } else {
                TextObject::Char(m.cursor)
            };
            let m1 = EditorModel { pending: Pending::Idle, ..m };
            if object_ok(m1, obj) {
                replace_step(m1, obj, seq![c])
            } else {
                m1
            }
        },
        _ => m,
    }
}

/// One whole input event: the global interrupt and save keys come first and
/// preempt everything, a pending wait consumes the key next, and otherwise
/// the active mode's table decides.
pub open spec fn step(m: EditorModel, inp: KeyInput) -> (EditorModel, EditorAction) {
    if inp.ctrl {
        if inp.key == Key::Char('c') {
            (m, EditorAction::Exit)
        } else if inp.key == Key::Char('s') {
            (m, EditorAction::Save)
        } else {
            (m, EditorAction::Nop)
        }
    } else {
        match m.pending {
            Pending::AwaitChar => (await_char_step(m, inp.key), EditorAction::Nop),
            Pending::AwaitObject(op, trig) => (
                await_object_step(m, op, trig, inp.key),
                EditorAction::Nop,
            ),
            Pending::Idle => match m.mode {
                Mode::Insert => (insert_step(m, inp.key), EditorAction::Nop),
                Mode::Normal => normal_step(m, inp.key),
                Mode::Visual => visual_step(m, inp.key),
            },
        }
    }
}

// ---------------------------------------------------------------------------
// The executable engine
// ---------------------------------------------------------------------------

/// Carry out one insert-mode action against the state.
fn apply_insert_action(state: &mut EditorState, a: InsertAction)
    requires
        old(state).wf(),
        cursor_in_bounds(old(state)@),
    ensures
        final(state)@ == insert_action_step(old(state)@, a),
        final(state).wf(),
{
    let cursor_pos = state.cursor().pos();
    match a {
        InsertAction::Write(c) => {
            if c != '\n' && cursor_pos.index() < usize::MAX {
                let mut text: Vec<char> = Vec::new();
                text.push(c);
                proof {
                    assert(text@ =~= seq![c]);
                    assert(!text@.contains('\n'));
                }
                state.insert_text(cursor_pos, &text);
                state.cursor_right();
            }
        },
        InsertAction::DelForw => {
            if state.object_valid(TextObject::Char(cursor_pos)) {
                state.remove_char(cursor_pos);
            }
        },
        InsertAction::DelBack => {
            if cursor_pos.index() == 0 {
                if cursor_pos.lnum() != 0 {
                    state.delete_newline(cursor_pos.lnum() - 1);
                }
            } else {
                state.backspace(cursor_pos);
            }
        },
        InsertAction::NewLine => state.insert_newline(),
        InsertAction::Indent => state.indent(),
        InsertAction::Up => state.cursor_up(),
        InsertAction::Down => state.cursor_down(),
        InsertAction::Left => state.cursor_left(),
        InsertAction::Right => state.cursor_right(),
        InsertAction::NormalMode => state.normal_mode(),
        InsertAction::Nop => {},
    }
}

/// Process one insert-mode key: character keys write themselves, every
/// other key acts as its binding says, unbound keys do nothing.
pub fn process_insert_input(k: Key, state: &mut EditorState) -> (r: EditorAction)
    requires
        old(state).wf(),
        cursor_in_bounds(old(state)@),
    ensures
        final(state)@ == insert_step(old(state)@, k),
        final(state).wf(),
        r == EditorAction::Nop,
{
    match k {
        Key::Char(c) => apply_insert_action(state, InsertAction::Write(c)),
        _ => {
            match state.insert_bind_key(k) {
                Some(a) => apply_insert_action(state, a),
                _ => {},
            }
        },
    }
    EditorAction::Nop
}

/// Process one normal-mode key as its binding says: operators open the
/// pending wait, everything else acts at once.
pub fn process_normal_input(k: Key, state: &mut EditorState) -> (r: EditorAction)
    requires
        old(state).wf(),
        cursor_in_bounds(old(state)@),
    ensures
        final(state)@ == normal_step(old(state)@, k).0,
        r == normal_step(old(state)@, k).1,
        final(state).wf(),
{
    let a = match state.normal_bind_key(k) {
        Some(a) => a,
        _ => NormalAction::Nop,
    };
    let cursor_pos = state.cursor().pos();
    match a {
        NormalAction::ReplaceChar => state.set_pending(Pending::AwaitChar),
        NormalAction::Delete => state.set_pending(Pending::AwaitObject(PendingOp::Delete, k)),
        NormalAction::Change => state.set_pending(Pending::AwaitObject(PendingOp::Change, k)),
        NormalAction::Yank => state.set_pending(Pending::AwaitObject(PendingOp::Yank, k)),
        NormalAction::DeleteChar => {
            if state.object_valid(TextObject::Char(cursor_pos)) {
                state.delete(TextObject::Char(cursor_pos));
            }
        },
        NormalAction::LineStart => state.line_start(),
        NormalAction::LineEnd => state.line_end(),
        NormalAction::Up => state.cursor_up(),
        NormalAction::Down => state.cursor_down(),
        NormalAction::Left => state.cursor_left(),
        NormalAction::Right => state.cursor_right(),
        NormalAction::InsertMode => state.insert_mode(),
        NormalAction::VisualMode => state.visual_mode(),
        NormalAction::Exit => {
            return EditorAction::Exit;
        },
        NormalAction::Nop => {},
    }
    EditorAction::Nop
}

/// Process one visual-mode key as its binding says; the operators act on
/// the selection and drop back to normal mode.
pub fn process_visual_input(k: Key, state: &mut EditorState) -> (r: EditorAction)
    requires
        old(state).wf(),
        cursor_in_bounds(old(state)@),
    ensures
        final(state)@ == visual_step(old(state)@, k).0,
        r == visual_step(old(state)@, k).1,
        final(state).wf(),
{
    let a = match state.visual_bind_key(k) {
        Some(a) => a,
        _ => VisualAction::Nop,
    };
    let cursor_pos = state.cursor().pos();
    match a {
        VisualAction::ReplaceChar => state.set_pending(Pending::AwaitChar),
        VisualAction::Delete => {
            if state.object_valid(TextObject::Selection(cursor_pos)) {
                state.delete(TextObject::Selection(cursor_pos));
            }
        },
        VisualAction::DeleteChar => {
            if state.object_valid(TextObject::Char(cursor_pos)) {
                state.delete(TextObject::Char(cursor_pos));
            }
        },
        VisualAction::Change => {
            if state.object_valid(TextObject::Selection(cursor_pos)) {
                state.delete(TextObject::Selection(cursor_pos));
            }
            state.insert_mode();
        },
        VisualAction::Yank => {
            if state.object_valid(TextObject::Selection(cursor_pos)) {
                state.yank(TextObject::Selection(cursor_pos));
            }
        },
        VisualAction::LineStart => state.line_start(),
        VisualAction::LineEnd => state.line_end(),
        VisualAction::Up => state.cursor_up(),
        VisualAction::Down => state.cursor_down(),
        VisualAction::Left => state.cursor_left(),
        VisualAction::Right => state.cursor_right(),
        VisualAction::NormalMode => state.normal_mode(),
        VisualAction::Exit => {
            return EditorAction::Exit;
        },
        VisualAction::Nop => {},
    }
    EditorAction::Nop
}

/// Resolve and run a pending operator against its second key.
fn process_await_object(op: PendingOp, trigger: Key, k: Key, state: &mut EditorState)
    requires
        old(state).wf(),
        cursor_in_bounds(old(state)@),
    ensures
        final(state)@ == await_object_step(old(state)@, op, trigger, k),
        final(state).wf(),
{
    state.set_pending(Pending::Idle);
    let cursor_pos = state.cursor().pos();
    let t: TextObject = if k == trigger {
        TextObject::Line(cursor_pos.lnum())
    } else {
        match state.textobject_bind_key(k) {
            Some(template) => match template {
                TextObject::Char(_) => TextObject::Char(cursor_pos),
                TextObject::Line(_) => TextObject::Line(cursor_pos.lnum()),
                TextObject::LineEnd(_, _) => state.get_lineend_textobject(cursor_pos),
                TextObject::Word(_, _) => state.get_word_textobject(cursor_pos),
                _ => TextObject::CancelOp,
            },
            _ => TextObject::CancelOp,
        }
    };
    match t {
        TextObject::CancelOp => {},
        _ => {
            match op {
                PendingOp::Delete => {
                    if state.object_valid(t) {
                        state.delete(t);
                    }
                },
                PendingOp::Change => {
                    if state.object_valid(t) {
                        state.delete(t);
                    }
                    state.insert_mode();
                },
                PendingOp::Yank => {
                    if state.object_valid(t) {
                        state.yank(t);
                    }
                },
            }
        },
    }
}

/// Feed the awaited replacement character to a replace operation.
fn process_await_char(k: Key, state: &mut EditorState)
    requires
        old(state).wf(),
    ensures
        final(state)@ == await_char_step(old(state)@, k),
        final(state).wf(),
{
    match k {
        Key::Char(c) => {
            state.set_pending(Pending::Idle);
            let cursor_pos = state.cursor().pos();
            let obj = if *state.mode() == Mode::Visual {
                TextObject::Selection(cursor_pos)
            } else {
                TextObject::Char(cursor_pos)
            };
            if state.object_valid(obj) {
                let mut text: Vec<char> = Vec::new();
                text.push(c);
                proof {
                    assert(text@ =~= seq![c]);
                }
                state.replace(obj, &text);
            }
        },
        _ => {},
    }
}

/// Process one whole input event: the global interrupt and save keys are
/// checked before anything else (so they preempt a pending wait), a pending
/// wait consumes the key next, and otherwise the key goes to the active
/// mode's handler. The returned action tells the caller to keep going, to
/// save, or to leave.
pub fn process_key_event(input: KeyInput, state: &mut EditorState) -> (r: EditorAction)
    requires
        old(state).wf(),
        cursor_in_bounds(old(state)@),
    ensures
        final(state)@ == step(old(state)@, input).0,
        r == step(old(state)@, input).1,
        final(state).wf(),
{
    if input.ctrl {
        if let Key::Char(c) = input.key {
            if c == 'c' {
                return EditorAction::Exit;
            }
            if c == 's' {
                return EditorAction::Save;
            }
        }
        return EditorAction::Nop;
    }
    match state.pending_state() {
        Pending::AwaitChar => {
            process_await_char(input.key, state);
            EditorAction::Nop
        },
        Pending::AwaitObject(op, trig) => {
            process_await_object(op, trig, input.key, state);
            EditorAction::Nop
        },
        Pending::Idle => {
            let m = *state.mode();
            match m {
                Mode::Insert => process_insert_input(input.key, state),
                Mode::Normal => process_normal_input(input.key, state),
                Mode::Visual => process_visual_input(input.key, state),
            }
        },
    }
}

} // verus!
