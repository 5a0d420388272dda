//! Positions, text objects and the editor state: the text buffer with its
//! mutation primitives, the cursor, the viewport offsets and the mode.

use vstd::prelude::*;
use vstd::pervasive::unreached;
use crate::actions::InsertAction;
use crate::actions::NormalAction;
use crate::actions::VisualAction;
use crate::config::assoc;
use crate::config::Config;
use crate::config::ConfigModel;
use crate::config::tabstop_spec;
use crate::keys::Key;
use crate::keys::key_name_spec;
use crate::modes::Mode;
use crate::modes::Pending;
use crate::term::Term;

verus! {

/// A location in the buffer: a line number and a character offset within
/// that line. Ordering is lexicographic, line first.
#[derive(Clone, Copy, PartialEq, Eq, Structural, Debug)]
pub struct Position {
    pub lnum: usize,
    pub index: usize,
}

impl Position {
    pub fn new(lnum: usize, index: usize) -> (p: Position)
        ensures
            p == (Position { lnum, index }),
    {
        Position { lnum, index }
    }

    pub fn index(&self) -> (i: usize)
        ensures
            i == self.index,
    {
        self.index
    }

    pub fn lnum(&self) -> (l: usize)
        ensures
            l == self.lnum,
    {
        self.lnum
    }
}

/// `a` comes no later than `b` in lexicographic position order.
pub open spec fn pos_le(a: Position, b: Position) -> bool {
    a.lnum < b.lnum || (a.lnum == b.lnum && a.index <= b.index)
}

/// Does `a` come no later than `b`, decided in executable code.
pub fn pos_le_exec(a: Position, b: Position) -> (r: bool)
    ensures
        r == pos_le(a, b),
{
    a.lnum < b.lnum || (a.lnum == b.lnum && a.index <= b.index)
}

// ---------------------------------------------------------------------------
// Line-level and buffer-level transformations, stated over sequences.
// These spec functions are the vocabulary every mutation contract speaks.
// ---------------------------------------------------------------------------

/// Replace the half-open character range `[from, to)` of one line by `text`.
pub open spec fn splice_line(line: Seq<char>, from: int, to: int, text: Seq<char>) -> Seq<char>
    recommends
        0 <= from <= to <= line.len(),
{
    line.subrange(0, from) + text + line.subrange(to, line.len() as int)
}

/// `p` names an existing line and a column at most that line's length.
pub open spec fn valid_pos(lines: Seq<Seq<char>>, p: Position) -> bool {
    p.lnum < lines.len() && p.index <= lines[p.lnum as int].len()
}

/// A well-formed half-open range `[s, e)` over the buffer. The end may be
/// `(lines.len(), 0)`, one line past the last, which stands for the very end
/// of the buffer (a whole-line object on the last line ends there).
pub open spec fn valid_range(lines: Seq<Seq<char>>, s: Position, e: Position) -> bool {
    &&& valid_pos(lines, s)
    &&& pos_le(s, e)
    &&& e.lnum <= lines.len()
    &&& if e.lnum < lines.len() {
        e.index <= lines[e.lnum as int].len()
    } else {
        e.index == 0
    }
}

/// Replace the half-open range `[s, e)` of the buffer by `text`, collapsing
/// the span onto line `s.lnum`: the prefix of the start line, then `text`,
/// then what remains of the end line; the lines strictly between are gone.
pub open spec fn replace_lines(
    lines: Seq<Seq<char>>,
    s: Position,
    e: Position,
    text: Seq<char>,
) -> Seq<Seq<char>>
    recommends
        valid_range(lines, s, e),
{
    let tail = if e.lnum < lines.len() {
        lines[e.lnum as int].skip(e.index as int)
    } else {
        Seq::<char>::empty()
    };
    let merged = lines[s.lnum as int].take(s.index as int) + text + tail;
    let rest_from = if e.lnum as int + 1 <= lines.len() as int {
        e.lnum as int + 1
    } else {
        lines.len() as int
    };
    lines.take(s.lnum as int) + seq![merged] + lines.skip(rest_from)
}

/// Splice `text` into one line at `p`, touching nothing else.
pub open spec fn insert_in_line(lines: Seq<Seq<char>>, p: Position, text: Seq<char>) -> Seq<
    Seq<char>,
>
    recommends
        valid_pos(lines, p),
{
    lines.update(
        p.lnum as int,
        splice_line(lines[p.lnum as int], p.index as int, p.index as int, text),
    )
}

/// Split line `p.lnum` at column `p.index` into two consecutive lines.
pub open spec fn split_lines(lines: Seq<Seq<char>>, p: Position) -> Seq<Seq<char>>
    recommends
        valid_pos(lines, p),
{
    lines.take(p.lnum as int) + seq![lines[p.lnum as int].take(p.index as int)] + seq![
        lines[p.lnum as int].skip(p.index as int),
    ] + lines.skip(p.lnum as int + 1)
}

/// Append line `l + 1` onto line `l` and drop line `l + 1`.
pub open spec fn join_lines(lines: Seq<Seq<char>>, l: int) -> Seq<Seq<char>>
    recommends
        0 <= l,
        l + 1 < lines.len(),
{
    lines.take(l) + seq![lines[l] + lines[l + 1]] + lines.skip(l + 2)
}

// ---------------------------------------------------------------------------
// Text objects
// ---------------------------------------------------------------------------

/// A range in the buffer for an operator to act on. All variants describe a
/// half-open range except `Selection`, which together with the separately
/// kept anchor is inclusive of both endpoint characters. `CancelOp` aborts a
/// pending operator; `NoObject` is "nothing to do".
#[derive(Clone, Copy, PartialEq, Eq, Structural, Debug)]
pub enum TextObject {
    Char(Position),
    Line(usize),
    LineEnd(Position, usize),
    Word(Position, usize),
    Selection(Position),
    CancelOp,
    NoObject,
}

/// The variants whose bounds the generic accessors may be asked for.
pub open spec fn has_bounds(t: TextObject) -> bool {
    t is Char || t is Line || t is LineEnd || t is Word
}

/// Start of a half-open text object.
pub open spec fn start_spec(t: TextObject) -> Position
    recommends
        has_bounds(t),
{
    match t {
        TextObject::Char(p) => p,
        TextObject::Line(lnum) => Position { lnum, index: 0 },
        TextObject::LineEnd(p, _) => p,
        TextObject::Word(p, _) => p,
        _ => Position { lnum: 0, index: 0 },
    }
}

/// End of a half-open text object.
pub open spec fn end_spec(t: TextObject) -> Position
    recommends
        has_bounds(t),
{
    match t {
        TextObject::Char(p) => Position { lnum: p.lnum, index: (p.index + 1) as usize },
        TextObject::Line(lnum) => Position { lnum: (lnum + 1) as usize, index: 0 },
        TextObject::LineEnd(p, c) => Position { lnum: p.lnum, index: (p.index + c) as usize },
        TextObject::Word(p, c) => Position { lnum: p.lnum, index: (p.index + c) as usize },
        _ => Position { lnum: 0, index: 0 },
    }
}

/// The fields of `t` are small enough that `end_spec` involves no wrap-around.
pub open spec fn end_fits(t: TextObject) -> bool {
    match t {
        TextObject::Char(p) => p.index < usize::MAX,
        TextObject::Line(lnum) => lnum < usize::MAX,
        TextObject::LineEnd(p, c) => p.index + c <= usize::MAX,
        TextObject::Word(p, c) => p.index + c <= usize::MAX,
        _ => true,
    }
}

/// The inclusive selection between `a` and `b`, as a half-open range: from
/// the lexicographically smaller endpoint to one column past the larger.
/// By construction this does not depend on which of the two is the anchor.
pub open spec fn selection_bounds_spec(a: Position, b: Position) -> (Position, Position) {
    let lo = if pos_le(a, b) { a } else { b };
    let hi = if pos_le(a, b) { b } else { a };
    (lo, Position { lnum: hi.lnum, index: (hi.index + 1) as usize })
}

/// Selection bounds are direction-independent: swapping the anchor and the
/// cursor yields the same pair of bounds.
pub proof fn lemma_selection_bounds_symmetric(a: Position, b: Position)
    ensures
        selection_bounds_spec(a, b) == selection_bounds_spec(b, a),
{
}

impl TextObject {
    pub fn get_start(&self) -> (p: Position)
        requires
            has_bounds(*self),
        ensures
            p == start_spec(*self),
    {
        match self {
            TextObject::Char(p) => *p,
            TextObject::LineEnd(p, _) => *p,
            TextObject::Word(p, _) => *p,
            TextObject::Line(lnum) => Position { lnum: *lnum, index: 0 },
            _ => unreached(),
        }
    }

    pub fn get_end(&self) -> (p: Position)
        requires
            has_bounds(*self),
            end_fits(*self),
        ensures
            p == end_spec(*self),
    {
        match self {
            TextObject::Char(p) => Position { lnum: p.lnum, index: p.index + 1 },
            TextObject::Line(lnum) => Position { lnum: *lnum + 1, index: 0 },
            TextObject::LineEnd(p, c) => Position { lnum: p.lnum, index: p.index + *c },
            TextObject::Word(p, c) => Position { lnum: p.lnum, index: p.index + *c },
            _ => unreached(),
        }
    }

    pub fn get_bounds(&self) -> (b: (Position, Position))
        requires
            has_bounds(*self),
            end_fits(*self),
        ensures
            b == (start_spec(*self), end_spec(*self)),
    {
        (self.get_start(), self.get_end())
    }

    /// The half-open range covered by this `Selection` and the given anchor.
    pub fn get_selection_bounds(&self, anchor: Position) -> (b: (Position, Position))
        requires
            self is Selection,
            anchor.index < usize::MAX,
            self->Selection_0.index < usize::MAX,
        ensures
            b == selection_bounds_spec(anchor, self->Selection_0),
    {
        match self {
            TextObject::Selection(pos) => {
                if pos_le_exec(anchor, *pos) {
                    (anchor, Position { lnum: pos.lnum, index: pos.index + 1 })
                } else {
                    (*pos, Position { lnum: anchor.lnum, index: anchor.index + 1 })
                }
            },
            _ => unreached(),
        }
    }

    pub fn is_none(&self) -> (r: bool)
        ensures
            r == (*self is NoObject),
    {
        match self {
            TextObject::NoObject => true,
            _ => false,
        }
    }
}

// ---------------------------------------------------------------------------
// Word-boundary scanning
// ---------------------------------------------------------------------------

/// Length of the run of non-break characters in `line` starting at `i`.
pub open spec fn word_run_len(line: Seq<char>, i: int, breaks: Seq<char>) -> int
    recommends
        0 <= i <= line.len(),
    decreases line.len() - i,
{
    if i < 0 || i >= line.len() {
        0
    } else if breaks.contains(line[i]) {
        0
    } else {
        1 + word_run_len(line, i + 1, breaks)
    }
}


// ---------------------------------------------------------------------------
// The editor state and its mathematical model
// ---------------------------------------------------------------------------

/// The buffer as the contracts see it: one sequence of characters per line.
pub open spec fn lines_view(data: Seq<Vec<char>>) -> Seq<Seq<char>> {
    Seq::new(data.len(), |i: int| data[i]@)
}

pub proof fn lemma_lines_view_update(d: Seq<Vec<char>>, l: int, v: Vec<char>)
    requires
        0 <= l < d.len(),
    ensures
        lines_view(d.update(l, v)) == lines_view(d).update(l, v@),
{
    assert(lines_view(d.update(l, v)) =~= lines_view(d).update(l, v@));
}

pub proof fn lemma_lines_view_push(d: Seq<Vec<char>>, v: Vec<char>)
    ensures
        lines_view(d.push(v)) == lines_view(d).push(v@),
{
    assert(lines_view(d.push(v)) =~= lines_view(d).push(v@));
}

pub proof fn lemma_lines_view_insert(d: Seq<Vec<char>>, l: int, v: Vec<char>)
    requires
        0 <= l <= d.len(),
    ensures
        lines_view(d.insert(l, v)) == lines_view(d).insert(l, v@),
{
    assert(lines_view(d.insert(l, v)) =~= lines_view(d).insert(l, v@));
}

pub proof fn lemma_lines_view_remove(d: Seq<Vec<char>>, l: int)
    requires
        0 <= l < d.len(),
    ensures
        lines_view(d.remove(l)) == lines_view(d).remove(l),
{
    assert(lines_view(d.remove(l)) =~= lines_view(d).remove(l));
}

/// Everything an editor state is, mathematically: the lines, the cursor and
/// the visual-mode anchor, the mode and the pending-operator sub-state, the
/// scroll offsets and viewport dimensions, the yank register and the
/// key-binding tables.
#[verifier::ext_equal]
pub struct EditorModel {
    pub lines: Seq<Seq<char>>,
    pub cursor: Position,
    pub anchor: Position,
    pub mode: Mode,
    pub pending: Pending,
    pub scroll_x: usize,
    pub scroll_y: usize,
    pub width: usize,
    pub height: usize,
    pub register: Seq<Seq<char>>,
    pub config: ConfigModel,
}

/// Structural well-formedness: the buffer always holds at least one line
/// and the viewport is at least one cell in either direction.
pub open spec fn inv(m: EditorModel) -> bool {
    &&& m.lines.len() >= 1
    &&& m.width >= 1
    &&& m.height >= 1
}

/// The highest column the cursor may sit at on `line` in mode `mode`:
/// one past the last character in insert mode (the append position), on the
/// last character otherwise, and column 0 on an empty line.
pub open spec fn line_limit(line: Seq<char>, mode: Mode) -> int {
    if mode is Insert || line.len() == 0 {
        line.len() as int
    } else {
        line.len() - 1
    }
}

/// The clamp invariant: the cursor names an existing line and a column
/// within the mode-appropriate bound.
pub open spec fn cursor_in_bounds(m: EditorModel) -> bool {
    &&& m.cursor.lnum < m.lines.len()
    &&& m.cursor.index <= line_limit(m.lines[m.cursor.lnum as int], m.mode)
}

/// The scroll-follow invariant: the cursor lies inside the visible
/// rectangle on both axes.
pub open spec fn cursor_in_view(m: EditorModel) -> bool {
    &&& m.scroll_y <= m.cursor.lnum < m.scroll_y + m.height
    &&& m.scroll_x <= m.cursor.index < m.scroll_x + m.width
}

/// The current cursor position.
pub struct Cursor {
    pos: Position,
}

impl Cursor {
    pub closed spec fn spec_pos(self) -> Position {
        self.pos
    }

    pub fn pos(&self) -> (p: Position)
        ensures
            p == self.spec_pos(),
    {
        self.pos
    }
}

/// The whole editor state. All mutation goes through the methods below;
/// every method states exactly what it does to the model.
pub struct EditorState {
    data: Vec<Vec<char>>,
    term_y: usize,
    term_x: usize,
    mode: Mode,
    cursor: Cursor,
    anchor: Position,
    pending: Pending,
    register: Vec<Vec<char>>,
    term: Term,
    config: Config,
}

impl View for EditorState {
    type V = EditorModel;

    closed spec fn view(&self) -> EditorModel {
        EditorModel {
            lines: lines_view(self.data@),
            cursor: self.cursor.pos,
            anchor: self.anchor,
            mode: self.mode,
            pending: self.pending,
            scroll_x: self.term_x,
            scroll_y: self.term_y,
            width: self.term.spec_width(),
            height: self.term.spec_height(),
            register: lines_view(self.register@),
            config: self.config@,
        }
    }
}

impl EditorState {
    pub open spec fn wf(self) -> bool {
        inv(self@)
    }

    /// Start editing `data` in insert mode, cursor at the origin, viewport
    /// scrolled to the top. An empty buffer is given one empty line.
    pub fn new(data: Vec<Vec<char>>, term: Term, config: Config) -> (s: EditorState)
        ensures
            s@.lines == if data@.len() == 0 {
                seq![Seq::<char>::empty()]
            } else {
                lines_view(data@)
            },
            s@.cursor == (Position { lnum: 0, index: 0 }),
            s@.anchor == (Position { lnum: 0, index: 0 }),
            s@.mode == Mode::Insert,
            s@.pending == Pending::Idle,
            s@.scroll_x == 0,
            s@.scroll_y == 0,
            s@.width == term.spec_width(),
            s@.height == term.spec_height(),
            s@.register == Seq::<Seq<char>>::empty(),
            s@.config == config@,
            s.wf(),
    {
        proof {
            use_type_invariant(&term);
        }
        let mut data = data;
        if data.len() == 0 {
            data.push(Vec::new());
            proof {
                assert(lines_view(data@) =~= seq![Seq::<char>::empty()]);
            }
        }
        let s = EditorState {
            data,
            term_y: 0,
            term_x: 0,
            mode: Mode::Insert,
            cursor: Cursor { pos: Position { lnum: 0, index: 0 } },
            anchor: Position { lnum: 0, index: 0 },
            pending: Pending::Idle,
            register: Vec::new(),
            term,
            config,
        };
        proof {
            assert(lines_view(s.register@) =~= Seq::<Seq<char>>::empty());
        }
        s
    }

    pub fn mode(&self) -> (m: &Mode)
        ensures
            *m == self@.mode,
    {
        &self.mode
    }

    pub fn cursor(&self) -> (c: &Cursor)
        ensures
            c.spec_pos() == self@.cursor,
    {
        &self.cursor
    }

    /// How many lines the buffer holds.
    pub fn line_count(&self) -> (n: usize)
        ensures
            n == self@.lines.len(),
    {
        self.data.len()
    }

    /// One line of the buffer.
    pub fn get_line(&self, lnum: usize) -> (l: &Vec<char>)
        requires
            lnum < self@.lines.len(),
        ensures
            l@ == self@.lines[lnum as int],
    {
        &self.data[lnum]
    }

    /// The current scroll offsets, column then row.
    pub fn scroll(&self) -> (r: (usize, usize))
        ensures
            r.0 == self@.scroll_x,
            r.1 == self@.scroll_y,
    {
        (self.term_x, self.term_y)
    }

    /// The visual-mode anchor position.
    pub fn anchor(&self) -> (p: Position)
        ensures
            p == self@.anchor,
    {
        self.anchor
    }

    /// The viewport width in columns.
    pub fn view_width(&self) -> (w: usize)
        ensures
            w == self@.width,
    {
        self.term.width()
    }

    /// The viewport height in rows.
    pub fn view_height(&self) -> (h: usize)
        ensures
            h == self@.height,
    {
        self.term.height()
    }

    /// The lines most recently yanked.
    pub fn register(&self) -> (r: &Vec<Vec<char>>)
        ensures
            lines_view(r@) == self@.register,
    {
        &self.register
    }

    pub fn resize(&mut self, width: usize, height: usize)
        ensures
            final(self)@ == (EditorModel {
                width: if width >= 1 { width } else { 1 },
                height: if height >= 1 { height } else { 1 },
                ..old(self)@
            }),
    {
        self.term.resize(width, height)
    }

    pub fn insert_mode(&mut self)
        ensures
            final(self)@ == (EditorModel { mode: Mode::Insert, ..old(self)@ }),
    {
        self.mode = Mode::Insert;
    }

    pub fn normal_mode(&mut self)
        ensures
            final(self)@ == (EditorModel { mode: Mode::Normal, ..old(self)@ }),
    {
        self.mode = Mode::Normal;
    }

    /// Enter visual mode, fixing the anchor at the current cursor position.
    pub fn visual_mode(&mut self)
        ensures
            final(self)@ == (EditorModel {
                mode: Mode::Visual,
                anchor: old(self)@.cursor,
                ..old(self)@
            }),
    {
        self.mode = Mode::Visual;
        self.anchor = self.cursor.pos;
    }
}


// ---------------------------------------------------------------------------
// Cursor movement
// ---------------------------------------------------------------------------

pub open spec fn move_left_spec(m: EditorModel) -> EditorModel {
    EditorModel {
        cursor: Position {
            lnum: m.cursor.lnum,
            index: if m.cursor.index > 0 {
                (m.cursor.index - 1) as usize
            } else {
                0
            },
        },
        ..m
    }
}

pub open spec fn move_right_spec(m: EditorModel) -> EditorModel {
    EditorModel {
        cursor: Position {
            lnum: m.cursor.lnum,
            index: if m.cursor.index < usize::MAX {
                (m.cursor.index + 1) as usize
            } else {
                m.cursor.index
            },
        },
        ..m
    }
}

pub open spec fn move_up_spec(m: EditorModel) -> EditorModel {
    EditorModel {
        cursor: Position {
            lnum: if m.cursor.lnum > 0 {
                (m.cursor.lnum - 1) as usize
            } else {
                0
            },
            index: m.cursor.index,
        },
        ..m
    }
}

pub open spec fn move_down_spec(m: EditorModel) -> EditorModel {
    EditorModel {
        cursor: Position {
            lnum: if m.cursor.lnum < usize::MAX {
                (m.cursor.lnum + 1) as usize
            } else {
                m.cursor.lnum
            },
            index: m.cursor.index,
        },
        ..m
    }
}

pub open spec fn line_start_spec(m: EditorModel) -> EditorModel {
    EditorModel { cursor: Position { lnum: m.cursor.lnum, index: 0 }, ..m }
}

/// Put the cursor one past the last character of its line (the insert-mode
/// append position; the next clamp pulls it in for the other modes).
pub open spec fn line_end_spec(m: EditorModel) -> EditorModel
    recommends
        m.cursor.lnum < m.lines.len(),
{
    EditorModel {
        cursor: Position {
            lnum: m.cursor.lnum,
            index: m.lines[m.cursor.lnum as int].len() as usize,
        },
        ..m
    }
}

impl EditorState {
    /// Move one column right; the upper bound is enforced lazily by the
    /// next clamp, not here.
    pub fn cursor_right(&mut self)
        ensures
            final(self)@ == move_right_spec(old(self)@),
    {
        self.cursor.pos.index = self.cursor.pos.index.saturating_add(1);
    }

    /// Move one column left, saturating at 0.
    pub fn cursor_left(&mut self)
        ensures
            final(self)@ == move_left_spec(old(self)@),
    {
        self.cursor.pos.index = self.cursor.pos.index.saturating_sub(1);
    }

    /// Move one line down; the lower bound is enforced lazily by the next
    /// clamp, not here.
    pub fn cursor_down(&mut self)
        ensures
            final(self)@ == move_down_spec(old(self)@),
    {
        self.cursor.pos.lnum = self.cursor.pos.lnum.saturating_add(1);
    }

    /// Move one line up, saturating at 0.
    pub fn cursor_up(&mut self)
        ensures
            final(self)@ == move_up_spec(old(self)@),
    {
        self.cursor.pos.lnum = self.cursor.pos.lnum.saturating_sub(1);
    }

    /// Move the cursor to column 0 of its line.
    pub fn line_start(&mut self)
        ensures
            final(self)@ == line_start_spec(old(self)@),
    {
        self.cursor.pos.index = 0;
    }

    /// Move the cursor one past the last character of its line.
    pub fn line_end(&mut self)
        requires
            old(self)@.cursor.lnum < old(self)@.lines.len(),
        ensures
            final(self)@ == line_end_spec(old(self)@),
    {
        self.cursor.pos.index = self.data[self.cursor.pos.lnum].len();
    }
}

// ---------------------------------------------------------------------------
// Clamping and scroll-follow
// ---------------------------------------------------------------------------

/// The legal cursor position nearest the current one: the line is pulled
/// into the buffer, then the column is pulled within the mode's bound.
pub open spec fn clamp_spec(m: EditorModel) -> Position
    recommends
        inv(m),
{
    let l = if m.cursor.lnum >= m.lines.len() {
        (m.lines.len() - 1) as usize
    } else {
        m.cursor.lnum
    };
    let limit = line_limit(m.lines[l as int], m.mode);
    let i = if m.cursor.index > limit {
        limit as usize
    } else {
        m.cursor.index
    };
    Position { lnum: l, index: i }
}

/// The row offset after scroll-follow: moved up to the cursor's row when the
/// cursor is above the window, down by the minimum amount when it is below,
/// untouched otherwise.
pub open spec fn follow_y_spec(m: EditorModel, c: Position) -> usize
    recommends
        inv(m),
{
    if c.lnum < m.scroll_y {
        c.lnum
    } else if c.lnum >= m.scroll_y + m.height {
        (c.lnum - (m.height - 1)) as usize
    } else {
        m.scroll_y
    }
}

/// The column offset after scroll-follow, symmetric to `follow_y_spec`.
pub open spec fn follow_x_spec(m: EditorModel, c: Position) -> usize
    recommends
        inv(m),
{
    if c.index < m.scroll_x {
        c.index
    } else if c.index >= m.scroll_x + m.width {
        (c.index - (m.width - 1)) as usize
    } else {
        m.scroll_x
    }
}

/// Clamp the cursor, then adjust the scroll offsets by the minimum amount
/// that puts the cursor back inside the visible rectangle.
pub open spec fn wrangle_spec(m: EditorModel) -> EditorModel
    recommends
        inv(m),
{
    let c = clamp_spec(m);
    EditorModel { cursor: c, scroll_y: follow_y_spec(m, c), scroll_x: follow_x_spec(m, c), ..m }
}

impl EditorState {
    /// Re-derive a legal cursor position from the buffer bounds and the
    /// mode's column rule, then scroll the viewport after it. This runs
    /// after every mutation, before the cursor is used for anything else.
    /// Afterwards the cursor is in bounds (the clamp invariant) and inside
    /// the visible rectangle (the scroll-follow invariant).
    pub fn wrangle_cursor(&mut self)
        requires
            old(self).wf(),
        ensures
            final(self)@ == wrangle_spec(old(self)@),
            final(self).wf(),
            cursor_in_bounds(final(self)@),
            cursor_in_view(final(self)@),
    {
        if self.cursor.pos.lnum >= self.data.len() {
            self.cursor.pos.lnum = self.data.len() - 1;
        }

        let linelen = self.data[self.cursor.pos.lnum].len();
        let limit = if self.mode == Mode::Insert || linelen == 0 {
            linelen
        } else {
            linelen - 1
        };
        if self.cursor.pos.index > limit {
            self.cursor.pos.index = limit;
        }

        let height = self.term.height();
        if self.cursor.pos.lnum < self.term_y {
            self.term_y = self.cursor.pos.lnum;
        } else if self.cursor.pos.lnum - self.term_y >= height {
            self.term_y = self.cursor.pos.lnum - (height - 1);
        }

        let width = self.term.width();
        if self.cursor.pos.index < self.term_x {
            self.term_x = self.cursor.pos.index;
        } else if self.cursor.pos.index - self.term_x >= width {
            self.term_x = self.cursor.pos.index - (width - 1);
        }
    }
}


// ---------------------------------------------------------------------------
// Ranges of text objects against a concrete buffer
// ---------------------------------------------------------------------------

/// The half-open range an object covers, given the model (whose anchor a
/// `Selection` needs).
pub open spec fn object_bounds(m: EditorModel, t: TextObject) -> (Position, Position) {
    match t {
        TextObject::Selection(p) => selection_bounds_spec(m.anchor, p),
        _ => (start_spec(t), end_spec(t)),
    }
}

/// The object denotes a well-formed range of the buffer. `NoObject` is
/// always fine (it means "do nothing"); `CancelOp` never reaches an
/// operator, so no range is asked of it.
pub open spec fn object_ok(m: EditorModel, t: TextObject) -> bool {
    match t {
        TextObject::NoObject => true,
        TextObject::CancelOp => false,
        TextObject::Selection(p) => {
            &&& m.anchor.index < usize::MAX
            &&& p.index < usize::MAX
            &&& valid_range(
                m.lines,
                selection_bounds_spec(m.anchor, p).0,
                selection_bounds_spec(m.anchor, p).1,
            )
        },
        _ => end_fits(t) && valid_range(m.lines, start_spec(t), end_spec(t)),
    }
}

/// What replacing the text of `t` by `text` does to the whole state: the
/// range collapses onto its first line and the mode returns to normal, as
/// it does whenever an operator completes.
pub open spec fn replace_step(m: EditorModel, t: TextObject, text: Seq<char>) -> EditorModel {
    if t is NoObject {
        m
    } else {
        let b = object_bounds(m, t);
        EditorModel { lines: replace_lines(m.lines, b.0, b.1, text), mode: Mode::Normal, ..m }
    }
}

/// The text covered by the half-open range `[s, e)`, line by line.
pub open spec fn range_text(lines: Seq<Seq<char>>, s: Position, e: Position) -> Seq<Seq<char>>
    recommends
        valid_range(lines, s, e),
{
    if s.lnum == e.lnum {
        seq![lines[s.lnum as int].subrange(s.index as int, e.index as int)]
    } else {
        seq![lines[s.lnum as int].skip(s.index as int)] + lines.subrange(
            s.lnum as int + 1,
            e.lnum as int,
        ) + if e.lnum < lines.len() {
            seq![lines[e.lnum as int].take(e.index as int)]
        } else {
            Seq::<Seq<char>>::empty()
        }
    }
}

/// What yanking `t` does: the covered text lands in the register, the
/// buffer stays as it is, and the mode returns to normal.
pub open spec fn yank_step(m: EditorModel, t: TextObject) -> EditorModel {
    if t is NoObject {
        m
    } else {
        let b = object_bounds(m, t);
        EditorModel { register: range_text(m.lines, b.0, b.1), mode: Mode::Normal, ..m }
    }
}

pub open spec fn insert_text_step(m: EditorModel, pos: Position, text: Seq<char>) -> EditorModel {
    EditorModel { lines: insert_in_line(m.lines, pos, text), ..m }
}

pub open spec fn insert_newline_step(m: EditorModel) -> EditorModel {
    EditorModel {
        lines: split_lines(m.lines, m.cursor),
        cursor: Position { lnum: (m.cursor.lnum + 1) as usize, index: 0 },
        ..m
    }
}

pub open spec fn delete_newline_step(m: EditorModel, l: int) -> EditorModel {
    EditorModel {
        lines: join_lines(m.lines, l),
        cursor: Position { lnum: l as usize, index: m.lines[l].len() as usize },
        ..m
    }
}

pub open spec fn remove_char_step(m: EditorModel, pos: Position) -> EditorModel {
    EditorModel {
        lines: m.lines.update(
            pos.lnum as int,
            splice_line(
                m.lines[pos.lnum as int],
                pos.index as int,
                pos.index + 1,
                Seq::<char>::empty(),
            ),
        ),
        ..m
    }
}

pub open spec fn backspace_step(m: EditorModel, pos: Position) -> EditorModel {
    EditorModel {
        lines: m.lines.update(
            pos.lnum as int,
            splice_line(
                m.lines[pos.lnum as int],
                pos.index - 1,
                pos.index as int,
                Seq::<char>::empty(),
            ),
        ),
        cursor: Position {
            lnum: m.cursor.lnum,
            index: if m.cursor.index > 0 {
                (m.cursor.index - 1) as usize
            } else {
                0
            },
        },
        ..m
    }
}

// ---------------------------------------------------------------------------
// Executable helpers on single lines
// ---------------------------------------------------------------------------

/// A copy of the characters `[from, to)` of a line.
pub(crate) fn copy_range(line: &Vec<char>, from: usize, to: usize) -> (r: Vec<char>)
    requires
        from <= to <= line@.len(),
    ensures
        r@ == line@.subrange(from as int, to as int),
{
    let mut r: Vec<char> = Vec::new();
    let mut i: usize = from;
    while i < to
        invariant
            from <= i <= to <= line@.len(),
            r@ == line@.subrange(from as int, i as int),
        decreases to - i,
    {
        r.push(line[i]);
        proof {
            assert(line@.subrange(from as int, i as int).push(line@[i as int]) =~= line@.subrange(
                from as int,
                i as int + 1,
            ));
        }
        i += 1;
    }
    r
}

/// A copy of `line` with `[from, to)` replaced by `text`.
fn spliced(line: &Vec<char>, from: usize, to: usize, text: &Vec<char>) -> (r: Vec<char>)
    requires
        from <= to <= line@.len(),
    ensures
        r@ == splice_line(line@, from as int, to as int, text@),
{
    let mut r = copy_range(line, 0, from);
    let mut i: usize = 0;
    while i < text.len()
        invariant
            i <= text@.len(),
            from <= to <= line@.len(),
            r@ == line@.subrange(0, from as int) + text@.subrange(0, i as int),
        decreases text@.len() - i,
    {
        r.push(text[i]);
        proof {
            assert((line@.subrange(0, from as int) + text@.subrange(0, i as int)).push(
                text@[i as int],
            ) =~= line@.subrange(0, from as int) + text@.subrange(0, i as int + 1));
        }
        i += 1;
    }
    proof {
        assert(text@.subrange(0, text@.len() as int) =~= text@);
    }
    let mut k: usize = to;
    while k < line.len()
        invariant
            to <= k <= line@.len(),
            from <= to,
            r@ == line@.subrange(0, from as int) + text@ + line@.subrange(to as int, k as int),
        decreases line@.len() - k,
    {
        r.push(line[k]);
        proof {
            assert((line@.subrange(0, from as int) + text@ + line@.subrange(to as int, k as int))
                .push(line@[k as int]) =~= line@.subrange(0, from as int) + text@ + line@.subrange(
                to as int,
                k as int + 1,
            ));
        }
        k += 1;
    }
    r
}

/// Is `c` one of the characters of `set`?
fn char_in(set: &Vec<char>, c: char) -> (r: bool)
    ensures
        r == set@.contains(c),
{
    let mut i: usize = 0;
    while i < set.len()
        invariant
            i <= set@.len(),
            forall|k: int| 0 <= k < i ==> set@[k] != c,
        decreases set@.len() - i,
    {
        if set[i] == c {
            return true;
        }
        i += 1;
    }
    false
}

// ---------------------------------------------------------------------------
// Buffer mutation
// ---------------------------------------------------------------------------

impl EditorState {
    /// Splice `text` into the line at `pos`; the caller advances the cursor
    /// over it where that is wanted. The text must not contain a line break;
    /// a break enters the buffer only through `insert_newline`.
    pub fn insert_text(&mut self, pos: Position, text: &Vec<char>)
        requires
            valid_pos(old(self)@.lines, pos),
            !text@.contains('\n'),
        ensures
            final(self)@ == insert_text_step(old(self)@, pos, text@),
    {
        let new_line = spliced(&self.data[pos.lnum], pos.index, pos.index, text);
        self.data[pos.lnum] = new_line;
        proof {
            lemma_lines_view_update(old(self).data@, pos.lnum as int, self.data@[pos.lnum as int]);
            assert(final(self)@ =~~= insert_text_step(old(self)@, pos, text@));
        }
    }

    /// Split the cursor's line at the cursor; the cursor moves to column 0
    /// of the new line below.
    pub fn insert_newline(&mut self)
        requires
            valid_pos(old(self)@.lines, old(self)@.cursor),
        ensures
            final(self)@ == insert_newline_step(old(self)@),
    {
        let l = self.cursor.pos.lnum;
        let i = self.cursor.pos.index;
        let dlen = self.data.len();
        assert(l < dlen);
        let first = copy_range(&self.data[l], 0, i);
        let second = copy_range(&self.data[l], i, self.data[l].len());
        let ghost d0 = self.data@;
        self.data[l] = first;
        self.data.insert(l + 1, second);
        self.cursor.pos.lnum = l + 1;
        self.cursor.pos.index = 0;
        proof {
            lemma_lines_view_update(d0, l as int, first);
            lemma_lines_view_insert(d0.update(l as int, first), l as int + 1, second);
            assert(lines_view(self.data@) =~= split_lines(lines_view(d0), old(self)@.cursor));
            assert(final(self)@ =~~= insert_newline_step(old(self)@));
        }
    }

    /// Append line `lnum + 1` onto line `lnum` and remove it; the cursor
    /// lands on the join seam, at the former end of line `lnum`.
    pub fn delete_newline(&mut self, lnum: usize)
        requires
            lnum + 1 < old(self)@.lines.len(),
        ensures
            final(self)@ == delete_newline_step(old(self)@, lnum as int),
    {
        let dlen = self.data.len();
        assert(lnum < dlen);
        let end_index = self.data[lnum].len();
        let ghost d0 = self.data@;
        let tail = self.data.remove(lnum + 1);
        let joined = spliced(&self.data[lnum], end_index, end_index, &tail);
        proof {
            assert(joined@ =~= d0[lnum as int]@ + tail@);
        }
        self.data[lnum] = joined;
        self.cursor.pos.lnum = lnum;
        self.cursor.pos.index = end_index;
        proof {
            lemma_lines_view_remove(d0, lnum as int + 1);
            lemma_lines_view_update(d0.remove(lnum as int + 1), lnum as int, joined);
            assert(lines_view(self.data@) =~= join_lines(lines_view(d0), lnum as int));
            assert(final(self)@ =~~= delete_newline_step(old(self)@, lnum as int));
        }
    }

    /// Remove exactly the character at `pos`; the cursor stays put.
    pub fn remove_char(&mut self, pos: Position)
        requires
            pos.lnum < old(self)@.lines.len(),
            pos.index < old(self)@.lines[pos.lnum as int].len(),
        ensures
            final(self)@ == remove_char_step(old(self)@, pos),
    {
        let empty: Vec<char> = Vec::new();
        let llen = self.data[pos.lnum].len();
        assert(pos.index < llen);
        let new_line = spliced(&self.data[pos.lnum], pos.index, pos.index + 1, &empty);
        self.data[pos.lnum] = new_line;
        proof {
            lemma_lines_view_update(old(self).data@, pos.lnum as int, self.data@[pos.lnum as int]);
            assert(final(self)@ =~~= remove_char_step(old(self)@, pos));
        }
    }

    /// Remove the character before `pos` and move the cursor one column
    /// left.
    pub fn backspace(&mut self, pos: Position)
        requires
            pos.lnum < old(self)@.lines.len(),
            1 <= pos.index <= old(self)@.lines[pos.lnum as int].len(),
        ensures
            final(self)@ == backspace_step(old(self)@, pos),
    {
        let empty: Vec<char> = Vec::new();
        let new_line = spliced(&self.data[pos.lnum], pos.index - 1, pos.index, &empty);
        self.data[pos.lnum] = new_line;
        proof {
            lemma_lines_view_update(old(self).data@, pos.lnum as int, self.data@[pos.lnum as int]);
        }
        self.cursor_left();
        proof {
            assert(final(self)@ =~~= backspace_step(old(self)@, pos));
        }
    }

    /// The shared splice behind `replace`, `delete` and the operators:
    /// collapse the half-open range `[start, end)` onto line `start.lnum`,
    /// with `text` in between.
    fn splice_range(&mut self, start: Position, end: Position, text: &Vec<char>)
        requires
            old(self).wf(),
            valid_range(old(self)@.lines, start, end),
        ensures
            final(self)@ == (EditorModel {
                lines: replace_lines(old(self)@.lines, start, end, text@),
                ..old(self)@
            }),
            final(self).wf(),
    {
        let ghost m0 = self@;
        let len0 = self.data.len();
        let mut tail: Vec<char> = if end.lnum < len0 {
            copy_range(&self.data[end.lnum], end.index, self.data[end.lnum].len())
        } else {
            Vec::new()
        };
        proof {
            if end.lnum < len0 {
                assert(tail@ =~= m0.lines[end.lnum as int].skip(end.index as int));
            }
        }
        let mut mid = copy_range(text, 0, text.len());
        proof {
            assert(mid@ =~= text@);
        }
        mid.append(&mut tail);
        let merged = spliced(&self.data[start.lnum], start.index, self.data[start.lnum].len(), &mid);
        proof {
            assert(merged@ =~= m0.lines[start.lnum as int].take(start.index as int) + text@ + (
            if end.lnum < m0.lines.len() {
                m0.lines[end.lnum as int].skip(end.index as int)
            } else {
                Seq::<char>::empty()
            }));
        }
        self.data[start.lnum] = merged;
        let ghost big = lines_view(self.data@);
        proof {
            lemma_lines_view_update(old(self).data@, start.lnum as int, merged);
            assert(big == m0.lines.update(start.lnum as int, merged@));
        }

        let bounded_end: usize = if end.lnum < len0 {
            end.lnum
        } else {
            len0 - 1
        };
        let count: usize = bounded_end - start.lnum;
        let ghost s = start.lnum as int;
        let mut j: usize = 0;
        proof {
            assert(lines_view(self.data@) =~= big.take(s + 1) + big.skip(s + 1 + 0));
        }
        while j < count
            invariant
                j <= count,
                s == start.lnum as int,
                s + 1 + count <= big.len(),
                big.len() == len0,
                self.data@.len() == big.len() - j,
                lines_view(self.data@) == big.take(s + 1) + big.skip(s + 1 + j),
                self@ == (EditorModel { lines: lines_view(self.data@), ..m0 }),
            decreases count - j,
        {
            let ghost dmid = self.data@;
            let _ = self.data.remove(start.lnum + 1);
            proof {
                lemma_lines_view_remove(dmid, s + 1);
                assert(lines_view(self.data@) =~= big.take(s + 1) + big.skip(s + 1 + (j + 1)));
            }
            j += 1;
        }
        proof {
            let rest_from = if end.lnum as int + 1 <= m0.lines.len() as int {
                end.lnum as int + 1
            } else {
                m0.lines.len() as int
            };
            assert(s + 1 + count == rest_from);
            assert(lines_view(self.data@) =~= replace_lines(m0.lines, start, end, text@));
            assert(final(self)@ =~~= (EditorModel {
                lines: replace_lines(m0.lines, start, end, text@),
                ..m0
            }));
        }
    }

    /// Replace the text covered by `txt_obj` with `text`. A `NoObject` is a
    /// silent no-op; otherwise the mode returns to normal, as after every
    /// completed operator.
    pub fn replace(&mut self, txt_obj: TextObject, text: &Vec<char>)
        requires
            old(self).wf(),
            object_ok(old(self)@, txt_obj),
        ensures
            final(self)@ == replace_step(old(self)@, txt_obj, text@),
            final(self).wf(),
    {
        if txt_obj.is_none() {
            return;
        }
        let bounds = if let TextObject::Selection(_) = txt_obj {
            txt_obj.get_selection_bounds(self.anchor)
        } else {
            txt_obj.get_bounds()
        };
        self.normal_mode();
        self.splice_range(bounds.0, bounds.1, text);
    }

    /// Remove the text covered by `txt_obj`; a deletion is a replacement by
    /// nothing.
    pub fn delete(&mut self, txt_obj: TextObject)
        requires
            old(self).wf(),
            object_ok(old(self)@, txt_obj),
        ensures
            final(self)@ == replace_step(old(self)@, txt_obj, Seq::<char>::empty()),
            final(self).wf(),
    {
        let empty: Vec<char> = Vec::new();
        self.replace(txt_obj, &empty);
    }

    /// Copy the text covered by `txt_obj` into the register, leaving the
    /// buffer untouched; the mode returns to normal.
    pub fn yank(&mut self, txt_obj: TextObject)
        requires
            old(self).wf(),
            object_ok(old(self)@, txt_obj),
        ensures
            final(self)@ == yank_step(old(self)@, txt_obj),
            final(self).wf(),
    {
        if txt_obj.is_none() {
            return;
        }
        let bounds = if let TextObject::Selection(_) = txt_obj {
            txt_obj.get_selection_bounds(self.anchor)
        } else {
            txt_obj.get_bounds()
        };
        let start = bounds.0;
        let end = bounds.1;
        self.normal_mode();
        let mut reg: Vec<Vec<char>> = Vec::new();
        if start.lnum == end.lnum {
            reg.push(copy_range(&self.data[start.lnum], start.index, end.index));
        } else {
            reg.push(copy_range(&self.data[start.lnum], start.index, self.data[start.lnum].len()));
            let mut l = start.lnum + 1;
            while l < end.lnum
                invariant
                    start.lnum as int + 1 <= l as int <= end.lnum as int,
                    end.lnum <= lines_view(self.data@).len() || l < lines_view(self.data@).len(),
                    end.lnum as int <= lines_view(self.data@).len(),
                    lines_view(reg@) =~= seq![
                        lines_view(self.data@)[start.lnum as int].skip(start.index as int),
                    ] + lines_view(self.data@).subrange(start.lnum as int + 1, l as int),
                decreases end.lnum - l,
            {
                let ghost r0 = reg@;
                reg.push(copy_range(&self.data[l], 0, self.data[l].len()));
                proof {
                    lemma_lines_view_push(r0, reg@[reg@.len() - 1]);
                    assert(lines_view(self.data@)[l as int].subrange(
                        0,
                        lines_view(self.data@)[l as int].len() as int,
                    ) =~= lines_view(self.data@)[l as int]);
                    assert(lines_view(reg@) =~= seq![
                        lines_view(self.data@)[start.lnum as int].skip(start.index as int),
                    ] + lines_view(self.data@).subrange(start.lnum as int + 1, l as int + 1));
                }
                l += 1;
            }
            if end.lnum < self.data.len() {
                let ghost r1 = reg@;
                reg.push(copy_range(&self.data[end.lnum], 0, end.index));
                proof {
                    lemma_lines_view_push(r1, reg@[reg@.len() - 1]);
                }
            }
        }
        self.register = reg;
        proof {
            assert(lines_view(self.register@) =~= range_text(old(self)@.lines, start, end));
            assert(final(self)@ =~~= yank_step(old(self)@, txt_obj));
        }
    }

    /// Insert the configured number of spaces at the cursor (never a
    /// negative number; a width that cannot fit the line is ignored).
    pub fn indent(&mut self)
        requires
            old(self).wf(),
            valid_pos(old(self)@.lines, old(self)@.cursor),
        ensures
            final(self)@ == indent_step(old(self)@),
    {
        let t = self.config.tabstop();
        let n: usize = if t <= 0 {
            0
        } else {
            t as usize
        };
        if self.cursor.pos.index <= usize::MAX - n {
            let mut spaces: Vec<char> = Vec::new();
            let mut i: usize = 0;
            while i < n
                invariant
                    i <= n,
                    spaces@ =~= Seq::new(i as nat, |k: int| ' '),
                decreases n - i,
            {
                spaces.push(' ');
                proof {
                    assert(spaces@ =~= Seq::new(i as nat + 1, |k: int| ' '));
                }
                i += 1;
            }
            let pos = self.cursor.pos;
            self.insert_text(pos, &spaces);
            self.cursor.pos.index = pos.index + n;
            proof {
                assert(final(self)@ =~~= indent_step(old(self)@));
            }
        } else {
            proof {
                assert(final(self)@ =~~= indent_step(old(self)@));
            }
        }
    }

    /// The word object at `pos`: the run of characters up to, and not
    /// including, the first word-break character at or after the cursor, or
    /// the rest of the line if none occurs.
    pub fn get_word_textobject(&self, pos: Position) -> (t: TextObject)
        requires
            valid_pos(self@.lines, pos),
        ensures
            t == word_object_spec(self@, pos),
    {
        let line = &self.data[pos.lnum];
        let breaks = self.config.word_break_chars();
        let ghost lv = self@.lines[pos.lnum as int];
        let mut j: usize = pos.index;
        while j < line.len() && !char_in(breaks, line[j])
            invariant
                pos.index <= j <= lv.len(),
                lv == line@,
                breaks@ == self@.config.word_breaks,
                word_run_len(lv, pos.index as int, breaks@) == j - pos.index + word_run_len(
                    lv,
                    j as int,
                    breaks@,
                ),
            decreases lv.len() - j,
        {
            proof {
                assert(word_run_len(lv, j as int, breaks@) == 1 + word_run_len(
                    lv,
                    j as int + 1,
                    breaks@,
                ));
            }
            j += 1;
        }
        proof {
            assert(word_run_len(lv, j as int, breaks@) == 0);
        }
        TextObject::Word(pos, j - pos.index)
    }

    /// The object running from `pos` to the end of its line.
    pub fn get_lineend_textobject(&self, pos: Position) -> (t: TextObject)
        requires
            valid_pos(self@.lines, pos),
        ensures
            t == (TextObject::LineEnd(
                pos,
                (self@.lines[pos.lnum as int].len() - pos.index) as usize,
            )),
    {
        TextObject::LineEnd(pos, self.data[pos.lnum].len() - pos.index)
    }
}

/// What `indent` does: `tabstop` spaces enter the line at the cursor and
/// the cursor advances over them; a non-positive width inserts nothing.
pub open spec fn indent_step(m: EditorModel) -> EditorModel {
    let t = tabstop_spec(m.config);
    let n = if t <= 0 {
        0
    } else {
        t as usize
    };
    if m.cursor.index + n <= usize::MAX {
        EditorModel {
            cursor: Position { lnum: m.cursor.lnum, index: (m.cursor.index + n) as usize },
            ..insert_text_step(m, m.cursor, Seq::new(n as nat, |k: int| ' '))
        }
    } else {
        m
    }
}

/// The word object the resolver hands an operator at `pos`.
pub open spec fn word_object_spec(m: EditorModel, pos: Position) -> TextObject {
    TextObject::Word(
        pos,
        word_run_len(m.lines[pos.lnum as int], pos.index as int, m.config.word_breaks) as usize,
    )
}


// ---------------------------------------------------------------------------
// Round-trip laws
// ---------------------------------------------------------------------------

/// Half-open delete idempotence: deleting the character object at `p` and
/// then inserting that same character back at `p` restores the buffer
/// exactly.
pub proof fn lemma_delete_then_insert_restores(lines: Seq<Seq<char>>, p: Position)
    requires
        p.lnum < lines.len(),
        p.index < lines[p.lnum as int].len(),
        p.index < usize::MAX,
    ensures
        insert_in_line(
            replace_lines(
                lines,
                p,
                Position { lnum: p.lnum, index: (p.index + 1) as usize },
                Seq::<char>::empty(),
            ),
            p,
            seq![lines[p.lnum as int][p.index as int]],
        ) == lines,
{
    let l = p.lnum as int;
    let i = p.index as int;
    let line = lines[l];
    let e = Position { lnum: p.lnum, index: (p.index + 1) as usize };
    let deleted = replace_lines(lines, p, e, Seq::<char>::empty());
    assert(deleted[l] =~= line.subrange(0, i) + line.subrange(i + 1, line.len() as int));
    let shorter = deleted[l];
    let back = splice_line(shorter, i, i, seq![line[i]]);
    assert(back =~= line);
    assert(insert_in_line(deleted, p, seq![line[i]]) =~= lines);
}

/// Line split/join round trip: splitting the cursor's line and then joining
/// at the same line restores both the buffer and the cursor, the column
/// included.
pub proof fn lemma_split_then_join_restores(m: EditorModel)
    requires
        inv(m),
        valid_pos(m.lines, m.cursor),
    ensures
        delete_newline_step(insert_newline_step(m), m.cursor.lnum as int) == m,
{
    let l = m.cursor.lnum as int;
    let i = m.cursor.index as int;
    let line = m.lines[l];
    let m1 = insert_newline_step(m);
    assert(m1.lines[l] =~= line.subrange(0, i));
    assert(m1.lines[l + 1] =~= line.subrange(i, line.len() as int));
    assert(m1.lines[l] + m1.lines[l + 1] =~= line);
    let m2 = delete_newline_step(m1, l);
    assert(m2.lines =~= m.lines);
    assert(m2.cursor == m.cursor);
    assert(m2 =~~= m);
}


// ---------------------------------------------------------------------------
// Engine support: pending sub-state, binding lookups, object validity
// ---------------------------------------------------------------------------

impl EditorState {
    /// The pending-operator sub-state.
    pub fn pending_state(&self) -> (p: Pending)
        ensures
            p == self@.pending,
    {
        self.pending
    }

    pub fn set_pending(&mut self, p: Pending)
        ensures
            final(self)@ == (EditorModel { pending: p, ..old(self)@ }),
    {
        self.pending = p;
    }

    /// The insert-mode action bound to the binding name `key`.
    pub fn insert_bind(&self, key: &str) -> (r: Option<InsertAction>)
        ensures
            r == assoc(self@.config.insert, key@),
    {
        self.config.insert(key)
    }

    /// The normal-mode action bound to the binding name `key`.
    pub fn normal_bind(&self, key: &str) -> (r: Option<NormalAction>)
        ensures
            r == assoc(self@.config.normal, key@),
    {
        self.config.normal(key)
    }

    /// The visual-mode action bound to the binding name `key`.
    pub fn visual_bind(&self, key: &str) -> (r: Option<VisualAction>)
        ensures
            r == assoc(self@.config.visual, key@),
    {
        self.config.visual(key)
    }

    /// The text-object template bound to the binding name `key`.
    pub fn textobject_bind(&self, key: &str) -> (r: Option<TextObject>)
        ensures
            r == assoc(self@.config.textobjects, key@),
    {
        self.config.textobject(key)
    }

    /// The insert-mode action bound to the key `k`.
    pub fn insert_bind_key(&self, k: Key) -> (r: Option<InsertAction>)
        ensures
            r == assoc(self@.config.insert, key_name_spec(k)),
    {
        self.config.insert_key(k)
    }

    /// The normal-mode action bound to the key `k`.
    pub fn normal_bind_key(&self, k: Key) -> (r: Option<NormalAction>)
        ensures
            r == assoc(self@.config.normal, key_name_spec(k)),
    {
        self.config.normal_key(k)
    }

    /// The visual-mode action bound to the key `k`.
    pub fn visual_bind_key(&self, k: Key) -> (r: Option<VisualAction>)
        ensures
            r == assoc(self@.config.visual, key_name_spec(k)),
    {
        self.config.visual_key(k)
    }

    /// The text-object template bound to the key `k`.
    pub fn textobject_bind_key(&self, k: Key) -> (r: Option<TextObject>)
        ensures
            r == assoc(self@.config.textobjects, key_name_spec(k)),
    {
        self.config.textobject_key(k)
    }

    /// Decide whether `t` names a well-formed range of the current buffer,
    /// so an operator may act on it.
    pub fn object_valid(&self, t: TextObject) -> (r: bool)
        ensures
            r == object_ok(self@, t),
    {
        let dlen = self.data.len();
        match t {
            TextObject::NoObject => true,
            TextObject::CancelOp => false,
            TextObject::Char(p) => {
                p.lnum < dlen && p.index < self.data[p.lnum].len()
            },
            TextObject::Line(l) => l < dlen,
            TextObject::LineEnd(p, c) => {
                if p.lnum < dlen {
                    let llen = self.data[p.lnum].len();
                    c <= llen && p.index <= llen - c
                } else {
                    false
                }
            },
            TextObject::Word(p, c) => {
                if p.lnum < dlen {
                    let llen = self.data[p.lnum].len();
                    c <= llen && p.index <= llen - c
                } else {
                    false
                }
            },
            TextObject::Selection(p) => {
                let a = self.anchor;
                let lo = if pos_le_exec(a, p) { a } else { p };
                let hi = if pos_le_exec(a, p) { p } else { a };
                if lo.index == usize::MAX || hi.index == usize::MAX {
                    false
                } else if lo.lnum < dlen && hi.lnum < dlen {
                    lo.index <= self.data[lo.lnum].len() && hi.index < self.data[hi.lnum].len()
                } else {
                    false
                }
            },
        }
    }
}

} // verus!
