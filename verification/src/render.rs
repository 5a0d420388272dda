//! The rendering projection: editor state in, a displayable frame out. The
//! frame holds the visible lines, each cropped to the viewport, the
//! per-row highlight span of a visual-mode selection, the viewport-relative
//! cursor cell and the mode; painting it is the display's business.

use vstd::prelude::*;
use crate::editor::EditorModel;
use crate::editor::EditorState;
use crate::editor::Position;
use crate::editor::copy_range;
use crate::editor::cursor_in_bounds;
use crate::editor::cursor_in_view;
use crate::editor::pos_le;
use crate::editor::pos_le_exec;
use crate::editor::wrangle_spec;
use crate::modes::Mode;

verus! {

/// One visible row: its cropped text and, in a visual-mode selection, the
/// half-open span of columns to highlight, in cropped-text coordinates.
pub struct FrameRow {
    pub text: Vec<char>,
    pub highlight: Option<(usize, usize)>,
}

/// A displayable frame: the visible rows, the cursor cell relative to the
/// viewport, and the mode (which names the status line and picks the
/// cursor shape).
pub struct Frame {
    pub rows: Vec<FrameRow>,
    pub cursor_x: usize,
    pub cursor_y: usize,
    pub mode: Mode,
}

/// A line cropped to the viewport columns `[x, x + w)`; a line that ends
/// before `x` shows as empty.
pub open spec fn crop_spec(line: Seq<char>, x: usize, w: usize) -> Seq<char> {
    if line.len() <= x {
        Seq::<char>::empty()
    } else {
        let avail = line.len() - x;
        let take = if w <= avail {
            w as int
        } else {
            avail
        };
        line.subrange(x as int, x + take)
    }
}

/// A selection is drawn only in visual mode and only once the cursor has
/// left the anchor.
pub open spec fn sel_active(m: EditorModel) -> bool {
    m.mode is Visual && m.anchor != m.cursor
}

/// The lexicographically smaller of anchor and cursor.
pub open spec fn sel_lo(m: EditorModel) -> Position {
    if pos_le(m.anchor, m.cursor) {
        m.anchor
    } else {
        m.cursor
    }
}

/// The lexicographically larger of anchor and cursor.
pub open spec fn sel_hi(m: EditorModel) -> Position {
    if pos_le(m.anchor, m.cursor) {
        m.cursor
    } else {
        m.anchor
    }
}

pub open spec fn clamp_int(v: int, lo: int, hi: int) -> int {
    if v < lo {
        lo
    } else if v > hi {
        hi
    } else {
        v
    }
}

/// The highlight span of absolute buffer row `r`, in cropped coordinates:
/// rows strictly inside the selection highlight whole; the first row from
/// its endpoint column rightward; the last row up to and including its
/// endpoint column; a single-row selection the inclusive column range
/// between its two endpoints. An empty span shows as no span.
pub open spec fn row_highlight_spec(m: EditorModel, r: int) -> Option<(usize, usize)> {
    if !sel_active(m) || r < sel_lo(m).lnum || r > sel_hi(m).lnum || r >= m.lines.len() {
        None
    } else {
        let line = m.lines[r];
        let crop_len = crop_spec(line, m.scroll_x, m.width).len() as int;
        let a: int = if r == sel_lo(m).lnum {
            sel_lo(m).index as int
        } else {
            0
        };
        let b: int = if r == sel_hi(m).lnum {
            sel_hi(m).index + 1
        } else {
            line.len() as int
        };
        let ra = clamp_int(a - m.scroll_x, 0, crop_len);
        let rb = clamp_int(b - m.scroll_x, 0, crop_len);
        if ra < rb {
            Some(((ra as usize), (rb as usize)))
        } else {
            None
        }
    }
}

/// The frame `f` is exactly the projection of the state `m`: one row per
/// visible buffer line, each cropped, each with its highlight span, and
/// the cursor translated to viewport coordinates.
pub open spec fn frame_matches(m: EditorModel, f: Frame) -> bool {
    let count: int = if m.lines.len() - m.scroll_y <= m.height {
        m.lines.len() - m.scroll_y
    } else {
        m.height as int
    };
    &&& f.rows.len() == count
    &&& forall|i: int|
        0 <= i < count ==> (#[trigger] f.rows[i]).text@ == crop_spec(
            m.lines[m.scroll_y + i],
            m.scroll_x,
            m.width,
        )
    &&& forall|i: int|
        0 <= i < count ==> (#[trigger] f.rows[i]).highlight == row_highlight_spec(
            m,
            m.scroll_y + i,
        )
    &&& f.cursor_x == m.cursor.index - m.scroll_x
    &&& f.cursor_y == m.cursor.lnum - m.scroll_y
    &&& f.mode == m.mode
}

/// Crop one line to the viewport columns.
fn crop_line(line: &Vec<char>, x: usize, w: usize) -> (r: Vec<char>)
    ensures
        r@ == crop_spec(line@, x, w),
{
    let len = line.len();
    if len <= x {
        Vec::new()
    } else {
        let avail = len - x;
        let take = if w <= avail {
            w
        } else {
            avail
        };
        copy_range(line, x, x + take)
    }
}

impl EditorState {
    /// Clamp the cursor and scroll the viewport after it, then project the
    /// state into a frame for the display to paint.
    pub fn render_frame(&mut self) -> (f: Frame)
        requires
            old(self).wf(),
        ensures
            final(self)@ == wrangle_spec(old(self)@),
            final(self).wf(),
            cursor_in_bounds(final(self)@),
            cursor_in_view(final(self)@),
            frame_matches(final(self)@, f),
    {
        self.wrangle_cursor();
        let ghost m1 = self@;
        let scroll = self.scroll();
        let sx = scroll.0;
        let sy = scroll.1;
        let w = self.view_width();
        let h = self.view_height();
        let total = self.line_count();
        let count: usize = if total - sy <= h {
            total - sy
        } else {
            h
        };
        let cur = self.cursor().pos();
        let anc = self.anchor();
        let active = *self.mode() == Mode::Visual && !(anc == cur);
        let lo = if pos_le_exec(anc, cur) {
            anc
        } else {
            cur
        };
        let hi = if pos_le_exec(anc, cur) {
            cur
        } else {
            anc
        };
        let mut rows: Vec<FrameRow> = Vec::new();
        let mut i: usize = 0;
        while i < count
            invariant
                self@ == m1,
                self.wf(),
                sx == m1.scroll_x,
                sy == m1.scroll_y,
                w == m1.width,
                h == m1.height,
                total == m1.lines.len(),
                cur == m1.cursor,
                anc == m1.anchor,
                active == sel_active(m1),
                lo == sel_lo(m1),
                hi == sel_hi(m1),
                sy + count <= total,
                count == if m1.lines.len() - m1.scroll_y <= m1.height {
                    m1.lines.len() - m1.scroll_y
                } else {
                    m1.height as int
                },
                i <= count,
                rows@.len() == i,
                forall|j: int|
                    0 <= j < i ==> (#[trigger] rows@[j]).text@ == crop_spec(
                        m1.lines[m1.scroll_y + j],
                        m1.scroll_x,
                        m1.width,
                    ),
                forall|j: int|
                    0 <= j < i ==> (#[trigger] rows@[j]).highlight == row_highlight_spec(
                        m1,
                        m1.scroll_y + j,
                    ),
            decreases count - i,
        {
            let r = sy + i;
            let llen = self.get_line(r).len();
            let text = crop_line(self.get_line(r), sx, w);
            let crop_len = text.len();
            let highlight: Option<(usize, usize)> = if active && lo.lnum <= r && r <= hi.lnum {
                let a: usize = if r == lo.lnum {
                    lo.index
                } else {
                    0
                };
                let b: usize = if r == hi.lnum {
                    hi.index.saturating_add(1)
                } else {
                    llen
                };
                let ra: usize = if a <= sx {
                    0
                } else if a - sx <= crop_len {
                    a - sx
                } else {
                    crop_len
                };
                let rb: usize = if b <= sx {
                    0
                } else if b - sx <= crop_len {
                    b - sx
                } else {
                    crop_len
                };
                proof {
                    assert(crop_len <= w && (llen > sx ==> crop_len <= llen - sx));
                    assert(ra == clamp_int(
                        (if r == sel_lo(m1).lnum { sel_lo(m1).index as int } else { 0 }) - m1.scroll_x,
                        0,
                        crop_len as int,
                    ));
                    assert(rb == clamp_int(
                        (if r == sel_hi(m1).lnum {
                            sel_hi(m1).index + 1
                        } else {
                            m1.lines[r as int].len() as int
                        }) - m1.scroll_x,
                        0,
                        crop_len as int,
                    ));
                }
                if ra < rb {
                    Some((ra, rb))
                } else {
                    None
                }
            } else {
                None
            };
            proof {
                assert(highlight == row_highlight_spec(m1, r as int));
            }
            rows.push(FrameRow { text, highlight });
            i += 1;
        }
        let f = Frame { rows, cursor_x: cur.index - sx, cursor_y: cur.lnum - sy, mode: *self.mode() };
        proof {
            assert(frame_matches(self@, f));
        }
        f
    }
}

} // verus!
