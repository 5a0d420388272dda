use vir::config::Config;
use vir::editor::EditorState;
use vir::editor::Position;
use vir::term::Term;

fn chars(s: &str) -> Vec<char> {
    s.chars().collect()
}

fn buffer(lines: &[&str]) -> Vec<Vec<char>> {
    lines.iter().map(|l| chars(l)).collect()
}

// Clamp invariant: the line is pulled into the buffer, the column within
// the mode's bound.
#[test]
fn clamp_pulls_cursor_into_buffer() {
    let mut st = EditorState::new(buffer(&["ab", "cdef"]), Term::new(80, 24), Config::init());
    for _ in 0..7 {
        st.cursor_down();
    }
    for _ in 0..9 {
        st.cursor_right();
    }
    st.wrangle_cursor();
    assert_eq!(st.cursor().pos(), Position::new(1, 4));
}

#[test]
fn clamp_normal_mode_stops_on_last_character() {
    let mut st = EditorState::new(buffer(&["abc"]), Term::new(80, 24), Config::init());
    st.normal_mode();
    for _ in 0..5 {
        st.cursor_right();
    }
    st.wrangle_cursor();
    assert_eq!(st.cursor().pos(), Position::new(0, 2));
}

#[test]
fn clamp_insert_mode_allows_append_position() {
    let mut st = EditorState::new(buffer(&["abc"]), Term::new(80, 24), Config::init());
    for _ in 0..5 {
        st.cursor_right();
    }
    st.wrangle_cursor();
    assert_eq!(st.cursor().pos(), Position::new(0, 3));
}

#[test]
fn clamp_empty_line_keeps_column_zero() {
    let mut st = EditorState::new(buffer(&["", "x"]), Term::new(80, 24), Config::init());
    st.normal_mode();
    st.cursor_right();
    st.wrangle_cursor();
    assert_eq!(st.cursor().pos(), Position::new(0, 0));
}

// Scroll-follow invariant: after wrangling, the cursor sits inside the
// visible rectangle on both axes, moved by the minimum amount.
#[test]
fn scroll_follows_cursor_down_and_right() {
    let lines: Vec<&str> = vec!["0123456789"; 10];
    let mut st = EditorState::new(buffer(&lines), Term::new(5, 3), Config::init());
    for _ in 0..6 {
        st.cursor_down();
    }
    for _ in 0..7 {
        st.cursor_right();
    }
    st.wrangle_cursor();
    let (sx, sy) = st.scroll();
    assert_eq!((sx, sy), (3, 4));
    let p = st.cursor().pos();
    assert!(sy <= p.lnum() && p.lnum() < sy + 3);
    assert!(sx <= p.index() && p.index() < sx + 5);
}

#[test]
fn scroll_follows_cursor_back_up_and_left() {
    let lines: Vec<&str> = vec!["0123456789"; 10];
    let mut st = EditorState::new(buffer(&lines), Term::new(5, 3), Config::init());
    for _ in 0..8 {
        st.cursor_down();
        st.cursor_right();
    }
    st.wrangle_cursor();
    for _ in 0..8 {
        st.cursor_up();
        st.cursor_left();
    }
    st.wrangle_cursor();
    assert_eq!(st.scroll(), (0, 0));
    assert_eq!(st.cursor().pos(), Position::new(0, 0));
}

#[test]
fn scroll_is_untouched_while_cursor_stays_visible() {
    let lines: Vec<&str> = vec!["0123456789"; 10];
    let mut st = EditorState::new(buffer(&lines), Term::new(5, 3), Config::init());
    st.cursor_down();
    st.cursor_right();
    st.wrangle_cursor();
    assert_eq!(st.scroll(), (0, 0));
}

#[test]
fn resize_never_leaves_a_zero_viewport() {
    let mut st = EditorState::new(buffer(&["x"]), Term::new(10, 10), Config::init());
    st.resize(0, 0);
    assert_eq!(st.view_width(), 1);
    assert_eq!(st.view_height(), 1);
    st.resize(7, 9);
    assert_eq!(st.view_width(), 7);
    assert_eq!(st.view_height(), 9);
}

#[test]
fn moves_saturate_at_zero() {
    let mut st = EditorState::new(buffer(&["ab"]), Term::new(10, 10), Config::init());
    st.cursor_left();
    st.cursor_up();
    assert_eq!(st.cursor().pos(), Position::new(0, 0));
}

#[test]
fn line_start_and_line_end() {
    let mut st = EditorState::new(buffer(&["abcd"]), Term::new(10, 10), Config::init());
    st.line_end();
    assert_eq!(st.cursor().pos(), Position::new(0, 4));
    st.line_start();
    assert_eq!(st.cursor().pos(), Position::new(0, 0));
}
