use vir::config::Config;
use vir::editor::EditorState;
use vir::keys::Key;
use vir::keys::KeyInput;
use vir::modes::Mode;
use vir::modes::process_key_event;
use vir::term::Term;

fn chars(s: &str) -> Vec<char> {
    s.chars().collect()
}

fn buffer(lines: &[&str]) -> Vec<Vec<char>> {
    lines.iter().map(|l| chars(l)).collect()
}

// Scenario: visual selection on one line, anchor (0,1) and cursor (0,3) on
// "abcdef": row 0 highlights the inclusive columns 1 through 3, which the
// frame carries as the half-open span [1, 4).
#[test]
fn visual_highlight_single_row() {
    let mut st = EditorState::new(buffer(&["abcdef"]), Term::new(80, 24), Config::init());
    st.normal_mode();
    st.cursor_right();
    st.wrangle_cursor();
    st.visual_mode();
    st.cursor_right();
    st.cursor_right();
    let f = st.render_frame();
    assert_eq!(f.rows.len(), 1);
    assert_eq!(f.rows[0].text, chars("abcdef"));
    assert_eq!(f.rows[0].highlight, Some((1, 4)));
    assert_eq!((f.cursor_x, f.cursor_y), (3, 0));
    assert_eq!(f.mode, Mode::Visual);
}

#[test]
fn visual_highlight_is_direction_independent() {
    // anchor right of cursor: select from (0,3) back to (0,1)
    let mut st = EditorState::new(buffer(&["abcdef"]), Term::new(80, 24), Config::init());
    st.normal_mode();
    for _ in 0..3 {
        st.cursor_right();
    }
    st.wrangle_cursor();
    st.visual_mode();
    st.cursor_left();
    st.cursor_left();
    let f = st.render_frame();
    assert_eq!(f.rows[0].highlight, Some((1, 4)));
}

#[test]
fn visual_highlight_multi_row() {
    let mut st = EditorState::new(buffer(&["abc", "defg", "hij"]), Term::new(80, 24), Config::init());
    st.normal_mode();
    st.cursor_right();
    st.wrangle_cursor();
    st.visual_mode();
    st.cursor_down();
    st.cursor_down();
    let f = st.render_frame();
    // first row: from the anchor column to the end of the line
    assert_eq!(f.rows[0].highlight, Some((1, 3)));
    // middle row: the whole line
    assert_eq!(f.rows[1].highlight, Some((0, 4)));
    // last row: from the start up to and including the cursor column
    assert_eq!(f.rows[2].highlight, Some((0, 2)));
}

#[test]
fn no_highlight_outside_visual_mode() {
    let mut st = EditorState::new(buffer(&["abc"]), Term::new(80, 24), Config::init());
    st.normal_mode();
    let f = st.render_frame();
    assert_eq!(f.rows[0].highlight, None);
    assert_eq!(f.mode, Mode::Normal);
}

#[test]
fn no_highlight_while_cursor_sits_on_anchor() {
    let mut st = EditorState::new(buffer(&["abc"]), Term::new(80, 24), Config::init());
    st.normal_mode();
    st.visual_mode();
    let f = st.render_frame();
    assert_eq!(f.rows[0].highlight, None);
}

#[test]
fn frame_crops_lines_to_viewport() {
    let mut st = EditorState::new(buffer(&["abcdef"]), Term::new(3, 2), Config::init());
    for _ in 0..5 {
        st.cursor_right();
    }
    let f = st.render_frame();
    assert_eq!(st.scroll(), (3, 0));
    assert_eq!(f.rows[0].text, chars("def"));
    assert_eq!((f.cursor_x, f.cursor_y), (2, 0));
}

#[test]
fn line_shorter_than_x_offset_renders_empty() {
    let mut st = EditorState::new(buffer(&["abcdefgh", "ab"]), Term::new(3, 5), Config::init());
    for _ in 0..7 {
        st.cursor_right();
    }
    let f = st.render_frame();
    assert_eq!(st.scroll(), (5, 0));
    assert_eq!(f.rows[1].text, chars(""));
}

#[test]
fn frame_shows_only_visible_rows() {
    let lines: Vec<&str> = vec!["x"; 10];
    let mut st = EditorState::new(buffer(&lines), Term::new(5, 3), Config::init());
    for _ in 0..9 {
        st.cursor_down();
    }
    let f = st.render_frame();
    assert_eq!(st.scroll(), (0, 7));
    assert_eq!(f.rows.len(), 3);
    assert_eq!((f.cursor_x, f.cursor_y), (0, 2));
}

#[test]
fn frame_mode_follows_state() {
    let mut st = EditorState::new(buffer(&["x"]), Term::new(5, 5), Config::init());
    let f = st.render_frame();
    assert_eq!(f.mode, Mode::Insert);
    process_key_event(KeyInput::new(Key::Esc, false), &mut st);
    let f = st.render_frame();
    assert_eq!(f.mode, Mode::Normal);
}

#[test]
fn mode_names() {
    assert_eq!(Mode::Insert.get_name(), "Insert");
    assert_eq!(Mode::Normal.get_name(), "Normal");
    assert_eq!(Mode::Visual.get_name(), "Visual");
}

#[test]
fn highlight_is_clipped_to_the_cropped_row() {
    // viewport 4 columns wide, scrolled so that only part of the selection
    // is visible
    let mut st = EditorState::new(buffer(&["abcdefghij"]), Term::new(4, 2), Config::init());
    st.normal_mode();
    st.cursor_right();
    st.wrangle_cursor();
    st.visual_mode();
    for _ in 0..7 {
        st.cursor_right();
    }
    let f = st.render_frame();
    // cursor at column 8, viewport shows columns [5, 9)
    assert_eq!(st.scroll(), (5, 0));
    assert_eq!(f.rows[0].text, chars("fghi"));
    // anchor column 1 is off screen; the span starts at the left edge and
    // runs through the cursor column
    assert_eq!(f.rows[0].highlight, Some((0, 4)));
    assert_eq!(f.cursor_x, 3);
}

#[test]
fn highlight_of_rows_outside_selection_is_empty() {
    let mut st = EditorState::new(buffer(&["aa", "bb", "cc"]), Term::new(10, 10), Config::init());
    st.normal_mode();
    st.cursor_down();
    st.wrangle_cursor();
    st.visual_mode();
    st.cursor_right();
    let f = st.render_frame();
    assert_eq!(f.rows[0].highlight, None);
    assert_eq!(f.rows[1].highlight, Some((0, 2)));
    assert_eq!(f.rows[2].highlight, None);
}
