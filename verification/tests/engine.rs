use vir::actions::EditorAction;
use vir::config::Config;
use vir::editor::EditorState;
use vir::editor::Position;
use vir::editor::TextObject;
use vir::keys::Key;
use vir::keys::KeyInput;
use vir::modes::Mode;
use vir::modes::Pending;
use vir::modes::process_key_event;
use vir::term::Term;

fn chars(s: &str) -> Vec<char> {
    s.chars().collect()
}

fn buffer(lines: &[&str]) -> Vec<Vec<char>> {
    lines.iter().map(|l| chars(l)).collect()
}

fn state_of(lines: &[&str]) -> EditorState {
    EditorState::new(buffer(lines), Term::new(80, 24), Config::init())
}

fn press(st: &mut EditorState, k: Key) -> EditorAction {
    let a = process_key_event(KeyInput::new(k, false), st);
    st.wrangle_cursor();
    a
}

// Scenario: normal-mode DeleteChar on ["abc", "bcdef"] at (0,1) removes
// exactly one character and leaves the cursor where it was.
#[test]
fn normal_delete_char_scenario() {
    let mut st = state_of(&["abc", "bcdef"]);
    st.normal_mode();
    st.cursor_right();
    st.wrangle_cursor();
    let a = press(&mut st, Key::Char('x'));
    assert_eq!(a, EditorAction::Nop);
    assert_eq!(*st.get_line(0), chars("ac"));
    assert_eq!(*st.get_line(1), chars("bcdef"));
    assert_eq!(st.cursor().pos(), Position::new(0, 1));
}

// Scenario: insert-mode enter key at the end of ["abc"].
#[test]
fn insert_enter_scenario() {
    let mut st = state_of(&["abc"]);
    st.line_end();
    press(&mut st, Key::Enter);
    assert_eq!(st.line_count(), 2);
    assert_eq!(*st.get_line(0), chars("abc"));
    assert_eq!(*st.get_line(1), chars(""));
    assert_eq!(st.cursor().pos(), Position::new(1, 0));
}

// Scenario: normal-mode Delete then the word key deletes the run of word
// characters under the cursor.
#[test]
fn delete_word_scenario() {
    let mut st = state_of(&["hello world"]);
    st.normal_mode();
    let t = st.get_word_textobject(Position::new(0, 0));
    assert_eq!(t, TextObject::Word(Position::new(0, 0), 5));
    press(&mut st, Key::Char('d'));
    assert_eq!(st.pending_state() == Pending::Idle, false);
    press(&mut st, Key::Char('w'));
    assert_eq!(st.line_count(), 1);
    assert_eq!(*st.get_line(0), chars(" world"));
    assert_eq!(st.pending_state(), Pending::Idle);
}

#[test]
fn typing_inserts_characters() {
    let mut st = state_of(&["ab"]);
    st.cursor_right();
    st.wrangle_cursor();
    press(&mut st, Key::Char('X'));
    assert_eq!(*st.get_line(0), chars("aXb"));
    assert_eq!(st.cursor().pos(), Position::new(0, 2));
}

#[test]
fn insert_backspace_mid_line() {
    let mut st = state_of(&["abc"]);
    st.cursor_right();
    st.cursor_right();
    st.wrangle_cursor();
    press(&mut st, Key::Backspace);
    assert_eq!(*st.get_line(0), chars("ac"));
    assert_eq!(st.cursor().pos(), Position::new(0, 1));
}

#[test]
fn insert_backspace_at_column_zero_joins_previous_line() {
    let mut st = state_of(&["ab", "cd"]);
    st.cursor_down();
    st.wrangle_cursor();
    press(&mut st, Key::Backspace);
    assert_eq!(st.line_count(), 1);
    assert_eq!(*st.get_line(0), chars("abcd"));
    assert_eq!(st.cursor().pos(), Position::new(0, 2));
}

#[test]
fn insert_backspace_at_origin_does_nothing() {
    let mut st = state_of(&["ab"]);
    press(&mut st, Key::Backspace);
    assert_eq!(*st.get_line(0), chars("ab"));
    assert_eq!(st.cursor().pos(), Position::new(0, 0));
}

#[test]
fn insert_forward_delete() {
    let mut st = state_of(&["abc"]);
    st.cursor_right();
    st.wrangle_cursor();
    press(&mut st, Key::Delete);
    assert_eq!(*st.get_line(0), chars("ac"));
    assert_eq!(st.cursor().pos(), Position::new(0, 1));
}

#[test]
fn insert_forward_delete_at_line_end_is_a_no_op() {
    let mut st = state_of(&["abc"]);
    st.line_end();
    st.wrangle_cursor();
    press(&mut st, Key::Delete);
    assert_eq!(*st.get_line(0), chars("abc"));
}

#[test]
fn insert_tab_indents_by_tabstop() {
    let mut st = state_of(&["ab"]);
    press(&mut st, Key::Tab);
    assert_eq!(*st.get_line(0), chars("    ab"));
    assert_eq!(st.cursor().pos(), Position::new(0, 4));
}

#[test]
fn esc_leaves_insert_mode_and_u_comes_back() {
    let mut st = state_of(&["ab"]);
    press(&mut st, Key::Esc);
    assert_eq!(*st.mode(), Mode::Normal);
    press(&mut st, Key::Char('u'));
    assert_eq!(*st.mode(), Mode::Insert);
}

#[test]
fn operator_key_twice_takes_the_whole_line() {
    let mut st = state_of(&["one", "two"]);
    st.normal_mode();
    press(&mut st, Key::Char('d'));
    press(&mut st, Key::Char('d'));
    assert_eq!(st.line_count(), 1);
    assert_eq!(*st.get_line(0), chars("two"));
}

#[test]
fn operator_line_on_only_line_clears_it() {
    let mut st = state_of(&["only"]);
    st.normal_mode();
    press(&mut st, Key::Char('d'));
    press(&mut st, Key::Char('d'));
    assert_eq!(st.line_count(), 1);
    assert_eq!(*st.get_line(0), chars(""));
}

#[test]
fn delete_to_line_end() {
    let mut st = state_of(&["hello world"]);
    st.normal_mode();
    for _ in 0..6 {
        st.cursor_right();
    }
    st.wrangle_cursor();
    press(&mut st, Key::Char('d'));
    press(&mut st, Key::Char('$'));
    assert_eq!(*st.get_line(0), chars("hello "));
}

#[test]
fn unbound_key_aborts_pending_operator() {
    let mut st = state_of(&["abc"]);
    st.normal_mode();
    press(&mut st, Key::Char('d'));
    press(&mut st, Key::Char('z'));
    assert_eq!(st.pending_state(), Pending::Idle);
    assert_eq!(*st.get_line(0), chars("abc"));
}

#[test]
fn esc_cancels_pending_operator() {
    let mut st = state_of(&["abc"]);
    st.normal_mode();
    press(&mut st, Key::Char('c'));
    press(&mut st, Key::Esc);
    assert_eq!(st.pending_state(), Pending::Idle);
    assert_eq!(*st.get_line(0), chars("abc"));
    assert_eq!(*st.mode(), Mode::Normal);
}

#[test]
fn change_word_deletes_and_enters_insert_mode() {
    let mut st = state_of(&["hello world"]);
    st.normal_mode();
    press(&mut st, Key::Char('c'));
    press(&mut st, Key::Char('w'));
    assert_eq!(*st.get_line(0), chars(" world"));
    assert_eq!(*st.mode(), Mode::Insert);
}

#[test]
fn yank_word_through_keys() {
    let mut st = state_of(&["hello world"]);
    st.normal_mode();
    press(&mut st, Key::Char('y'));
    press(&mut st, Key::Char('w'));
    assert_eq!(*st.get_line(0), chars("hello world"));
    assert_eq!(st.register().len(), 1);
    assert_eq!(st.register()[0], chars("hello"));
}

#[test]
fn replace_char_via_pending_wait() {
    let mut st = state_of(&["abc"]);
    st.normal_mode();
    st.cursor_right();
    st.wrangle_cursor();
    press(&mut st, Key::Char('r'));
    assert_eq!(st.pending_state(), Pending::AwaitChar);
    press(&mut st, Key::Char('z'));
    assert_eq!(*st.get_line(0), chars("azc"));
    assert_eq!(st.pending_state(), Pending::Idle);
}

#[test]
fn replace_wait_ignores_non_character_keys() {
    let mut st = state_of(&["abc"]);
    st.normal_mode();
    press(&mut st, Key::Char('r'));
    press(&mut st, Key::Left);
    assert_eq!(st.pending_state(), Pending::AwaitChar);
    press(&mut st, Key::Char('q'));
    assert_eq!(*st.get_line(0), chars("qbc"));
}

#[test]
fn visual_selection_delete_is_inclusive() {
    let mut st = state_of(&["abcdef"]);
    st.normal_mode();
    st.cursor_right();
    st.wrangle_cursor();
    press(&mut st, Key::Char('v'));
    assert_eq!(*st.mode(), Mode::Visual);
    press(&mut st, Key::Char('i'));
    press(&mut st, Key::Char('i'));
    assert_eq!(st.cursor().pos(), Position::new(0, 3));
    press(&mut st, Key::Char('d'));
    assert_eq!(*st.get_line(0), chars("aef"));
    assert_eq!(*st.mode(), Mode::Normal);
}

#[test]
fn visual_change_returns_to_insert() {
    let mut st = state_of(&["abcdef"]);
    st.normal_mode();
    press(&mut st, Key::Char('v'));
    press(&mut st, Key::Char('i'));
    press(&mut st, Key::Char('c'));
    assert_eq!(*st.get_line(0), chars("cdef"));
    assert_eq!(*st.mode(), Mode::Insert);
}

#[test]
fn visual_yank_copies_inclusive_selection() {
    let mut st = state_of(&["abcdef"]);
    st.normal_mode();
    st.cursor_right();
    st.wrangle_cursor();
    press(&mut st, Key::Char('v'));
    press(&mut st, Key::Char('i'));
    press(&mut st, Key::Char('i'));
    press(&mut st, Key::Char('y'));
    assert_eq!(*st.get_line(0), chars("abcdef"));
    assert_eq!(st.register().len(), 1);
    assert_eq!(st.register()[0], chars("bcd"));
    assert_eq!(*st.mode(), Mode::Normal);
}

#[test]
fn control_c_exits_from_any_mode() {
    let mut st = state_of(&["ab"]);
    assert_eq!(process_key_event(KeyInput::new(Key::Char('c'), true), &mut st), EditorAction::Exit);
    st.normal_mode();
    assert_eq!(process_key_event(KeyInput::new(Key::Char('c'), true), &mut st), EditorAction::Exit);
}

#[test]
fn control_c_preempts_a_pending_wait() {
    let mut st = state_of(&["ab"]);
    st.normal_mode();
    press(&mut st, Key::Char('d'));
    assert_eq!(process_key_event(KeyInput::new(Key::Char('c'), true), &mut st), EditorAction::Exit);
}

#[test]
fn control_s_saves_and_stays() {
    let mut st = state_of(&["ab"]);
    assert_eq!(process_key_event(KeyInput::new(Key::Char('s'), true), &mut st), EditorAction::Save);
    assert_eq!(*st.mode(), Mode::Insert);
    assert_eq!(*st.get_line(0), chars("ab"));
}

#[test]
fn other_control_keys_do_nothing() {
    let mut st = state_of(&["ab"]);
    assert_eq!(process_key_event(KeyInput::new(Key::Char('x'), true), &mut st), EditorAction::Nop);
    assert_eq!(*st.get_line(0), chars("ab"));
}

#[test]
fn q_exits_normal_and_visual_mode() {
    let mut st = state_of(&["ab"]);
    st.normal_mode();
    assert_eq!(press(&mut st, Key::Char('q')), EditorAction::Exit);
    press(&mut st, Key::Char('v'));
    assert_eq!(press(&mut st, Key::Char('q')), EditorAction::Exit);
}

#[test]
fn unbound_normal_key_is_silent() {
    let mut st = state_of(&["ab"]);
    st.normal_mode();
    assert_eq!(press(&mut st, Key::Char('z')), EditorAction::Nop);
    assert_eq!(*st.get_line(0), chars("ab"));
}

#[test]
fn normal_mode_motions() {
    let mut st = state_of(&["abcd", "efgh"]);
    st.normal_mode();
    press(&mut st, Key::Char('i'));
    press(&mut st, Key::Char('n'));
    assert_eq!(st.cursor().pos(), Position::new(1, 1));
    press(&mut st, Key::Char('m'));
    press(&mut st, Key::Char('e'));
    assert_eq!(st.cursor().pos(), Position::new(0, 0));
    press(&mut st, Key::Char('$'));
    assert_eq!(st.cursor().pos(), Position::new(0, 3));
    press(&mut st, Key::Char('^'));
    assert_eq!(st.cursor().pos(), Position::new(0, 0));
}

#[test]
fn delete_char_on_empty_line_is_a_no_op() {
    let mut st = state_of(&[""]);
    st.normal_mode();
    press(&mut st, Key::Char('x'));
    assert_eq!(st.line_count(), 1);
    assert_eq!(*st.get_line(0), chars(""));
}

#[test]
fn typing_at_the_append_position_extends_the_line() {
    let mut st = state_of(&["ab"]);
    st.line_end();
    st.wrangle_cursor();
    press(&mut st, Key::Char('c'));
    assert_eq!(*st.get_line(0), chars("abc"));
    assert_eq!(st.cursor().pos(), Position::new(0, 3));
}

#[test]
fn visual_delete_on_empty_line_changes_nothing() {
    let mut st = state_of(&[""]);
    st.normal_mode();
    press(&mut st, Key::Char('v'));
    press(&mut st, Key::Char('d'));
    assert_eq!(st.line_count(), 1);
    assert_eq!(*st.get_line(0), chars(""));
}

#[test]
fn word_delete_on_a_break_character_removes_nothing() {
    let mut st = state_of(&[".abc"]);
    st.normal_mode();
    press(&mut st, Key::Char('d'));
    press(&mut st, Key::Char('w'));
    assert_eq!(*st.get_line(0), chars(".abc"));
}
