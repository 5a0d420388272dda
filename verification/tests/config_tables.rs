use vir::actions::InsertAction;
use vir::actions::NormalAction;
use vir::actions::VisualAction;
use vir::config::Config;
use vir::config::ConfigValue;
use vir::editor::EditorState;
use vir::editor::Position;
use vir::editor::TextObject;
use vir::term::Term;

fn chars(s: &str) -> Vec<char> {
    s.chars().collect()
}

#[test]
fn default_insert_bindings() {
    let c = Config::init();
    assert_eq!(c.insert("delete"), Some(InsertAction::DelForw));
    assert_eq!(c.insert("backspace"), Some(InsertAction::DelBack));
    assert_eq!(c.insert("enter"), Some(InsertAction::NewLine));
    assert_eq!(c.insert("tab"), Some(InsertAction::Indent));
    assert_eq!(c.insert("esc"), Some(InsertAction::NormalMode));
    assert_eq!(c.insert("left"), Some(InsertAction::Left));
    assert_eq!(c.insert("nosuch"), None);
}

#[test]
fn default_normal_bindings() {
    let c = Config::init();
    assert_eq!(c.normal("r"), Some(NormalAction::ReplaceChar));
    assert_eq!(c.normal("d"), Some(NormalAction::Delete));
    assert_eq!(c.normal("x"), Some(NormalAction::DeleteChar));
    assert_eq!(c.normal("c"), Some(NormalAction::Change));
    assert_eq!(c.normal("y"), Some(NormalAction::Yank));
    assert_eq!(c.normal("^"), Some(NormalAction::LineStart));
    assert_eq!(c.normal("$"), Some(NormalAction::LineEnd));
    assert_eq!(c.normal("u"), Some(NormalAction::InsertMode));
    assert_eq!(c.normal("v"), Some(NormalAction::VisualMode));
    assert_eq!(c.normal("q"), Some(NormalAction::Exit));
    assert_eq!(c.normal("e"), Some(NormalAction::Up));
    assert_eq!(c.normal("n"), Some(NormalAction::Down));
    assert_eq!(c.normal("m"), Some(NormalAction::Left));
    assert_eq!(c.normal("i"), Some(NormalAction::Right));
}

#[test]
fn default_visual_and_object_bindings() {
    let c = Config::init();
    assert_eq!(c.visual("d"), Some(VisualAction::Delete));
    assert_eq!(c.visual("esc"), Some(VisualAction::NormalMode));
    assert_eq!(c.textobject("w"), Some(TextObject::Word(Position::new(0, 0), 0)));
    assert_eq!(c.textobject("V"), Some(TextObject::Line(0)));
    assert_eq!(c.textobject("$"), Some(TextObject::LineEnd(Position::new(0, 0), 0)));
    assert_eq!(c.textobject("i"), Some(TextObject::Char(Position::new(0, 0))));
    assert_eq!(c.textobject("esc"), Some(TextObject::CancelOp));
}

#[test]
fn default_options() {
    let c = Config::init();
    assert_eq!(c.option("tabstop"), 4);
    assert_eq!(c.tabstop(), 4);
}

#[test]
fn overrides_rebind_names() {
    let tab = vec![
        (String::from("delete"), ConfigValue::Text(String::from("z"))),
        (String::from("tabstop"), ConfigValue::Int(2)),
    ];
    let c = Config::init_with(&tab);
    assert_eq!(c.normal("z"), Some(NormalAction::Delete));
    assert_eq!(c.normal("d"), None);
    assert_eq!(c.tabstop(), 2);
}

#[test]
fn override_of_the_wrong_kind_falls_back() {
    let tab = vec![
        (String::from("delete"), ConfigValue::Int(9)),
        (String::from("tabstop"), ConfigValue::Text(String::from("8"))),
    ];
    let c = Config::init_with(&tab);
    assert_eq!(c.normal("d"), Some(NormalAction::Delete));
    assert_eq!(c.tabstop(), 4);
}

#[test]
fn later_override_wins() {
    let tab = vec![
        (String::from("delete"), ConfigValue::Text(String::from("z"))),
        (String::from("delete"), ConfigValue::Text(String::from("k"))),
    ];
    let c = Config::init_with(&tab);
    assert_eq!(c.normal("k"), Some(NormalAction::Delete));
    assert_eq!(c.normal("z"), None);
}

#[test]
fn word_scan_stops_at_break_characters() {
    let st = EditorState::new(
        vec![chars("foo.bar baz")],
        Term::new(80, 24),
        Config::init(),
    );
    assert_eq!(
        st.get_word_textobject(Position::new(0, 0)),
        TextObject::Word(Position::new(0, 0), 3)
    );
    assert_eq!(
        st.get_word_textobject(Position::new(0, 4)),
        TextObject::Word(Position::new(0, 4), 3)
    );
    // on a break character the run is empty
    assert_eq!(
        st.get_word_textobject(Position::new(0, 3)),
        TextObject::Word(Position::new(0, 3), 0)
    );
}

#[test]
fn word_scan_takes_rest_of_line_without_breaks() {
    let st = EditorState::new(vec![chars("plainword")], Term::new(80, 24), Config::init());
    assert_eq!(
        st.get_word_textobject(Position::new(0, 2)),
        TextObject::Word(Position::new(0, 2), 7)
    );
}

#[test]
fn custom_word_break_set() {
    let tab = vec![(String::from("wordchars"), ConfigValue::Text(String::from("|")))];
    let c = Config::init_with(&tab);
    let st = EditorState::new(vec![chars("a.b|c")], Term::new(80, 24), c);
    assert_eq!(
        st.get_word_textobject(Position::new(0, 0)),
        TextObject::Word(Position::new(0, 0), 3)
    );
}

#[test]
fn lineend_object_counts_remaining_characters() {
    let st = EditorState::new(vec![chars("abcdef")], Term::new(80, 24), Config::init());
    assert_eq!(
        st.get_lineend_textobject(Position::new(0, 2)),
        TextObject::LineEnd(Position::new(0, 2), 4)
    );
}
