//! The resolved key-binding tables and numeric options, one table per mode
//! plus the text-object table for the pending-operator resolver. The tables
//! are built from built-in defaults, each overridable by an entry of a plain
//! name-to-value table that the caller has already read from wherever its
//! configuration lives. A binding name that occurs twice counts by its last
//! occurrence.

use vstd::prelude::*;
use vstd::pervasive::unreached;
use crate::actions::InsertAction;
use crate::actions::NormalAction;
use crate::actions::VisualAction;
use crate::editor::Position;
use crate::editor::TextObject;
use crate::keys::Key;
use crate::keys::key_name_spec;
use crate::keys::name_matches_key;
use crate::keys::str_eq;

verus! {

/// A raw configuration value: a piece of text or an integer.
pub enum ConfigValue {
    Text(String),
    Int(i64),
}

/// The mathematical shape of a raw configuration value.
pub enum ConfigValueModel {
    Text(Seq<char>),
    Int(i64),
}

pub open spec fn cv_model(v: ConfigValue) -> ConfigValueModel {
    match v {
        ConfigValue::Text(s) => ConfigValueModel::Text(s@),
        ConfigValue::Int(n) => ConfigValueModel::Int(n),
    }
}

/// An association list of string-named entries, as the contracts see it.
pub open spec fn entries_model<A>(s: Seq<(String, A)>) -> Seq<(Seq<char>, A)> {
    s.map_values(|p: (String, A)| (p.0@, p.1))
}

pub open spec fn tab_model(s: Seq<(String, ConfigValue)>) -> Seq<(Seq<char>, ConfigValueModel)> {
    s.map_values(|p: (String, ConfigValue)| (p.0@, cv_model(p.1)))
}

/// Look a name up in an association list; the last entry with that name
/// wins, as it would in a map filled front to back.
pub open spec fn assoc<A>(entries: Seq<(Seq<char>, A)>, key: Seq<char>) -> Option<A>
    decreases entries.len(),
{
    if entries.len() == 0 {
        None
    } else if entries.last().0 == key {
        Some(entries.last().1)
    } else {
        assoc(entries.drop_last(), key)
    }
}

/// The binding name an action ends up under: the text override stored for
/// `name`, if there is one, else the built-in default.
pub open spec fn key_for(
    tab: Seq<(Seq<char>, ConfigValueModel)>,
    name: Seq<char>,
    default: Seq<char>,
) -> Seq<char> {
    match assoc(tab, name) {
        Some(ConfigValueModel::Text(s)) => s,
        _ => default,
    }
}

/// The integer option stored for `name`, if there is one, else `default`.
pub open spec fn int_for(
    tab: Seq<(Seq<char>, ConfigValueModel)>,
    name: Seq<char>,
    default: i64,
) -> i64 {
    match assoc(tab, name) {
        Some(ConfigValueModel::Int(n)) => n,
        _ => default,
    }
}

/// The default word-break set: a run of word characters ends at the first
/// character found in this sequence (whitespace included).
pub open spec fn default_breaks_spec() -> Seq<char> {
    " *?_-.[]~=&;!#$%^(){}<>"@
}

fn default_breaks() -> (s: &'static str)
    ensures
        s@ == default_breaks_spec(),
{
    " *?_-.[]~=&;!#$%^(){}<>"
}

/// The key-binding state the contracts speak of.
#[verifier::ext_equal]
pub struct ConfigModel {
    pub insert: Seq<(Seq<char>, InsertAction)>,
    pub normal: Seq<(Seq<char>, NormalAction)>,
    pub visual: Seq<(Seq<char>, VisualAction)>,
    pub textobjects: Seq<(Seq<char>, TextObject)>,
    pub options: Seq<(Seq<char>, i64)>,
    pub word_breaks: Seq<char>,
}

/// What `Config::init_with` builds from an override table `t`: every mode's
/// table with its built-in names, each name replaced by the text override of
/// the same option name where one exists.
pub open spec fn config_from(t: Seq<(Seq<char>, ConfigValueModel)>) -> ConfigModel {
    ConfigModel {
        insert: seq![
            (key_for(t, "delforw"@, "delete"@), InsertAction::DelForw),
            (key_for(t, "delback"@, "backspace"@), InsertAction::DelBack),
            (key_for(t, "newline"@, "enter"@), InsertAction::NewLine),
            (key_for(t, "indent"@, "tab"@), InsertAction::Indent),
            (key_for(t, "normalmode"@, "esc"@), InsertAction::NormalMode),
            (key_for(t, "up"@, "up"@), InsertAction::Up),
            (key_for(t, "down"@, "down"@), InsertAction::Down),
            (key_for(t, "left"@, "left"@), InsertAction::Left),
            (key_for(t, "right"@, "right"@), InsertAction::Right),
        ],
        normal: seq![
            (key_for(t, "replacechar"@, "r"@), NormalAction::ReplaceChar),
            (key_for(t, "delete"@, "d"@), NormalAction::Delete),
            (key_for(t, "deletechar"@, "x"@), NormalAction::DeleteChar),
            (key_for(t, "change"@, "c"@), NormalAction::Change),
            (key_for(t, "yank"@, "y"@), NormalAction::Yank),
            (key_for(t, "linestart"@, "^"@), NormalAction::LineStart),
            (key_for(t, "lineend"@, "$"@), NormalAction::LineEnd),
            (key_for(t, "insertmode"@, "u"@), NormalAction::InsertMode),
            (key_for(t, "visualmode"@, "v"@), NormalAction::VisualMode),
            (key_for(t, "exit"@, "q"@), NormalAction::Exit),
            (key_for(t, "up"@, "e"@), NormalAction::Up),
            (key_for(t, "down"@, "n"@), NormalAction::Down),
            (key_for(t, "left"@, "m"@), NormalAction::Left),
            (key_for(t, "right"@, "i"@), NormalAction::Right),
        ],
        visual: seq![
            (key_for(t, "replacechar"@, "r"@), VisualAction::ReplaceChar),
            (key_for(t, "delete"@, "d"@), VisualAction::Delete),
            (key_for(t, "deletechar"@, "x"@), VisualAction::DeleteChar),
            (key_for(t, "change"@, "c"@), VisualAction::Change),
            (key_for(t, "yank"@, "y"@), VisualAction::Yank),
            (key_for(t, "linestart"@, "^"@), VisualAction::LineStart),
            (key_for(t, "lineend"@, "$"@), VisualAction::LineEnd),
            (key_for(t, "up"@, "e"@), VisualAction::Up),
            (key_for(t, "down"@, "n"@), VisualAction::Down),
            (key_for(t, "left"@, "m"@), VisualAction::Left),
            (key_for(t, "right"@, "i"@), VisualAction::Right),
            (key_for(t, "normalmode"@, "esc"@), VisualAction::NormalMode),
            (key_for(t, "exit"@, "q"@), VisualAction::Exit),
        ],
        textobjects: seq![
            (key_for(t, "char"@, "i"@), TextObject::Char(Position { lnum: 0, index: 0 })),
            (key_for(t, "line"@, "V"@), TextObject::Line(0)),
            (key_for(t, "word"@, "w"@), TextObject::Word(Position { lnum: 0, index: 0 }, 0)),
            (
                key_for(t, "lineend"@, "$"@),
                TextObject::LineEnd(Position { lnum: 0, index: 0 }, 0),
            ),
            (key_for(t, "cancelop"@, "esc"@), TextObject::CancelOp),
        ],
        options: seq![("tabstop"@, int_for(t, "tabstop"@, 4))],
        word_breaks: key_for(t, "wordchars"@, default_breaks_spec()),
    }
}

/// The tab-stop width the tables carry, falling back to 4 where the option
/// is absent.
pub open spec fn tabstop_spec(c: ConfigModel) -> i64 {
    match assoc(c.options, "tabstop"@) {
        Some(n) => n,
        _ => 4,
    }
}

// ---------------------------------------------------------------------------
// Executable lookups
// ---------------------------------------------------------------------------

/// Scan an association list for `key`, last entry first.
fn assoc_lookup<A: Copy>(entries: &Vec<(String, A)>, key: &str) -> (r: Option<A>)
    ensures
        r == assoc(entries_model(entries@), key@),
{
    let ghost m = entries_model(entries@);
    let mut i: usize = entries.len();
    proof {
        assert(m.take(i as int) =~= m);
    }
    while i > 0
        invariant
            i <= entries@.len(),
            m == entries_model(entries@),
            m.len() == entries@.len(),
            assoc(m, key@) == assoc(m.take(i as int), key@),
        decreases i,
    {
        i = i - 1;
        let hit = str_eq(entries[i].0.as_str(), key);
        proof {
            assert(m.take(i as int + 1).last() == m[i as int]);
            assert(m.take(i as int + 1).drop_last() =~= m.take(i as int));
        }
        if hit {
            return Some(entries[i].1);
        }
    }
    proof {
        assert(m.take(0) =~= Seq::<(Seq<char>, A)>::empty());
    }
    None
}

/// Scan an association list for the binding name of key `k`.
fn assoc_lookup_by_key<A: Copy>(entries: &Vec<(String, A)>, k: Key) -> (r: Option<A>)
    ensures
        r == assoc(entries_model(entries@), key_name_spec(k)),
{
    let ghost m = entries_model(entries@);
    let mut i: usize = entries.len();
    proof {
        assert(m.take(i as int) =~= m);
    }
    while i > 0
        invariant
            i <= entries@.len(),
            m == entries_model(entries@),
            m.len() == entries@.len(),
            assoc(m, key_name_spec(k)) == assoc(m.take(i as int), key_name_spec(k)),
        decreases i,
    {
        i = i - 1;
        let hit = name_matches_key(entries[i].0.as_str(), k);
        proof {
            assert(m.take(i as int + 1).last() == m[i as int]);
            assert(m.take(i as int + 1).drop_last() =~= m.take(i as int));
        }
        if hit {
            return Some(entries[i].1);
        }
    }
    proof {
        assert(m.take(0) =~= Seq::<(Seq<char>, A)>::empty());
    }
    None
}

/// The text override stored under `name`, else `default`, as an owned string.
fn key_for_exec(tab: &Vec<(String, ConfigValue)>, name: &str, default: &str) -> (r: String)
    ensures
        r@ == key_for(tab_model(tab@), name@, default@),
{
    let ghost m = tab_model(tab@);
    let mut i: usize = tab.len();
    proof {
        assert(m.take(i as int) =~= m);
    }
    while i > 0
        invariant
            i <= tab@.len(),
            m == tab_model(tab@),
            m.len() == tab@.len(),
            assoc(m, name@) == assoc(m.take(i as int), name@),
        decreases i,
    {
        i = i - 1;
        let hit = str_eq(tab[i].0.as_str(), name);
        proof {
            assert(m.take(i as int + 1).last() == m[i as int]);
            assert(m.take(i as int + 1).drop_last() =~= m.take(i as int));
        }
        if hit {
            match &tab[i].1 {
                ConfigValue::Text(s) => {
                    return s.clone();
                },
                ConfigValue::Int(_) => {
                    return String::from_str(default);
                },
            }
        }
    }
    proof {
        assert(m.take(0) =~= Seq::<(Seq<char>, ConfigValueModel)>::empty());
    }
    String::from_str(default)
}

/// The integer override stored under `name`, else `default`.
fn int_for_exec(tab: &Vec<(String, ConfigValue)>, name: &str, default: i64) -> (r: i64)
    ensures
        r == int_for(tab_model(tab@), name@, default),
{
    let ghost m = tab_model(tab@);
    let mut i: usize = tab.len();
    proof {
        assert(m.take(i as int) =~= m);
    }
    while i > 0
        invariant
            i <= tab@.len(),
            m == tab_model(tab@),
            m.len() == tab@.len(),
            assoc(m, name@) == assoc(m.take(i as int), name@),
        decreases i,
    {
        i = i - 1;
        let hit = str_eq(tab[i].0.as_str(), name);
        proof {
            assert(m.take(i as int + 1).last() == m[i as int]);
            assert(m.take(i as int + 1).drop_last() =~= m.take(i as int));
        }
        if hit {
            match &tab[i].1 {
                ConfigValue::Int(n) => {
                    return *n;
                },
                ConfigValue::Text(_) => {
                    return default;
                },
            }
        }
    }
    proof {
        assert(m.take(0) =~= Seq::<(Seq<char>, ConfigValueModel)>::empty());
    }
    default
}

/// The characters of a string slice, as an owned vector.
fn str_chars(s: &str) -> (v: Vec<char>)
    ensures
        v@ == s@,
{
    let n = s.unicode_len();
    let mut v: Vec<char> = Vec::new();
    let mut i: usize = 0;
    while i < n
        invariant
            i <= n,
            n == s@.len(),
            v@ == s@.subrange(0, i as int),
        decreases n - i,
    {
        v.push(s.get_char(i));
        i += 1;
    }
    proof {
        assert(s@.subrange(0, n as int) =~= s@);
    }
    v
}

// ---------------------------------------------------------------------------
// The configuration itself
// ---------------------------------------------------------------------------

pub struct Config {
    insert: Vec<(String, InsertAction)>,
    normal: Vec<(String, NormalAction)>,
    visual: Vec<(String, VisualAction)>,
    textobjects: Vec<(String, TextObject)>,
    options: Vec<(String, i64)>,
    word_breaks: Vec<char>,
}

impl View for Config {
    type V = ConfigModel;

    closed spec fn view(&self) -> ConfigModel {
        ConfigModel {
            insert: entries_model(self.insert@),
            normal: entries_model(self.normal@),
            visual: entries_model(self.visual@),
            textobjects: entries_model(self.textobjects@),
            options: entries_model(self.options@),
            word_breaks: self.word_breaks@,
        }
    }
}

impl Config {
    /// Build the tables from built-in defaults alone.
    pub fn init() -> (c: Config)
        ensures
            c@ == config_from(Seq::<(Seq<char>, ConfigValueModel)>::empty()),
    {
        let empty: Vec<(String, ConfigValue)> = Vec::new();
        let c = Config::init_with(&empty);
        proof {
            assert(tab_model(empty@) =~= Seq::<(Seq<char>, ConfigValueModel)>::empty());
        }
        c
    }

    /// Build the tables from built-in defaults, overridden entry by entry
    /// from the given name-to-value table.
    pub fn init_with(tab: &Vec<(String, ConfigValue)>) -> (c: Config)
        ensures
            c@ == config_from(tab_model(tab@)),
    {
        let ghost t = tab_model(tab@);

        let mut insert: Vec<(String, InsertAction)> = Vec::new();
        insert.push((key_for_exec(tab, "delforw", "delete"), InsertAction::DelForw));
        insert.push((key_for_exec(tab, "delback", "backspace"), InsertAction::DelBack));
        insert.push((key_for_exec(tab, "newline", "enter"), InsertAction::NewLine));
        insert.push((key_for_exec(tab, "indent", "tab"), InsertAction::Indent));
        insert.push((key_for_exec(tab, "normalmode", "esc"), InsertAction::NormalMode));
        insert.push((key_for_exec(tab, "up", "up"), InsertAction::Up));
        insert.push((key_for_exec(tab, "down", "down"), InsertAction::Down));
        insert.push((key_for_exec(tab, "left", "left"), InsertAction::Left));
        insert.push((key_for_exec(tab, "right", "right"), InsertAction::Right));

        let mut normal: Vec<(String, NormalAction)> = Vec::new();
        normal.push((key_for_exec(tab, "replacechar", "r"), NormalAction::ReplaceChar));
        normal.push((key_for_exec(tab, "delete", "d"), NormalAction::Delete));
        normal.push((key_for_exec(tab, "deletechar", "x"), NormalAction::DeleteChar));
        normal.push((key_for_exec(tab, "change", "c"), NormalAction::Change));
        normal.push((key_for_exec(tab, "yank", "y"), NormalAction::Yank));
        normal.push((key_for_exec(tab, "linestart", "^"), NormalAction::LineStart));
        normal.push((key_for_exec(tab, "lineend", "$"), NormalAction::LineEnd));
        normal.push((key_for_exec(tab, "insertmode", "u"), NormalAction::InsertMode));
        normal.push((key_for_exec(tab, "visualmode", "v"), NormalAction::VisualMode));
        normal.push((key_for_exec(tab, "exit", "q"), NormalAction::Exit));
        normal.push((key_for_exec(tab, "up", "e"), NormalAction::Up));
        normal.push((key_for_exec(tab, "down", "n"), NormalAction::Down));
        normal.push((key_for_exec(tab, "left", "m"), NormalAction::Left));
        normal.push((key_for_exec(tab, "right", "i"), NormalAction::Right));

        let mut visual: Vec<(String, VisualAction)> = Vec::new();
        visual.push((key_for_exec(tab, "replacechar", "r"), VisualAction::ReplaceChar));
        visual.push((key_for_exec(tab, "delete", "d"), VisualAction::Delete));
        visual.push((key_for_exec(tab, "deletechar", "x"), VisualAction::DeleteChar));
        visual.push((key_for_exec(tab, "change", "c"), VisualAction::Change));
        visual.push((key_for_exec(tab, "yank", "y"), VisualAction::Yank));
        visual.push((key_for_exec(tab, "linestart", "^"), VisualAction::LineStart));
        visual.push((key_for_exec(tab, "lineend", "$"), VisualAction::LineEnd));
        visual.push((key_for_exec(tab, "up", "e"), VisualAction::Up));
        visual.push((key_for_exec(tab, "down", "n"), VisualAction::Down));
        visual.push((key_for_exec(tab, "left", "m"), VisualAction::Left));
        visual.push((key_for_exec(tab, "right", "i"), VisualAction::Right));
        visual.push((key_for_exec(tab, "normalmode", "esc"), VisualAction::NormalMode));
        visual.push((key_for_exec(tab, "exit", "q"), VisualAction::Exit));

        let mut textobjects: Vec<(String, TextObject)> = Vec::new();
        textobjects.push(
            (key_for_exec(tab, "char", "i"), TextObject::Char(Position::new(0, 0))),
        );
        textobjects.push((key_for_exec(tab, "line", "V"), TextObject::Line(0)));
        textobjects.push(
            (key_for_exec(tab, "word", "w"), TextObject::Word(Position::new(0, 0), 0)),
        );
        textobjects.push(
            (key_for_exec(tab, "lineend", "$"), TextObject::LineEnd(Position::new(0, 0), 0)),
        );
        textobjects.push((key_for_exec(tab, "cancelop", "esc"), TextObject::CancelOp));

        let mut options: Vec<(String, i64)> = Vec::new();
        options.push((String::from_str("tabstop"), int_for_exec(tab, "tabstop", 4)));

        let word_breaks = str_chars(
            key_for_exec(tab, "wordchars", default_breaks()).as_str(),
        );

        let c = Config { insert, normal, visual, textobjects, options, word_breaks };
        proof {
            assert(entries_model(c.insert@) =~= config_from(t).insert);
            assert(entries_model(c.normal@) =~= config_from(t).normal);
            assert(entries_model(c.visual@) =~= config_from(t).visual);
            assert(entries_model(c.textobjects@) =~= config_from(t).textobjects);
            assert(entries_model(c.options@) =~= config_from(t).options);
            assert(c@ =~= config_from(t));
        }
        c
    }

    /// The insert-mode action bound to the binding name `key`.
    pub fn insert(&self, key: &str) -> (r: Option<InsertAction>)
        ensures
            r == assoc(self@.insert, key@),
    {
        assoc_lookup(&self.insert, key)
    }

    /// The normal-mode action bound to the binding name `key`.
    pub fn normal(&self, key: &str) -> (r: Option<NormalAction>)
        ensures
            r == assoc(self@.normal, key@),
    {
        assoc_lookup(&self.normal, key)
    }

    /// The visual-mode action bound to the binding name `key`.
    pub fn visual(&self, key: &str) -> (r: Option<VisualAction>)
        ensures
            r == assoc(self@.visual, key@),
    {
        assoc_lookup(&self.visual, key)
    }

    /// The text-object template bound to the binding name `key`.
    pub fn textobject(&self, key: &str) -> (r: Option<TextObject>)
        ensures
            r == assoc(self@.textobjects, key@),
    {
        assoc_lookup(&self.textobjects, key)
    }

    /// The value of the integer option `key`, which must be present.
    pub fn option(&self, key: &str) -> (r: i64)
        requires
            assoc(self@.options, key@) is Some,
        ensures
            Some(r) == assoc(self@.options, key@),
    {
        match assoc_lookup(&self.options, key) {
            Some(n) => n,
            _ => unreached(),
        }
    }

    /// The tab-stop width, falling back to 4 where the option is absent.
    pub fn tabstop(&self) -> (r: i64)
        ensures
            r == tabstop_spec(self@),
    {
        match assoc_lookup(&self.options, "tabstop") {
            Some(n) => n,
            _ => 4,
        }
    }

    /// The insert-mode action bound to the key `k`.
    pub fn insert_key(&self, k: Key) -> (r: Option<InsertAction>)
        ensures
            r == assoc(self@.insert, key_name_spec(k)),
    {
        assoc_lookup_by_key(&self.insert, k)
    }

    /// The normal-mode action bound to the key `k`.
    pub fn normal_key(&self, k: Key) -> (r: Option<NormalAction>)
        ensures
            r == assoc(self@.normal, key_name_spec(k)),
    {
        assoc_lookup_by_key(&self.normal, k)
    }

    /// The visual-mode action bound to the key `k`.
    pub fn visual_key(&self, k: Key) -> (r: Option<VisualAction>)
        ensures
            r == assoc(self@.visual, key_name_spec(k)),
    {
        assoc_lookup_by_key(&self.visual, k)
    }

    /// The text-object template bound to the key `k`.
    pub fn textobject_key(&self, k: Key) -> (r: Option<TextObject>)
        ensures
            r == assoc(self@.textobjects, key_name_spec(k)),
    {
        assoc_lookup_by_key(&self.textobjects, k)
    }

    /// The word-break character set used by the word-object scan.
    pub fn word_break_chars(&self) -> (r: &Vec<char>)
        ensures
            r@ == self@.word_breaks,
    {
        &self.word_breaks
    }
}

} // verus!
