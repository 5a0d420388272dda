//! Canonical key input values, already decoded from whatever the terminal
//! backend delivers: a key code plus the one modifier the editor cares about.

use vstd::prelude::*;

verus! {

/// A key, identified the way the binding tables name it: either one of the
/// named special keys or a literal character.
#[derive(Clone, Copy, PartialEq, Eq, Structural, Debug)]
pub enum Key {
    Backspace,
    Enter,
    Left,
    Right,
    Up,
    Down,
    Tab,
    Delete,
    Esc,
    Char(char),
}

/// One key press: the key and whether the control modifier was held.
/// Other modifier combinations are delivered as `ctrl == false` only when
/// no modifier at all was held; the caller drops the rest.
#[derive(Clone, Copy, PartialEq, Eq, Structural, Debug)]
pub struct KeyInput {
    pub key: Key,
    pub ctrl: bool,
}

impl KeyInput {
    pub fn new(key: Key, ctrl: bool) -> (k: KeyInput)
        ensures
            k == (KeyInput { key, ctrl }),
    {
        KeyInput { key, ctrl }
    }
}

/// The canonical name under which a key is looked up in a binding table.
pub open spec fn key_name_spec(k: Key) -> Seq<char> {
    match k {
        Key::Backspace => "backspace"@,
        Key::Enter => "enter"@,
        Key::Left => "left"@,
        Key::Right => "right"@,
        Key::Up => "up"@,
        Key::Down => "down"@,
        Key::Tab => "tab"@,
        Key::Delete => "delete"@,
        Key::Esc => "esc"@,
        Key::Char(c) => seq![c],
    }
}

/// Character-for-character equality of two string slices.
pub fn str_eq(a: &str, b: &str) -> (r: bool)
    ensures
        r == (a@ == b@),
{
    let alen = a.unicode_len();
    let blen = b.unicode_len();
    if alen != blen {
        assert(a@.len() != b@.len());
        return false;
    }
    let mut i: usize = 0;
    while i < alen
        invariant
            i <= alen,
            alen == a@.len(),
            alen == b@.len(),
            forall|j: int| 0 <= j < i ==> a@[j] == b@[j],
        decreases alen - i,
    {
        if a.get_char(i) != b.get_char(i) {
            return false;
        }
        i += 1;
    }
    proof {
        assert(a@ =~= b@);
    }
    true
}

/// Does the stored binding name `name` denote the key `k`?
pub fn name_matches_key(name: &str, k: Key) -> (r: bool)
    ensures
        r == (name@ == key_name_spec(k)),
{
    match k {
        Key::Backspace => str_eq(name, "backspace"),
        Key::Enter => str_eq(name, "enter"),
        Key::Left => str_eq(name, "left"),
        Key::Right => str_eq(name, "right"),
        Key::Up => str_eq(name, "up"),
        Key::Down => str_eq(name, "down"),
        Key::Tab => str_eq(name, "tab"),
        Key::Delete => str_eq(name, "delete"),
        Key::Esc => str_eq(name, "esc"),
        Key::Char(c) => {
            if name.unicode_len() == 1 {
                let r = name.get_char(0) == c;
                proof {
                    if r {
                        assert(name@ =~= seq![c]);
                    } else {
                        assert(name@ != seq![c]) by {
                            assert(name@[0] != seq![c][0]);
                        }
                    }
                }
                r
            } else {
                assert(name@.len() != seq![c].len());
                false
            }
        },
    }
}

} // verus!
