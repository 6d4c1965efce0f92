//! Keys of a keyboard, by the names the user interface shows for them.

use vstd::prelude::*;
use crate::text::{str_eq, to_owned};

verus! {

/// A key of the keyboard that key sequences press.
#[derive(Clone, Copy, Debug, PartialEq, Eq, Structural)]
pub enum KeyCode {
    Alt,
    Backspace,
    CapsLock,
    Control,
    Delete,
    DownArrow,
    End,
    Escape,
    F1,
    F10,
    F11,
    F12,
    F2,
    F3,
    F4,
    F5,
    F6,
    F7,
    F8,
    F9,
    Home,
    LeftArrow,
    Meta,
    PageDown,
    PageUp,
    Return,
    RightArrow,
    Shift,
    Space,
    Tab,
    UpArrow,
    /// The key that types the given character.
    Layout(char),
    /// Any other key of the keyboard.
    Other,
}

/// The names of the keys, in the order the user interface lists them.
pub open spec fn key_names() -> Seq<Seq<char>> {
    seq![
        "Alt"@,
        "Backspace"@,
        "Caps Lock"@,
        "Control"@,
        "Delete"@,
        "Down Arrow"@,
        "End"@,
        "Escape"@,
        "F1"@,
        "F10"@,
        "F11"@,
        "F12"@,
        "F2"@,
        "F3"@,
        "F4"@,
        "F5"@,
        "F6"@,
        "F7"@,
        "F8"@,
        "F9"@,
        "Home"@,
        "Left Arrow"@,
        "Meta"@,
        "Page Down"@,
        "Page Up"@,
        "Return"@,
        "Right Arrow"@,
        "Shift"@,
        "Space"@,
        "Tab"@,
        "Up Arrow"@,
        "Char"@
    ]
}

/// The names of the keys, in the order the user interface lists them.
pub fn key_variants() -> (r: Vec<String>)
    ensures
        r@.map_values(|s: String| s@) == key_names(),
{
    let r: Vec<String> = vec![
        to_owned("Alt"),
        to_owned("Backspace"),
        to_owned("Caps Lock"),
        to_owned("Control"),
        to_owned("Delete"),
        to_owned("Down Arrow"),
        to_owned("End"),
        to_owned("Escape"),
        to_owned("F1"),
        to_owned("F10"),
        to_owned("F11"),
        to_owned("F12"),
        to_owned("F2"),
        to_owned("F3"),
        to_owned("F4"),
        to_owned("F5"),
        to_owned("F6"),
        to_owned("F7"),
        to_owned("F8"),
        to_owned("F9"),
        to_owned("Home"),
        to_owned("Left Arrow"),
        to_owned("Meta"),
        to_owned("Page Down"),
        to_owned("Page Up"),
        to_owned("Return"),
        to_owned("Right Arrow"),
        to_owned("Shift"),
        to_owned("Space"),
        to_owned("Tab"),
        to_owned("Up Arrow"),
        to_owned("Char")
    ];
    assert(r@.map_values(|s: String| s@) =~= key_names());
    r
}

/// The key a name stands for; `other_key` is the character of the `Char` key.
/// The name `Escape` gives the `End` key.
pub open spec fn spec_to_key(name: Seq<char>, other_key: char) -> Option<KeyCode> {
    if name == "Alt"@ {
        Some(KeyCode::Alt)
    }     else if name == "Backspace"@ {
        Some(KeyCode::Backspace)
    }     else if name == "Caps Lock"@ {
        Some(KeyCode::CapsLock)
    }     else if name == "Control"@ {
        Some(KeyCode::Control)
    }     else if name == "Delete"@ {
        Some(KeyCode::Delete)
    }     else if name == "Down Arrow"@ {
        Some(KeyCode::DownArrow)
    }     else if name == "End"@ {
        Some(KeyCode::End)
    }     else if name == "Escape"@ {
        Some(KeyCode::End)
    }     else if name == "F1"@ {
        Some(KeyCode::F1)
    }     else if name == "F10"@ {
        Some(KeyCode::F10)
    }     else if name == "F11"@ {
        Some(KeyCode::F11)
    }     else if name == "F12"@ {
        Some(KeyCode::F12)
    }     else if name == "F2"@ {
        Some(KeyCode::F2)
    }     else if name == "F3"@ {
        Some(KeyCode::F3)
    }     else if name == "F4"@ {
        Some(KeyCode::F4)
    }     else if name == "F5"@ {
        Some(KeyCode::F5)
    }     else if name == "F6"@ {
        Some(KeyCode::F6)
    }     else if name == "F7"@ {
        Some(KeyCode::F7)
    }     else if name == "F8"@ {
        Some(KeyCode::F8)
    }     else if name == "F9"@ {
        Some(KeyCode::F9)
    }     else if name == "Home"@ {
        Some(KeyCode::Home)
    }     else if name == "Left Arrow"@ {
        Some(KeyCode::LeftArrow)
    }     else if name == "Meta"@ {
        Some(KeyCode::Meta)
    }     else if name == "Page Down"@ {
        Some(KeyCode::PageDown)
    }     else if name == "Page Up"@ {
        Some(KeyCode::PageUp)
    }     else if name == "Return"@ {
        Some(KeyCode::Return)
    }     else if name == "Right Arrow"@ {
        Some(KeyCode::RightArrow)
    }     else if name == "Shift"@ {
        Some(KeyCode::Shift)
    }     else if name == "Space"@ {
        Some(KeyCode::Space)
    }     else if name == "Tab"@ {
        Some(KeyCode::Tab)
    }     else if name == "Up Arrow"@ {
        Some(KeyCode::UpArrow)
    }     else if name == "Char"@ {
        Some(KeyCode::Layout(other_key))
    } else {
        None
    }
}

/// The key a name stands for; `other_key` is the character of the `Char` key.
pub fn to_key(key_variant: String, other_key: char) -> (r: Option<KeyCode>)
    ensures
        r == spec_to_key(key_variant@, other_key),
{
    let k = key_variant.as_str();
    if str_eq(k, "Alt") {
        Some(KeyCode::Alt)
    }     else if str_eq(k, "Backspace") {
        Some(KeyCode::Backspace)
    }     else if str_eq(k, "Caps Lock") {
        Some(KeyCode::CapsLock)
    }     else if str_eq(k, "Control") {
        Some(KeyCode::Control)
    }     else if str_eq(k, "Delete") {
        Some(KeyCode::Delete)
    }     else if str_eq(k, "Down Arrow") {
        Some(KeyCode::DownArrow)
    }     else if str_eq(k, "End") {
        Some(KeyCode::End)
    }     else if str_eq(k, "Escape") {
        Some(KeyCode::End)
    }     else if str_eq(k, "F1") {
        Some(KeyCode::F1)
    }     else if str_eq(k, "F10") {
        Some(KeyCode::F10)
    }     else if str_eq(k, "F11") {
        Some(KeyCode::F11)
    }     else if str_eq(k, "F12") {
        Some(KeyCode::F12)
    }     else if str_eq(k, "F2") {
        Some(KeyCode::F2)
    }     else if str_eq(k, "F3") {
        Some(KeyCode::F3)
    }     else if str_eq(k, "F4") {
        Some(KeyCode::F4)
    }     else if str_eq(k, "F5") {
        Some(KeyCode::F5)
    }     else if str_eq(k, "F6") {
        Some(KeyCode::F6)
    }     else if str_eq(k, "F7") {
        Some(KeyCode::F7)
    }     else if str_eq(k, "F8") {
        Some(KeyCode::F8)
    }     else if str_eq(k, "F9") {
        Some(KeyCode::F9)
    }     else if str_eq(k, "Home") {
        Some(KeyCode::Home)
    }     else if str_eq(k, "Left Arrow") {
        Some(KeyCode::LeftArrow)
    }     else if str_eq(k, "Meta") {
        Some(KeyCode::Meta)
    }     else if str_eq(k, "Page Down") {
        Some(KeyCode::PageDown)
    }     else if str_eq(k, "Page Up") {
        Some(KeyCode::PageUp)
    }     else if str_eq(k, "Return") {
        Some(KeyCode::Return)
    }     else if str_eq(k, "Right Arrow") {
        Some(KeyCode::RightArrow)
    }     else if str_eq(k, "Shift") {
        Some(KeyCode::Shift)
    }     else if str_eq(k, "Space") {
        Some(KeyCode::Space)
    }     else if str_eq(k, "Tab") {
        Some(KeyCode::Tab)
    }     else if str_eq(k, "Up Arrow") {
        Some(KeyCode::UpArrow)
    }     else if str_eq(k, "Char") {
        Some(KeyCode::Layout(other_key))
    } else {
        None
    }
}

/// The name of a key, with the character of a `Layout` key; keys without a name get the empty name.
pub open spec fn key_name(key: KeyCode) -> (Seq<char>, Option<char>) {
    match key {
        KeyCode::Alt => ("Alt"@, None),
        KeyCode::Backspace => ("Backspace"@, None),
        KeyCode::CapsLock => ("Caps Lock"@, None),
        KeyCode::Control => ("Control"@, None),
        KeyCode::Delete => ("Delete"@, None),
        KeyCode::DownArrow => ("Down Arrow"@, None),
        KeyCode::End => ("End"@, None),
        KeyCode::Escape => ("Escape"@, None),
        KeyCode::F1 => ("F1"@, None),
        KeyCode::F10 => ("F10"@, None),
        KeyCode::F11 => ("F11"@, None),
        KeyCode::F12 => ("F12"@, None),
        KeyCode::F2 => ("F2"@, None),
        KeyCode::F3 => ("F3"@, None),
        KeyCode::F4 => ("F4"@, None),
        KeyCode::F5 => ("F5"@, None),
        KeyCode::F6 => ("F6"@, None),
        KeyCode::F7 => ("F7"@, None),
        KeyCode::F8 => ("F8"@, None),
        KeyCode::F9 => ("F9"@, None),
        KeyCode::Home => ("Home"@, None),
        KeyCode::LeftArrow => ("Left Arrow"@, None),
        KeyCode::Meta => ("Meta"@, None),
        KeyCode::PageDown => ("Page Down"@, None),
        KeyCode::PageUp => ("Page Up"@, None),
        KeyCode::Return => ("Return"@, None),
        KeyCode::RightArrow => ("Right Arrow"@, None),
        KeyCode::Shift => ("Shift"@, None),
        KeyCode::Space => ("Space"@, None),
        KeyCode::Tab => ("Tab"@, None),
        KeyCode::UpArrow => ("Up Arrow"@, None),
        KeyCode::Layout(c) => ("Char"@, Some(c)),
        KeyCode::Other => (Seq::empty(), None),
    }
}

/// The name of a key, with the character of a `Layout` key.
pub fn to_key_variant(key: KeyCode) -> (r: (String, Option<char>))
    ensures
        r.0@ == key_name(key).0,
        r.1 == key_name(key).1,
{
    match key {
        KeyCode::Alt => (to_owned("Alt"), None),
        KeyCode::Backspace => (to_owned("Backspace"), None),
        KeyCode::CapsLock => (to_owned("Caps Lock"), None),
        KeyCode::Control => (to_owned("Control"), None),
        KeyCode::Delete => (to_owned("Delete"), None),
        KeyCode::DownArrow => (to_owned("Down Arrow"), None),
        KeyCode::End => (to_owned("End"), None),
        KeyCode::Escape => (to_owned("Escape"), None),
        KeyCode::F1 => (to_owned("F1"), None),
        KeyCode::F10 => (to_owned("F10"), None),
        KeyCode::F11 => (to_owned("F11"), None),
        KeyCode::F12 => (to_owned("F12"), None),
        KeyCode::F2 => (to_owned("F2"), None),
        KeyCode::F3 => (to_owned("F3"), None),
        KeyCode::F4 => (to_owned("F4"), None),
        KeyCode::F5 => (to_owned("F5"), None),
        KeyCode::F6 => (to_owned("F6"), None),
        KeyCode::F7 => (to_owned("F7"), None),
        KeyCode::F8 => (to_owned("F8"), None),
        KeyCode::F9 => (to_owned("F9"), None),
        KeyCode::Home => (to_owned("Home"), None),
        KeyCode::LeftArrow => (to_owned("Left Arrow"), None),
        KeyCode::Meta => (to_owned("Meta"), None),
        KeyCode::PageDown => (to_owned("Page Down"), None),
        KeyCode::PageUp => (to_owned("Page Up"), None),
        KeyCode::Return => (to_owned("Return"), None),
        KeyCode::RightArrow => (to_owned("Right Arrow"), None),
        KeyCode::Shift => (to_owned("Shift"), None),
        KeyCode::Space => (to_owned("Space"), None),
        KeyCode::Tab => (to_owned("Tab"), None),
        KeyCode::UpArrow => (to_owned("Up Arrow"), None),
        KeyCode::Layout(c) => (to_owned("Char"), Some(c)),
        KeyCode::Other => (String::new(), None),
    }
}


/// What the key names are made of, as far as telling them apart needs.
pub proof fn lemma_key_names_known()
    ensures
        "Alt"@.len() == 3,
        "Alt"@[0] == 'A',
        "Alt"@[1] == 'l',
        "Alt"@[2] == 't',
        "Backspace"@.len() == 9,
        "Backspace"@[0] == 'B',
        "Backspace"@[1] == 'a',
        "Backspace"@[2] == 'c',
        "Caps Lock"@.len() == 9,
        "Caps Lock"@[0] == 'C',
        "Caps Lock"@[1] == 'a',
        "Caps Lock"@[2] == 'p',
        "Control"@.len() == 7,
        "Control"@[0] == 'C',
        "Control"@[1] == 'o',
        "Control"@[2] == 'n',
        "Delete"@.len() == 6,
        "Delete"@[0] == 'D',
        "Delete"@[1] == 'e',
        "Delete"@[2] == 'l',
        "Down Arrow"@.len() == 10,
        "Down Arrow"@[0] == 'D',
        "Down Arrow"@[1] == 'o',
        "Down Arrow"@[2] == 'w',
        "End"@.len() == 3,
        "End"@[0] == 'E',
        "End"@[1] == 'n',
        "End"@[2] == 'd',
        "Escape"@.len() == 6,
        "Escape"@[0] == 'E',
        "Escape"@[1] == 's',
        "Escape"@[2] == 'c',
        "F1"@.len() == 2,
        "F1"@[0] == 'F',
        "F1"@[1] == '1',
        "F10"@.len() == 3,
        "F10"@[0] == 'F',
        "F10"@[1] == '1',
        "F10"@[2] == '0',
        "F11"@.len() == 3,
        "F11"@[0] == 'F',
        "F11"@[1] == '1',
        "F11"@[2] == '1',
        "F12"@.len() == 3,
        "F12"@[0] == 'F',
        "F12"@[1] == '1',
        "F12"@[2] == '2',
        "F2"@.len() == 2,
        "F2"@[0] == 'F',
        "F2"@[1] == '2',
        "F3"@.len() == 2,
        "F3"@[0] == 'F',
        "F3"@[1] == '3',
        "F4"@.len() == 2,
        "F4"@[0] == 'F',
        "F4"@[1] == '4',
        "F5"@.len() == 2,
        "F5"@[0] == 'F',
        "F5"@[1] == '5',
        "F6"@.len() == 2,
        "F6"@[0] == 'F',
        "F6"@[1] == '6',
        "F7"@.len() == 2,
        "F7"@[0] == 'F',
        "F7"@[1] == '7',
        "F8"@.len() == 2,
        "F8"@[0] == 'F',
        "F8"@[1] == '8',
        "F9"@.len() == 2,
        "F9"@[0] == 'F',
        "F9"@[1] == '9',
        "Home"@.len() == 4,
        "Home"@[0] == 'H',
        "Home"@[1] == 'o',
        "Home"@[2] == 'm',
        "Left Arrow"@.len() == 10,
        "Left Arrow"@[0] == 'L',
        "Left Arrow"@[1] == 'e',
        "Left Arrow"@[2] == 'f',
        "Meta"@.len() == 4,
        "Meta"@[0] == 'M',
        "Meta"@[1] == 'e',
        "Meta"@[2] == 't',
        "Page Down"@.len() == 9,
        "Page Down"@[0] == 'P',
        "Page Down"@[1] == 'a',
        "Page Down"@[2] == 'g',
        "Page Up"@.len() == 7,
        "Page Up"@[0] == 'P',
        "Page Up"@[1] == 'a',
        "Page Up"@[2] == 'g',
        "Return"@.len() == 6,
        "Return"@[0] == 'R',
        "Return"@[1] == 'e',
        "Return"@[2] == 't',
        "Right Arrow"@.len() == 11,
        "Right Arrow"@[0] == 'R',
        "Right Arrow"@[1] == 'i',
        "Right Arrow"@[2] == 'g',
        "Shift"@.len() == 5,
        "Shift"@[0] == 'S',
        "Shift"@[1] == 'h',
        "Shift"@[2] == 'i',
        "Space"@.len() == 5,
        "Space"@[0] == 'S',
        "Space"@[1] == 'p',
        "Space"@[2] == 'a',
        "Tab"@.len() == 3,
        "Tab"@[0] == 'T',
        "Tab"@[1] == 'a',
        "Tab"@[2] == 'b',
        "Up Arrow"@.len() == 8,
        "Up Arrow"@[0] == 'U',
        "Up Arrow"@[1] == 'p',
        "Up Arrow"@[2] == ' ',
        "Char"@.len() == 4,
        "Char"@[0] == 'C',
        "Char"@[1] == 'h',
        "Char"@[2] == 'a',
{
    reveal_strlit("Alt");
    reveal_strlit("Backspace");
    reveal_strlit("Caps Lock");
    reveal_strlit("Control");
    reveal_strlit("Delete");
    reveal_strlit("Down Arrow");
    reveal_strlit("End");
    reveal_strlit("Escape");
    reveal_strlit("F1");
    reveal_strlit("F10");
    reveal_strlit("F11");
    reveal_strlit("F12");
    reveal_strlit("F2");
    reveal_strlit("F3");
    reveal_strlit("F4");
    reveal_strlit("F5");
    reveal_strlit("F6");
    reveal_strlit("F7");
    reveal_strlit("F8");
    reveal_strlit("F9");
    reveal_strlit("Home");
    reveal_strlit("Left Arrow");
    reveal_strlit("Meta");
    reveal_strlit("Page Down");
    reveal_strlit("Page Up");
    reveal_strlit("Return");
    reveal_strlit("Right Arrow");
    reveal_strlit("Shift");
    reveal_strlit("Space");
    reveal_strlit("Tab");
    reveal_strlit("Up Arrow");
    reveal_strlit("Char");
}

/// The character a key types if it is a `Layout` key, else `other_key`.
pub open spec fn typed_char(key: KeyCode, other_key: char) -> char {
    match key {
        KeyCode::Layout(c) => c,
        _ => other_key,
    }
}

/// Naming a key and reading the name back gives the key again, for every named key but
/// `Escape` (whose name reads back as `End`); a `Layout` key needs its own character back.
pub proof fn law_key_name_round_trip(key: KeyCode, other_key: char)
    requires
        key != KeyCode::Escape,
        key != KeyCode::Other,
    ensures
        spec_to_key(key_name(key).0, typed_char(key, other_key)) == Some(key),
{
    lemma_key_names_known();
    match key {
        KeyCode::Layout(c) => {},
        _ => {},
    }
}

/// Reading a listed name and naming the key again gives the name back, for every listed name but `Escape`.
pub proof fn law_listed_name_round_trip(i: int, other_key: char)
    requires
        0 <= i < key_names().len(),
        key_names()[i] != "Escape"@,
    ensures
        spec_to_key(key_names()[i], other_key) is Some,
        key_name(spec_to_key(key_names()[i], other_key)->0).0 == key_names()[i],
{
    lemma_key_names_known();
}

/// Every key name the user interface lists reads as the key it names: "Up Arrow" is the up
/// arrow key, "F10" the tenth function key, and so on; "Escape" reads as the End key, as the
/// original reads it, and "Char" as the key that types `other_key`.
pub proof fn law_key_names_read_as_their_keys(other_key: char)
    ensures
        spec_to_key("Alt"@, other_key) == Some(KeyCode::Alt),
        spec_to_key("Backspace"@, other_key) == Some(KeyCode::Backspace),
        spec_to_key("Caps Lock"@, other_key) == Some(KeyCode::CapsLock),
        spec_to_key("Control"@, other_key) == Some(KeyCode::Control),
        spec_to_key("Delete"@, other_key) == Some(KeyCode::Delete),
        spec_to_key("Down Arrow"@, other_key) == Some(KeyCode::DownArrow),
        spec_to_key("End"@, other_key) == Some(KeyCode::End),
        spec_to_key("F1"@, other_key) == Some(KeyCode::F1),
        spec_to_key("F10"@, other_key) == Some(KeyCode::F10),
        spec_to_key("F11"@, other_key) == Some(KeyCode::F11),
        spec_to_key("F12"@, other_key) == Some(KeyCode::F12),
        spec_to_key("F2"@, other_key) == Some(KeyCode::F2),
        spec_to_key("F3"@, other_key) == Some(KeyCode::F3),
        spec_to_key("F4"@, other_key) == Some(KeyCode::F4),
        spec_to_key("F5"@, other_key) == Some(KeyCode::F5),
        spec_to_key("F6"@, other_key) == Some(KeyCode::F6),
        spec_to_key("F7"@, other_key) == Some(KeyCode::F7),
        spec_to_key("F8"@, other_key) == Some(KeyCode::F8),
        spec_to_key("F9"@, other_key) == Some(KeyCode::F9),
        spec_to_key("Home"@, other_key) == Some(KeyCode::Home),
        spec_to_key("Left Arrow"@, other_key) == Some(KeyCode::LeftArrow),
        spec_to_key("Meta"@, other_key) == Some(KeyCode::Meta),
        spec_to_key("Page Down"@, other_key) == Some(KeyCode::PageDown),
        spec_to_key("Page Up"@, other_key) == Some(KeyCode::PageUp),
        spec_to_key("Return"@, other_key) == Some(KeyCode::Return),
        spec_to_key("Right Arrow"@, other_key) == Some(KeyCode::RightArrow),
        spec_to_key("Shift"@, other_key) == Some(KeyCode::Shift),
        spec_to_key("Space"@, other_key) == Some(KeyCode::Space),
        spec_to_key("Tab"@, other_key) == Some(KeyCode::Tab),
        spec_to_key("Up Arrow"@, other_key) == Some(KeyCode::UpArrow),
        spec_to_key("Escape"@, other_key) == Some(KeyCode::End),
        spec_to_key("Char"@, other_key) == Some(KeyCode::Layout(other_key)),
{
    lemma_key_names_known();
}

/// Every key is shown under its own name: the up arrow key as "Up Arrow", the tenth function
/// key as "F10", and so on; a key that types a character as "Char" with that character.
pub proof fn law_keys_shown_by_their_names(c: char)
    ensures
        key_name(KeyCode::Alt) == ("Alt"@, None::<char>),
        key_name(KeyCode::Backspace) == ("Backspace"@, None::<char>),
        key_name(KeyCode::CapsLock) == ("Caps Lock"@, None::<char>),
        key_name(KeyCode::Control) == ("Control"@, None::<char>),
        key_name(KeyCode::Delete) == ("Delete"@, None::<char>),
        key_name(KeyCode::DownArrow) == ("Down Arrow"@, None::<char>),
        key_name(KeyCode::End) == ("End"@, None::<char>),
        key_name(KeyCode::F1) == ("F1"@, None::<char>),
        key_name(KeyCode::F10) == ("F10"@, None::<char>),
        key_name(KeyCode::F11) == ("F11"@, None::<char>),
        key_name(KeyCode::F12) == ("F12"@, None::<char>),
        key_name(KeyCode::F2) == ("F2"@, None::<char>),
        key_name(KeyCode::F3) == ("F3"@, None::<char>),
        key_name(KeyCode::F4) == ("F4"@, None::<char>),
        key_name(KeyCode::F5) == ("F5"@, None::<char>),
        key_name(KeyCode::F6) == ("F6"@, None::<char>),
        key_name(KeyCode::F7) == ("F7"@, None::<char>),
        key_name(KeyCode::F8) == ("F8"@, None::<char>),
        key_name(KeyCode::F9) == ("F9"@, None::<char>),
        key_name(KeyCode::Home) == ("Home"@, None::<char>),
        key_name(KeyCode::LeftArrow) == ("Left Arrow"@, None::<char>),
        key_name(KeyCode::Meta) == ("Meta"@, None::<char>),
        key_name(KeyCode::PageDown) == ("Page Down"@, None::<char>),
        key_name(KeyCode::PageUp) == ("Page Up"@, None::<char>),
        key_name(KeyCode::Return) == ("Return"@, None::<char>),
        key_name(KeyCode::RightArrow) == ("Right Arrow"@, None::<char>),
        key_name(KeyCode::Shift) == ("Shift"@, None::<char>),
        key_name(KeyCode::Space) == ("Space"@, None::<char>),
        key_name(KeyCode::Tab) == ("Tab"@, None::<char>),
        key_name(KeyCode::UpArrow) == ("Up Arrow"@, None::<char>),
        key_name(KeyCode::Escape) == ("Escape"@, None::<char>),
        key_name(KeyCode::Layout(c)) == ("Char"@, Some(c)),
        key_name(KeyCode::Other).0.len() == 0,
{
}

} // verus!
