//! The key sequence component: a list of keyboard actions that a button performs, and how it
//! is shown to and read back from the user interface.

use vstd::prelude::*;
use crate::button::Component;
use crate::keys::{KeyCode, key_name, key_names, key_variants, spec_to_key, to_key, to_key_variant, typed_char, law_key_name_round_trip, lemma_key_names_known};
use crate::text::{str_eq, to_owned};
use crate::ui::{FloatBits, UIField, UIFieldType, UIFieldValue, UIValue, find_ui_value, last_named, text_of};

verus! {

/// One step of a key sequence.
#[derive(Debug)]
pub enum KeyAction {
    /// Presses and releases a key
    Click(KeyCode),
    /// Presses a key
    Press(KeyCode),
    /// Releases a key
    Release(KeyCode),
    /// Waits for a number of seconds
    Delay(FloatBits),
    /// Types a text
    WriteText(String),
}

/// A key action with its text as characters.
pub enum KeyActionView {
    Click(KeyCode),
    Press(KeyCode),
    Release(KeyCode),
    Delay(FloatBits),
    WriteText(Seq<char>),
}

impl View for KeyAction {
    type V = KeyActionView;

    open spec fn view(&self) -> KeyActionView {
        match self {
            KeyAction::Click(k) => KeyActionView::Click(*k),
            KeyAction::Press(k) => KeyActionView::Press(*k),
            KeyAction::Release(k) => KeyActionView::Release(*k),
            KeyAction::Delay(d) => KeyActionView::Delay(*d),
            KeyAction::WriteText(t) => KeyActionView::WriteText(t@),
        }
    }
}

/// The views of a list of key actions.
pub open spec fn actions_view(v: Seq<KeyAction>) -> Seq<KeyActionView> {
    v.map_values(|a: KeyAction| a@)
}

/// Component that performs a sequence of key actions when its button is pressed.
#[derive(Debug)]
pub struct KeySequenceComponent {
    pub key_actions: Vec<KeyAction>,
}

impl Default for KeySequenceComponent {
    fn default() -> (r: Self)
        ensures
            r.key_actions@.len() == 0,
    {
        KeySequenceComponent { key_actions: Vec::new() }
    }
}

impl Component for KeySequenceComponent {
    const NAME: &'static str = "key_sequence";
}

/// The kinds of key action, as the user interface names them.
pub open spec fn action_type_names() -> Seq<Seq<char>> {
    seq!["Click"@, "Press"@, "Release"@, "Delay"@, "Write Text"@]
}

fn action_types() -> (r: Vec<String>)
    ensures
        r@.map_values(|s: String| s@) == action_type_names(),
{
    let r: Vec<String> = vec![to_owned("Click"), to_owned("Press"), to_owned("Release"), to_owned("Delay"), to_owned("Write Text")];
    assert(r@.map_values(|s: String| s@) =~= action_type_names());
    r
}

/// The name of the kind of an action.
pub open spec fn kind_name(a: KeyActionView) -> Seq<char> {
    match a {
        KeyActionView::Press(_) => "Press"@,
        KeyActionView::Release(_) => "Release"@,
        KeyActionView::Click(_) => "Click"@,
        KeyActionView::Delay(_) => "Delay"@,
        KeyActionView::WriteText(_) => "Write Text"@,
    }
}

/// A value with the given name, display name and description.
pub open spec fn value_is(v: UIValue, name: Seq<char>, display: Seq<char>, desc: Seq<char>) -> bool {
    v.name@ == name && v.display_name@ == display && v.description@ == desc
}

/// A field with the given name, display name and description.
pub open spec fn field_is(f: UIField, name: Seq<char>, display: Seq<char>, desc: Seq<char>) -> bool {
    f.name@ == name && f.display_name@ == display && f.description@ == desc
}

/// A choice among the given names.
pub open spec fn is_choice_of(t: UIFieldType, names: Seq<Seq<char>>) -> bool {
    t matches UIFieldType::Choice(c) && c@.map_values(|s: String| s@) == names
}

/// The chosen entry is the given name.
pub open spec fn chosen(v: UIFieldValue, name: Seq<char>) -> bool {
    v matches UIFieldValue::Choice(s) && s@ == name
}

/// A text field value holding the given text.
pub open spec fn text_field(v: UIFieldValue, text: Seq<char>) -> bool {
    v matches UIFieldValue::InputFieldString(s) && s@ == text
}

/// The value that shows the kind of an action.
pub open spec fn type_value(v: UIValue, a: KeyActionView) -> bool {
    value_is(v, "type"@, "Action Type"@, "Type of action to perform"@) && is_choice_of(v.ty, action_type_names())
        && chosen(v.value, kind_name(a))
}

/// The values that show the key of a key action: its name, then its character if it types one.
pub open spec fn key_values(row: Seq<UIValue>, k: KeyCode) -> bool {
    &&& value_is(row[1], "key"@, "Key"@, "Key to use"@)
    &&& is_choice_of(row[1].ty, key_names())
    &&& chosen(row[1].value, key_name(k).0)
    &&& match key_name(k).1 {
        Some(c) => row.len() == 3 && value_is(row[2], "char"@, "Character"@, "Character to use"@) && row[2].ty
            is InputFieldString && text_field(row[2].value, seq![c]),
        None => row.len() == 2,
    }
}

/// The row of values that shows an action.
pub open spec fn row_matches(row: Seq<UIValue>, a: KeyActionView) -> bool {
    &&& row.len() >= 2
    &&& type_value(row[0], a)
    &&& match a {
        KeyActionView::Press(k) => key_values(row, k),
        KeyActionView::Release(k) => key_values(row, k),
        KeyActionView::Click(k) => key_values(row, k),
        KeyActionView::Delay(d) => row.len() == 2 && value_is(row[1], "delay"@, "Delay"@, "Amount of time to wait"@)
            && row[1].ty is InputFieldFloat && row[1].value == UIFieldValue::InputFieldFloat(d),
        KeyActionView::WriteText(t) => row.len() == 2 && value_is(
            row[1],
            "text"@,
            "Text"@,
            "Text to write, non-ascii text might lag the libxdo"@,
        ) && row[1].ty is InputFieldString && text_field(row[1].value, t),
    }
}

/// The template of one row of the actions array.
pub open spec fn actions_template(t: UIFieldType) -> bool {
    t matches UIFieldType::Array(fields) && fields@.len() == 2
        && field_is(fields@[0], "type"@, "Action Type"@, "Type of action to perform"@)
        && is_choice_of(fields@[0].ty, action_type_names()) && chosen(fields@[0].default_value, "Click"@)
        && field_is(fields@[1], "key"@, "Key"@, "Key to use"@) && is_choice_of(fields@[1].ty, key_names())
        && chosen(fields@[1].default_value, "Alt"@)
}

/// `char::to_string`: a string of the one character.
#[verifier::external_body]
fn char_to_string(c: char) -> (r: String)
    ensures
        r@ == seq![c],
{
    c.to_string()
}

fn key_rows(row: &mut Vec<UIValue>, k: KeyCode)
    requires
        old(row)@.len() == 1,
    ensures
        final(row)@.len() >= 2,
        final(row)@[0] == old(row)@[0],
        key_values(final(row)@, k),
{
    let (choice, c) = to_key_variant(k);
    row.push(UIValue {
        name: to_owned("key"),
        display_name: to_owned("Key"),
        description: to_owned("Key to use"),
        ty: UIFieldType::Choice(key_variants()),
        value: UIFieldValue::Choice(choice),
    });
    if let Some(c) = c {
        row.push(UIValue {
            name: to_owned("char"),
            display_name: to_owned("Character"),
            description: to_owned("Character to use"),
            ty: UIFieldType::InputFieldString,
            value: UIFieldValue::InputFieldString(char_to_string(c)),
        });
    }
}

/// The row of values that shows one action.
fn action_row(a: &KeyAction) -> (row: Vec<UIValue>)
    ensures
        row_matches(row@, a@),
{
    let kind = match a {
        KeyAction::Press(_) => to_owned("Press"),
        KeyAction::Release(_) => to_owned("Release"),
        KeyAction::Click(_) => to_owned("Click"),
        KeyAction::Delay(_) => to_owned("Delay"),
        KeyAction::WriteText(_) => to_owned("Write Text"),
    };
    let mut row: Vec<UIValue> = vec![UIValue {
        name: to_owned("type"),
        display_name: to_owned("Action Type"),
        description: to_owned("Type of action to perform"),
        ty: UIFieldType::Choice(action_types()),
        value: UIFieldValue::Choice(kind),
    }];
    match a {
        KeyAction::Press(k) => key_rows(&mut row, *k),
        KeyAction::Release(k) => key_rows(&mut row, *k),
        KeyAction::Click(k) => key_rows(&mut row, *k),
        KeyAction::Delay(d) => {
            row.push(UIValue {
                name: to_owned("delay"),
                display_name: to_owned("Delay"),
                description: to_owned("Amount of time to wait"),
                ty: UIFieldType::InputFieldFloat,
                value: UIFieldValue::InputFieldFloat(*d),
            });
        },
        KeyAction::WriteText(t) => {
            row.push(UIValue {
                name: to_owned("text"),
                display_name: to_owned("Text"),
                description: to_owned("Text to write, non-ascii text might lag the libxdo"),
                ty: UIFieldType::InputFieldString,
                value: UIFieldValue::InputFieldString(t.clone()),
            });
        },
    }
    row
}

/// A list of values that shows a list of actions: one `actions` array with one row per action.
pub open spec fn shows_actions(v: Seq<UIValue>, acts: Seq<KeyActionView>) -> bool {
    &&& v.len() == 1
    &&& v[0].name@ == "actions"@
    &&& v[0].value matches UIFieldValue::Array(rows) && rows@.len() == acts.len() && forall|i: int|
        0 <= i < rows@.len() ==> row_matches(#[trigger] rows@[i]@, acts[i])
}

/// The values that show a key sequence component: one array of rows, one row per action.
pub fn get_values(component: &KeySequenceComponent) -> (r: Vec<UIValue>)
    ensures
        r@.len() == 1,
        value_is(r@[0], "actions"@, "Key Actions"@, "Sequence of actions to perform on button press"@),
        actions_template(r@[0].ty),
        shows_actions(r@, actions_view(component.key_actions@)),
{
    let mut rows: Vec<Vec<UIValue>> = Vec::new();
    let mut i: usize = 0;
    while i < component.key_actions.len()
        invariant
            i <= component.key_actions@.len(),
            rows@.len() == i,
            forall|j: int| 0 <= j < i ==> row_matches(#[trigger] rows@[j]@, component.key_actions@[j]@),
        decreases component.key_actions@.len() - i,
    {
        let row = action_row(&component.key_actions[i]);
        rows.push(row);
        i += 1;
    }
    let ghost acts = actions_view(component.key_actions@);
    assert forall|j: int| 0 <= j < rows@.len() implies row_matches(#[trigger] rows@[j]@, acts[j]) by {
        assert(row_matches(rows@[j]@, component.key_actions@[j]@));
    }
    let template: Vec<UIField> = vec![
        UIField {
            name: to_owned("type"),
            display_name: to_owned("Action Type"),
            description: to_owned("Type of action to perform"),
            ty: UIFieldType::Choice(action_types()),
            default_value: UIFieldValue::Choice(to_owned("Click")),
        },
        UIField {
            name: to_owned("key"),
            display_name: to_owned("Key"),
            description: to_owned("Key to use"),
            ty: UIFieldType::Choice(key_variants()),
            default_value: UIFieldValue::Choice(to_owned("Alt")),
        },
    ];
    vec![UIValue {
        name: to_owned("actions"),
        display_name: to_owned("Key Actions"),
        description: to_owned("Sequence of actions to perform on button press"),
        ty: UIFieldType::Array(template),
        value: UIFieldValue::Array(rows),
    }]
}

/// The value a name lookup in a list of values finds: the last one with that name.
pub open spec fn lookup(item: Seq<UIValue>, name: Seq<char>) -> Option<UIValue> {
    match last_named(item, name) {
        Some(i) => Some(item[i]),
        None => None,
    }
}

/// The key of a row: `Alt` if the row has no key; the named key, with the first character of
/// the row's character for `Char` (a space if there is none); nothing if the key name is no
/// text, names no key, or the character is empty or no text.
pub open spec fn figure_key(item: Seq<UIValue>) -> Option<KeyCode> {
    match lookup(item, "key"@) {
        None => Some(KeyCode::Alt),
        Some(k) => match text_of(k.value) {
            None => None,
            Some(name) => if name == "Char"@ {
                match lookup(item, "char"@) {
                    Some(cv) => match text_of(cv.value) {
                        Some(t) => if t.len() > 0 {
                            spec_to_key(name, t[0])
                        } else {
                            None
                        },
                        None => None,
                    },
                    None => spec_to_key(name, ' '),
                }
            } else {
                spec_to_key(name, ' ')
            },
        },
    }
}

/// The float of a float field or float slider.
pub open spec fn float_of(v: UIFieldValue) -> Option<FloatBits> {
    match v {
        UIFieldValue::InputFieldFloat(f) => Some(f),
        UIFieldValue::ValueSliderFloat(f) => Some(f),
        _ => None,
    }
}

/// The action a row stands for, if any: its kind comes from the row's type; a delay without a
/// delay value waits no time, a text action without a text writes nothing.
pub open spec fn action_of(item: Seq<UIValue>) -> Option<KeyActionView> {
    match lookup(item, "type"@) {
        None => None,
        Some(t) => match text_of(t.value) {
            None => None,
            Some(choice) => if choice == "Press"@ {
                match figure_key(item) {
                    Some(k) => Some(KeyActionView::Press(k)),
                    None => None,
                }
            } else if choice == "Release"@ {
                match figure_key(item) {
                    Some(k) => Some(KeyActionView::Release(k)),
                    None => None,
                }
            } else if choice == "Click"@ {
                match figure_key(item) {
                    Some(k) => Some(KeyActionView::Click(k)),
                    None => None,
                }
            } else if choice == "Delay"@ {
                match lookup(item, "delay"@) {
                    Some(d) => match float_of(d.value) {
                        Some(f) => Some(KeyActionView::Delay(f)),
                        None => None,
                    },
                    None => Some(KeyActionView::Delay(FloatBits(0))),
                }
            } else if choice == "Write Text"@ {
                match lookup(item, "text"@) {
                    Some(tv) => match text_of(tv.value) {
                        Some(text) => Some(KeyActionView::WriteText(text)),
                        None => None,
                    },
                    None => Some(KeyActionView::WriteText(Seq::empty())),
                }
            } else {
                None
            },
        },
    }
}

/// The actions of a list of rows, skipping the rows that stand for none.
pub open spec fn actions_of(items: Seq<Seq<UIValue>>) -> Seq<KeyActionView>
    decreases items.len(),
{
    if items.len() == 0 {
        Seq::empty()
    } else {
        let init = actions_of(items.drop_last());
        match action_of(items.last()) {
            Some(a) => init.push(a),
            None => init,
        }
    }
}

/// The actions that a list of values sets: those of the rows of its `actions` array, if it has one.
pub open spec fn actions_update(values: Seq<UIValue>) -> Option<Seq<KeyActionView>> {
    match lookup(values, "actions"@) {
        Some(v) => match v.value {
            UIFieldValue::Array(items) => Some(actions_of(items@.map_values(|r: Vec<UIValue>| r@))),
            _ => None,
        },
        None => None,
    }
}

fn item_key(item: &Vec<UIValue>) -> (r: Option<KeyCode>)
    ensures
        r == figure_key(item@),
{
    match find_ui_value(item, "key") {
        Some(key) => match key.value.try_into_string() {
            Ok(name) => {
                if str_eq(name.as_str(), "Char") {
                    match find_ui_value(item, "char") {
                        Some(cv) => match cv.value.try_into_string() {
                            Ok(t) => {
                                if t.as_str().unicode_len() > 0 {
                                    let c = t.as_str().get_char(0);
                                    to_key(name, c)
                                } else {
                                    None
                                }
                            },
                            Err(_) => None,
                        },
                        None => to_key(name, ' '),
                    }
                } else {
                    to_key(name, ' ')
                }
            },
            Err(_) => None,
        },
        None => Some(KeyCode::Alt),
    }
}

fn item_action(item: &Vec<UIValue>) -> (r: Option<KeyAction>)
    ensures
        match action_of(item@) {
            Some(a) => r is Some && r->0@ == a,
            None => r is None,
        },
{
    match find_ui_value(item, "type") {
        None => None,
        Some(t) => match t.value.try_into_string() {
            Err(_) => None,
            Ok(choice) => {
                let c = choice.as_str();
                if str_eq(c, "Press") {
                    match item_key(item) {
                        Some(k) => Some(KeyAction::Press(k)),
                        None => None,
                    }
                } else if str_eq(c, "Release") {
                    match item_key(item) {
                        Some(k) => Some(KeyAction::Release(k)),
                        None => None,
                    }
                } else if str_eq(c, "Click") {
                    match item_key(item) {
                        Some(k) => Some(KeyAction::Click(k)),
                        None => None,
                    }
                } else if str_eq(c, "Delay") {
                    match find_ui_value(item, "delay") {
                        Some(d) => match d.value.try_into_f32() {
                            Ok(f) => Some(KeyAction::Delay(f)),
                            Err(_) => None,
                        },
                        None => Some(KeyAction::Delay(FloatBits(0))),
                    }
                } else if str_eq(c, "Write Text") {
                    match find_ui_value(item, "text") {
                        Some(tv) => match tv.value.try_into_string() {
                            Ok(text) => Some(KeyAction::WriteText(text)),
                            Err(_) => None,
                        },
                        None => Some(KeyAction::WriteText(String::new())),
                    }
                } else {
                    None
                }
            },
        },
    }
}

/// Reads a key sequence component back from values of the user interface: where the values
/// hold an `actions` array, the component's actions become those of its rows; otherwise the
/// component stays as it was.
pub fn set_values(component: &mut KeySequenceComponent, value: Vec<UIValue>)
    ensures
        match actions_update(value@) {
            Some(acts) => actions_view(final(component).key_actions@) == acts,
            None => final(component).key_actions@ == old(component).key_actions@,
        },
{
    if let Some(v) = find_ui_value(&value, "actions") {
        if let UIFieldValue::Array(items) = &v.value {
            let ghost rows = items@.map_values(|r: Vec<UIValue>| r@);
            let mut actions: Vec<KeyAction> = Vec::new();
            let mut i: usize = 0;
            while i < items.len()
                invariant
                    i <= items@.len(),
                    rows == items@.map_values(|r: Vec<UIValue>| r@),
                    actions_view(actions@) == actions_of(rows.take(i as int)),
                decreases items@.len() - i,
            {
                let a = item_action(&items[i]);
                proof {
                    assert(rows.take(i + 1).drop_last() =~= rows.take(i as int));
                    assert(rows.take(i + 1).last() == items@[i as int]@);
                }
                match a {
                    Some(a) => {
                        let ghost before = actions@;
                        actions.push(a);
                        assert(actions_view(actions@) =~= actions_view(before).push(actions@.last()@));
                    },
                    None => {},
                }
                i += 1;
            }
            assert(rows.take(items@.len() as int) =~= rows);
            component.key_actions = actions;
        }
    }
}

/// What the row names and action kinds are made of, as far as telling them apart needs.
proof fn lemma_row_names_known()
    ensures
        "type"@.len() == 4,
        "type"@[0] == 't',
        "type"@[1] == 'y',
        "key"@.len() == 3,
        "key"@[0] == 'k',
        "key"@[1] == 'e',
        "char"@.len() == 4,
        "char"@[0] == 'c',
        "char"@[1] == 'h',
        "delay"@.len() == 5,
        "delay"@[0] == 'd',
        "delay"@[1] == 'e',
        "text"@.len() == 4,
        "text"@[0] == 't',
        "text"@[1] == 'e',
        "actions"@.len() == 7,
        "actions"@[0] == 'a',
        "actions"@[1] == 'c',
        "Press"@.len() == 5,
        "Press"@[0] == 'P',
        "Press"@[1] == 'r',
        "Release"@.len() == 7,
        "Release"@[0] == 'R',
        "Release"@[1] == 'e',
        "Click"@.len() == 5,
        "Click"@[0] == 'C',
        "Click"@[1] == 'l',
        "Delay"@.len() == 5,
        "Delay"@[0] == 'D',
        "Delay"@[1] == 'e',
        "Write Text"@.len() == 10,
        "Write Text"@[0] == 'W',
        "Write Text"@[1] == 'r',
{
    reveal_strlit("type");
    reveal_strlit("key");
    reveal_strlit("char");
    reveal_strlit("delay");
    reveal_strlit("text");
    reveal_strlit("actions");
    reveal_strlit("Press");
    reveal_strlit("Release");
    reveal_strlit("Click");
    reveal_strlit("Delay");
    reveal_strlit("Write Text");
}

/// The key of a key action.
pub open spec fn action_key(a: KeyActionView) -> Option<KeyCode> {
    match a {
        KeyActionView::Press(k) => Some(k),
        KeyActionView::Release(k) => Some(k),
        KeyActionView::Click(k) => Some(k),
        _ => None,
    }
}

/// The key of an action is one whose name reads back as the same key.
pub open spec fn key_reads_back(a: KeyActionView) -> bool {
    match action_key(a) {
        Some(k) => k != KeyCode::Escape && k != KeyCode::Other,
        None => true,
    }
}

proof fn lemma_key_row_reads_back(row: Seq<UIValue>, k: KeyCode)
    requires
        row.len() >= 2,
        key_values(row, k),
        k != KeyCode::Escape,
        k != KeyCode::Other,
    ensures
        figure_key(row) == Some(k),
{
    lemma_row_names_known();
    lemma_key_names_known();
    reveal_with_fuel(last_named, 4);
    assert(row.drop_last().last() == row[row.len() - 2]);
    law_key_name_round_trip(k, typed_char(k, ' '));
    match k {
        KeyCode::Layout(c) => {
            assert(row.drop_last().drop_last() =~= seq![row[0]]);
            assert(lookup(row, "key"@) == Some(row[1]));
            assert(lookup(row, "char"@) == Some(row[2]));
        },
        _ => {
            assert(row.drop_last() =~= seq![row[0]]);
            assert(lookup(row, "key"@) == Some(row[1]));
            assert(key_name(k).0 != "Char"@);
        },
    }
}

proof fn lemma_row_reads_back(row: Seq<UIValue>, a: KeyActionView)
    requires
        row_matches(row, a),
        key_reads_back(a),
    ensures
        action_of(row) == Some(a),
{
    lemma_row_names_known();
    reveal_with_fuel(last_named, 4);
    assert(lookup(row, "type"@) == Some(row[0])) by {
        if row.len() == 3 {
            assert(row.drop_last().drop_last() =~= seq![row[0]]);
        } else {
            assert(row.drop_last() =~= seq![row[0]]);
        }
    }
    match a {
        KeyActionView::Press(k) => lemma_key_row_reads_back(row, k),
        KeyActionView::Release(k) => lemma_key_row_reads_back(row, k),
        KeyActionView::Click(k) => lemma_key_row_reads_back(row, k),
        KeyActionView::Delay(d) => {
            assert(lookup(row, "delay"@) == Some(row[1]));
        },
        KeyActionView::WriteText(t) => {
            assert(lookup(row, "text"@) == Some(row[1]));
        },
    }
}

/// Rows that show a list of actions read back as those actions, when every key's name reads
/// back as the same key.
pub proof fn law_rows_read_back(rows: Seq<Seq<UIValue>>, acts: Seq<KeyActionView>)
    requires
        rows.len() == acts.len(),
        forall|i: int| 0 <= i < rows.len() ==> row_matches(#[trigger] rows[i], acts[i]),
        forall|i: int| 0 <= i < acts.len() ==> key_reads_back(#[trigger] acts[i]),
    ensures
        actions_of(rows) == acts,
    decreases rows.len(),
{
    if rows.len() > 0 {
        let n = rows.len() - 1;
        assert(row_matches(rows[n], acts[n]));
        assert(key_reads_back(acts[n]));
        law_rows_read_back(rows.drop_last(), acts.drop_last());
        lemma_row_reads_back(rows.last(), acts.last());
        assert(acts.drop_last().push(acts.last()) =~= acts);
    } else {
        assert(acts =~= Seq::<KeyActionView>::empty());
    }
}

/// Values that show a list of actions read back as those actions, when every key's name
/// reads back as the same key: reading back what `get_values` shows restores the component.
pub proof fn law_values_read_back(v: Seq<UIValue>, acts: Seq<KeyActionView>)
    requires
        shows_actions(v, acts),
        forall|i: int| 0 <= i < acts.len() ==> key_reads_back(#[trigger] acts[i]),
    ensures
        actions_update(v) == Some(acts),
{
    reveal_with_fuel(last_named, 2);
    assert(v.drop_last() =~= Seq::<UIValue>::empty());
    assert(lookup(v, "actions"@) == Some(v[0]));
    match v[0].value {
        UIFieldValue::Array(rows) => {
            let rs = rows@.map_values(|r: Vec<UIValue>| r@);
            assert forall|i: int| 0 <= i < rs.len() implies row_matches(#[trigger] rs[i], acts[i]) by {
                assert(row_matches(rows@[i]@, acts[i]));
            }
            law_rows_read_back(rs, acts);
        },
        _ => {},
    }
}

/// Each kind of key action is shown under its own name, and a row that chooses a kind by name
/// reads as an action of that kind: "Press" presses the row's key, "Release" releases it,
/// "Click" clicks it, "Delay" waits and "Write Text" writes text.
pub proof fn law_action_kinds_by_name(k: KeyCode, d: FloatBits, t: Seq<char>, item: Seq<UIValue>, choice: Seq<char>)
    requires
        lookup(item, "type"@) is Some,
        text_of(lookup(item, "type"@)->0.value) == Some(choice),
    ensures
        kind_name(KeyActionView::Press(k)) == "Press"@,
        kind_name(KeyActionView::Release(k)) == "Release"@,
        kind_name(KeyActionView::Click(k)) == "Click"@,
        kind_name(KeyActionView::Delay(d)) == "Delay"@,
        kind_name(KeyActionView::WriteText(t)) == "Write Text"@,
        choice == "Press"@ && figure_key(item) is Some ==> action_of(item) == Some(KeyActionView::Press(figure_key(item)->0)),
        choice == "Release"@ && figure_key(item) is Some ==> action_of(item) == Some(KeyActionView::Release(figure_key(item)->0)),
        choice == "Click"@ && figure_key(item) is Some ==> action_of(item) == Some(KeyActionView::Click(figure_key(item)->0)),
        choice == "Delay"@ ==> action_of(item) is None || action_of(item)->0 is Delay,
        choice == "Write Text"@ ==> action_of(item) is None || action_of(item)->0 is WriteText,
{
    reveal_strlit("Press");
    reveal_strlit("Release");
    reveal_strlit("Click");
    reveal_strlit("Delay");
    reveal_strlit("Write Text");
    assert("Release"@ != "Press"@) by { assert("Release"@.len() != "Press"@.len()); }
    assert("Click"@ != "Press"@) by { assert("Click"@[0] != "Press"@[0]); }
    assert("Click"@ != "Release"@) by { assert("Click"@.len() != "Release"@.len()); }
    assert("Delay"@ != "Press"@) by { assert("Delay"@[0] != "Press"@[0]); }
    assert("Delay"@ != "Release"@) by { assert("Delay"@.len() != "Release"@.len()); }
    assert("Delay"@ != "Click"@) by { assert("Delay"@[0] != "Click"@[0]); }
    assert("Write Text"@ != "Press"@) by { assert("Write Text"@.len() != "Press"@.len()); }
    assert("Write Text"@ != "Release"@) by { assert("Write Text"@.len() != "Release"@.len()); }
    assert("Write Text"@ != "Click"@) by { assert("Write Text"@.len() != "Click"@.len()); }
    assert("Write Text"@ != "Delay"@) by { assert("Write Text"@.len() != "Delay"@.len()); }
}

} // verus!
