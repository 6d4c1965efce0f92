//! The run command component: a command line that a button runs, and how it is shown to and
//! read back from the user interface.

use vstd::prelude::*;
use crate::button::Component;
use crate::commands::{split_on, split_words, words};
use crate::key_sequence::{lookup, value_is, field_is, text_field};
use crate::text::to_owned;
use crate::ui::{UIField, UIFieldType, UIFieldValue, UIValue, find_ui_value, last_named, text_of};

verus! {

/// Component that runs a command when its button is pressed: either a simple command line
/// split at spaces, or a program and its arguments one by one.
#[derive(Debug)]
pub struct RunCommandComponent {
    pub simple_command: String,
    pub advanced_command: Vec<String>,
    pub use_advanced: bool,
}

impl Default for RunCommandComponent {
    fn default() -> (r: Self)
        ensures
            r.simple_command@.len() == 0,
            r.advanced_command@.len() == 0,
            !r.use_advanced,
    {
        RunCommandComponent { simple_command: String::new(), advanced_command: Vec::new(), use_advanced: false }
    }
}

impl Component for RunCommandComponent {
    const NAME: &'static str = "run_command";
}

/// The row of values that shows one argument.
pub open spec fn arg_row(row: Seq<UIValue>, arg: Seq<char>) -> bool {
    row.len() == 1 && value_is(row[0], "arg"@, "Argument"@, Seq::empty()) && row[0].ty is InputFieldString
        && text_field(row[0].value, arg)
}

/// A list of values that shows a run command component: whether it is in advanced mode, then
/// its arguments in advanced mode or its command line otherwise.
pub open spec fn shows_command(v: Seq<UIValue>, c: RunCommandComponent) -> bool {
    &&& v.len() == 2
    &&& value_is(v[0], "use_advanced"@, "Advanced mode"@, Seq::empty())
    &&& v[0].ty == (UIFieldType::Checkbox { disabled: false })
    &&& v[0].value == UIFieldValue::Checkbox(c.use_advanced)
    &&& if c.use_advanced {
        &&& value_is(v[1], "args"@, "Arguments"@, Seq::empty())
        &&& v[1].ty matches UIFieldType::Array(fields) && fields@.len() == 1 && field_is(
            fields@[0],
            "arg"@,
            "Argument"@,
            Seq::empty(),
        ) && fields@[0].ty is InputFieldString && text_field(fields@[0].default_value, Seq::empty())
        &&& v[1].value matches UIFieldValue::Array(rows) && rows@.len() == c.advanced_command@.len() && forall|i: int|
            0 <= i < rows@.len() ==> arg_row(#[trigger] rows@[i]@, c.advanced_command@[i]@)
    } else {
        &&& value_is(v[1], "command"@, "Command"@, Seq::empty())
        &&& v[1].ty is InputFieldString
        &&& text_field(v[1].value, c.simple_command@)
    }
}

fn arg_value(arg: &String) -> (v: UIValue)
    ensures
        arg_row(seq![v], arg@),
{
    UIValue {
        name: to_owned("arg"),
        display_name: to_owned("Argument"),
        description: String::new(),
        ty: UIFieldType::InputFieldString,
        value: UIFieldValue::InputFieldString(arg.clone()),
    }
}

/// The values that show a run command component.
pub fn get_values(component: &RunCommandComponent) -> (r: Vec<UIValue>)
    ensures
        shows_command(r@, *component),
{
    let mut fields: Vec<UIValue> = Vec::new();
    fields.push(UIValue {
        name: to_owned("use_advanced"),
        display_name: to_owned("Advanced mode"),
        description: String::new(),
        ty: UIFieldType::Checkbox { disabled: false },
        value: UIFieldValue::Checkbox(component.use_advanced),
    });
    if component.use_advanced {
        let mut rows: Vec<Vec<UIValue>> = Vec::new();
        let mut i: usize = 0;
        while i < component.advanced_command.len()
            invariant
                i <= component.advanced_command@.len(),
                rows@.len() == i,
                forall|j: int| 0 <= j < i ==> arg_row(#[trigger] rows@[j]@, component.advanced_command@[j]@),
            decreases component.advanced_command@.len() - i,
        {
            let v = arg_value(&component.advanced_command[i]);
            let row: Vec<UIValue> = vec![v];
            assert(row@ =~= seq![v]);
            rows.push(row);
            i += 1;
        }
        let template: Vec<UIField> = vec![
            UIField {
                name: to_owned("arg"),
                display_name: to_owned("Argument"),
                description: String::new(),
                ty: UIFieldType::InputFieldString,
                default_value: UIFieldValue::InputFieldString(String::new()),
            },
        ];
        fields.push(UIValue {
            name: to_owned("args"),
            display_name: to_owned("Arguments"),
            description: String::new(),
            ty: UIFieldType::Array(template),
            value: UIFieldValue::Array(rows),
        });
    } else {
        fields.push(UIValue {
            name: to_owned("command"),
            display_name: to_owned("Command"),
            description: String::new(),
            ty: UIFieldType::InputFieldString,
            value: UIFieldValue::InputFieldString(component.simple_command.clone()),
        });
    }
    fields
}

/// The arguments of a list of rows: the text of each row's `arg` value, where it has one.
pub open spec fn args_of(items: Seq<Seq<UIValue>>) -> Seq<Seq<char>>
    decreases items.len(),
{
    if items.len() == 0 {
        Seq::empty()
    } else {
        let init = args_of(items.drop_last());
        match lookup(items.last(), "arg"@) {
            Some(a) => match text_of(a.value) {
                Some(t) => init.push(t),
                None => init,
            },
            None => init,
        }
    }
}

/// The mode that a list of values sets, if it sets one.
pub open spec fn mode_update(values: Seq<UIValue>) -> Option<bool> {
    match lookup(values, "use_advanced"@) {
        Some(v) => match v.value {
            UIFieldValue::Checkbox(b) => Some(b),
            _ => None,
        },
        None => None,
    }
}

/// The command line that a list of values sets, if it sets one.
pub open spec fn command_update(values: Seq<UIValue>) -> Option<Seq<char>> {
    match lookup(values, "command"@) {
        Some(v) => text_of(v.value),
        None => None,
    }
}

/// The arguments that a list of values sets, if it sets them.
pub open spec fn args_update(values: Seq<UIValue>) -> Option<Seq<Seq<char>>> {
    match lookup(values, "args"@) {
        Some(v) => match v.value {
            UIFieldValue::Array(items) => Some(args_of(items@.map_values(|r: Vec<UIValue>| r@))),
            _ => None,
        },
        None => None,
    }
}

/// Whether `after` is `before` with the values read back into it: each of the mode, the
/// command line and the arguments changes where the values set it, and stays otherwise.
pub open spec fn values_applied(before: RunCommandComponent, after: RunCommandComponent, values: Seq<UIValue>) -> bool {
    &&& after.use_advanced == match mode_update(values) {
        Some(b) => b,
        None => before.use_advanced,
    }
    &&& after.simple_command@ == match command_update(values) {
        Some(t) => t,
        None => before.simple_command@,
    }
    &&& match args_update(values) {
        Some(args) => words(after.advanced_command@) == args,
        None => after.advanced_command@ == before.advanced_command@,
    }
}

/// Reads a run command component back from values of the user interface: each of the mode,
/// the command line and the arguments changes where the values set it, and stays otherwise.
pub fn set_values(component: &mut RunCommandComponent, value: Vec<UIValue>)
    ensures
        values_applied(*old(component), *final(component), value@),
{
    if let Some(v) = find_ui_value(&value, "use_advanced") {
        if let Ok(state) = v.value.try_into_bool() {
            component.use_advanced = state;
        }
    }
    if let Some(v) = find_ui_value(&value, "command") {
        if let Ok(command) = v.value.try_into_string() {
            component.simple_command = command;
        }
    }
    if let Some(v) = find_ui_value(&value, "args") {
        if let UIFieldValue::Array(args) = &v.value {
            let ghost rows = args@.map_values(|r: Vec<UIValue>| r@);
            let mut new_args: Vec<String> = Vec::new();
            let mut i: usize = 0;
            while i < args.len()
                invariant
                    i <= args@.len(),
                    rows == args@.map_values(|r: Vec<UIValue>| r@),
                    words(new_args@) == args_of(rows.take(i as int)),
                decreases args@.len() - i,
            {
                proof {
                    assert(rows.take(i + 1).drop_last() =~= rows.take(i as int));
                    assert(rows.take(i + 1).last() == args@[i as int]@);
                }
                if let Some(a) = find_ui_value(&args[i], "arg") {
                    if let Ok(text) = a.value.try_into_string() {
                        let ghost before = new_args@;
                        new_args.push(text);
                        assert(words(new_args@) =~= words(before).push(new_args@.last()@));
                    }
                }
                i += 1;
            }
            assert(rows.take(args@.len() as int) =~= rows);
            component.advanced_command = new_args;
        }
    }
}

/// The program and arguments that running the component starts: the first word of the
/// command line and the words after it, or in advanced mode the first argument and the ones
/// after it; nothing in advanced mode without arguments.
pub fn command_line(component: &RunCommandComponent) -> (r: Option<(String, Vec<String>)>)
    ensures
        match r {
            Some((program, args)) => {
                let all = if component.use_advanced {
                    words(component.advanced_command@)
                } else {
                    split_on(component.simple_command@, ' ')
                };
                all.len() > 0 && program@ == all[0] && words(args@) == all.drop_first()
            },
            None => component.use_advanced && component.advanced_command@.len() == 0,
        },
{
    let all: Vec<String> = if component.use_advanced {
        let mut v: Vec<String> = Vec::new();
        let mut i: usize = 0;
        while i < component.advanced_command.len()
            invariant
                i <= component.advanced_command@.len(),
                words(v@) == words(component.advanced_command@).take(i as int),
            decreases component.advanced_command@.len() - i,
        {
            let ghost before = v@;
            v.push(component.advanced_command[i].clone());
            assert(words(v@) =~= words(before).push(component.advanced_command@[i as int]@));
            assert(words(component.advanced_command@).take(i + 1) =~= words(component.advanced_command@).take(i as int).push(
                component.advanced_command@[i as int]@,
            ));
            i += 1;
        }
        assert(words(component.advanced_command@).take(component.advanced_command@.len() as int) =~= words(component.advanced_command@));
        v
    } else {
        proof {
            crate::commands::lemma_split_nonempty(component.simple_command@, ' ');
        }
        split_words(component.simple_command.as_str())
    };
    if all.len() == 0 {
        return None;
    }
    let program = all[0].clone();
    let mut args: Vec<String> = Vec::new();
    let mut i: usize = 1;
    while i < all.len()
        invariant
            1 <= i <= all@.len(),
            words(args@) == words(all@).subrange(1, i as int),
        decreases all@.len() - i,
    {
        let ghost before = args@;
        args.push(all[i].clone());
        assert(words(args@) =~= words(before).push(all@[i as int]@));
        assert(words(all@).subrange(1, i + 1) =~= words(all@).subrange(1, i as int).push(all@[i as int]@));
        i += 1;
    }
    assert(words(all@).subrange(1, all@.len() as int) =~= words(all@).drop_first());
    Some((program, args))
}

proof fn lemma_names_known()
    ensures
        "use_advanced"@.len() == 12,
        "command"@.len() == 7,
        "args"@.len() == 4,
        "arg"@.len() == 3,
        "use_advanced"@[0] == 'u',
        "command"@[0] == 'c',
        "args"@[0] == 'a',
{
    reveal_strlit("use_advanced");
    reveal_strlit("command");
    reveal_strlit("args");
    reveal_strlit("arg");
}

proof fn lemma_args_read_back(rows: Seq<Seq<UIValue>>, args: Seq<Seq<char>>)
    requires
        rows.len() == args.len(),
        forall|i: int| 0 <= i < rows.len() ==> arg_row(#[trigger] rows[i], args[i]),
    ensures
        args_of(rows) == args,
    decreases rows.len(),
{
    if rows.len() > 0 {
        let n = rows.len() - 1;
        assert(arg_row(rows[n], args[n]));
        reveal_with_fuel(last_named, 2);
        assert(rows.last().drop_last() =~= Seq::<UIValue>::empty());
        assert(lookup(rows.last(), "arg"@) == Some(rows.last()[0]));
        lemma_args_read_back(rows.drop_last(), args.drop_last());
        assert(args.drop_last().push(args.last()) =~= args);
    } else {
        assert(args =~= Seq::<Seq<char>>::empty());
    }
}

/// Values that show a run command component read back as that component: reading back what
/// `get_values` shows keeps the mode and the shown part, and leaves the other part as it was.
pub proof fn law_values_read_back(v: Seq<UIValue>, c: RunCommandComponent)
    requires
        shows_command(v, c),
    ensures
        mode_update(v) == Some(c.use_advanced),
        c.use_advanced ==> command_update(v) is None && args_update(v) == Some(words(c.advanced_command@)),
        !c.use_advanced ==> command_update(v) == Some(c.simple_command@) && args_update(v) is None,
{
    lemma_names_known();
    reveal_with_fuel(last_named, 3);
    assert(v.drop_last().drop_last() =~= Seq::<UIValue>::empty());
    assert(v.drop_last() =~= seq![v[0]]);
    assert(lookup(v, "use_advanced"@) == Some(v[0]));
    if c.use_advanced {
        assert(lookup(v, "args"@) == Some(v[1]));
        assert(lookup(v, "command"@) is None);
        match v[1].value {
            UIFieldValue::Array(rows) => {
                let rs = rows@.map_values(|r: Vec<UIValue>| r@);
                let args = words(c.advanced_command@);
                assert forall|i: int| 0 <= i < rs.len() implies arg_row(#[trigger] rs[i], args[i]) by {
                    assert(arg_row(rows@[i]@, c.advanced_command@[i]@));
                }
                lemma_args_read_back(rs, args);
            },
            _ => {},
        }
    } else {
        assert(lookup(v, "command"@) == Some(v[1]));
        assert(lookup(v, "args"@) is None);
    }
}

/// Setting a run command component to the values that show it leaves it as it was: the
/// mode, the command line and the arguments are the same.
pub proof fn law_set_shown_values_keeps_component(c: RunCommandComponent, v: Seq<UIValue>, after: RunCommandComponent)
    requires
        shows_command(v, c),
        values_applied(c, after, v),
    ensures
        after.use_advanced == c.use_advanced,
        after.simple_command@ == c.simple_command@,
        words(after.advanced_command@) == words(c.advanced_command@),
{
    law_values_read_back(v, c);
}

} // verus!
