//! The help text of the interactive prompt.

use vstd::prelude::*;
use crate::text::{to_owned, replace_all, replace_text};

verus! {

/// The commands of the prompt with their help lines. A leading `-` in a name, and `[<serial>] `
/// in a help line, are left out when the help is printed.
pub open spec fn command_helps() -> Seq<(Seq<char>, Seq<char>)> {
    seq![
        ("(d)evice (l)ist"@, "- lists all streamdeck devices"@),
        ("(d)evice (a)dd"@, "<serial> - adds specified device to managed"@),
        ("(d)evice (r)emove"@, "<serial> - removes specified device from managed"@),
        ("-(s)elect"@, "<serial> - selects device to be used with device related operations, to unselect, enter 'select' alone"@),
        ("(con)fig (r)eload (a)ll"@, "- reloads all device configs, all unsaved changes will lost"@),
        ("(con)fig (r)eload"@, "[<serial>] - reloads device config for specific/selected device, all unsaved changes will lost"@),
        ("(con)fig (s)ave (a)ll"@, "- saves all device configs"@),
        ("(con)fig save"@, "[<serial>] - saves device config for specific/selected device"@),
        ("(con)fig import"@, "[<serial>] <path> - imports device config from a file for specific/selected device"@),
        ("(con)fig export"@, "[<serial>] <path> - exports device config into a file for specific/selected device"@),
        ("(br)ightness"@, "[<serial>] <0-255> - sets brightness for device, different for each device, but usually 0-100"@),
        ("(ba)ck"@, "[<serial>] - navigates back, even if there's no button for that"@),
        ("(p)ress"@, "[<serial>] <key index> - simulates a press on a button"@),
        ("(m)odule (l)ist"@, "- lists all loaded modules"@),
        ("(m)odule (i)nfo"@, "<name> - prints information about module"@),
        ("(m)odule (p)arams (a)dd"@, "<name> <parameter path> - adds a new element into parameter array"@),
        ("(m)odule (p)arams (r)emove"@, "<name> <parameter path> <element index> - removes element from parameter array"@),
        ("(m)odule (p)arams (s)et"@, "<name> <parameter path> <value> - sets value to module's parameter"@),
        ("(m)odule (p)arams (l)ist"@, "<name> - lists parameters of the module along with values and paths"@),
        ("(com)ponent (l)ist"@, "- lists available components from modules"@),
        ("(com)ponent (i)nfo"@, "<name> - prints information about component"@),
        ("(i)mage (l)ist"@, "[<serial>] [preview size] - lists all images used by a device, optionally sizes images according to provided size"@),
        ("(i)mage (a)dd"@, "[<serial>] <file path> - adds image to device config"@),
        ("(i)mage (r)emove"@, "[<serial>] <identifier> - removes image from device config"@),
        ("(b)utton (l)ist"@, "[<serial>] - lists all buttons defined on current screen"@),
        ("(b)utton (i)nfo"@, "[<serial>] <key index> - provides more detailed information about a button"@),
        ("(b)utton (n)ew"@, "[<serial>] <key index> - creates an empty button on current screen"@),
        ("(b)utton (f)rom"@, "[<serial>] <key index> <component name> - creates a button based on component's template"@),
        ("(b)utton (c)o(p)y"@, "[<serial>] <key index> - saves button to internal clipboard"@),
        ("(b)utton (p)aste"@, "[<serial>] <key index> - creates a new button from internal clipboard"@),
        ("(b)utton (r)emove"@, "[<serial>] <key index> - removes a button on current screen"@),
        ("(b)utton (c)omponent (a)dd"@, "[<serial>] <key index> <component name> - adds component on a button"@),
        ("(b)utton (c)omponent (r)emove"@, "[<serial>] <key index> <component name> - removes component from a button"@),
        ("(b)utton (c)omponent (p)arams (a)dd"@, "[<serial>] <key index> <component name> <parameter path> - adds a new element into parameter array"@),
        ("(b)utton (c)omponent (p)arams (r)emove"@, "[<serial>] <key index> <component name> <parameter path> <element index> - removes element from parameter array"@),
        ("(b)utton (c)omponent (p)arams (s)et"@, "[<serial>] <key index> <component name> <parameter path> <value> - sets value to component's parameter"@),
        ("(b)utton (c)omponent (p)arams (u)pload"@, "[<serial>] <key index> <component name> <parameter path> <file path> - reads binary file and sets that as value to component's parameter"@),
        ("(b)utton (c)omponent (p)arams (l)ist"@, "[<serial>] <key index> <component name> - lists parameters of the component along with values and paths"@)
    ]
}

/// The commands of the prompt with their help lines.
pub fn commands() -> (r: Vec<(&'static str, &'static str)>)
    ensures
        r@.len() == command_helps().len(),
        forall|i: int| 0 <= i < r@.len() ==> (#[trigger] r@[i]).0@ == command_helps()[i].0 && r@[i].1@ == command_helps()[i].1,
{
    let r: Vec<(&'static str, &'static str)> = vec![
        ("(d)evice (l)ist", "- lists all streamdeck devices"),
        ("(d)evice (a)dd", "<serial> - adds specified device to managed"),
        ("(d)evice (r)emove", "<serial> - removes specified device from managed"),
        ("-(s)elect", "<serial> - selects device to be used with device related operations, to unselect, enter 'select' alone"),
        ("(con)fig (r)eload (a)ll", "- reloads all device configs, all unsaved changes will lost"),
        ("(con)fig (r)eload", "[<serial>] - reloads device config for specific/selected device, all unsaved changes will lost"),
        ("(con)fig (s)ave (a)ll", "- saves all device configs"),
        ("(con)fig save", "[<serial>] - saves device config for specific/selected device"),
        ("(con)fig import", "[<serial>] <path> - imports device config from a file for specific/selected device"),
        ("(con)fig export", "[<serial>] <path> - exports device config into a file for specific/selected device"),
        ("(br)ightness", "[<serial>] <0-255> - sets brightness for device, different for each device, but usually 0-100"),
        ("(ba)ck", "[<serial>] - navigates back, even if there's no button for that"),
        ("(p)ress", "[<serial>] <key index> - simulates a press on a button"),
        ("(m)odule (l)ist", "- lists all loaded modules"),
        ("(m)odule (i)nfo", "<name> - prints information about module"),
        ("(m)odule (p)arams (a)dd", "<name> <parameter path> - adds a new element into parameter array"),
        ("(m)odule (p)arams (r)emove", "<name> <parameter path> <element index> - removes element from parameter array"),
        ("(m)odule (p)arams (s)et", "<name> <parameter path> <value> - sets value to module's parameter"),
        ("(m)odule (p)arams (l)ist", "<name> - lists parameters of the module along with values and paths"),
        ("(com)ponent (l)ist", "- lists available components from modules"),
        ("(com)ponent (i)nfo", "<name> - prints information about component"),
        ("(i)mage (l)ist", "[<serial>] [preview size] - lists all images used by a device, optionally sizes images according to provided size"),
        ("(i)mage (a)dd", "[<serial>] <file path> - adds image to device config"),
        ("(i)mage (r)emove", "[<serial>] <identifier> - removes image from device config"),
        ("(b)utton (l)ist", "[<serial>] - lists all buttons defined on current screen"),
        ("(b)utton (i)nfo", "[<serial>] <key index> - provides more detailed information about a button"),
        ("(b)utton (n)ew", "[<serial>] <key index> - creates an empty button on current screen"),
        ("(b)utton (f)rom", "[<serial>] <key index> <component name> - creates a button based on component's template"),
        ("(b)utton (c)o(p)y", "[<serial>] <key index> - saves button to internal clipboard"),
        ("(b)utton (p)aste", "[<serial>] <key index> - creates a new button from internal clipboard"),
        ("(b)utton (r)emove", "[<serial>] <key index> - removes a button on current screen"),
        ("(b)utton (c)omponent (a)dd", "[<serial>] <key index> <component name> - adds component on a button"),
        ("(b)utton (c)omponent (r)emove", "[<serial>] <key index> <component name> - removes component from a button"),
        ("(b)utton (c)omponent (p)arams (a)dd", "[<serial>] <key index> <component name> <parameter path> - adds a new element into parameter array"),
        ("(b)utton (c)omponent (p)arams (r)emove", "[<serial>] <key index> <component name> <parameter path> <element index> - removes element from parameter array"),
        ("(b)utton (c)omponent (p)arams (s)et", "[<serial>] <key index> <component name> <parameter path> <value> - sets value to component's parameter"),
        ("(b)utton (c)omponent (p)arams (u)pload", "[<serial>] <key index> <component name> <parameter path> <file path> - reads binary file and sets that as value to component's parameter"),
        ("(b)utton (c)omponent (p)arams (l)ist", "[<serial>] <key index> <component name> - lists parameters of the component along with values and paths")
    ];
    r
}

/// The characters that Unicode counts as white space.
pub open spec fn is_white(c: char) -> bool {
    ||| '\t' <= c <= '\r'
    ||| c == ' '
    ||| c == '\u{85}'
    ||| c == '\u{a0}'
    ||| c == '\u{1680}'
    ||| '\u{2000}' <= c <= '\u{200a}'
    ||| c == '\u{2028}'
    ||| c == '\u{2029}'
    ||| c == '\u{202f}'
    ||| c == '\u{205f}'
    ||| c == '\u{3000}'
}

fn white(c: char) -> (r: bool)
    ensures
        r == is_white(c),
{
    ('\t' <= c && c <= '\r') || c == ' ' || c == '\u{85}' || c == '\u{a0}' || c == '\u{1680}'
        || ('\u{2000}' <= c && c <= '\u{200a}') || c == '\u{2028}' || c == '\u{2029}' || c == '\u{202f}'
        || c == '\u{205f}' || c == '\u{3000}'
}

/// `s` without its leading white space.
pub open spec fn trim_start(s: Seq<char>) -> Seq<char>
    decreases s.len(),
{
    if s.len() > 0 && is_white(s[0]) {
        trim_start(s.drop_first())
    } else {
        s
    }
}

/// `s` without its trailing white space.
pub open spec fn trim_end(s: Seq<char>) -> Seq<char>
    decreases s.len(),
{
    if s.len() > 0 && is_white(s.last()) {
        trim_end(s.drop_last())
    } else {
        s
    }
}

/// `s` without its leading and trailing white space.
pub open spec fn trimmed(s: Seq<char>) -> Seq<char> {
    trim_end(trim_start(s))
}

/// Takes the leading and trailing white space off `s`.
pub fn trim(s: &str) -> (r: &str)
    ensures
        r@ == trimmed(s@),
{
    let n = s.unicode_len();
    let mut a: usize = 0;
    assert(s@.skip(0) =~= s@);
    while a < n && white(s.get_char(a))
        invariant
            n == s@.len(),
            a <= n,
            trim_start(s@.skip(a as int)) == trim_start(s@),
        decreases n - a,
    {
        assert(s@.skip(a as int).drop_first() =~= s@.skip(a + 1));
        a += 1;
    }
    let mut b: usize = n;
    proof {
        assert(trim_start(s@) == s@.skip(a as int));
        assert(s@.skip(a as int) =~= s@.subrange(a as int, n as int));
    }
    while b > a && white(s.get_char(b - 1))
        invariant
            n == s@.len(),
            a <= b <= n,
            trim_end(s@.subrange(a as int, b as int)) == trimmed(s@),
        decreases b - a,
    {
        assert(s@.subrange(a as int, b as int).drop_last() =~= s@.subrange(a as int, b - 1));
        b -= 1;
    }
    s.substring_char(a, b)
}

/// One line of the help text.
pub open spec fn help_line(name: Seq<char>, line: Seq<char>) -> Seq<char> {
    replace_all(name, "-"@, Seq::empty()) + " "@ + trimmed(replace_all(line, "[<serial>] "@, Seq::empty())) + "\n"@
}

/// The help lines of a list of commands, one after another.
pub open spec fn help_body(cs: Seq<(Seq<char>, Seq<char>)>) -> Seq<char>
    decreases cs.len(),
{
    if cs.len() == 0 {
        Seq::empty()
    } else {
        help_body(cs.drop_last()) + help_line(cs.last().0, cs.last().1)
    }
}

/// The help text of the prompt: a note on the short forms, then one line for each command.
pub fn prompt_help() -> (r: String)
    ensures
        r@ == "Use letters in brackets for shorten variant of the command\n\n"@ + help_body(command_helps()),
{
    let mut help = to_owned("Use letters in brackets for shorten variant of the command\n\n");
    let cs = commands();
    let mut i: usize = 0;
    while i < cs.len()
        invariant
            i <= cs@.len(),
            cs@.len() == command_helps().len(),
            forall|k: int| 0 <= k < cs@.len() ==> (#[trigger] cs@[k]).0@ == command_helps()[k].0 && cs@[k].1@ == command_helps()[k].1,
            help@ == "Use letters in brackets for shorten variant of the command\n\n"@ + help_body(command_helps().take(i as int)),
        decreases cs@.len() - i,
    {
        let (name, help_line_text) = cs[i];
        let name_part = replace_text(name, "-", "");
        let line_part = replace_text(help_line_text, "[<serial>] ", "");
        let trimmed_part = trim(line_part.as_str());
        let ghost before = help@;
        help.append(name_part.as_str());
        help.append(" ");
        help.append(trimmed_part);
        help.append("\n");
        proof {
            reveal_strlit("");
            assert(""@ =~= Seq::<char>::empty());
            assert(command_helps().take(i + 1).drop_last() =~= command_helps().take(i as int));
            assert(command_helps().take(i + 1).last() == command_helps()[i as int]);
            assert(help@ =~= before + help_line(name@, help_line_text@));
        }
        i += 1;
    }
    assert(command_helps().take(cs@.len() as int) =~= command_helps());
    help
}

} // verus!
