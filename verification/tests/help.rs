use streamduck::help::{commands, prompt_help, trim};
use streamduck::text::replace_text;

#[test]
fn help_starts_with_note_and_has_a_line_per_command() {
    let help = prompt_help();
    assert!(help.starts_with("Use letters in brackets for shorten variant of the command\n\n"));
    let lines: Vec<&str> = help.lines().collect();
    assert_eq!(lines.len(), 2 + commands().len());
    assert_eq!(lines[2], "(d)evice (l)ist - lists all streamdeck devices");
}

#[test]
fn help_drops_dash_and_serial_placeholder() {
    let help = prompt_help();
    assert!(help.contains("\n(s)elect <serial> - selects device to be used with device related operations, to unselect, enter 'select' alone\n"));
    assert!(help.contains("\n(con)fig (r)eload - reloads device config for specific/selected device, all unsaved changes will lost\n"));
    assert!(help.contains("\n(b)utton (c)o(p)y <key index> - saves button to internal clipboard\n"));
    assert!(!help.contains("[<serial>]"));
}

#[test]
fn trim_takes_white_space_off_both_ends() {
    assert_eq!(trim("  a b \t\n"), "a b");
    assert_eq!(trim("   "), "");
    assert_eq!(trim("x"), "x");
    assert_eq!(trim("\u{3000}x\u{a0}"), "x");
}

#[test]
fn replace_scans_from_the_left() {
    assert_eq!(replace_text("aaa", "aa", "b"), "ba");
    assert_eq!(replace_text("a-b-c", "-", ""), "abc");
    assert_eq!(replace_text("{0}{1}{0}", "{0}", "x"), "x{1}x");
    assert_eq!(replace_text("abc", "", "z"), "abc");
}
