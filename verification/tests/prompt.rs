use streamduck::prompt::PromptAction;
use streamduck::prompt::{parse_prompt_line, CommandKind};

fn args(v: &[&str]) -> Vec<String> {
    v.iter().map(|s| s.to_string()).collect()
}

#[test]
fn long_and_short_names_are_read() {
    let c = parse_prompt_line("device list");
    assert_eq!(c.kind, CommandKind::DeviceList);
    assert_eq!(parse_prompt_line("d l").kind, CommandKind::DeviceList);
    assert_eq!(parse_prompt_line("m p s name path 5").kind, CommandKind::ModuleParamsSet);
    assert_eq!(parse_prompt_line("m p s name path 5").args, args(&["name", "path", "5"]));
    assert_eq!(parse_prompt_line("b cp 3").kind, CommandKind::ButtonCopy);
    assert_eq!(parse_prompt_line("b cp 3").args, args(&["3"]));
}

#[test]
fn line_is_trimmed_before_splitting() {
    let c = parse_prompt_line("  select ABC  ");
    assert_eq!(c.kind, CommandKind::Select);
    assert_eq!(c.args, args(&["ABC"]));
}

#[test]
fn unknown_commands_are_reported_per_group() {
    assert_eq!(parse_prompt_line("").kind, CommandKind::Unknown);
    assert_eq!(parse_prompt_line("launch").kind, CommandKind::Unknown);
    assert_eq!(parse_prompt_line("device").kind, CommandKind::DeviceUnknown);
    assert_eq!(parse_prompt_line("device fly").kind, CommandKind::DeviceUnknown);
    assert_eq!(parse_prompt_line("module params").kind, CommandKind::ModuleParamsUnknown);
    assert_eq!(parse_prompt_line("font x").kind, CommandKind::FontUnknown);
}

#[test]
fn back_goes_back_or_drops() {
    assert_eq!(parse_prompt_line("back").kind, CommandKind::Back);
    assert_eq!(parse_prompt_line("ba drop").kind, CommandKind::BackDrop);
    assert_eq!(parse_prompt_line("back up").kind, CommandKind::BackUnknown);
}

#[test]
fn simple_commands_keep_their_arguments() {
    let c = parse_prompt_line("brightness 50");
    assert_eq!(c.kind, CommandKind::Brightness);
    assert_eq!(c.args, args(&["50"]));
    assert_eq!(parse_prompt_line("help").kind, CommandKind::Help);
    assert_eq!(parse_prompt_line("exit").kind, CommandKind::Exit);
    assert_eq!(parse_prompt_line("stack").kind, CommandKind::Stack);
    assert_eq!(parse_prompt_line("p 4").kind, CommandKind::Press);
    let c = parse_prompt_line("b c a 1 renderer");
    assert_eq!(c.kind, CommandKind::ButtonComponent);
    assert_eq!(c.args, args(&["a", "1", "renderer"]));
}

fn step(sn: &str, line: &str) -> streamduck::prompt::PromptAction {
    streamduck::prompt::prompt_step(sn, &parse_prompt_line(line))
}

fn printed(sn: &str, line: &str) -> String {
    match step(sn, line) {
        PromptAction::Print(m) => m,
        other => panic!("expected a message, got {:?}", other),
    }
}

#[test]
fn component_values_are_asked_for_with_a_valid_key() {
    match step("SN1", "button component params list 2 renderer") {
        PromptAction::ListComponentValues(k, c) => {
            assert_eq!(k, 2);
            assert_eq!(c, "renderer");
        }
        other => panic!("unexpected {:?}", other),
    }
    assert!(matches!(step("SN1", "b c p l 255 x"), PromptAction::ListComponentValues(255, _)));
}

#[test]
fn component_values_listing_refuses_a_bad_key_without_asking() {
    assert_eq!(printed("SN1", "button component params list x renderer"),
        "button component params list: Input valid key index (0-255)");
    assert_eq!(printed("SN1", "button component params list 256 renderer"),
        "button component params list: Input valid key index (0-255)");
    assert_eq!(printed("SN1", "button component params list"),
        "button component params list: Input valid key index (0-255)");
    assert_eq!(printed("SN1", "button component params list 3"),
        "button component params list: Specify component name");
    assert_eq!(printed("", "button component params list 3 renderer"),
        "button component: No device is selected");
    assert_eq!(printed("SN1", "button component params fly"), "button component params: Unknown command");
    assert_eq!(printed("SN1", "button component fly"), "button component: Unknown command");
    match step("SN1", "button component params set 1 c p 5 6") {
        PromptAction::SetComponentValue(k, c, p, rest) => {
            assert_eq!((k, c.as_str(), p.as_str()), (1, "c", "p"));
            assert_eq!(rest, vec!["5".to_string(), "6".to_string()]);
        }
        other => panic!("unexpected {:?}", other),
    }
    assert!(matches!(step("SN1", "button component params remove 1 c p 0"), PromptAction::RemoveComponentElement(1, _, _, 0)));
    assert_eq!(printed("SN1", "button component params remove 1 c p x"), "button component params remove: Input valid array index");
    assert_eq!(printed("SN1", "button component params remove 1 c p"), "button component params remove: Input valid array index");
    assert_eq!(printed("SN1", "button component params remove 1 c"), "button component params remove: Specify parameter path");
}

#[test]
fn prompt_commands_check_their_arguments() {
    assert!(matches!(step("", "help"), PromptAction::Help));
    assert!(matches!(step("", "exit"), PromptAction::Exit));
    assert!(matches!(step("SN1", "select"), PromptAction::Unselect));
    match step("", "select SN2") {
        PromptAction::Select(s) => assert_eq!(s, "SN2"),
        other => panic!("unexpected {:?}", other),
    }
    assert!(matches!(step("SN1", "brightness 40"), PromptAction::SetBrightness(40)));
    assert_eq!(printed("SN1", "brightness 300"), "brightness: Input valid brightness value (0-255)");
    assert_eq!(printed("", "brightness 40"), "brightness: No device is selected");
    assert!(matches!(step("SN1", "back"), PromptAction::PopScreen));
    assert!(matches!(step("SN1", "back drop"), PromptAction::DropStack));
    assert_eq!(printed("SN1", "back up"), "back: Unknown command");
    assert_eq!(printed("", "back"), "back: No device is selected");
    assert!(matches!(step("SN1", "press 7"), PromptAction::Press(7)));
    assert_eq!(printed("SN1", "press"), "press: Input valid key index (0-255)");
    assert_eq!(printed("", "press 7"), "press: No device is selected");
    assert!(matches!(step("SN1", "b cp 4"), PromptAction::CopyButton(4)));
    assert_eq!(printed("", "b cp 4"), "button copy: No device is selected");
    assert!(matches!(step("SN1", "b p 4"), PromptAction::PasteButton(4)));
    assert_eq!(printed("SN1", "b p -1"), "button paste: Input valid key index (0-255)");
    assert_eq!(printed("SN1", "launch"), "Unknown command");
    assert_eq!(printed("SN1", "device"), "device: Unknown command");
    assert!(matches!(step("SN1", "device list"), PromptAction::ListDevices));
}

#[test]
fn group_commands_check_their_arguments() {
    assert_eq!(printed("", "device add"), "device add: Specify serial number");
    assert!(matches!(step("", "device add AB12"), PromptAction::AddDevice(ref s) if s == "AB12"));
    assert_eq!(printed("", "device remove"), "device remove: Specify serial number");
    assert!(matches!(step("", "d r AB12"), PromptAction::RemoveDevice(ref s) if s == "AB12"));
    assert!(matches!(step("", "config reload all"), PromptAction::ReloadAllConfigs));
    assert_eq!(printed("", "config reload"), "config reload: No device is selected");
    assert!(matches!(step("SN1", "config reload"), PromptAction::ReloadConfig));
    assert_eq!(printed("SN1", "config save some"), "config save: Unknown operation");
    assert!(matches!(step("SN1", "con s"), PromptAction::SaveConfig));
    assert!(matches!(step("", "con s all"), PromptAction::SaveAllConfigs));
    assert_eq!(printed("", "config import f.json"), "config import: No device is selected");
    assert_eq!(printed("SN1", "config export"), "config export: Specify path");
    assert!(matches!(step("SN1", "config export f.json"), PromptAction::ExportConfig(ref p) if p == "f.json"));
    assert!(matches!(step("SN1", "config import f.json"), PromptAction::ImportConfig(ref p) if p == "f.json"));
    assert_eq!(printed("", "button new 3"), "button new: No device is selected");
    assert_eq!(printed("SN1", "button new x"), "button new: Input valid key index (0-255)");
    assert!(matches!(step("SN1", "b n 3"), PromptAction::NewButton(3)));
    assert_eq!(printed("SN1", "button from 3"), "button from: Specify component name");
    assert_eq!(printed("SN1", "button from 300 folder"), "button from: Input valid key index (0-255)");
    assert!(matches!(step("SN1", "b f 3 folder"), PromptAction::NewButtonFrom(3, ref c) if c == "folder"));
    assert!(matches!(step("SN1", "b r 4"), PromptAction::ClearButton(4)));
    assert_eq!(printed("SN1", "button remove"), "button remove: Input valid key index (0-255)");
    assert!(matches!(step("SN1", "b c a 4 folder"), PromptAction::AddComponent(4, ref c) if c == "folder"));
    assert_eq!(printed("SN1", "b c a 4"), "button component add: Specify component name");
    assert_eq!(printed("SN1", "b c r"), "button component remove: Input valid key index (0-255)");
    assert!(matches!(step("SN1", "b c r 4 folder"), PromptAction::RemoveComponent(4, ref c) if c == "folder"));
    assert_eq!(printed("SN1", "b c p a 4"), "button component params add: Specify component");
    assert_eq!(printed("SN1", "b c p a 4 folder"), "button component params add: Specify parameter path");
    assert!(matches!(step("SN1", "b c p a 4 folder items"), PromptAction::AddComponentElement(4, _, ref p) if p == "items"));
    assert_eq!(printed("SN1", "b c p u x"), "button component params upload: Input valid key index (0-255)");
    match step("SN1", "b c p u 4 renderer image my file.png") {
        PromptAction::UploadComponentImage(4, c, p, rest) => {
            assert_eq!((c.as_str(), p.as_str()), ("renderer", "image"));
            assert_eq!(rest.join(" "), "my file.png");
        }
        other => panic!("unexpected {:?}", other),
    }
}

#[test]
fn module_and_info_commands_check_their_arguments() {
    assert_eq!(printed("", "component info"), "component info: Specify name");
    assert!(matches!(step("", "com i folder"), PromptAction::ComponentInfo(ref n) if n == "folder"));
    assert_eq!(printed("", "button list"), "button list: No device is selected");
    assert!(matches!(step("SN1", "b l"), PromptAction::ListButtons));
    assert_eq!(printed("SN1", "button info"), "button info: Input valid key index (0-255)");
    assert!(matches!(step("SN1", "b i 9"), PromptAction::ButtonInfo(9)));
    assert_eq!(printed("", "module info"), "module info: Specify name");
    assert!(matches!(step("", "m i core"), PromptAction::ModuleInfo(ref n) if n == "core"));
    assert_eq!(printed("", "module params add"), "module params add: Specify component");
    assert_eq!(printed("", "module params set core"), "module params set: Specify parameter path");
    assert_eq!(printed("", "module params upload"), "module params upload: Specify module name");
    assert!(matches!(step("", "m p a core list"), PromptAction::AddModuleElement(ref m, ref p) if m == "core" && p == "list"));
    match step("", "m p s core renderer.blacklist true") {
        PromptAction::SetModuleValue(m, p, rest) => {
            assert_eq!((m.as_str(), p.as_str()), ("core", "renderer.blacklist"));
            assert_eq!(rest, vec!["true".to_string()]);
        }
        other => panic!("unexpected {:?}", other),
    }
    assert_eq!(printed("", "module params list"), "module params list: Specify module name");
    assert!(matches!(step("", "m p l core"), PromptAction::ListModuleValues(ref m) if m == "core"));
    assert_eq!(printed("", "image remove id"), "image remove: No device is specified");
    assert_eq!(printed("SN1", "image remove"), "image remove: Specify identifier");
    assert!(matches!(step("SN1", "i r id"), PromptAction::RemoveImage(ref i) if i == "id"));
    assert!(matches!(step("SN1", "m p r core list 18446744073709551615"), PromptAction::RemoveModuleElement(_, _, 18446744073709551615)));
    assert_eq!(printed("", "m p r core list 18446744073709551616"), "module params remove: Input valid array index");
    assert_eq!(printed("", "m p r core"), "module params remove: Specify parameter path");
    assert_eq!(printed("", "m p r"), "module params remove: Specify component");
    assert!(matches!(step("", "i l"), PromptAction::Handler));
}
