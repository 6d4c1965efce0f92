use streamduck::run_command::{command_line, get_values, set_values, RunCommandComponent};
use streamduck::ui::{UIFieldType, UIFieldValue, UIValue};

fn value(name: &str, v: UIFieldValue) -> UIValue {
    UIValue { name: name.to_string(), display_name: String::new(), description: String::new(), ty: UIFieldType::Label, value: v }
}

#[test]
fn simple_mode_shows_command_line() {
    let c = RunCommandComponent { simple_command: "echo hi".to_string(), advanced_command: vec![], use_advanced: false };
    let values = get_values(&c);
    assert_eq!(values.len(), 2);
    assert!(matches!(values[0].value, UIFieldValue::Checkbox(false)));
    assert_eq!(values[1].name, "command");
    assert!(matches!(&values[1].value, UIFieldValue::InputFieldString(s) if s == "echo hi"));
}

#[test]
fn advanced_mode_shows_arguments() {
    let c = RunCommandComponent {
        simple_command: String::new(),
        advanced_command: vec!["ls".to_string(), "-l".to_string()],
        use_advanced: true,
    };
    let values = get_values(&c);
    assert_eq!(values[1].name, "args");
    match &values[1].value {
        UIFieldValue::Array(rows) => {
            assert_eq!(rows.len(), 2);
            assert!(matches!(&rows[1][0].value, UIFieldValue::InputFieldString(s) if s == "-l"));
        }
        _ => panic!("args should be an array"),
    }
}

#[test]
fn values_read_back_as_the_component() {
    for c in [
        RunCommandComponent { simple_command: "a b".to_string(), advanced_command: vec!["x".to_string()], use_advanced: false },
        RunCommandComponent { simple_command: "a b".to_string(), advanced_command: vec!["x".to_string(), "y".to_string()], use_advanced: true },
    ] {
        let values = get_values(&c);
        let mut back = RunCommandComponent { simple_command: "a b".to_string(), advanced_command: vec!["x".to_string()], use_advanced: !c.use_advanced };
        if c.use_advanced {
            back.advanced_command = vec![];
        }
        set_values(&mut back, values);
        assert_eq!(back.use_advanced, c.use_advanced);
        assert_eq!(back.simple_command, c.simple_command);
        assert_eq!(back.advanced_command, c.advanced_command);
    }
}

#[test]
fn values_change_only_what_they_set() {
    let mut c = RunCommandComponent::default();
    set_values(&mut c, vec![value("command", UIFieldValue::InputFieldString("run".to_string()))]);
    assert_eq!(c.simple_command, "run");
    assert!(!c.use_advanced);
    set_values(&mut c, vec![value("use_advanced", UIFieldValue::InputFieldString("yes".to_string()))]);
    assert!(!c.use_advanced);
    set_values(
        &mut c,
        vec![value("args", UIFieldValue::Array(vec![vec![value("arg", UIFieldValue::InputFieldString("p".to_string()))], vec![value("other", UIFieldValue::Button)]]))],
    );
    assert_eq!(c.advanced_command, vec!["p".to_string()]);
    assert_eq!(c.simple_command, "run");
}

#[test]
fn command_line_splits_program_from_arguments() {
    let simple = RunCommandComponent { simple_command: "echo a  b".to_string(), advanced_command: vec![], use_advanced: false };
    assert_eq!(command_line(&simple), Some(("echo".to_string(), vec!["a".to_string(), "".to_string(), "b".to_string()])));
    let advanced = RunCommandComponent { simple_command: String::new(), advanced_command: vec!["ls".to_string(), "a b".to_string()], use_advanced: true };
    assert_eq!(command_line(&advanced), Some(("ls".to_string(), vec!["a b".to_string()])));
    let empty = RunCommandComponent { simple_command: String::new(), advanced_command: vec![], use_advanced: true };
    assert_eq!(command_line(&empty), None);
    let blank = RunCommandComponent::default();
    assert_eq!(command_line(&blank), Some((String::new(), vec![])));
}
