use streamduck::key_sequence::{get_values, set_values, KeyAction, KeySequenceComponent};
use streamduck::keys::KeyCode;
use streamduck::ui::{FloatBits, UIFieldType, UIFieldValue, UIValue};

fn value(name: &str, v: UIFieldValue) -> UIValue {
    UIValue {
        name: name.to_string(),
        display_name: String::new(),
        description: String::new(),
        ty: UIFieldType::Label,
        value: v,
    }
}

fn choice(name: &str, c: &str) -> UIValue {
    value(name, UIFieldValue::Choice(c.to_string()))
}

fn actions(rows: Vec<Vec<UIValue>>) -> Vec<UIValue> {
    vec![value("actions", UIFieldValue::Array(rows))]
}

fn sample() -> KeySequenceComponent {
    KeySequenceComponent {
        key_actions: vec![
            KeyAction::Press(KeyCode::Shift),
            KeyAction::Click(KeyCode::Layout('a')),
            KeyAction::Release(KeyCode::Shift),
            KeyAction::Delay(FloatBits(0x3f000000)),
            KeyAction::WriteText("hi".to_string()),
        ],
    }
}

#[test]
fn values_show_one_row_per_action() {
    let values = get_values(&sample());
    assert_eq!(values.len(), 1);
    assert_eq!(values[0].name, "actions");
    assert_eq!(values[0].display_name, "Key Actions");
    match &values[0].value {
        UIFieldValue::Array(rows) => {
            assert_eq!(rows.len(), 5);
            assert_eq!(rows[0].len(), 2);
            assert_eq!(rows[0][0].name, "type");
            assert!(matches!(&rows[0][0].value, UIFieldValue::Choice(c) if c == "Press"));
            assert!(matches!(&rows[0][1].value, UIFieldValue::Choice(c) if c == "Shift"));
            assert_eq!(rows[1].len(), 3);
            assert!(matches!(&rows[1][1].value, UIFieldValue::Choice(c) if c == "Char"));
            assert!(matches!(&rows[1][2].value, UIFieldValue::InputFieldString(c) if c == "a"));
            assert!(matches!(&rows[3][1].value, UIFieldValue::InputFieldFloat(FloatBits(0x3f000000))));
            assert!(matches!(&rows[4][1].value, UIFieldValue::InputFieldString(c) if c == "hi"));
        }
        _ => panic!("actions should be an array"),
    }
}

#[test]
fn values_read_back_as_the_same_actions() {
    let original = sample();
    let values = get_values(&original);
    let mut component = KeySequenceComponent::default();
    set_values(&mut component, values);
    assert_eq!(format!("{:?}", component.key_actions), format!("{:?}", original.key_actions));
}

#[test]
fn values_without_actions_leave_component_unchanged() {
    let mut component = sample();
    set_values(&mut component, vec![choice("other", "x")]);
    assert_eq!(component.key_actions.len(), 5);
    set_values(&mut component, vec![value("actions", UIFieldValue::Label("no".to_string()))]);
    assert_eq!(component.key_actions.len(), 5);
}

#[test]
fn missing_values_take_defaults() {
    let mut component = KeySequenceComponent::default();
    set_values(
        &mut component,
        actions(vec![
            vec![choice("type", "Click")],
            vec![choice("type", "Delay")],
            vec![choice("type", "Write Text")],
            vec![choice("type", "Press"), choice("key", "Char")],
        ]),
    );
    assert_eq!(
        format!("{:?}", component.key_actions),
        format!(
            "{:?}",
            vec![
                KeyAction::Click(KeyCode::Alt),
                KeyAction::Delay(FloatBits(0)),
                KeyAction::WriteText(String::new()),
                KeyAction::Press(KeyCode::Layout(' ')),
            ]
        )
    );
}

#[test]
fn rows_that_stand_for_no_action_are_skipped() {
    let mut component = KeySequenceComponent::default();
    set_values(
        &mut component,
        actions(vec![
            vec![choice("type", "Jump")],
            vec![choice("key", "Alt")],
            vec![choice("type", "Press"), choice("key", "Nope")],
            vec![choice("type", "Press"), choice("key", "Char"), value("char", UIFieldValue::InputFieldString(String::new()))],
            vec![choice("type", "Delay"), value("delay", UIFieldValue::Checkbox(true))],
            vec![choice("type", "Release"), choice("key", "Tab")],
        ]),
    );
    assert_eq!(format!("{:?}", component.key_actions), format!("{:?}", vec![KeyAction::Release(KeyCode::Tab)]));
}

#[test]
fn last_value_of_a_name_counts() {
    let mut component = KeySequenceComponent::default();
    set_values(
        &mut component,
        actions(vec![vec![choice("type", "Press"), choice("key", "Tab"), choice("key", "Home")]]),
    );
    assert_eq!(format!("{:?}", component.key_actions), format!("{:?}", vec![KeyAction::Press(KeyCode::Home)]));
}
