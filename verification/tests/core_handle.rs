use serde_json::Value;
use streamduck::button::Button;
use streamduck::config::DeviceConfig;
use streamduck::features::PluginMetadata;
use streamduck::keyed::KeyedList;
use streamduck::modules::{ComponentDefinition, ModuleManager, SDModule};
use streamduck::panel::RawButtonPanel;
use streamduck::render::RendererComponent;
use streamduck::sdcore::{core_event_to_global, CoreHandle, DeviceThreadCommunication, SDCore, SDCoreEvent, SDGlobalEvent};
use streamduck::ui::{UIFieldType, UIFieldValue, UIValue};

struct Counter {
    name: String,
    listens: Vec<String>,
}

impl SDModule for Counter {
    fn name(&self) -> String {
        self.name.clone()
    }

    fn components(&self) -> Vec<(String, ComponentDefinition)> {
        vec![(
            format!("{}_comp", self.name),
            ComponentDefinition { display_name: "C".to_string(), description: "D".to_string(), default_looks: RendererComponent::default() },
        )]
    }

    fn add_component(&self, button: &mut Button, name: &str) {
        button.insert_component(name.to_string(), Value::from(0));
    }

    fn paste_component(&self, reference_button: &Button, new_button: &mut Button) {
        let own = format!("{}_comp", self.name);
        if let Some(v) = reference_button.get_component(&own) {
            new_button.insert_component(own, v.clone());
        }
    }

    fn remove_component(&self, button: &mut Button, name: &str) {
        button.remove_component(name);
    }

    fn component_values(&self, button: &Button, name: &str) -> Vec<UIValue> {
        let v = button.get_component(name).and_then(|v| v.as_i64()).unwrap_or(-1);
        vec![UIValue {
            name: "count".to_string(),
            display_name: "Count".to_string(),
            description: String::new(),
            ty: UIFieldType::InputFieldInteger,
            value: UIFieldValue::InputFieldInteger(v as i32),
        }]
    }

    fn set_component_value(&self, button: &mut Button, name: &str, value: Vec<UIValue>) {
        if let Some(UIValue { value: UIFieldValue::InputFieldInteger(i), .. }) = value.first() {
            button.insert_component(name.to_string(), Value::from(*i));
        }
    }

    fn listening_for(&self) -> Vec<String> {
        self.listens.clone()
    }

    fn metadata(&self) -> PluginMetadata {
        PluginMetadata::default()
    }
}

fn handle() -> CoreHandle<Counter> {
    let mut manager = ModuleManager::new();
    manager.add_module(Counter { name: "alpha".to_string(), listens: vec!["alpha_comp".to_string()] });
    manager.add_module(Counter { name: "beta".to_string(), listens: vec![] });
    let config = DeviceConfig {
        vid: 1,
        pid: 2,
        serial: "SN".to_string(),
        brightness: 50,
        layout: RawButtonPanel::new("root".to_string(), Value::Null),
        plugin_data: KeyedList::new(),
        dirty_state: false,
    };
    let mut h = CoreHandle::wrap(SDCore::new("SN".to_string(), manager, config));
    h.push_screen(RawButtonPanel::new("root".to_string(), Value::Null));
    h
}

#[test]
fn set_then_get_gives_the_button() {
    let mut h = handle();
    let mut b = Button::new();
    b.insert_component("alpha_comp".to_string(), Value::from(3));
    assert!(h.set_button(4, b));
    let got = h.get_button(4).unwrap();
    assert_eq!(got.get_component("alpha_comp"), Some(&Value::from(3)));
    assert!(h.get_button(5).is_none());
    assert!(h.clear_button(4));
    assert!(h.get_button(4).is_none());
    assert!(!h.clear_button(4));
}

#[test]
fn stack_operations_keep_the_stack() {
    let mut h = handle();
    assert_eq!(h.current_stack().len(), 1);
    h.push_screen(RawButtonPanel::new("second".to_string(), Value::Null));
    assert_eq!(h.get_current_screen().unwrap().display_name, "second");
    h.replace_screen(RawButtonPanel::new("third".to_string(), Value::Null));
    assert_eq!(h.get_stack().len(), 2);
    assert_eq!(h.get_current_screen().unwrap().display_name, "third");
    h.pop_screen();
    assert_eq!(h.get_current_screen().unwrap().display_name, "root");
    h.reset_stack(RawButtonPanel::new("fresh".to_string(), Value::Null));
    assert_eq!(h.get_stack().len(), 1);
    assert_eq!(h.get_root_screen().display_name, "fresh");
    h.pop_screen();
    assert!(h.get_current_screen().is_none());
    h.pop_screen();
    assert!(h.current_stack().is_empty());
}

#[test]
fn components_go_through_their_modules() {
    let mut h = handle();
    assert!(h.set_button(1, Button::new()));
    assert!(!h.remove_component(1, "alpha_comp"));
    assert!(h.add_component(1, "alpha_comp"));
    assert!(!h.add_component(1, "alpha_comp"));
    assert!(!h.add_component(1, "unknown"));
    assert!(!h.add_component(2, "alpha_comp"));
    let values = h.get_component_values(1, "alpha_comp").unwrap();
    assert!(matches!(values[0].value, UIFieldValue::InputFieldInteger(0)));
    let set = vec![UIValue { name: "count".to_string(), display_name: String::new(), description: String::new(), ty: UIFieldType::InputFieldInteger, value: UIFieldValue::InputFieldInteger(9) }];
    assert!(h.set_component_value(1, "alpha_comp", set));
    assert!(matches!(h.get_component_values(1, "alpha_comp").unwrap()[0].value, UIFieldValue::InputFieldInteger(9)));
    assert!(h.remove_component(1, "alpha_comp"));
    assert!(h.get_component_values(1, "alpha_comp").is_none());
}

#[test]
fn events_go_to_every_module() {
    let mut h = handle();
    let before = h.get_core().notices.len();
    h.button_down(3);
    let notice = &h.get_core().notices[before];
    assert!(matches!(notice.event, SDCoreEvent::ButtonDown { key: 3 }));
    assert_eq!(notice.recipients, vec!["alpha".to_string(), "beta".to_string()]);
    assert_eq!(notice.recipients, h.get_core().module_manager.get_module_list());
}

#[test]
fn events_follow_the_order_modules_were_added_in() {
    let mut manager = ModuleManager::new();
    manager.add_module(Counter { name: "zeta".to_string(), listens: vec![] });
    manager.add_module(Counter { name: "alpha".to_string(), listens: vec![] });
    manager.add_module(Counter { name: "zeta".to_string(), listens: vec![] });
    let config = DeviceConfig {
        vid: 1,
        pid: 2,
        serial: "SN".to_string(),
        brightness: 50,
        layout: RawButtonPanel::new("root".to_string(), Value::Null),
        plugin_data: KeyedList::new(),
        dirty_state: false,
    };
    let mut h = CoreHandle::wrap(SDCore::new("SN".to_string(), manager, config));
    h.button_down(1);
    assert_eq!(h.get_core().notices[0].recipients, vec!["zeta".to_string(), "alpha".to_string()]);
}

#[test]
fn pressing_a_button_reaches_its_listeners_and_sockets() {
    let mut h = handle();
    let mut b = Button::new();
    b.insert_component("alpha_comp".to_string(), Value::from(1));
    h.set_button(2, b);
    let before = h.get_core().notices.len();
    h.button_up(2);
    let notices = &h.get_core().notices;
    assert_eq!(notices.len(), before + 2);
    assert!(matches!(notices[before].event, SDCoreEvent::ButtonUp { key: 2 }));
    assert!(matches!(notices[before + 1].event, SDCoreEvent::ButtonAction { key: 2, .. }));
    assert_eq!(notices[before + 1].recipients, vec!["alpha".to_string()]);
    assert_eq!(h.socket_manager().sent.len(), 1);
    assert_eq!(h.socket_manager().sent[0].0, "SN");
    h.button_up(7);
    assert_eq!(h.get_core().notices.len(), before + 3);
    assert_eq!(h.socket_manager().sent.len(), 1);
}

#[test]
fn brightness_and_commits_reach_the_device_config() {
    let mut h = handle();
    h.set_brightness(80);
    assert_eq!(h.get_core().commands, vec![DeviceThreadCommunication::SetBrightness(80)]);
    assert_eq!(h.get_core().device_config.brightness, 80);
    assert!(h.set_button(9, Button::new()));
    h.commit_changes();
    assert!(h.get_core().device_config.layout.buttons.contains_key(&9));
}

#[test]
fn features_are_checked_for_the_acting_module() {
    let h = handle();
    assert!(h.check_for_feature("core_methods"));
    assert_eq!(h.required_feature("core_methods"), None);
    assert!(!h.check_for_feature("nonexistent"));
    assert!(h.required_feature("nonexistent").is_some());
}

#[test]
fn paste_asks_the_declaring_modules() {
    let mut h = handle();
    let mut reference = Button::new();
    reference.insert_component("alpha_comp".to_string(), Value::from(5));
    reference.insert_component("beta_comp".to_string(), Value::from(6));
    reference.insert_component("stray".to_string(), Value::from(7));
    assert!(h.paste_button(2, &reference));
    let got = h.get_button(2).unwrap();
    assert_eq!(got.get_component("alpha_comp"), Some(&Value::from(5)));
    assert_eq!(got.get_component("beta_comp"), Some(&Value::from(6)));
    // no module declares the stray component, so nothing copies it
    assert!(got.get_component("stray").is_none());
    h.reset_stack(RawButtonPanel::new("fresh".to_string(), Value::Null));
    h.pop_screen();
    assert!(!h.paste_button(2, &reference));
}

#[test]
fn handle_for_another_module() {
    let h = handle();
    let module = Counter { name: "gamma".to_string(), listens: vec![] };
    let other = h.clone_for(&module);
    assert_eq!(other.module_name, "gamma");
    assert_eq!(other.core.serial_number, "SN");
}

#[test]
fn core_events_become_global_with_the_serial() {
    match core_event_to_global(SDCoreEvent::ButtonDown { key: 3 }, "SN9") {
        SDGlobalEvent::ButtonDown { serial_number, key } => {
            assert_eq!(serial_number, "SN9");
            assert_eq!(key, 3);
        }
        _ => panic!("wrong event"),
    }
    let panel = RawButtonPanel::new("p".to_string(), Value::Null);
    match core_event_to_global(SDCoreEvent::PanelReplaced { old_panel: None, new_panel: panel }, "X") {
        SDGlobalEvent::PanelReplaced { serial_number, old_panel, new_panel } => {
            assert_eq!(serial_number, "X");
            assert!(old_panel.is_none());
            assert_eq!(new_panel.display_name, "p");
        }
        _ => panic!("wrong event"),
    }
}

#[test]
fn events_reach_the_acting_module_too() {
    let h = handle();
    let alpha = Counter { name: "alpha".to_string(), listens: vec!["alpha_comp".to_string()] };
    let mut h = h.clone_for(&alpha);
    let mut b = Button::new();
    b.insert_component("alpha_comp".to_string(), Value::from(1));
    h.set_button(2, b);
    let before = h.get_core().notices.len();
    h.button_down(2);
    let mut recipients = h.get_core().notices[before].recipients.clone();
    recipients.sort();
    assert_eq!(recipients, vec!["alpha".to_string(), "beta".to_string()]);
    h.button_action(2);
    assert_eq!(h.get_core().notices[before + 1].recipients, vec!["alpha".to_string()]);
}
