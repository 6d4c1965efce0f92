use serde_json::Value;
use streamduck::button::Button;
use streamduck::config::DeviceConfig;
use streamduck::features::PluginMetadata;
use streamduck::keyed::KeyedList;
use streamduck::manager::CoreManager;
use streamduck::modules::{ComponentDefinition, ModuleManager, SDModule};
use streamduck::panel::RawButtonPanel;
use streamduck::sdcore::{DeviceThreadCommunication, SDCore};
use streamduck::settings::{default_device_config, Config};
use streamduck::ui::UIValue;

struct Quiet;

impl SDModule for Quiet {
    fn name(&self) -> String {
        "quiet".to_string()
    }

    fn components(&self) -> Vec<(String, ComponentDefinition)> {
        vec![]
    }

    fn add_component(&self, _button: &mut Button, _name: &str) {}

    fn paste_component(&self, _reference_button: &Button, _new_button: &mut Button) {}

    fn remove_component(&self, _button: &mut Button, _name: &str) {}

    fn component_values(&self, _button: &Button, _name: &str) -> Vec<UIValue> {
        vec![]
    }

    fn set_component_value(&self, _button: &mut Button, _name: &str, _value: Vec<UIValue>) {}

    fn listening_for(&self) -> Vec<String> {
        vec![]
    }

    fn metadata(&self) -> PluginMetadata {
        PluginMetadata::default()
    }
}

fn blank_core(serial: &str) -> SDCore<Quiet> {
    let config = DeviceConfig {
        vid: 1,
        pid: 2,
        serial: serial.to_string(),
        brightness: 50,
        layout: RawButtonPanel::new("Root".to_string(), Value::Null),
        plugin_data: KeyedList::new(),
        dirty_state: false,
    };
    SDCore::new(serial.to_string(), ModuleManager::new(), config)
}

#[test]
fn add_device_once() {
    let mut m: CoreManager<Quiet> = CoreManager::new();
    assert!(!m.is_device_added("AA"));
    assert!(m.add_device(0x0fd9, 0x0060, "AA", blank_core("AA")));
    assert!(m.is_device_added("AA"));
    // a second add keeps the first data
    assert!(!m.add_device(7, 8, "AA", blank_core("AA")));
    let d = m.get_device("AA").unwrap();
    assert_eq!((d.vid, d.pid, d.serial.as_str()), (0x0fd9, 0x0060, "AA"));
    assert_eq!(m.list_added_devices(), vec!["AA".to_string()]);
}

#[test]
fn add_then_remove_round_trip() {
    let mut m: CoreManager<Quiet> = CoreManager::new();
    m.add_device(1, 2, "BB", blank_core("BB"));
    let removed = m.remove_device("BB").unwrap();
    assert_eq!(removed.serial, "BB");
    assert!(!m.is_device_added("BB"));
    assert!(m.remove_device("BB").is_none());
    assert!(m.list_added_devices().is_empty());
}

#[test]
fn closed_core_is_not_handed_out() {
    let mut m: CoreManager<Quiet> = CoreManager::new();
    let mut c = blank_core("CC");
    c.close();
    assert!(c.is_closed());
    m.add_device(1, 2, "CC", c);
    m.add_device(1, 2, "DD", blank_core("DD"));
    assert!(m.get_device("CC").is_none());
    assert!(m.get_device("DD").is_some());
    assert!(m.get_device("EE").is_none());
    assert_eq!(m.get_disconnected(), vec![(1, 2, "CC".to_string())]);
}

#[test]
fn connect_device_results() {
    let mut m: CoreManager<Quiet> = CoreManager::new();
    let mut config = Config::default();
    assert_eq!(m.connect_device(&mut config, 1, 2, "FF", None), Err("Failed to connect".to_string()));
    assert!(!m.is_device_added("FF"));
    // a failed connection still leaves the default config for the device
    assert_eq!(config.get_device_config("FF").unwrap().brightness, 50);
    let mut old = blank_core("FF");
    old.close();
    m.add_device(1, 2, "FF", old);
    assert_eq!(m.get_disconnected(), vec![(1, 2, "FF".to_string())]);
    assert_eq!(m.connect_device(&mut config, 3, 4, "FF", Some(blank_core("FF"))), Ok(()));
    let d = m.get_device("FF").unwrap();
    assert_eq!((d.vid, d.pid), (3, 4));
    assert!(m.get_disconnected().is_empty());
}

#[test]
fn connected_cores_get_brightness_and_root_panel_of_the_config() {
    let mut m: CoreManager<Quiet> = CoreManager::new();
    let mut config = Config::default();
    let mut dc = default_device_config(1, 2, "GG");
    dc.brightness = 70;
    dc.layout = RawButtonPanel::new("Main".to_string(), Value::Null);
    config.set_device_config("GG", dc);
    assert_eq!(m.connect_device(&mut config, 1, 2, "GG", Some(blank_core("GG"))), Ok(()));
    let d = m.get_device("GG").unwrap();
    assert_eq!(d.core.commands, vec![DeviceThreadCommunication::SetBrightness(70)]);
    assert_eq!(d.core.current_stack.len(), 1);
    assert_eq!(d.core.current_stack[0].display_name, "Main");
    assert_eq!(d.core.device_config.brightness, 70);
    assert!(d.core.needs_redraw);
    assert_eq!(d.core.notices.len(), 1);
    // the loaded config is kept as it was
    assert_eq!(config.get_device_config("GG").unwrap().brightness, 70);
}

#[test]
fn connecting_a_device_without_config_uses_the_default_one() {
    let mut m: CoreManager<Quiet> = CoreManager::new();
    let mut config = Config::default();
    assert_eq!(m.connect_device(&mut config, 5, 6, "KK", Some(blank_core("KK"))), Ok(()));
    let c = config.get_device_config("KK").unwrap();
    assert_eq!((c.vid, c.pid, c.serial.as_str(), c.brightness), (5, 6, "KK", 50));
    assert_eq!(c.layout.display_name, "Root");
    assert!(c.layout.data.is_null());
    let d = m.get_device("KK").unwrap();
    assert_eq!(d.core.commands, vec![DeviceThreadCommunication::SetBrightness(50)]);
    assert_eq!(d.core.current_stack[0].display_name, "Root");
    assert_eq!(d.core.current_stack[0].buttons.len(), 0);
}

#[test]
fn devices_without_config_get_the_default_one() {
    let mut config = Config::default();
    assert!(config.ensure_device_config(0x0fd9, 0x0060, "HH"));
    let c = config.get_device_config("HH").unwrap();
    assert_eq!((c.vid, c.pid, c.serial.as_str(), c.brightness), (0x0fd9, 0x0060, "HH", 50));
    assert_eq!(c.layout.display_name, "Root");
    assert!(c.layout.data.is_null());
    assert_eq!(c.layout.buttons.len(), 0);
    assert!(!c.dirty_state);
    assert!(!config.ensure_device_config(1, 2, "HH"));
    assert_eq!(config.get_device_config("HH").unwrap().vid, 0x0fd9);
    let d = default_device_config(3, 4, "II");
    assert_eq!((d.vid, d.pid, d.serial.as_str(), d.brightness), (3, 4, "II", 50));
}

#[test]
fn available_devices_skip_added_and_unnamed() {
    let mut m: CoreManager<Quiet> = CoreManager::new();
    m.add_device(1, 2, "AA", blank_core("AA"));
    let found = vec![
        (1u16, 2u16, Some("AA".to_string())),
        (3, 4, None),
        (5, 6, Some("BB".to_string())),
        (7, 8, Some("CC".to_string())),
    ];
    assert_eq!(
        m.list_available_devices(&found),
        vec![(5, 6, "BB".to_string()), (7, 8, "CC".to_string())]
    );
}
