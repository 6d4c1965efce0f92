use streamduck::settings::{streamduck_folder_in, system_config_dir, system_data_dir};
use serde_json::Value;
use std::path::PathBuf;
use streamduck::config::DeviceConfig;
use streamduck::keyed::KeyedList;
use streamduck::panel::RawButtonPanel;
use streamduck::settings::Config;

fn device(serial: &str, brightness: u8, dirty: bool) -> DeviceConfig {
    DeviceConfig {
        vid: 1,
        pid: 2,
        serial: serial.to_string(),
        brightness,
        layout: RawButtonPanel::new("Root".to_string(), Value::Null),
        plugin_data: KeyedList::new(),
        dirty_state: dirty,
    }
}

fn with_dirs() -> Config {
    let mut c = Config::default();
    c.use_system_dirs(PathBuf::from("/conf/streamduck"), PathBuf::from("/data/streamduck"));
    c
}

#[test]
fn defaults_when_unset() {
    let c = Config::default();
    assert_eq!(c.frame_rate(), 100);
    assert!(c.autosave());
    assert_eq!(f32::from_bits(c.reconnect_rate().0), 1.0);
    let mut d = Config::default();
    d.frame_rate = Some(30);
    d.autosave = Some(false);
    assert_eq!(d.frame_rate(), 30);
    assert!(!d.autosave());
}

#[test]
fn folders_default_below_system_folders() {
    let c = with_dirs();
    assert_eq!(c.device_config_path(), PathBuf::from("/data/streamduck/devices"));
    assert_eq!(c.plugin_settings_path(), PathBuf::from("/data/streamduck/global.json"));
    assert_eq!(c.plugin_path(), PathBuf::from("/conf/streamduck/plugins"));
    assert_eq!(c.font_path(), PathBuf::from("/conf/streamduck/fonts"));
    assert_eq!(c.data_dir(), &PathBuf::from("/data/streamduck"));
    assert_eq!(c.config_dir(), &PathBuf::from("/conf/streamduck"));
}

#[test]
fn folders_given_in_the_file_win() {
    let mut c = Config::default();
    c.data_dir = Some(PathBuf::from("/mine"));
    c.font_path = Some(PathBuf::from("/fonts"));
    c.use_system_dirs(PathBuf::from("/conf"), PathBuf::from("/data"));
    assert_eq!(c.data_dir(), &PathBuf::from("/mine"));
    assert_eq!(c.config_dir(), &PathBuf::from("/conf"));
    assert_eq!(c.font_path(), PathBuf::from("/fonts"));
    assert_eq!(c.device_config_path(), PathBuf::from("/mine/devices"));
    // using the system folders again changes nothing
    c.use_system_dirs(PathBuf::from("/other"), PathBuf::from("/other"));
    assert_eq!(c.config_dir(), &PathBuf::from("/conf"));
}

#[test]
fn device_config_read_back_after_set() {
    let mut c = with_dirs();
    assert!(c.get_device_config("AA").is_none());
    c.set_device_config("AA", device("AA", 10, true));
    c.set_device_config("BB", device("BB", 20, false));
    c.set_device_config("AA", device("AA", 30, true));
    assert_eq!(c.get_device_config("AA").unwrap().brightness, 30);
    assert_eq!(c.get_device_config("BB").unwrap().brightness, 20);
    assert!(c.mark_saved("AA"));
    assert!(!c.get_device_config("AA").unwrap().is_dirty());
    assert_eq!(c.get_device_config("AA").unwrap().brightness, 30);
    assert!(!c.mark_saved("CC"));
}

#[test]
fn disabling_and_restoring_move_the_file_back_and_forth() {
    let c = with_dirs();
    let (from, to) = c.disable_device_config("SN1");
    assert_eq!(from, PathBuf::from("/data/streamduck/devices/SN1.json"));
    assert_eq!(to, PathBuf::from("/data/streamduck/devices/SN1.json_disabled"));
    assert_eq!(c.restore_device_config("SN1"), (to, from));
}

#[test]
fn plugin_settings_read_back() {
    let mut c = Config::default();
    assert!(c.get_plugin_settings("core").is_none());
    c.set_plugin_settings("core", Value::from(5));
    assert_eq!(c.get_plugin_settings("core"), Some(&Value::from(5)));
}

#[test]
fn config_sys_config_dir() {
    // the config folder is set once the folders of the system are used
    let mut config = Config::default();
    let system = streamduck::config::get_streamduck_config_dir().unwrap_or_default();
    config.use_system_dirs(system, PathBuf::new());
    assert_ne!(config.config_dir, None)
}

#[test]
fn config_sys_data_dir() {
    // the data folder is set once the folders of the system are used
    let mut config = Config::default();
    let system = streamduck::config::get_streamduck_data_dir().unwrap_or_default();
    config.use_system_dirs(PathBuf::new(), system);
    assert_ne!(config.data_dir, None)
}

#[test]
fn config_mark_clean() {
    // simulate a changed config
    let mut device_conf = device("TestSerial1", 0, true);
    assert_eq!(device_conf.dirty_state, true);
    device_conf.mark_clean();
    assert_eq!(device_conf.dirty_state, false);
}

#[test]
fn streamduck_folder_sits_in_the_system_folder() {
    assert_eq!(streamduck_folder_in(Some(PathBuf::from("/home/a/.config"))), Some(PathBuf::from("/home/a/.config/streamduck")));
    assert_eq!(streamduck_folder_in(None), None);
    if let Some(d) = system_config_dir() {
        assert!(d.ends_with("streamduck"));
    }
    if let Some(d) = system_data_dir() {
        assert!(d.ends_with("streamduck"));
    }
}
