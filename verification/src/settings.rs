//! Settings of the daemon: rates, folders (each with a default below the config or data
//! folder), plugin settings by plugin name, and the device configs loaded by serial number.
//!
//! Reading and writing the files is done around these calls; what is kept here is which
//! file and folder each setting resolves to, and what is loaded.

use vstd::prelude::*;
use serde_json::Value;
use std::path::PathBuf;
use crate::button::{json_is_null, null_value};
use crate::config::{joined, join_path, DeviceConfig};
use crate::panel::RawButtonPanel;
use crate::keyed::KeyedList;
use crate::text::to_owned;
use crate::ui::FloatBits;

verus! {

/// Name of the folder of Streamduck in the folders of the system
pub const CONFIG_FOLDER: &'static str = "streamduck";
/// Frames a second drawn when the config does not say
pub const DEFAULT_FRAME_RATE: u32 = 100;
/// Bit pattern of the default reconnect interval, one second
pub const DEFAULT_RECONNECT_TIME_BITS: u32 = 0x3f80_0000;
/// Folder of fonts, in the config folder
pub const FONTS_FOLDER: &'static str = "fonts";
/// Folder of device configs, in the data folder
pub const DEVICE_CONFIG_FOLDER: &'static str = "devices";
/// Folder of plugins, in the config folder
pub const PLUGINS_FOLDER: &'static str = "plugins";
/// File of plugin settings, in the data folder
pub const PLUGINS_SETTINGS_FILE: &'static str = "global.json";
/// File of the config, in the config folder
pub const CONFIG_FILE: &'static str = "config.toml";

/// `PathBuf::clone`: an equal path.
#[verifier::external_body]
fn copy_path(p: &PathBuf) -> (r: PathBuf)
    ensures
        r == *p,
{
    p.clone()
}

/// Brightness of a device that has no config yet
pub const DEFAULT_BRIGHTNESS: u8 = 50;

/// Whether a device config is the one a device gets when it has none: brightness 50, a root
/// panel named `Root` with null data and no buttons, no plugin data, and nothing to save.
pub open spec fn is_default_device_config(c: DeviceConfig, vid: u16, pid: u16, serial: Seq<char>) -> bool {
    &&& c.vid == vid
    &&& c.pid == pid
    &&& c.serial@ == serial
    &&& c.brightness == DEFAULT_BRIGHTNESS
    &&& c.layout@.display_name == "Root"@
    &&& json_is_null(c.layout@.data)
    &&& c.layout@.buttons == Map::<u8, Map<Seq<char>, Value>>::empty()
    &&& c.plugin_data.map() == Map::<Seq<char>, Value>::empty()
    &&& !c.dirty_state
}

/// The config a device gets when it has none
pub fn default_device_config(vid: u16, pid: u16, serial: &str) -> (r: DeviceConfig)
    ensures
        is_default_device_config(r, vid, pid, serial@),
{
    let layout = RawButtonPanel::new(to_owned("Root"), null_value());
    DeviceConfig {
        vid,
        pid,
        serial: to_owned(serial),
        brightness: DEFAULT_BRIGHTNESS,
        layout,
        plugin_data: KeyedList::new(),
        dirty_state: false,
    }
}

/// `dirs::config_dir`: the user's config folder, if the operating system gives one. It
/// depends on the platform and the environment, so nothing is stated of it.
#[verifier::external_body]
fn user_config_dir() -> (r: Option<PathBuf>) {
    dirs::config_dir()
}

/// `dirs::data_dir`: the user's data folder, if the operating system gives one. It depends on
/// the platform and the environment, so nothing is stated of it.
#[verifier::external_body]
fn user_data_dir() -> (r: Option<PathBuf>) {
    dirs::data_dir()
}

/// The folder of Streamduck in a folder of the system, if there is one
pub fn streamduck_folder_in(base: Option<PathBuf>) -> (r: Option<PathBuf>)
    ensures
        match base {
            Some(b) => r == Some(joined(b, CONFIG_FOLDER@)),
            None => r is None,
        },
{
    match base {
        Some(b) => Some(join_path(&b, CONFIG_FOLDER)),
        None => None,
    }
}

/// The folder of Streamduck in the user's config folder (eg. $HOME/.config/streamduck), if
/// the operating system gives a config folder
pub fn system_config_dir() -> (r: Option<PathBuf>)
    ensures
        r is Some ==> exists|b: PathBuf| r->0 == joined(b, CONFIG_FOLDER@),
{
    streamduck_folder_in(user_config_dir())
}

/// The folder of Streamduck in the user's data folder (eg. $HOME/.local/share/streamduck), if
/// the operating system gives a data folder
pub fn system_data_dir() -> (r: Option<PathBuf>)
    ensures
        r is Some ==> exists|b: PathBuf| r->0 == joined(b, CONFIG_FOLDER@),
{
    streamduck_folder_in(user_data_dir())
}

/// Struct to keep daemon settings
pub struct Config {
    /// Frame rate
    pub frame_rate: Option<u32>,
    /// Frequency of checks for disconnected devices, in seconds
    pub reconnect_rate: Option<FloatBits>,
    /// Path to device configs
    pub device_config_path: Option<PathBuf>,
    /// Path to plugins
    pub plugin_path: Option<PathBuf>,
    /// Path to plugin settings json
    pub plugin_settings_path: Option<PathBuf>,
    /// Path to fonts
    pub font_path: Option<PathBuf>,
    /// Config folder
    pub config_dir: Option<PathBuf>,
    /// Data folder
    pub data_dir: Option<PathBuf>,
    /// Autosave device configuration
    pub autosave: Option<bool>,
    /// Settings of the plugins, by plugin name
    pub plugin_settings: KeyedList<String, Value>,
    /// Currently loaded device configs, by serial number
    pub loaded_configs: KeyedList<String, DeviceConfig>,
}

/// Whether two configs agree on everything but the loaded device configs
pub open spec fn same_settings(a: Config, b: Config) -> bool {
    &&& a.frame_rate == b.frame_rate
    &&& a.reconnect_rate == b.reconnect_rate
    &&& a.device_config_path == b.device_config_path
    &&& a.plugin_path == b.plugin_path
    &&& a.plugin_settings_path == b.plugin_settings_path
    &&& a.font_path == b.font_path
    &&& a.config_dir == b.config_dir
    &&& a.data_dir == b.data_dir
    &&& a.autosave == b.autosave
    &&& a.plugin_settings == b.plugin_settings
}

/// A path given in the config, or else a name below a folder
pub open spec fn path_or(given: Option<PathBuf>, folder: Option<PathBuf>, name: Seq<char>) -> PathBuf {
    match given {
        Some(p) => p,
        None => joined(folder->0, name),
    }
}

/// A folder setting after the folder of the system is used where the config file gives none
pub open spec fn with_default(given: Option<PathBuf>, system: PathBuf) -> Option<PathBuf> {
    match given {
        Some(p) => Some(p),
        None => Some(system),
    }
}

/// Where the file of a device config in a folder is moved from and to when it is disabled
pub open spec fn disable_move(folder: PathBuf, serial: Seq<char>) -> (PathBuf, PathBuf) {
    (joined(folder, device_config_file(serial, false)), joined(folder, device_config_file(serial, true)))
}

/// Where the file of a disabled device config in a folder is moved from and to when it is restored
pub open spec fn restore_move(folder: PathBuf, serial: Seq<char>) -> (PathBuf, PathBuf) {
    (joined(folder, device_config_file(serial, true)), joined(folder, device_config_file(serial, false)))
}

/// Name of the file of a device config; a disabled config is not loaded by default
pub open spec fn device_config_file(serial: Seq<char>, disabled: bool) -> Seq<char> {
    if disabled {
        serial + ".json_disabled"@
    } else {
        serial + ".json"@
    }
}

impl Default for Config {
    fn default() -> (r: Config)
        ensures
            r.frame_rate is None,
            r.reconnect_rate is None,
            r.device_config_path is None,
            r.plugin_path is None,
            r.plugin_settings_path is None,
            r.font_path is None,
            r.config_dir is None,
            r.data_dir is None,
            r.autosave is None,
            r.plugin_settings.map() == Map::<Seq<char>, Value>::empty(),
            r.loaded_configs.map() == Map::<Seq<char>, DeviceConfig>::empty(),
    {
        Config {
            frame_rate: None,
            reconnect_rate: None,
            device_config_path: None,
            plugin_path: None,
            plugin_settings_path: None,
            font_path: None,
            config_dir: None,
            data_dir: None,
            autosave: None,
            plugin_settings: KeyedList::new(),
            loaded_configs: KeyedList::new(),
        }
    }
}

impl Config {
    /// Uses the folders of the system for the config and data folders that the config file
    /// does not set
    pub fn use_system_dirs(&mut self, config_dir: PathBuf, data_dir: PathBuf)
        ensures
            final(self).config_dir == with_default(old(self).config_dir, config_dir),
            final(self).data_dir == with_default(old(self).data_dir, data_dir),
            final(self).frame_rate == old(self).frame_rate,
            final(self).reconnect_rate == old(self).reconnect_rate,
            final(self).device_config_path == old(self).device_config_path,
            final(self).plugin_path == old(self).plugin_path,
            final(self).plugin_settings_path == old(self).plugin_settings_path,
            final(self).font_path == old(self).font_path,
            final(self).autosave == old(self).autosave,
            final(self).plugin_settings == old(self).plugin_settings,
            final(self).loaded_configs == old(self).loaded_configs,
    {
        if self.data_dir.is_none() {
            self.data_dir = Some(data_dir);
        }
        if self.config_dir.is_none() {
            self.config_dir = Some(config_dir);
        }
    }

    /// Frame rate, defaults to [DEFAULT_FRAME_RATE] if not set
    pub fn frame_rate(&self) -> (r: u32)
        ensures
            r == match self.frame_rate {
                Some(f) => f,
                None => DEFAULT_FRAME_RATE,
            },
    {
        match self.frame_rate {
            Some(f) => f,
            None => DEFAULT_FRAME_RATE,
        }
    }

    /// Reconnect rate, defaults to one second if not set
    pub fn reconnect_rate(&self) -> (r: FloatBits)
        ensures
            r == match self.reconnect_rate {
                Some(f) => f,
                None => FloatBits(DEFAULT_RECONNECT_TIME_BITS),
            },
    {
        match self.reconnect_rate {
            Some(f) => f,
            None => FloatBits(DEFAULT_RECONNECT_TIME_BITS),
        }
    }

    /// Whether device configs are saved automatically; they are unless the config says otherwise
    pub fn autosave(&self) -> (r: bool)
        ensures
            r == match self.autosave {
                Some(a) => a,
                None => true,
            },
    {
        match self.autosave {
            Some(a) => a,
            None => true,
        }
    }

    /// A path given in the config, or else a name below a folder
    fn given_or(given: &Option<PathBuf>, folder: &Option<PathBuf>, name: &str) -> (r: PathBuf)
        requires
            given is Some || folder is Some,
        ensures
            r == path_or(*given, *folder, name@),
    {
        match given {
            Some(p) => copy_path(p),
            None => join_path(folder.as_ref().unwrap(), name),
        }
    }

    /// Device config path, defaults to [DEVICE_CONFIG_FOLDER] in the data folder if not set
    pub fn device_config_path(&self) -> (r: PathBuf)
        requires
            self.device_config_path is Some || self.data_dir is Some,
        ensures
            r == path_or(self.device_config_path, self.data_dir, DEVICE_CONFIG_FOLDER@),
    {
        Self::given_or(&self.device_config_path, &self.data_dir, DEVICE_CONFIG_FOLDER)
    }

    /// Plugin folder path, defaults to [PLUGINS_FOLDER] in the config folder if not set
    pub fn plugin_path(&self) -> (r: PathBuf)
        requires
            self.plugin_path is Some || self.config_dir is Some,
        ensures
            r == path_or(self.plugin_path, self.config_dir, PLUGINS_FOLDER@),
    {
        Self::given_or(&self.plugin_path, &self.config_dir, PLUGINS_FOLDER)
    }

    /// Fonts folder path, defaults to [FONTS_FOLDER] in the config folder if not set
    pub fn font_path(&self) -> (r: PathBuf)
        requires
            self.font_path is Some || self.config_dir is Some,
        ensures
            r == path_or(self.font_path, self.config_dir, FONTS_FOLDER@),
    {
        Self::given_or(&self.font_path, &self.config_dir, FONTS_FOLDER)
    }

    /// Plugin settings file path, defaults to [PLUGINS_SETTINGS_FILE] in the data folder if not set
    pub fn plugin_settings_path(&self) -> (r: PathBuf)
        requires
            self.plugin_settings_path is Some || self.data_dir is Some,
        ensures
            r == path_or(self.plugin_settings_path, self.data_dir, PLUGINS_SETTINGS_FILE@),
    {
        Self::given_or(&self.plugin_settings_path, &self.data_dir, PLUGINS_SETTINGS_FILE)
    }

    /// Data folder
    pub fn data_dir(&self) -> (r: &PathBuf)
        requires
            self.data_dir is Some,
        ensures
            *r == self.data_dir->0,
    {
        self.data_dir.as_ref().unwrap()
    }

    /// Config folder
    pub fn config_dir(&self) -> (r: &PathBuf)
        requires
            self.config_dir is Some,
        ensures
            *r == self.config_dir->0,
    {
        self.config_dir.as_ref().unwrap()
    }

    /// Retrieves the settings a plugin keeps under its name
    pub fn get_plugin_settings(&self, name: &str) -> (r: Option<&Value>)
        ensures
            match r {
                Some(v) => self.plugin_settings.map().dom().contains(name@) && *v == self.plugin_settings.map()[name@],
                None => !self.plugin_settings.map().dom().contains(name@),
            },
    {
        self.plugin_settings.get(&to_owned(name))
    }

    /// Sets the settings a plugin keeps under its name; the file is written afterwards
    pub fn set_plugin_settings(&mut self, name: &str, value: Value)
        ensures
            final(self).plugin_settings.map() == old(self).plugin_settings.map().insert(name@, value),
            final(self).loaded_configs == old(self).loaded_configs,
    {
        self.plugin_settings.insert(to_owned(name), value);
    }

    /// Retrieves device config for specified serial
    pub fn get_device_config(&self, serial: &str) -> (r: Option<&DeviceConfig>)
        ensures
            match r {
                Some(c) => self.loaded_configs.map().dom().contains(serial@) && *c == self.loaded_configs.map()[serial@],
                None => !self.loaded_configs.map().dom().contains(serial@),
            },
    {
        self.loaded_configs.get(&to_owned(serial))
    }

    /// Sets device config for specified serial, replacing a loaded one
    pub fn set_device_config(&mut self, serial: &str, config: DeviceConfig)
        ensures
            final(self).loaded_configs.map() == old(self).loaded_configs.map().insert(serial@, config),
            final(self).plugin_settings == old(self).plugin_settings,
            same_settings(*final(self), *old(self)),
    {
        self.loaded_configs.insert(to_owned(serial), config);
    }

    /// Gives a device the default config where none is loaded for it; true where it did, and
    /// the new config is then to be saved
    pub fn ensure_device_config(&mut self, vid: u16, pid: u16, serial: &str) -> (created: bool)
        ensures
            created == !old(self).loaded_configs.map().dom().contains(serial@),
            created ==> final(self).loaded_configs.map() == old(self).loaded_configs.map().insert(serial@,
                final(self).loaded_configs.map()[serial@]),
            created ==> is_default_device_config(final(self).loaded_configs.map()[serial@], vid, pid, serial@),
            !created ==> final(self).loaded_configs == old(self).loaded_configs,
            final(self).plugin_settings == old(self).plugin_settings,
            same_settings(*final(self), *old(self)),
    {
        if self.get_device_config(serial).is_some() {
            false
        } else {
            self.set_device_config(serial, default_device_config(vid, pid, serial));
            true
        }
    }

    /// Marks the loaded config of a device as saved; false if no config is loaded for it
    pub fn mark_saved(&mut self, serial: &str) -> (found: bool)
        ensures
            found == old(self).loaded_configs.map().dom().contains(serial@),
            found ==> final(self).loaded_configs.map() == old(self).loaded_configs.map().insert(serial@, final(self).loaded_configs.map()[serial@]),
            found ==> !final(self).loaded_configs.map()[serial@].dirty_state,
            found ==> final(self).loaded_configs.map()[serial@].layout == old(self).loaded_configs.map()[serial@].layout,
            found ==> final(self).loaded_configs.map()[serial@].brightness == old(self).loaded_configs.map()[serial@].brightness,
            found ==> final(self).loaded_configs.map()[serial@].plugin_data == old(self).loaded_configs.map()[serial@].plugin_data,
            found ==> final(self).loaded_configs.map()[serial@].serial == old(self).loaded_configs.map()[serial@].serial,
            !found ==> final(self).loaded_configs.map() == old(self).loaded_configs.map(),
            final(self).plugin_settings == old(self).plugin_settings,
    {
        let key = to_owned(serial);
        match self.loaded_configs.remove(&key) {
            Some(mut config) => {
                config.mark_clean();
                self.loaded_configs.insert(key, config);
                true
            },
            None => false,
        }
    }

    /// File of the config of a device, enabled or disabled, in the device config folder
    pub fn device_config_file(&self, serial: &str, disabled: bool) -> (r: PathBuf)
        requires
            self.device_config_path is Some || self.data_dir is Some,
        ensures
            r == joined(path_or(self.device_config_path, self.data_dir, DEVICE_CONFIG_FOLDER@), device_config_file(serial@, disabled)),
    {
        let folder = self.device_config_path();
        let mut name = to_owned(serial);
        if disabled {
            name.append(".json_disabled");
        } else {
            name.append(".json");
        }
        join_path(&folder, name.as_str())
    }

    /// Where the file of a device config is moved from and to when it is disabled, so that it
    /// is not loaded by default
    pub fn disable_device_config(&self, serial: &str) -> (r: (PathBuf, PathBuf))
        requires
            self.device_config_path is Some || self.data_dir is Some,
        ensures
            r == disable_move(path_or(self.device_config_path, self.data_dir, DEVICE_CONFIG_FOLDER@), serial@),
    {
        (self.device_config_file(serial, false), self.device_config_file(serial, true))
    }

    /// Where the file of a disabled device config is moved from and to when it is restored
    pub fn restore_device_config(&self, serial: &str) -> (r: (PathBuf, PathBuf))
        requires
            self.device_config_path is Some || self.data_dir is Some,
        ensures
            r == restore_move(path_or(self.device_config_path, self.data_dir, DEVICE_CONFIG_FOLDER@), serial@),
    {
        (self.device_config_file(serial, true), self.device_config_file(serial, false))
    }
}

/// A device config that was set is what is read back for its serial number, and the configs
/// of other devices stay as they were.
pub proof fn law_set_then_get_device_config(configs: Map<Seq<char>, DeviceConfig>, serial: Seq<char>, other: Seq<char>, config: DeviceConfig)
    requires
        other != serial,
    ensures
        configs.insert(serial, config).dom().contains(serial),
        configs.insert(serial, config)[serial] == config,
        configs.insert(serial, config).dom().contains(other) == configs.dom().contains(other),
        configs.dom().contains(other) ==> configs.insert(serial, config)[other] == configs[other],
{
}

/// Restoring a disabled device config moves its file back where disabling took it from, and
/// the enabled and the disabled file have different names.
pub proof fn law_restore_undoes_disable(folder: PathBuf, serial: Seq<char>)
    ensures
        restore_move(folder, serial) == (disable_move(folder, serial).1, disable_move(folder, serial).0),
        device_config_file(serial, true) != device_config_file(serial, false),
{
    assert((serial + ".json_disabled"@).len() != (serial + ".json"@).len()) by {
        reveal_strlit(".json_disabled");
        reveal_strlit(".json");
    }
}

/// Once the folders of the system are used, the folder setting is set, and using them again
/// changes nothing.
pub proof fn law_system_dirs_settle(given: Option<PathBuf>, system: PathBuf, again: PathBuf)
    ensures
        with_default(given, system) is Some,
        with_default(with_default(given, system), again) == with_default(given, system),
        given is Some ==> with_default(given, system) == given,
{
}

} // verus!
