//! Device configs and the global config, with their dirty flags.

use vstd::prelude::*;
use serde_json::Value;
use std::path::PathBuf;
use std::time::{Duration, Instant};
use directories::ProjectDirs;
use crate::keyed::KeyedList;
use crate::panel::RawButtonPanel;

verus! {

/// Paths of the file system are carried through without being read.
#[verifier::external_type_specification]
#[verifier::external_body]
pub struct ExPathBuf(std::path::PathBuf);

/// Points in time are carried through without being read.
#[verifier::external_type_specification]
#[verifier::external_body]
pub struct ExInstant(std::time::Instant);

/// The project folders that the operating system gives to Streamduck.
#[verifier::external_type_specification]
#[verifier::external_body]
pub struct ExProjectDirs(directories::ProjectDirs);

/// `Instant::now`: the current time; nothing is stated of it.
#[verifier::external_body]
fn now() -> (r: Instant) {
    Instant::now()
}

/// `Instant::elapsed`: how long ago `t` was; nothing is stated of it.
#[verifier::external_body]
fn elapsed_since(t: &Instant) -> (r: Duration) {
    t.elapsed()
}

/// `ProjectDirs::from`: the project folders for the names, if the operating system gives a
/// home folder. The folders depend on the environment of the process (the home folder and the
/// XDG variables), and the project path made from the names depends on the platform, so
/// nothing is stated of the result.
#[verifier::external_body]
fn project_dirs_from(qualifier: &str, organization: &str, application: &str) -> (r: Option<ProjectDirs>) {
    ProjectDirs::from(qualifier, organization, application)
}

/// The config folder of a set of project folders.
pub uninterp spec fn project_config_dir(d: ProjectDirs) -> PathBuf;

/// The data folder of a set of project folders.
pub uninterp spec fn project_data_dir(d: ProjectDirs) -> PathBuf;

/// A path with a name appended as a further component.
pub uninterp spec fn joined(p: PathBuf, name: Seq<char>) -> PathBuf;

/// `ProjectDirs::config_dir`, copied into an owned path: the config folder the set holds.
#[verifier::external_body]
fn config_dir_of(d: &ProjectDirs) -> (r: PathBuf)
    ensures
        r == project_config_dir(*d),
{
    d.config_dir().to_path_buf()
}

/// `ProjectDirs::data_dir`, copied into an owned path: the data folder the set holds.
#[verifier::external_body]
fn data_dir_of(d: &ProjectDirs) -> (r: PathBuf)
    ensures
        r == project_data_dir(*d),
{
    d.data_dir().to_path_buf()
}

/// `Path::join`: the path with a name appended as a further component.
#[verifier::external_body]
pub(crate) fn join_path(p: &PathBuf, name: &str) -> (r: PathBuf)
    ensures
        r == joined(*p, name@),
{
    p.join(name)
}

/// The names the project folders of Streamduck are looked up by: qualifier, organization
/// and application
pub fn streamduck_project_names() -> (r: (&'static str, &'static str, &'static str))
    ensures
        r.0@ == "org"@,
        r.1@ == "streamduck"@,
        r.2@ == "Streamduck"@,
{
    ("org", "streamduck", "Streamduck")
}

/// The project folders of Streamduck, as the operating system gives them for the names of
/// `streamduck_project_names`
fn streamduck_project_dirs() -> (r: Option<ProjectDirs>) {
    let (qualifier, organization, application) = streamduck_project_names();
    project_dirs_from(qualifier, organization, application)
}

/// The config folder of the project folders, if there are any
pub fn config_dir_from(d: Option<ProjectDirs>) -> (r: Option<PathBuf>)
    ensures
        match d {
            Some(x) => r == Some(project_config_dir(x)),
            None => r is None,
        },
{
    match d {
        Some(x) => Some(config_dir_of(&x)),
        None => None,
    }
}

/// The data folder of the project folders, if there are any
pub fn data_dir_from(d: Option<ProjectDirs>) -> (r: Option<PathBuf>)
    ensures
        match d {
            Some(x) => r == Some(project_data_dir(x)),
            None => r is None,
        },
{
    match d {
        Some(x) => Some(data_dir_of(&x)),
        None => None,
    }
}

/// The device config folder, `devices` in the data folder of the project folders, if there
/// are any
pub fn device_configs_dir_from(d: Option<ProjectDirs>) -> (r: Option<PathBuf>)
    ensures
        match d {
            Some(x) => r == Some(joined(project_data_dir(x), "devices"@)),
            None => r is None,
        },
{
    match d {
        Some(x) => {
            let data = data_dir_of(&x);
            Some(join_path(&data, "devices"))
        },
        None => None,
    }
}

/// The folders of Streamduck from one lookup of the project folders: the config folder, the
/// data folder, and the device config folder in the data folder
pub struct StreamduckFolders {
    pub config_dir: PathBuf,
    pub data_dir: PathBuf,
    pub device_configs_dir: PathBuf,
}

/// Whether the folders are those of the project folders `d`
pub open spec fn folders_of(f: StreamduckFolders, d: ProjectDirs) -> bool {
    &&& f.config_dir == project_config_dir(d)
    &&& f.data_dir == project_data_dir(d)
    &&& f.device_configs_dir == joined(project_data_dir(d), "devices"@)
}

/// The folders of Streamduck in the project folders, if there are any
pub fn folders_from(d: Option<ProjectDirs>) -> (r: Option<StreamduckFolders>)
    ensures
        match d {
            Some(x) => r is Some && folders_of(r->0, x),
            None => r is None,
        },
{
    match d {
        Some(x) => {
            let config_dir = config_dir_of(&x);
            let data_dir = data_dir_of(&x);
            let device_configs_dir = join_path(&data_dir, "devices");
            Some(StreamduckFolders { config_dir, data_dir, device_configs_dir })
        },
        None => None,
    }
}

/// Looks the folders of Streamduck up once, so that a caller who keeps them has the device
/// config folder in the same data folder on every use; none where the operating system gives
/// no folders. The directories might not exist!
pub fn get_streamduck_folders() -> (r: Option<StreamduckFolders>)
    ensures
        r is Some ==> exists|d: ProjectDirs| folders_of(r->0, d),
        r is Some ==> r->0.device_configs_dir == joined(r->0.data_dir, "devices"@),
{
    folders_from(streamduck_project_dirs())
}

/// Gets config directory path of Streamduck, the directory might not exist! None where the
/// operating system gives no folders.
pub fn get_streamduck_config_dir() -> (r: Option<PathBuf>)
    ensures
        r is Some ==> exists|d: ProjectDirs| r->0 == project_config_dir(d),
{
    config_dir_from(streamduck_project_dirs())
}

/// Gets data directory path of Streamduck, the directory might not exist! None where the
/// operating system gives no folders.
pub fn get_streamduck_data_dir() -> (r: Option<PathBuf>)
    ensures
        r is Some ==> exists|d: ProjectDirs| r->0 == project_data_dir(d),
{
    data_dir_from(streamduck_project_dirs())
}

/// Gets device config directory path of Streamduck: the `devices` folder in the data
/// directory; the directory might not exist! None where the operating system gives no folders.
pub fn get_streamduck_device_configs_dir() -> (r: Option<PathBuf>)
    ensures
        r is Some ==> exists|d: ProjectDirs| r->0 == joined(project_data_dir(d), "devices"@),
{
    device_configs_dir_from(streamduck_project_dirs())
}

/// Settings that a plugin keeps in the config, under its name
pub trait PluginConfig {
    const NAME: &'static str;
}

/// Keys for the global config
pub struct GlobalConfig {
    /// Path to device config folder
    pub device_config_path: Option<PathBuf>,
    /// If the global config and device configs should be saved automatically
    pub autosave: Option<bool>,
    /// The time a commit was last made.
    commit_time: Option<Instant>,
    /// If the config got changed and now needs to be saved.
    dirty_state: bool,
}

impl GlobalConfig {
    /// If the config has changes that need saving
    pub closed spec fn dirty(&self) -> bool {
        self.dirty_state
    }

    /// If a commit was ever made
    pub closed spec fn committed(&self) -> bool {
        self.commit_time is Some
    }

    /// The path to the device config folder, if set
    pub closed spec fn config_path(&self) -> Option<PathBuf> {
        self.device_config_path
    }

    /// The autosave setting, if set
    pub closed spec fn autosave_setting(&self) -> Option<bool> {
        self.autosave
    }

    /// A config with no paths or settings, never committed and clean.
    pub fn new(device_config_path: Option<PathBuf>, autosave: Option<bool>) -> (r: GlobalConfig)
        ensures
            r.config_path() == device_config_path,
            r.autosave_setting() == autosave,
            !r.dirty(),
            !r.committed(),
    {
        GlobalConfig { device_config_path, autosave, commit_time: None, dirty_state: false }
    }

    /// Mark config as dirty, recording the time of the change as the last commit.
    pub fn mark_dirty(&mut self)
        ensures
            final(self).dirty(),
            final(self).committed(),
            final(self).config_path() == old(self).config_path(),
            final(self).autosave_setting() == old(self).autosave_setting(),
    {
        self.commit_time = Some(now());
        self.dirty_state = true;
    }

    /// Mark config as clean.
    pub fn mark_clean(&mut self)
        ensures
            !final(self).dirty(),
            final(self).committed() == old(self).committed(),
            final(self).config_path() == old(self).config_path(),
            final(self).autosave_setting() == old(self).autosave_setting(),
    {
        self.dirty_state = false;
    }

    /// See if config is dirty
    pub fn is_dirty(&self) -> (r: bool)
        ensures
            r == self.dirty(),
    {
        self.dirty_state
    }

    /// The time since a commit was last made; none if no commit was made
    pub fn last_commit(&self) -> (r: Option<Duration>)
        ensures
            r is Some == self.committed(),
    {
        match &self.commit_time {
            Some(t) => Some(elapsed_since(t)),
            None => None,
        }
    }
}

impl Default for GlobalConfig {
    /// A config with no paths or settings, never committed and clean.
    fn default() -> (r: GlobalConfig)
        ensures
            r.config_path() is None,
            r.autosave_setting() is None,
            !r.dirty(),
            !r.committed(),
    {
        GlobalConfig::new(None, None)
    }
}

/// Device config struct
pub struct DeviceConfig {
    /// Vendor ID
    pub vid: u16,
    /// Product ID
    pub pid: u16,
    /// Serial number
    pub serial: String,
    /// Brightness of the screen
    pub brightness: u8,
    /// Root panel of the device
    pub layout: RawButtonPanel,
    /// Data that modules keep for the device, by module
    pub plugin_data: KeyedList<String, Value>,
    /// If config has changes that are not saved
    pub dirty_state: bool,
}

impl DeviceConfig {
    /// check if there are config changes
    pub fn is_dirty(&self) -> (r: bool)
        ensures
            r == self.dirty_state,
    {
        self.dirty_state
    }

    /// remove dirty state
    pub fn mark_clean(&mut self)
        ensures
            !final(self).dirty_state,
            final(self).vid == old(self).vid,
            final(self).pid == old(self).pid,
            final(self).serial == old(self).serial,
            final(self).brightness == old(self).brightness,
            final(self).layout == old(self).layout,
            final(self).plugin_data == old(self).plugin_data,
    {
        self.dirty_state = false;
    }

    /// mark that the config has changes that are not saved
    pub fn mark_dirty(&mut self)
        ensures
            final(self).dirty_state,
            final(self).vid == old(self).vid,
            final(self).pid == old(self).pid,
            final(self).serial == old(self).serial,
            final(self).brightness == old(self).brightness,
            final(self).layout == old(self).layout,
            final(self).plugin_data == old(self).plugin_data,
    {
        self.dirty_state = true;
    }
}

} // verus!
