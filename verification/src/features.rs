//! Feature lists that modules report, plugin metadata, and the version checks made on them.

use vstd::prelude::*;
use crate::text::{str_eq, to_owned};

verus! {

/// Whether a feature of the given name occurs in a list of (name, version) pairs.
pub open spec fn has_feature(features: Seq<(String, String)>, feature: Seq<char>) -> bool {
    exists|i: int| 0 <= i < features.len() && (#[trigger] features[i]).0@ == feature
}

/// Checks if slice of features contains a specific feature
pub fn check_feature_list_for_feature(features: &Vec<(String, String)>, feature: &str) -> (found: bool)
    ensures
        found == has_feature(features@, feature@),
{
    let mut i: usize = 0;
    while i < features.len()
        invariant
            i <= features.len(),
            forall|j: int| 0 <= j < i ==> (#[trigger] features@[j]).0@ != feature@,
        decreases features.len() - i,
    {
        if str_eq(features[i].0.as_str(), feature) {
            assert(features@[i as int].0@ == feature@);
            return true;
        }
        i += 1;
    }
    false
}

/// The warning given when a module uses a feature it did not report.
pub open spec fn unreported_feature_warning(module_name: Seq<char>, feature: Seq<char>) -> Seq<char> {
    "Module '"@ + module_name + "' is using unreported feature '"@ + feature
        + "', please add the feature into plugin metadata to prevent any future crashes due to version incompatibility"@
}

/// Gives the warning to log if a module uses a feature that its list doesn't contain,
/// and nothing if the list contains it
pub fn warn_for_feature(module_name: &str, features: &Vec<(String, String)>, feature: &str) -> (warning: Option<String>)
    ensures
        match warning {
            Some(w) => !has_feature(features@, feature@) && w@ == unreported_feature_warning(module_name@, feature@),
            None => has_feature(features@, feature@),
        },
{
    if !check_feature_list_for_feature(features, feature) {
        let mut w = to_owned("Module '");
        w.append(module_name);
        w.append("' is using unreported feature '");
        w.append(feature);
        w.append("', please add the feature into plugin metadata to prevent any future crashes due to version incompatibility");
        Some(w)
    } else {
        None
    }
}

/// Converts features slice into Vec
pub fn features_to_vec(features: &[(&str, &str)]) -> (r: Vec<(String, String)>)
    ensures
        r@.len() == features@.len(),
        forall|i: int| 0 <= i < r@.len() ==> (#[trigger] r@[i]).0@ == features@[i].0@ && r@[i].1@ == features@[i].1@,
{
    let mut r: Vec<(String, String)> = Vec::new();
    let mut i: usize = 0;
    while i < features.len()
        invariant
            i <= features@.len(),
            r@.len() == i,
            forall|j: int| 0 <= j < i ==> (#[trigger] r@[j]).0@ == features@[j].0@ && r@[j].1@ == features@[j].1@,
        decreases features@.len() - i,
    {
        let (n, v) = features[i];
        r.push((to_owned(n), to_owned(v)));
        i += 1;
    }
    r
}

/// Keeps relevant information about plugins
pub struct PluginMetadata {
    /// Name of the plugin
    pub name: String,
    /// Author of the plugin
    pub author: String,
    /// Description of the plugin
    pub description: String,
    /// Version of the plugin
    pub version: String,
    /// Used features of the plugin, used to determine if plugin is compatible with different software versions
    pub used_features: Vec<(String, String)>,
}

impl PluginMetadata {
    /// Lets you create plugin metadata without having to bother with creating strings for each property
    pub fn from_literals(name: &str, author: &str, description: &str, version: &str, used_features: &[(&str, &str)]) -> (r: PluginMetadata)
        ensures
            r.name@ == name@,
            r.author@ == author@,
            r.description@ == description@,
            r.version@ == version@,
            r.used_features@.len() == used_features@.len(),
            forall|i: int| 0 <= i < r.used_features@.len() ==> (#[trigger] r.used_features@[i]).0@
                == used_features@[i].0@ && r.used_features@[i].1@ == used_features@[i].1@,
    {
        PluginMetadata {
            name: to_owned(name),
            author: to_owned(author),
            description: to_owned(description),
            version: to_owned(version),
            used_features: features_to_vec(used_features),
        }
    }
}

impl Default for PluginMetadata {
    fn default() -> (r: Self)
        ensures
            r.name@ == "unspecified"@,
            r.author@ == "unspecified"@,
            r.description@ == "unspecified"@,
            r.version@ == "unspecified"@,
            r.used_features@.len() == 0,
    {
        PluginMetadata::from_literals("unspecified", "unspecified", "unspecified", "unspecified", &[])
    }
}

/// Enum for anything wrong that might happen during plugin loading
#[derive(Debug)]
pub enum PluginError {
    /// Plugin didn't register any modules
    NoModulesFound,
    /// Failed to load the plugin library; the loader's message
    LoadError(String),
    /// Plugin uses different version of a feature: what the plugin uses, what the software has
    WrongVersion(String, String),
    /// Plugin uses unknown feature for the daemon
    TooNew(String),
    /// Module name already exists
    AlreadyExists(String),
    /// Component with the name was already declared: module name, component name
    ComponentConflict(String, String),
    /// Error spawning a blocking task; its message
    JoinError(String),
}

/// Features that this software supports, with their versions.
pub const CORE: (&'static str, &'static str) = ("core", "0.1");
/// Access to config
pub const CONFIG: (&'static str, &'static str) = ("config", "0.1");
/// Access to module manager
pub const MODULE_MANAGER: (&'static str, &'static str) = ("module_manager", "0.1");
/// Access to socket API
pub const SOCKET_API: (&'static str, &'static str) = ("socket_api", "0.1");
/// Core methods
pub const CORE_METHODS: (&'static str, &'static str) = ("core_methods", "0.1");
/// Core events
pub const CORE_EVENTS: (&'static str, &'static str) = ("core_events", "0.1");
/// Events
pub const EVENTS: (&'static str, &'static str) = ("events", "0.1");
/// Global events
pub const GLOBAL_EVENTS: (&'static str, &'static str) = ("global_events", "0.1");
/// Rendering
pub const RENDERING: (&'static str, &'static str) = ("rendering", "0.1");
/// Compiler version the plugin was built with
pub const COMPILER_VERSION: (&'static str, &'static str) = ("compiler_version", "0.1");
/// Plugin API
pub const PLUGIN_API: (&'static str, &'static str) = ("plugin_api", "0.1");
/// Module trait
pub const SDMODULE_TRAIT: (&'static str, &'static str) = ("sdmodule_trait", "0.1");

/// Features this software supports, with their versions.
pub open spec fn supported_feature_views() -> Seq<(Seq<char>, Seq<char>)> {
    seq![
        ("core"@, "0.1"@),
        ("config"@, "0.1"@),
        ("module_manager"@, "0.1"@),
        ("socket_api"@, "0.1"@),
        ("core_methods"@, "0.1"@),
        ("core_events"@, "0.1"@),
        ("events"@, "0.1"@),
        ("global_events"@, "0.1"@),
        ("rendering"@, "0.1"@),
        ("compiler_version"@, "0.1"@),
        ("plugin_api"@, "0.1"@),
        ("sdmodule_trait"@, "0.1"@)
    ]
}

/// View of a list of (name, version) pairs.
pub open spec fn feature_views(features: Seq<(String, String)>) -> Seq<(Seq<char>, Seq<char>)> {
    features.map_values(|p: (String, String)| (p.0@, p.1@))
}

/// List of features supported by this software
pub fn supported_features() -> (r: Vec<(String, String)>)
    ensures
        feature_views(r@) == supported_feature_views(),
{
    let mut r: Vec<(String, String)> = Vec::new();
    r.push((to_owned("core"), to_owned("0.1")));
    r.push((to_owned("config"), to_owned("0.1")));
    r.push((to_owned("module_manager"), to_owned("0.1")));
    r.push((to_owned("socket_api"), to_owned("0.1")));
    r.push((to_owned("core_methods"), to_owned("0.1")));
    r.push((to_owned("core_events"), to_owned("0.1")));
    r.push((to_owned("events"), to_owned("0.1")));
    r.push((to_owned("global_events"), to_owned("0.1")));
    r.push((to_owned("rendering"), to_owned("0.1")));
    r.push((to_owned("compiler_version"), to_owned("0.1")));
    r.push((to_owned("plugin_api"), to_owned("0.1")));
    r.push((to_owned("sdmodule_trait"), to_owned("0.1")));
    assert(feature_views(r@) =~= supported_feature_views());
    r
}

/// Version that a list of features gives for a name; where a name occurs more than once, the
/// last occurrence counts.
pub open spec fn version_of(features: Seq<(Seq<char>, Seq<char>)>, name: Seq<char>) -> Option<Seq<char>>
    decreases features.len(),
{
    if features.len() == 0 {
        None
    } else if features.last().0 == name {
        Some(features.last().1)
    } else {
        version_of(features.drop_last(), name)
    }
}

/// Outcome of checking a plugin's feature list against a supported list.
pub enum VersionCheck {
    /// Every feature is supported in the same version
    Compatible,
    /// "name version" as the plugin uses it, "name version" as supported
    WrongVersion(Seq<char>, Seq<char>),
    /// "name version" of a feature that is not supported
    TooNew(Seq<char>),
}

/// Checking goes through the plugin's features in order and stops at the first that fails.
pub open spec fn check_versions(versions: Seq<(String, String)>, supported: Seq<(Seq<char>, Seq<char>)>) -> VersionCheck
    decreases versions.len(),
{
    if versions.len() == 0 {
        VersionCheck::Compatible
    } else {
        let (name, version) = (versions[0].0@, versions[0].1@);
        match version_of(supported, name) {
            Some(sv) => if sv != version {
                VersionCheck::WrongVersion(name + " "@ + version, name + " "@ + sv)
            } else {
                check_versions(versions.drop_first(), supported)
            },
            None => VersionCheck::TooNew(name + " "@ + version),
        }
    }
}

/// Whether a result of the version check is the one the spec gives.
pub open spec fn matches_check(r: Result<(), PluginError>, c: VersionCheck) -> bool {
    match c {
        VersionCheck::Compatible => r is Ok,
        VersionCheck::WrongVersion(a, b) => r matches Err(PluginError::WrongVersion(x, y)) && x@ == a && y@ == b,
        VersionCheck::TooNew(a) => r matches Err(PluginError::TooNew(x)) && x@ == a,
        }
}

fn lookup_version<'a>(features: &'a Vec<(String, String)>, name: &str) -> (r: Option<&'a String>)
    ensures
        match version_of(feature_views(features@), name@) {
            Some(v) => r is Some && r->0@ == v,
            None => r is None,
        },
{
    let mut i = features.len();
    proof {
        assert(features@.take(i as int) =~= features@);
    }
    while i > 0
        invariant
            i <= features@.len(),
            version_of(feature_views(features@), name@) == version_of(feature_views(features@.take(i as int)), name@),
        decreases i,
    {
        proof {
            assert(feature_views(features@.take(i as int)).drop_last() =~= feature_views(features@.take(i - 1)));
        }
        if str_eq(features[i - 1].0.as_str(), name) {
            return Some(&features[i - 1].1);
        }
        i -= 1;
    }
    proof {
        assert(feature_views(features@.take(0)) =~= Seq::<(Seq<char>, Seq<char>)>::empty());
    }
    None
}

fn name_and_version(name: &str, version: &str) -> (r: String)
    ensures
        r@ == name@ + " "@ + version@,
{
    let mut r = to_owned(name);
    r.append(" ");
    r.append(version);
    r
}

/// Checks a plugin's features against a list of supported features
pub fn compare_plugin_versions_with(versions: &Vec<(String, String)>, supported: &Vec<(String, String)>) -> (r: Result<(), PluginError>)
    ensures
        matches_check(r, check_versions(versions@, feature_views(supported@))),
{
    let mut i: usize = 0;
    proof {
        assert(versions@.skip(0) =~= versions@);
    }
    while i < versions.len()
        invariant
            i <= versions@.len(),
            check_versions(versions@, feature_views(supported@)) == check_versions(versions@.skip(i as int), feature_views(supported@)),
        decreases versions@.len() - i,
    {
        let name = versions[i].0.as_str();
        let version = versions[i].1.as_str();
        proof {
            assert(versions@.skip(i as int)[0] == versions@[i as int]);
            assert(versions@.skip(i as int).drop_first() =~= versions@.skip(i + 1));
        }
        match lookup_version(supported, name) {
            Some(software_version) => {
                if !str_eq(software_version.as_str(), version) {
                    return Err(PluginError::WrongVersion(name_and_version(name, version), name_and_version(name, software_version.as_str())));
                }
            },
            None => {
                return Err(PluginError::TooNew(name_and_version(name, version)));
            },
        }
        i += 1;
    }
    Ok(())
}

/// Returns error if plugin is incompatible with the features this software supports
pub fn compare_plugin_versions(versions: &Vec<(String, String)>) -> (r: Result<(), PluginError>)
    ensures
        matches_check(r, check_versions(versions@, supported_feature_views())),
{
    let supported = supported_features();
    compare_plugin_versions_with(versions, &supported)
}

/// Warnings to log for each essential feature a plugin's metadata doesn't report
pub fn warn_about_essential_features(meta: &PluginMetadata) -> (warnings: Vec<String>)
    ensures
        warnings@.len() <= 3,
        (warnings@.len() == 0) == (has_feature(meta.used_features@, "compiler_version"@)
            && has_feature(meta.used_features@, "plugin_api"@) && has_feature(meta.used_features@, "sdmodule_trait"@)),
{
    let mut warnings: Vec<String> = Vec::new();
    let name = meta.name.as_str();
    let features = &meta.used_features;
    if let Some(w) = warn_for_feature(name, features, "compiler_version") {
        warnings.push(w);
    }
    if let Some(w) = warn_for_feature(name, features, "plugin_api") {
        warnings.push(w);
    }
    if let Some(w) = warn_for_feature(name, features, "sdmodule_trait") {
        warnings.push(w);
    }
    warnings
}

} // verus!
