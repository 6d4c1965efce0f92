use streamduck::features::{check_feature_list_for_feature, compare_plugin_versions, compare_plugin_versions_with, features_to_vec, supported_features, warn_about_essential_features, warn_for_feature, PluginError, PluginMetadata, CORE};

fn list(v: &[(&str, &str)]) -> Vec<(String, String)> {
    features_to_vec(v)
}

#[test]
fn feature_lists_are_searched_by_name() {
    let features = list(&[("core", "0.1"), ("events", "0.1")]);
    assert!(check_feature_list_for_feature(&features, "events"));
    assert!(!check_feature_list_for_feature(&features, "0.1"));
}

#[test]
fn unreported_features_are_warned_about() {
    let features = list(&[("core", "0.1")]);
    assert_eq!(warn_for_feature("m", &features, "core"), None);
    assert_eq!(
        warn_for_feature("m", &features, "config"),
        Some("Module 'm' is using unreported feature 'config', please add the feature into plugin metadata to prevent any future crashes due to version incompatibility".to_string())
    );
}

#[test]
fn versions_are_checked_in_order() {
    let supported = list(&[("core", "0.1"), ("events", "0.2")]);
    assert!(compare_plugin_versions_with(&list(&[("core", "0.1")]), &supported).is_ok());
    match compare_plugin_versions_with(&list(&[("core", "0.1"), ("events", "0.1"), ("new", "1")]), &supported) {
        Err(PluginError::WrongVersion(a, b)) => {
            assert_eq!(a, "events 0.1");
            assert_eq!(b, "events 0.2");
        }
        other => panic!("unexpected {:?}", other),
    }
    match compare_plugin_versions_with(&list(&[("new", "1"), ("events", "0.1")]), &supported) {
        Err(PluginError::TooNew(a)) => assert_eq!(a, "new 1"),
        other => panic!("unexpected {:?}", other),
    }
}

#[test]
fn supported_features_pass_their_own_check() {
    assert!(compare_plugin_versions(&supported_features()).is_ok());
    assert!(compare_plugin_versions(&list(&[CORE])).is_ok());
}

#[test]
fn essential_features_are_warned_about_once_each() {
    let meta = PluginMetadata::from_literals("p", "a", "d", "1", &[("plugin_api", "0.1")]);
    let warnings = warn_about_essential_features(&meta);
    assert_eq!(warnings.len(), 2);
    assert!(warnings[0].contains("'compiler_version'"));
    assert!(warnings[1].contains("'sdmodule_trait'"));
    let full = PluginMetadata::from_literals("p", "a", "d", "1", &[("compiler_version", "0.1"), ("plugin_api", "0.1"), ("sdmodule_trait", "0.1")]);
    assert!(warn_about_essential_features(&full).is_empty());
}

#[test]
fn default_metadata_is_unspecified() {
    let meta = PluginMetadata::default();
    assert_eq!(meta.name, "unspecified");
    assert_eq!(meta.version, "unspecified");
    assert!(meta.used_features.is_empty());
}
