use streamduck::config::{config_dir_from, data_dir_from, device_configs_dir_from, get_streamduck_data_dir, get_streamduck_device_configs_dir, GlobalConfig};

#[test]
fn global_config_tracks_dirty_state_and_commits() {
    let mut c = GlobalConfig::new(None, Some(true));
    assert!(!c.is_dirty());
    assert!(c.last_commit().is_none());
    c.mark_dirty();
    assert!(c.is_dirty());
    assert!(c.last_commit().is_some());
    c.mark_clean();
    assert!(!c.is_dirty());
    assert!(c.last_commit().is_some());
    assert_eq!(c.autosave, Some(true));
}

#[test]
fn device_configs_live_in_the_data_folder() {
    if let (Some(data), Some(devices)) = (get_streamduck_data_dir(), get_streamduck_device_configs_dir()) {
        assert_eq!(devices, data.join("devices"));
    }
}

#[test]
fn default_global_config_is_empty_and_clean() {
    let c = GlobalConfig::default();
    assert!(c.device_config_path.is_none());
    assert!(c.autosave.is_none());
    assert!(!c.is_dirty());
    assert!(c.last_commit().is_none());
}

#[test]
fn folders_come_from_the_project_folders() {
    assert!(config_dir_from(None).is_none());
    assert!(data_dir_from(None).is_none());
    assert!(device_configs_dir_from(None).is_none());
    if let Some(d) = directories::ProjectDirs::from_path(std::path::PathBuf::from("streamduck")) {
        assert_eq!(config_dir_from(Some(d.clone())), Some(d.config_dir().to_path_buf()));
        assert_eq!(data_dir_from(Some(d.clone())), Some(d.data_dir().to_path_buf()));
        assert_eq!(device_configs_dir_from(Some(d.clone())), Some(d.data_dir().join("devices")));
        assert_ne!(device_configs_dir_from(Some(d.clone())), Some(d.data_dir().to_path_buf()));
    }
}

#[test]
fn folders_from_one_lookup_agree() {
    assert!(streamduck::config::folders_from(None).is_none());
    if let Some(d) = directories::ProjectDirs::from_path(std::path::PathBuf::from("streamduck")) {
        let f = streamduck::config::folders_from(Some(d.clone())).unwrap();
        assert_eq!(f.config_dir, d.config_dir().to_path_buf());
        assert_eq!(f.data_dir, d.data_dir().to_path_buf());
        assert_eq!(f.device_configs_dir, f.data_dir.join("devices"));
    }
    if let Some(f) = streamduck::config::get_streamduck_folders() {
        assert_eq!(f.device_configs_dir, f.data_dir.join("devices"));
    }
}

#[test]
fn folders_are_looked_up_under_the_project_names() {
    assert_eq!(streamduck::config::streamduck_project_names(), ("org", "streamduck", "Streamduck"));
}
