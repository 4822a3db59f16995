use noted_desktop::config::{AppConfig, Storage};
use noted_desktop::paths::{config_path_from, get_config_path};
use noted_desktop::schema::{db_path_from, get_db_path, COLLECTION_NAME};
use noted_desktop::{log_filter, LOG_TARGET};
use std::path::PathBuf;

fn with_path(path: &str) -> AppConfig {
    AppConfig { storage: Storage { path: Some(path.to_string()) } }
}

#[test]
fn config_file_lies_below_the_config_directory() {
    let path = config_path_from(Some(PathBuf::from("/home/u/.config")), Some(PathBuf::from("/home/u")));
    assert_eq!(path, PathBuf::from("/home/u/.config/noted/config.toml"));
}

#[test]
fn config_file_lies_below_home_without_a_config_directory() {
    let path = config_path_from(None, Some(PathBuf::from("/home/u")));
    assert_eq!(path, PathBuf::from("/home/u/.config/noted/config.toml"));
}

#[test]
fn config_file_lies_in_the_working_directory_without_any_directory() {
    assert_eq!(config_path_from(None, None), PathBuf::from("config.toml"));
}

#[test]
fn config_path_on_this_machine_names_the_config_file() {
    let path = get_config_path();
    assert!(path.ends_with("config.toml"));
}

#[test]
fn database_lies_in_the_configured_directory() {
    let path = db_path_from(&with_path("/tmp/x"), Some(PathBuf::from("/data")), Some(PathBuf::from("/home/u")));
    assert_eq!(path, PathBuf::from("/tmp/x/noted.db"));
    assert_eq!(get_db_path(&with_path("/tmp/x")), PathBuf::from("/tmp/x/noted.db"));
}

#[test]
fn database_lies_below_the_data_directory() {
    let path = db_path_from(&AppConfig::default(), Some(PathBuf::from("/data")), Some(PathBuf::from("/home/u")));
    assert_eq!(path, PathBuf::from("/data/noted/noted.db"));
}

#[test]
fn database_lies_below_home_without_a_data_directory() {
    let path = db_path_from(&AppConfig::default(), None, Some(PathBuf::from("/home/u")));
    assert_eq!(path, PathBuf::from("/home/u/noted/noted.db"));
}

#[test]
fn database_lies_below_the_working_directory_without_any_directory() {
    let path = db_path_from(&AppConfig::default(), None, None);
    assert_eq!(path, PathBuf::from("./noted/noted.db"));
}

#[test]
fn database_path_on_this_machine_names_the_database() {
    let path = get_db_path(&AppConfig::default());
    assert!(path.ends_with("noted/noted.db"));
}

#[test]
fn channel_groups_are_stored_under_channels() {
    assert_eq!(COLLECTION_NAME, "channels");
}

#[test]
fn debug_builds_log_more() {
    assert_eq!(log_filter(true), "noted=debug,info");
    assert_eq!(log_filter(false), "noted=info,warn");
    assert_eq!(LOG_TARGET, "noted");
}
