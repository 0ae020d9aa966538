use chrono_forge::config::{AppConfig, ConfigHandler, DatabaseConfig};

#[test]
fn new_config_points_at_the_database_file_in_the_directory() {
    let handler = ConfigHandler::from_dirs("/home/me/.config/chrono-forge".to_string(), "/opt/chrono-forge".to_string());
    assert_eq!(handler.config_file_path(), "/home/me/.config/chrono-forge/config.toml");
    let config = handler.create_new_config("/data".to_string());
    assert_eq!(config.database.path, "/data/chrono-forge.db");
    let default = handler.create_new_default_config();
    assert_eq!(default.database.path, "/opt/chrono-forge/chrono-forge.db");
}

#[test]
fn relinking_points_at_the_given_file() {
    let handler = ConfigHandler::from_dirs("/c".to_string(), "/d".to_string());
    let mut config = AppConfig { database: DatabaseConfig { path: "/old.db".to_string() } };
    handler.relink_database(&mut config, "/new/other.db".to_string());
    assert_eq!(config.database.path, "/new/other.db");
}

#[test]
fn a_missing_database_does_not_exist() {
    let config = AppConfig {
        database: DatabaseConfig { path: "/this/path/does/not/exist/chrono-forge.db".to_string() },
    };
    assert!(!config.database_exists());
}

#[test]
fn the_default_database_lies_next_to_the_executable() {
    if let Some(handler) = ConfigHandler::new("/usr/local/bin".to_string()) {
        assert!(handler.config_file_path().ends_with("config.toml"));
        assert_eq!(handler.create_new_default_config().database.path, "/usr/local/bin/chrono-forge.db");
    }
}
