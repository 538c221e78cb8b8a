use tranrss::config::{Config, DatabaseMode};

#[test]
fn test_default_config() {
    let config = Config::default();
    assert!(config.server.is_empty());
    assert!(config.api_key.is_empty());
    assert!(config.is_remote());
    assert!(!config.is_parasitic());
    assert!(!config.is_fresh());
}

#[test]
fn test_api_base_trailing_slash() {
    let config = Config {
        database: DatabaseMode::Remote {
            server: "http://localhost:8000/".to_string(),
            api_key: "test".to_string(),
        },
        ..Default::default()
    };
    assert_eq!(config.api_base(), "http://localhost:8000");
}

#[test]
fn test_api_base_local_mode() {
    let config = Config {
        database: DatabaseMode::Local {
            db_path: "/data/db".to_string(),
        },
        ..Default::default()
    };
    assert_eq!(config.api_base(), "");
}

#[test]
fn test_remote_mode() {
    // [database] mode = "remote", server = "http://example.com", api_key = "trss_abc"
    let config = Config {
        database: DatabaseMode::Remote { server: "http://example.com".to_string(), api_key: "trss_abc".to_string() },
        ..Default::default()
    };
    assert!(config.is_remote());
    assert_eq!(config.api_base(), "http://example.com");
    assert_eq!(config.api_key_value(), "trss_abc");
}

#[test]
fn test_local_parasitic_mode() {
    // [database] mode = "local", db_path = "/var/lib/tranrss/data.database"
    let config = Config {
        database: DatabaseMode::Local { db_path: "/var/lib/tranrss/data.database".to_string() },
        ..Default::default()
    };
    assert!(config.is_parasitic());
    assert_eq!(config.db_path(), Some("/var/lib/tranrss/data.database".to_string()));
}

#[test]
fn test_fresh_mode() {
    // [database] mode = "fresh", data_dir = "/home/user/tranrss-data"
    let config = Config {
        database: DatabaseMode::Fresh { data_dir: "/home/user/tranrss-data".to_string() },
        ..Default::default()
    };
    assert!(config.is_fresh());
    assert_eq!(config.db_path(), Some("/home/user/tranrss-data/data.database".to_string()));
}

#[test]
fn test_backward_compatibility() {
    // server = "http://old-server.com", api_key = "trss_old" at the top level
    let config = Config { server: "http://old-server.com".to_string(), api_key: "trss_old".to_string(), ..Default::default() };
    assert_eq!(config.server, "http://old-server.com");
    assert_eq!(config.api_key, "trss_old");
}
