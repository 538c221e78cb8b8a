use tranrss::config::{apply_config_action, config_set, mask_key, truncate, Config, ConfigAction, ConfigOutcome, DatabaseMode};

#[test]
fn db_path_of_each_mode() {
    let local = Config { database: DatabaseMode::Local { db_path: "/var/lib/x.db".to_string() }, ..Default::default() };
    assert_eq!(local.db_path(), Some("/var/lib/x.db".to_string()));
    let fresh = Config { database: DatabaseMode::Fresh { data_dir: "/home/u/data".to_string() }, ..Default::default() };
    assert_eq!(fresh.db_path(), Some("/home/u/data/data.database".to_string()));
    let fresh_slash = Config { database: DatabaseMode::Fresh { data_dir: "/tmp/".to_string() }, ..Default::default() };
    assert_eq!(fresh_slash.db_path(), Some("/tmp/data.database".to_string()));
    assert_eq!(Config::default().db_path(), None);
}

#[test]
fn config_path_under_home() {
    assert_eq!(Config::config_path(Some("/home/u")), "/home/u/.config/tranrss/config.toml");
    assert_eq!(Config::config_path(None), "./.config/tranrss/config.toml");
}

#[test]
fn legacy_server_moves_into_remote_mode() {
    let mut c = Config { server: "http://old-server.com".to_string(), api_key: "trss_old".to_string(), ..Default::default() };
    c.upgrade_legacy();
    assert_eq!(c.api_base(), "http://old-server.com");
    assert_eq!(c.api_key_value(), "trss_old");
    assert_eq!(c.server, "http://old-server.com");
}

#[test]
fn config_set_keys() {
    let mut c = Config::default();
    assert!(config_set(&mut c, "server", "http://a".to_string()) == ConfigOutcome::Changed);
    assert!(config_set(&mut c, "api_key", "trss_k".to_string()) == ConfigOutcome::Changed);
    assert_eq!(c.api_base(), "http://a");
    assert_eq!(c.api_key_value(), "trss_k");
    assert!(config_set(&mut c, "database.mode", "weird".to_string()) == ConfigOutcome::UnknownMode);
    assert!(c.is_remote());
    assert!(config_set(&mut c, "database.db_path", "/x.db".to_string()) == ConfigOutcome::Changed);
    assert!(c.is_parasitic());
    assert!(config_set(&mut c, "api_key", "z".to_string()) == ConfigOutcome::NotRemote);
    assert!(config_set(&mut c, "nope", "z".to_string()) == ConfigOutcome::UnknownKey);
    assert!(config_set(&mut c, "log.level", "debug".to_string()) == ConfigOutcome::Changed);
    assert_eq!(c.log.level, "debug");
}

#[test]
fn config_actions_switch_modes() {
    let mut c = Config::default();
    assert!(apply_config_action(&mut c, ConfigAction::Show) == ConfigOutcome::Show);
    assert!(apply_config_action(&mut c, ConfigAction::Fresh { data_dir: "/d".to_string() }) == ConfigOutcome::Changed);
    assert!(c.is_fresh());
    assert!(apply_config_action(&mut c, ConfigAction::Remote { server: "s".to_string(), api_key: "k".to_string() }) == ConfigOutcome::Changed);
    assert_eq!(c.api_key_value(), "k");
}

#[test]
fn mask_key_forms() {
    assert_eq!(mask_key(""), "(未设置)");
    assert_eq!(mask_key("short"), "***");
    assert_eq!(mask_key("trss_0123456789abcdef"), "trss_012...cdef");
}

#[test]
fn truncate_cuts_with_ellipsis() {
    assert_eq!(truncate("hello", 10), "hello");
    assert_eq!(truncate("hello world", 8), "hello...");
}
