use tranrss::api_client::ApiClient;
use tranrss::config::{Config, DatabaseMode};

#[test]
fn test_auth_header_format() {
    let config = Config {
        database: DatabaseMode::Remote {
            server: "http://localhost:8000".to_string(),
            api_key: "trss_abc123".to_string(),
        },
        ..Default::default()
    };
    let client = ApiClient::new(&config);
    assert_eq!(client.auth_header(), "Bearer trss_abc123");
}

#[test]
fn test_client_new_trailing_slash() {
    let config = Config {
        database: DatabaseMode::Remote {
            server: "http://localhost:8000/".to_string(),
            api_key: "trss_test".to_string(),
        },
        ..Default::default()
    };
    let client = ApiClient::new(&config);
    assert_eq!(client.server, "http://localhost:8000");
}

#[test]
fn client_urls_join_server_and_path() {
    let config = Config {
        database: DatabaseMode::Remote {
            server: "http://h:1///".to_string(),
            api_key: "k".to_string(),
        },
        ..Default::default()
    };
    let client = ApiClient::new(&config);
    assert_eq!(client.server, "http://h:1");
    assert_eq!(client.url("/api/feeds"), "http://h:1/api/feeds");
}

#[test]
fn client_outside_remote_mode_has_no_server() {
    let config = Config {
        database: DatabaseMode::Local { db_path: "/d".to_string() },
        ..Default::default()
    };
    let client = ApiClient::new(&config);
    assert_eq!(client.server, "");
    assert_eq!(client.auth_header(), "Bearer ");
}
