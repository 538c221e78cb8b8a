use tranrss::api_config::{effective_api_id, merge_update, new_config, require_api, reveal_key, ApiConfig, ApiPurpose, CreateApiConfigRequest, UpdateApiConfigRequest};
use tranrss::cli::{detect_scheduler, runs_builtin_timer, scheduler_choice, serve_database_url, setup_files, tui_readiness, Scheduler, TuiSetupError};
use tranrss::config::{Config, DatabaseMode};
use tranrss::crypto::decrypt_safe;
use tranrss::log_events::{broadcast_line, LogLevel};
use tranrss::startup::{asset_name, default_admin, frontend_reply, get_arg, should_vacuum, FrontendReply};
use tranrss::subscriptions::{
    escape_xml, export_opml, import_outcome, new_subscription, opml_import_requests, sync_jobs, update_folder,
    CreateSubscriptionRequest, FolderChoice, ImportError, SubscriptionDetail, UpdateSubscriptionRequest,
};
use tranrss::user::{fever_api_key, password_update, PasswordError};
use tranrss::auth::{claims_from_payload, create_token, decode_token, hash_password, verify_password, AuthError};

fn create_req(feed_url: &str) -> CreateSubscriptionRequest {
    CreateSubscriptionRequest {
        feed_url: feed_url.to_string(),
        folder_id: None,
        category: None,
        custom_title: None,
        need_translate: None,
        need_summary: None,
        site_url: None,
        description: None,
        icon_url: None,
        icon_base64: None,
        target_language: None,
        num: None,
        refresh_interval: None,
        is_shared: None,
    }
}

fn detail(title: &str, url: &str, category: &str, site: Option<&str>) -> SubscriptionDetail {
    SubscriptionDetail {
        id: 1,
        feed_id: 1,
        title: title.to_string(),
        url: url.to_string(),
        category: category.to_string(),
        article_count: 0,
        last_sync: None,
        status: "active".to_string(),
        target_language: None,
        language: "en".to_string(),
        auto_translate: false,
        need_summary: false,
        site_url: site.map(|s| s.to_string()),
        description: None,
        icon_url: None,
        icon_base64: None,
        refresh_interval: 30,
        last_status_code: None,
        last_error: None,
    }
}

#[test]
fn xml_escaping() {
    assert_eq!(escape_xml("a&b<c>\"d'"), "a&amp;b&lt;c&gt;&quot;d&apos;");
    assert_eq!(escape_xml("plain"), "plain");
}

#[test]
fn opml_export_groups_by_category() {
    let subs = vec![
        detail("A & B", "http://a/rss", "Tech", Some("http://a")),
        detail("C", "http://c/rss", "未分类", None),
        detail("D", "http://d/rss", "Tech", None),
    ];
    let opml = export_opml(&subs);
    let expected = "<?xml version=\"1.0\" encoding=\"UTF-8\"?>\n<opml version=\"2.0\">\n  <head>\n    <title>TranRSS Export</title>\n  </head>\n  <body>\n".to_string()
        + "    <outline text=\"Tech\" title=\"Tech\">\n"
        + "      <outline text=\"A &amp; B\" title=\"A &amp; B\" type=\"rss\" xmlUrl=\"http://a/rss\" htmlUrl=\"http://a\"/>\n"
        + "      <outline text=\"D\" title=\"D\" type=\"rss\" xmlUrl=\"http://d/rss\" htmlUrl=\"\"/>\n"
        + "    </outline>\n"
        + "    <outline text=\"C\" title=\"C\" type=\"rss\" xmlUrl=\"http://c/rss\" htmlUrl=\"\"/>\n"
        + "  </body>\n</opml>";
    assert_eq!(opml, expected);
}

#[test]
fn opml_import_reads_outlines() {
    let file = b"<opml><body><outline text=\"X\" title=\"Xt\" type=\"rss\" xmlUrl=\"http://x/feed\"/><outline xmlUrl='http://y/feed'/></body></opml>";
    let reqs = match opml_import_requests(file) {
        Ok(r) => r,
        Err(_) => panic!("expected requests"),
    };
    assert_eq!(reqs.len(), 2);
    assert_eq!(reqs[0].feed_url, "http://x/feed");
    assert_eq!(reqs[0].custom_title, Some("Xt".to_string()));
    assert_eq!(reqs[0].num, Some(200));
    assert_eq!(reqs[0].refresh_interval, Some(30));
    assert_eq!(reqs[0].need_translate, Some(false));
    assert_eq!(reqs[1].feed_url, "http://y/feed");
    assert_eq!(reqs[1].custom_title, None);
    assert!(matches!(opml_import_requests(b""), Err(ImportError::NoFile)));
    assert!(import_outcome(0) == Err(ImportError::NothingImported));
    assert!(import_outcome(2).is_ok());
}

#[test]
fn new_subscription_defaults_and_folders() {
    let n = new_subscription(&create_req("http://f"));
    assert_eq!(n.feed_title, "New Feed");
    assert!(matches!(n.folder, FolderChoice::NoFolder));
    assert_eq!(n.target_language, "Chinese");
    assert_eq!(n.num, 200);
    assert_eq!(n.refresh_interval, 30);
    assert!(!n.need_translate && !n.need_summary && !n.is_shared);
    let mut r = create_req("http://f");
    r.category = Some("Tech".to_string());
    assert!(matches!(new_subscription(&r).folder, FolderChoice::Named(ref t) if t == "Tech"));
    r.category = Some("未分类".to_string());
    assert!(matches!(new_subscription(&r).folder, FolderChoice::NoFolder));
    r.folder_id = Some(9);
    assert!(matches!(new_subscription(&r).folder, FolderChoice::Folder(9)));
}

#[test]
fn updates_choose_folders() {
    let mut u = UpdateSubscriptionRequest {
        folder_id: None,
        category: None,
        custom_title: None,
        need_translate: None,
        need_summary: None,
        target_language: None,
        num: None,
        refresh_interval: None,
        is_shared: None,
    };
    assert!(update_folder(&u).is_none());
    u.folder_id = Some(3);
    assert!(matches!(update_folder(&u), Some(FolderChoice::Folder(3))));
    u.category = Some(String::new());
    assert!(matches!(update_folder(&u), Some(FolderChoice::NoFolder)));
    u.category = Some("News".to_string());
    assert!(matches!(update_folder(&u), Some(FolderChoice::Named(ref t)) if t == "News"));
}

#[test]
fn sync_jobs_name_the_user() {
    let jobs = sync_jobs(&[4, 5], 2);
    assert_eq!(jobs.len(), 2);
    assert_eq!(jobs[1].feed_id, 5);
    assert_eq!(jobs[1].initiator_user_id, Some(2));
}

#[test]
fn api_config_defaults_and_merge() {
    let req = CreateApiConfigRequest {
        name: "n".to_string(),
        api_type: "openai".to_string(),
        api_key: Some("sk-1".to_string()),
        base_url: None,
        settings: None,
        timeout_seconds: None,
        retry_count: None,
        retry_interval_ms: None,
        retry_enabled: None,
    };
    let c = new_config("key", 3, req);
    assert_eq!(c.settings, "{}");
    assert_eq!(c.timeout_seconds, 180);
    assert_eq!(c.retry_count, 3);
    assert_eq!(c.retry_interval_ms, 1000);
    assert!(c.retry_enabled);
    let stored = c.api_key.clone().unwrap();
    assert_ne!(stored, "sk-1");
    assert_eq!(decrypt_safe("key", &stored), "sk-1");
    let old = ApiConfig {
        id: 8,
        user_id: 3,
        name: c.name,
        api_type: c.api_type,
        api_key: c.api_key,
        base_url: None,
        settings: c.settings,
        timeout_seconds: 180,
        retry_count: 3,
        retry_interval_ms: 1000,
        retry_enabled: true,
    };
    let upd = UpdateApiConfigRequest {
        name: Some("m".to_string()),
        api_type: None,
        api_key: None,
        base_url: Some("http://b".to_string()),
        settings: None,
        timeout_seconds: Some(5),
        retry_count: None,
        retry_interval_ms: None,
        retry_enabled: Some(false),
    };
    let merged = merge_update("key", old, upd);
    assert_eq!(merged.id, 8);
    assert_eq!(merged.name, "m");
    assert_eq!(merged.api_type, "openai");
    assert_eq!(merged.base_url, Some("http://b".to_string()));
    assert_eq!(merged.timeout_seconds, 5);
    assert!(!merged.retry_enabled);
    let shown = reveal_key("key", merged);
    assert_eq!(shown.api_key, Some("sk-1".to_string()));
}

#[test]
fn effective_api_choice() {
    assert_eq!(effective_api_id(Some(1), Some(2), Some(3)), Some(1));
    assert_eq!(effective_api_id(None, Some(2), Some(3)), Some(2));
    assert_eq!(effective_api_id(None, None, Some(3)), Some(3));
    assert_eq!(effective_api_id(None, None, None), None);
    assert_eq!(require_api(Some(4), ApiPurpose::Summary), Ok(4));
    assert_eq!(require_api(None, ApiPurpose::Translation), Err("Please configure a translation API in settings first".to_string()));
}

#[test]
fn accounts_and_passwords() {
    assert_eq!(fever_api_key("admin", "admin"), "d2abaa37a7c3db1137d385e1d8c15fd2");
    let admin = default_admin(0).ok().unwrap().unwrap();
    assert_eq!(admin.username, "admin");
    assert!(verify_password("admin", &admin.password_hash));
    assert_eq!(admin.fever_api_key, "d2abaa37a7c3db1137d385e1d8c15fd2");
    assert!(default_admin(1).ok().unwrap().is_none());
    let h = hash_password("secret").unwrap();
    assert!(matches!(password_update("alice", "wrong", &h, "new"), Err(PasswordError::OldPasswordIncorrect)));
    match password_update("alice", "secret", &h, "new") {
        Ok((nh, key)) => {
            assert!(verify_password("new", &nh));
            assert_eq!(key, fever_api_key("alice", "new"));
        }
        Err(_) => panic!("expected the change"),
    }
    assert!(!verify_password("x", "not a hash"));
}

#[test]
fn startup_decisions() {
    assert!(should_vacuum(1001));
    assert!(!should_vacuum(1000));
    let args: Vec<String> = ["init_db", "--db", "x.db", "--user"].iter().map(|s| s.to_string()).collect();
    assert_eq!(get_arg(&args, "--db", "../rssdata.db"), "x.db");
    assert_eq!(get_arg(&args, "--user", "admin"), "admin");
    assert_eq!(get_arg(&args, "--pass", "admin"), "admin");
    assert_eq!(asset_name("//assets/app.js"), "assets/app.js");
    match frontend_reply("/index.html", true, true) {
        FrontendReply::Asset { name, content_type, cache_control } => {
            assert_eq!(name, "index.html");
            assert_eq!(content_type, "text/html");
            assert_eq!(cache_control, "no-cache");
        }
        _ => panic!("expected the asset"),
    }
    match frontend_reply("/assets/app.js", true, true) {
        FrontendReply::Asset { cache_control, .. } => assert_eq!(cache_control, "public, max-age=31536000, immutable"),
        _ => panic!("expected the asset"),
    }
    assert!(matches!(frontend_reply("/feeds", false, true), FrontendReply::Index));
    assert!(matches!(frontend_reply("/feeds", false, false), FrontendReply::Missing));
}

#[test]
fn setup_and_serve() {
    assert!(matches!(detect_scheduler(true, true), Scheduler::Systemd));
    assert!(matches!(detect_scheduler(false, true), Scheduler::Alpine));
    assert!(matches!(detect_scheduler(false, false), Scheduler::Fallback));
    assert!(matches!(scheduler_choice(Some("alpine".to_string()), true, false), Scheduler::Alpine));
    assert!(matches!(scheduler_choice(Some("systemd".to_string()), false, false), Scheduler::Systemd));
    assert!(matches!(scheduler_choice(None, false, false), Scheduler::Fallback));
    assert!(matches!(scheduler_choice(None, false, true), Scheduler::Alpine));
    assert!(matches!(scheduler_choice(Some("cron".to_string()), true, true), Scheduler::Unknown(ref n) if n == "cron"));
    assert!(runs_builtin_timer(false, &Scheduler::Fallback));
    assert!(!runs_builtin_timer(true, &Scheduler::Fallback));
    assert!(!runs_builtin_timer(false, &Scheduler::Systemd));
    assert!(setup_files(&Scheduler::Fallback).is_empty());
    let files = setup_files(&Scheduler::Systemd);
    assert_eq!(files.len(), 3);
    assert_eq!(files[1].path, "/etc/systemd/system/tranrss-sync.timer");
    assert!(files[1].content.contains("OnUnitActiveSec=30min"));
    let alpine = setup_files(&Scheduler::Alpine);
    assert!(alpine.iter().all(|f| f.executable));
    assert!(setup_files(&Scheduler::Unknown("x".to_string())).is_empty());
    let fresh = Config { database: DatabaseMode::Fresh { data_dir: "/d".to_string() }, ..Default::default() };
    assert_eq!(serve_database_url(&fresh, None), "sqlite:/d/data.database");
    let remote = Config::default();
    assert_eq!(serve_database_url(&remote, None), "sqlite:/app/data/data.database");
    assert_eq!(serve_database_url(&remote, Some("sqlite:x".to_string())), "sqlite:x");
    assert!(matches!(tui_readiness(&remote, false), Err(TuiSetupError::RemoteUnset)));
    let local = Config { database: DatabaseMode::Local { db_path: "/no.db".to_string() }, ..Default::default() };
    assert!(matches!(tui_readiness(&local, false), Err(TuiSetupError::DbMissing(ref p)) if p == "/no.db"));
    assert!(tui_readiness(&local, true).is_ok());
}

#[test]
fn log_lines_for_warnings_only() {
    assert!(broadcast_line(LogLevel::Info, "t", "m").is_none());
    assert_eq!(
        broadcast_line(LogLevel::Warn, "tranrss", "slow \"feed\"").unwrap(),
        "LOG:{\"level\":\"WARN\",\"message\":\"slow \\\"feed\\\"\",\"target\":\"tranrss\"}"
    );
}

#[test]
fn tokens_decode_to_the_claims_they_were_made_with() {
    let secret = b"0123456789abcdef0123456789abcdef";
    let now = chrono::Utc::now().timestamp();
    let token = create_token(secret, 42, "alice", now);
    assert_eq!(token.split('.').count(), 3);
    assert_eq!(create_token(secret, 42, "alice", now), token);
    let claims = decode_token(&token, secret).ok().expect("fresh token decodes");
    assert_eq!(claims.sub, "42");
    assert_eq!(claims.username, "alice");
    assert_eq!(claims.iat, now as usize);
    assert_eq!(claims.exp, (now + 259200) as usize);
    assert!(matches!(decode_token(&token, b"another secret"), Err(AuthError::InvalidToken(_))));
    let old = create_token(secret, 42, "alice", now - 400000);
    assert!(matches!(decode_token(&old, secret), Err(AuthError::InvalidToken(_))));
    assert!(matches!(decode_token("not.a.token", secret), Err(AuthError::InvalidToken(_))));
}

#[test]
fn payloads_without_the_claims_are_refused() {
    let c = claims_from_payload("{\"exp\":10,\"iat\":5,\"sub\":\"7\",\"username\":\"bob\"}").ok().expect("claims");
    assert_eq!((c.sub.as_str(), c.exp, c.iat, c.username.as_str()), ("7", 10, 5, "bob"));
    assert!(matches!(
        claims_from_payload("{\"exp\":10,\"iat\":5,\"sub\":7,\"username\":\"bob\"}"),
        Err(AuthError::InvalidToken(m)) if m == "the payload does not hold the claims"
    ));
    assert!(matches!(claims_from_payload("{\"exp\":10,\"sub\":\"7\",\"username\":\"bob\"}"), Err(AuthError::InvalidToken(_))));
    assert!(matches!(claims_from_payload("[]"), Err(AuthError::InvalidToken(_))));
}
