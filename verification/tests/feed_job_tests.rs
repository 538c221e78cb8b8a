use std::collections::hash_map::DefaultHasher;
use std::hash::{Hash, Hasher};
use tranrss::feeds::{
    duckduckgo_icon_url, feed_preview, find_hub, google_favicon_url, icon_data_uri, parse_entry, parse_feed_entries,
    preview_of_document, should_fetch_icon, EntryData, FeedHead, FeedLink, FetchAttempts, FetchStep,
};
use tranrss::html::extract_blocks_from_html;
use tranrss::jobs::{add_article_feeds, ai_settings, build_job_info, clean_job_error, follow_up_queries, in_query, job_refs, sync_user, JobRow};

const RSS: &str = "<?xml version=\"1.0\"?><rss version=\"2.0\"><channel><title>Feed</title><link>http://site</link>\
<description>Desc</description><item><title>First</title><link>http://site/1</link><guid>g1</guid>\
<description>&lt;p&gt;Hi&lt;/p&gt;</description><pubDate>Tue, 02 Jan 2024 03:04:05 +0000</pubDate></item></channel></rss>";

fn hashed(s: &str) -> i64 {
    let mut h = DefaultHasher::new();
    s.hash(&mut h);
    (h.finish() % 9_007_199_254_740_991) as i64
}

fn entry() -> EntryData {
    EntryData {
        id: String::new(),
        first_link: Some("http://a/1".to_string()),
        title: None,
        first_author: Some("Ann".to_string()),
        content_body: None,
        summary: Some("<p>Sum</p>".to_string()),
        published: None,
        updated: Some(77),
    }
}

#[test]
fn entries_become_articles() {
    let a = parse_entry(&entry(), 5);
    assert_eq!(a.origin_guid, "http://a/1");
    assert_eq!(a.id, hashed("http://a/1"));
    assert_eq!(a.title, "No Title");
    assert_eq!(a.author.as_deref(), Some("Ann"));
    assert_eq!(a.published_at, Some(77));
    let (skeleton, blocks) = extract_blocks_from_html("<p>Sum</p>");
    assert_eq!((a.skeleton, a.blocks), (skeleton, blocks));
    let mut bare = entry();
    bare.first_link = None;
    assert_eq!(parse_entry(&bare, 123).origin_guid, "auto-id-123");
    bare.title = Some("Title".to_string());
    bare.id = "urn:x".to_string();
    assert_eq!(parse_entry(&bare, 123).origin_guid, "urn:x");
}

#[test]
fn documents_parse_into_articles() {
    let parsed = parse_feed_entries(RSS.as_bytes(), 0);
    assert_eq!(parsed.articles.len(), 1);
    let a = &parsed.articles[0];
    assert_eq!(a.origin_guid, "g1");
    assert_eq!(a.id, hashed("g1"));
    assert_eq!(a.title, "First");
    assert_eq!(a.link.as_deref(), Some("http://site/1"));
    assert_eq!(a.published_at, Some(1704164645));
    let (skeleton, blocks) = extract_blocks_from_html("<p>Hi</p>");
    assert_eq!((a.skeleton.clone(), a.blocks.clone()), (skeleton, blocks));
    let bad = parse_feed_entries(b"not a feed", 0);
    assert!(bad.articles.is_empty());
    assert!(bad.hub_url.is_none());
}

#[test]
fn previews() {
    let p = preview_of_document("http://x/rss", RSS.as_bytes());
    assert_eq!(p.feed_url, "http://x/rss");
    assert_eq!(p.title, "Feed");
    assert_eq!(p.description.as_deref(), Some("Desc"));
    assert!(p.icon_base64.is_none());
    let bad = preview_of_document("http://x/rss", b"<<<");
    assert_eq!(bad.title, "Non-standard RSS Source");
    assert_eq!(bad.site_url.as_deref(), Some("http://x/rss"));
    assert_eq!(bad.description.as_deref(), Some("This feed uses a non-standard format but may still sync."));
    let head = FeedHead {
        title: None,
        description: None,
        links: vec![
            FeedLink { href: "http://site".to_string(), rel: None },
            FeedLink { href: "http://hub".to_string(), rel: Some("hub".to_string()) },
        ],
        logo: None,
        icon: Some("http://site/i.ico".to_string()),
    };
    assert_eq!(find_hub(&head.links), Some("http://hub".to_string()));
    let q = feed_preview("http://u", Some(head));
    assert_eq!(q.title, "Unknown Feed");
    assert_eq!(q.site_url.as_deref(), Some("http://site"));
    assert_eq!(q.icon_url.as_deref(), Some("http://site/i.ico"));
    assert_eq!(q.hub_url.as_deref(), Some("http://hub"));
}

#[test]
fn fetch_attempts_retry_three_times() {
    let mut a = FetchAttempts::new();
    assert!(a.on_status(404, false, Some("Not Found")) == FetchStep::Retry);
    assert_eq!(a.attempt, 2);
    assert_eq!(a.last_status, Some(404));
    assert_eq!(a.last_error.as_deref(), Some("HTTP 404 - Feed 获取失败 (Not Found)"));
    assert!(a.on_send_error("timeout".to_string()) == FetchStep::Retry);
    assert_eq!(a.attempt, 3);
    assert!(a.on_status(200, true, Some("OK")) == FetchStep::ReadBody);
    assert!(a.on_body_error("eof") == FetchStep::GiveUp);
    assert_eq!(a.last_status, Some(200));
    assert_eq!(a.failure_message(), "Error reading response body: eof");
    assert_eq!(a.inactive_reason(), "连续超过2天抓取失败: Error reading response body: eof");
    let fresh = FetchAttempts::new();
    assert_eq!(fresh.failure_message(), "Unknown error");
    assert_eq!(fresh.inactive_reason(), "连续超过2天抓取失败: 未知错误");
    let mut b = FetchAttempts::new();
    b.on_status(500, false, None);
    assert_eq!(b.last_error.as_deref(), Some("HTTP 500 - Feed 获取失败 (Unknown)"));
}

#[test]
fn icons() {
    assert_eq!(icon_data_uri(None, b"abc"), Some("data:image/x-icon;base64,YWJj".to_string()));
    assert_eq!(icon_data_uri(Some("image/png"), b"ab"), Some("data:image/png;base64,YWI=".to_string()));
    assert!(icon_data_uri(None, &vec![0u8; 49152]).is_some());
    assert!(icon_data_uri(None, &vec![0u8; 49153]).is_none());
    assert_eq!(google_favicon_url("a.com"), "https://www.google.com/s2/favicons?domain=a.com&sz=128");
    assert_eq!(duckduckgo_icon_url("a.com"), "https://icons.duckduckgo.com/ip3/a.com.ico");
    assert!(should_fetch_icon(&Some("u".to_string()), &None));
    assert!(!should_fetch_icon(&Some("u".to_string()), &Some("d".to_string())));
    assert!(!should_fetch_icon(&None, &None));
}

fn row(id: &str, job_type: &str, status: &str, err: Option<&str>, job: &str) -> JobRow {
    JobRow {
        id: id.to_string(),
        job_type: job_type.to_string(),
        status: status.to_string(),
        attempts: 1,
        last_error: err.map(|e| e.to_string()),
        run_at: 10,
        done_at: None,
        job: job.to_string(),
    }
}

#[test]
fn jobs_are_listed_with_their_feed() {
    let rows = vec![
        row("a", "x::TranslateArticleJob", "Failed", Some("{\"Err\":\"boom\"}"), "{\"user_id\":1,\"article_id\":5}"),
        row("b", "x::SyncFeedJob", "Done", Some("old"), "{\"feed_id\":9,\"initiator_user_id\":null}"),
        row("c", "x::SummarizeArticleJob", "Pending", Some("{\"Ok\":null}"), "{\"user_id\":1,\"article_id\":5}"),
    ];
    let (articles, mut feeds) = job_refs(&rows);
    assert_eq!(articles, vec![5]);
    assert_eq!(feeds, vec![9]);
    add_article_feeds(&mut feeds, &vec![(5, 3), (6, 9)]);
    assert_eq!(feeds, vec![9, 3]);
    assert_eq!(in_query("SELECT id FROM feeds WHERE id IN (", &feeds), "SELECT id FROM feeds WHERE id IN (9,3)");
    let art = vec![(5, 3)];
    let titles = vec![(5, "Article".to_string())];
    let feed_titles = vec![(3, "Feed3".to_string()), (9, "Feed9".to_string())];
    let mut it = rows.into_iter();
    let a = build_job_info(it.next().unwrap(), &art, &titles, &feed_titles);
    assert_eq!((a.category.as_str(), a.last_error.as_deref()), ("translate", Some("boom")));
    assert_eq!((a.feed_id, a.feed_title.as_deref(), a.title_label.as_deref()), (Some(3), Some("Feed3"), Some("Article")));
    let b = build_job_info(it.next().unwrap(), &art, &titles, &feed_titles);
    assert_eq!((b.category.as_str(), b.last_error.as_deref()), ("sync", None));
    assert_eq!((b.feed_id, b.title_label.as_deref()), (Some(9), Some("Feed9")));
    let c = build_job_info(it.next().unwrap(), &art, &titles, &feed_titles);
    assert_eq!((c.category.as_str(), c.last_error.as_deref()), ("summarize", None));
    assert_eq!(clean_job_error("Failed", Some("plain".to_string())), Some("plain".to_string()));
    assert_eq!(clean_job_error("DONE", Some("plain".to_string())), None);
    assert_eq!(sync_user(Some(2), Some(3)), Some(2));
    assert_eq!(sync_user(None, Some(3)), Some(3));
    assert_eq!(sync_user(None, None), None);
    assert_eq!(ai_settings("{\"model\":\"m\"}"), ("m".to_string(), "Chinese".to_string()));
    assert_eq!(ai_settings("oops"), ("gpt-3.5-turbo".to_string(), "Chinese".to_string()));
}

#[test]
fn sync_follow_up_queries_follow_the_subscription() {
    let (t, s) = follow_up_queries(true, false);
    let t = t.expect("translation query");
    assert!(t.contains("TranslateArticleJob"));
    assert!(t.ends_with("LIMIT 20"));
    assert!(t.contains("'%\"article_id\":' || a.id"));
    assert!(s.is_none());
    let (t, s) = follow_up_queries(false, true);
    assert!(t.is_none());
    let s = s.expect("summary query");
    assert!(s.contains("a.summary IS NULL"));
    assert!(s.ends_with("LIMIT 20"));
    assert_eq!(follow_up_queries(false, false), (None, None));
}
