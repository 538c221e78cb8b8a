use tranrss::access_key::{check_permission, generate_access_key, AccessKey};
use tranrss::article::{stitch_article_content, ArticleBlock};
use tranrss::crypto::{decrypt_safe, encrypt, encryption_key};
use tranrss::greader::{encode_continuation, greader_to_item_id, item_id_to_greader, parse_continuation};
use tranrss::greader_stream::{resolve_stream_title, tag_label};
use tranrss::html::extract_blocks_from_html;
use tranrss::jobs::categorize_job_type;
use tranrss::text::lines;
use tranrss::tui_app::Tab;

#[test]
fn item_ids_round_trip() {
    let g = item_id_to_greader(255);
    assert_eq!(g, "tag:google.com,2005:reader/item/00000000000000ff");
    assert_eq!(greader_to_item_id(&g), Some(255));
    assert_eq!(greader_to_item_id("00000000000000ff"), Some(255));
    assert_eq!(greader_to_item_id("12345"), Some(12345));
    assert_eq!(greader_to_item_id("not-an-id"), None);
    for id in [0i64, 1, 42, 9_007_199_254_740_990] {
        assert_eq!(greader_to_item_id(&item_id_to_greader(id)), Some(id));
    }
}

#[test]
fn continuation_tokens_round_trip() {
    assert_eq!(encode_continuation(20), "MjA");
    assert_eq!(parse_continuation("MjA"), 20);
    assert_eq!(parse_continuation("garbage!"), 0);
    for o in [0i64, 7, 1000, -3] {
        assert_eq!(parse_continuation(&encode_continuation(o)), o);
    }
}

#[test]
fn stream_titles_and_labels() {
    assert_eq!(resolve_stream_title("user/-/state/com.google/reading-list"), "All Articles");
    assert_eq!(resolve_stream_title("user/-/state/com.google/starred"), "Starred");
    assert_eq!(resolve_stream_title("feed/12"), "12");
    assert_eq!(tag_label("user/1/label/Tech"), "Tech");
}

#[test]
fn encryption_round_trip() {
    let key = encryption_key(None);
    assert_eq!(key, "default_secure_key_1234567890abcdef");
    let c = encrypt(&key, "sk-secret");
    assert_ne!(c, "sk-secret");
    assert_eq!(decrypt_safe(&key, &c), "sk-secret");
    assert_eq!(encrypt(&key, ""), "");
    assert_eq!(decrypt_safe(&key, "plain key"), "plain key");
    assert_eq!(encryption_key(Some("k2".to_string())), "k2");
}

#[test]
fn permissions_and_keys() {
    let perms = vec!["articles:read".to_string(), "subscriptions:*".to_string()];
    assert!(check_permission(&perms, "articles", "read"));
    assert!(!check_permission(&perms, "articles", "write"));
    assert!(check_permission(&perms, "subscriptions", "delete"));
    assert!(check_permission(&["*".to_string()], "jobs", "retry"));
    assert!(!check_permission(&[], "jobs", "retry"));
    let k = generate_access_key();
    assert!(k.starts_with("trss_"));
    assert_eq!(k.len(), 5 + 64);
    assert!(k[5..].chars().all(|c| c.is_ascii_hexdigit() && !c.is_ascii_uppercase()));
    let stored = AccessKey {
        id: 1,
        user_id: 1,
        key: k.clone(),
        name: "cli".to_string(),
        permissions: "[\"articles:read\"]".to_string(),
        created_at: None,
        last_used_at: None,
    };
    let info = stored.to_info();
    assert_eq!(info.key_prefix, format!("{}...{}", &k[..8], &k[k.len() - 4..]));
    assert_eq!(info.permissions, vec!["articles:read".to_string()]);
}

#[test]
fn tabs_round_trip() {
    for (i, t) in Tab::all().iter().enumerate() {
        assert_eq!(t.index(), i);
        assert_eq!(Tab::from_index(i).index(), i);
    }
    assert_eq!(Tab::from_index(99).index(), 0);
}

#[test]
fn jobs_are_categorised() {
    assert_eq!(categorize_job_type("tranrss::SyncFeedJob"), "sync");
    assert_eq!(categorize_job_type("x::TranslateArticleJob"), "translate");
    assert_eq!(categorize_job_type("x::SummarizeArticleJob"), "summarize");
    assert_eq!(categorize_job_type("x::RefreshFeedsJob"), "system");
}

#[test]
fn text_lines_like_std() {
    for s in ["", "a", "a\n", "a\r\nb", "a\n\nb\r", "\n"] {
        let got: Vec<String> = lines(&s.chars().collect::<Vec<char>>()).iter().map(|l| l.iter().collect()).collect();
        let want: Vec<String> = s.lines().map(|l| l.to_string()).collect();
        assert_eq!(got, want, "lines of {:?}", s);
    }
}

#[test]
fn html_blocks_split_text_from_markup() {
    let (skeleton, blocks) = extract_blocks_from_html("<p>Hello</p>");
    assert_eq!(skeleton, "[[TEXT_0]]");
    assert_eq!(blocks, vec!["<html><p>Hello</p></html>".to_string()]);
    let (skeleton, blocks) = extract_blocks_from_html("<p>Hi</p><img src=\"a.png\">");
    assert_eq!(skeleton, "<html><p>[[TEXT_0]]\n</p>\n<img src=\"a.png\">\n</html>");
    assert_eq!(blocks, vec!["Hi".to_string()]);
}

#[test]
fn stitching_shows_translations_when_asked() {
    let blocks = vec![ArticleBlock { article_id: 1, block_index: 0, raw_text: "Hello".to_string(), trans_text: Some("你好".to_string()) }];
    let plain = stitch_article_content("<p>[[TEXT_0]]</p>", &blocks, None, false);
    assert_eq!(plain, "<p>Hello</p>");
    let translated = stitch_article_content("<p>[[TEXT_0]]</p>", &blocks, None, true);
    assert!(translated.starts_with("<p>Hello<br><em"));
    assert!(translated.contains("你好"));
}

#[test]
fn title_blocks_do_not_change_stitched_content() {
    let body = ArticleBlock { article_id: 1, block_index: 0, raw_text: "Hello".to_string(), trans_text: Some("你好".to_string()) };
    let title = ArticleBlock { article_id: 1, block_index: -1, raw_text: "[[TEXT_0]] Title".to_string(), trans_text: Some("标题".to_string()) };
    let body2 = ArticleBlock { article_id: 1, block_index: 0, raw_text: "Hello".to_string(), trans_text: Some("你好".to_string()) };
    let with_title = vec![title, body];
    let without = vec![body2];
    for nt in [false, true] {
        assert_eq!(
            stitch_article_content("<p>[[TEXT_0]]</p>", &with_title, Some("sum"), nt),
            stitch_article_content("<p>[[TEXT_0]]</p>", &without, Some("sum"), nt)
        );
    }
    assert_eq!(stitch_article_content("<p>[[TEXT_0]]</p>", &with_title, None, false), "<p>Hello</p>");
}

#[test]
fn encrypted_secrets_are_standard_base64() {
    let key = encryption_key(None);
    let e = encrypt(&key, "sk-secret-value");
    assert!(!e.is_empty());
    assert_eq!(e.len() % 4, 0);
    assert!(e.chars().all(|c| c.is_ascii_alphanumeric() || c == '+' || c == '/' || c == '='));
    assert_eq!(encrypt(&key, ""), "");
}

#[test]
fn every_block_has_one_placeholder() {
    let (skeleton, blocks) = extract_blocks_from_html("<div><p>Hi</p>\n<p>There <b>you</b></p><img src=\"a.png\"></div>");
    assert_eq!(skeleton, skeleton.trim());
    assert_eq!(blocks.len(), 2);
    for (n, b) in blocks.iter().enumerate() {
        assert!(!b.trim().is_empty());
        assert_eq!(skeleton.matches(&format!("[[TEXT_{}]]", n)).count(), 1);
    }
    let (skeleton, blocks) = extract_blocks_from_html("<img alt=\"[[TEXT_0]]\"><p>Hi</p>");
    assert_eq!(blocks, vec!["Hi".to_string()]);
    assert_eq!(skeleton.matches("[[TEXT_0]]").count(), 2);
}

#[test]
fn plaintext_secrets_come_back_unchanged() {
    let key = encryption_key(None);
    assert_eq!(decrypt_safe(&key, "sk-plain key"), "sk-plain key");
    assert_eq!(decrypt_safe(&key, "abc"), "abc");
    let e = encrypt(&key, "secret");
    assert_eq!(decrypt_safe(&key, &e), "secret");
}

#[test]
fn summary_box_comes_before_the_body() {
    let blocks = vec![ArticleBlock { article_id: 1, block_index: 0, raw_text: "Hello".to_string(), trans_text: None }];
    let body = stitch_article_content("<p>[[TEXT_0]]</p>", &blocks, None, false);
    let full = stitch_article_content("<p>[[TEXT_0]]</p>", &blocks, Some("Short summary"), false);
    assert!(full.ends_with(&body));
    assert!(full.starts_with("<div style=\"background:rgba(34,197,94,0.08);"));
    let head = &full[..full.len() - body.len()];
    assert!(head.contains("Short summary"));
    assert!(head.contains("AI 摘要"));
    assert_eq!(stitch_article_content("<p>[[TEXT_0]]</p>", &blocks, Some("  "), false), body);
}
