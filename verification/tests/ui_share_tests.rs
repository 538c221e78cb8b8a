use tranrss::api::Article;
use tranrss::app::{App, AppState};
use tranrss::article::{ArticleBlock, ArticleDetail};
use tranrss::share::{share_channel, share_feed_document, share_item};
use tranrss::ui_text::{article_emphasis, article_entry, detail_lines, header_text, status_line, Emphasis};

fn article(id: i64, read: bool, starred: bool) -> Article {
    Article {
        id,
        title: format!("T{}", id),
        link: None,
        author: None,
        feed_id: 1,
        feed_title: None,
        is_read: read,
        is_starred: starred,
        published_at: None,
    }
}

#[test]
fn list_entries_and_status() {
    assert_eq!(article_entry(&article(1, false, true)), "★ ● T1");
    assert_eq!(article_entry(&article(2, true, false)), "    T2");
    assert!(article_emphasis(3, 3, true) == Emphasis::Selected);
    assert!(article_emphasis(1, 3, true) == Emphasis::Dimmed);
    let mut app = App::new();
    assert_eq!(header_text(&app), "TranRSS TUI - 订阅列表");
    assert_eq!(status_line(&app), "共 0 个订阅");
    app.state = AppState::Articles;
    app.articles = vec![article(1, true, false), article(2, false, false), article(3, false, true)];
    assert_eq!(header_text(&app), "TranRSS TUI - 文章列表");
    assert_eq!(status_line(&app), "共 3 篇文章 | 已读 1 | 未读 2");
    app.loading = true;
    assert_eq!(status_line(&app), "加载中...");
}

#[test]
fn detail_pane_lines() {
    let mut a = article(1, true, true);
    a.author = Some("Ann".to_string());
    a.link = Some("http://l".to_string());
    a.published_at = Some(0);
    let lines: Vec<(String, String)> = detail_lines(&a).into_iter().map(|d| (d.label, d.text)).collect();
    let want: Vec<(String, String)> = vec![
        ("标题: ", "T1"),
        ("", ""),
        ("作者: ", "Ann"),
        ("时间: ", "1970-01-01 00:00"),
        ("", ""),
        ("链接: ", "http://l"),
        ("", ""),
        ("", "状态: 已读 ★ 已收藏"),
    ]
    .into_iter()
    .map(|(l, t)| (l.to_string(), t.to_string()))
    .collect();
    assert_eq!(lines, want);
}

#[test]
fn shared_feed_channel() {
    let d = ArticleDetail {
        id: 5,
        title: "Title".to_string(),
        link: Some("http://a/5".to_string()),
        author: None,
        published_at: Some(0),
        content_skeleton: Some("<p>[[TEXT_0]]</p>".to_string()),
        is_read: false,
        is_starred: false,
        summary: None,
        need_translate: false,
    };
    let blocks = vec![ArticleBlock { article_id: 5, block_index: 0, raw_text: "Body".to_string(), trans_text: None }];
    let item = share_item(5, &d, &blocks);
    assert_eq!(item.description, "<p>Body</p>");
    assert_eq!(item.guid, "5");
    assert_eq!(item.pub_date, Some("Thu, 1 Jan 1970 00:00:00 +0000".to_string()));
    let again = share_item(5, &d, &blocks);
    let ch = share_channel("News", None, vec![item]);
    assert_eq!(ch.title, "TranRSS: News");
    assert_eq!(ch.link, "");
    assert_eq!(ch.description, "Translated feed for News (provided by TranRSS)");
    let xml = share_feed_document("News", None, vec![again]);
    assert!(xml.contains("<title>TranRSS: News</title>"));
    assert!(xml.contains("<guid>5</guid>"));
}
