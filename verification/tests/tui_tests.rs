use tranrss::api_client::{ApiCall, Article, JobInfo, Subscription};
use tranrss::tui_app::{html_to_text, move_down, move_up, ArticleView, Effect, Key, Tab, TuiState};

fn article(id: i64, read: bool, link: Option<&str>) -> Article {
    Article {
        id,
        title: format!("A{}", id),
        link: link.map(|l| l.to_string()),
        author: None,
        feed_id: 7,
        feed_title: Some("Feed".to_string()),
        is_read: read,
        is_starred: false,
        published_at: None,
    }
}

fn sub(id: i64, feed_id: i64) -> Subscription {
    Subscription {
        id,
        feed_id,
        title: format!("S{}", id),
        url: "http://x/rss".to_string(),
        site_url: None,
        category: "未分类".to_string(),
        custom_title: None,
        need_translate: None,
        need_summary: None,
    }
}

fn job(id: &str) -> JobInfo {
    JobInfo {
        id: id.to_string(),
        job_type: "SyncFeedJob".to_string(),
        category: "sync".to_string(),
        status: "Failed".to_string(),
        attempts: 1,
        last_error: None,
        feed_title: None,
        title_label: None,
    }
}

#[test]
fn list_moves_wrap_around() {
    assert_eq!(move_down(0, 3), 1);
    assert_eq!(move_down(2, 3), 0);
    assert_eq!(move_up(0, 3), 2);
    assert_eq!(move_up(2, 3), 1);
    assert_eq!(move_down(4, 0), 4);
    assert_eq!(move_up(0, 0), 0);
    for i in 0..5usize {
        assert_eq!(move_up(move_down(i, 5), 5), i);
        assert_eq!(move_down(move_up(i, 5), 5), i);
    }
}

#[test]
fn article_keys() {
    let mut s = TuiState::new();
    s.on_articles_loaded(Ok(vec![article(1, false, Some("http://a/1")), article(2, true, None)]));
    assert_eq!(s.article_index, 0);
    assert!(matches!(s.handle_key(Key::Char('j')), Effect::Nothing));
    assert_eq!(s.article_index, 1);
    s.handle_key(Key::Down);
    assert_eq!(s.article_index, 0);
    s.handle_key(Key::Char('k'));
    assert_eq!(s.article_index, 1);
    match s.handle_key(Key::Char(' ')) {
        Effect::Call(ApiCall::MarkRead { id, read }) => {
            assert_eq!(id, 2);
            assert!(!read);
        }
        _ => panic!("space marks the article"),
    }
    assert!(matches!(s.handle_key(Key::Char('o')), Effect::Nothing));
    s.handle_key(Key::Up);
    match s.handle_key(Key::Char('o')) {
        Effect::OpenLink(l) => assert_eq!(l, "http://a/1"),
        _ => panic!("o opens the link"),
    }
    assert!(matches!(s.handle_key(Key::Char('t')), Effect::Call(ApiCall::Translate(1))));
    assert!(matches!(s.handle_key(Key::Char('s')), Effect::Call(ApiCall::Summarize(1))));
    assert!(matches!(s.handle_key(Key::Enter), Effect::OpenDetail(1)));
    assert!(s.loading);
}

#[test]
fn detail_marks_unread_article_read() {
    let mut s = TuiState::new();
    s.on_articles_loaded(Ok(vec![article(9, false, None)]));
    let mark = s.on_detail_loaded(9, Ok("<p>Hello</p>".to_string()));
    assert!(matches!(mark, Some(ApiCall::MarkRead { id: 9, read: true })));
    assert!(s.articles[0].is_read);
    assert!(s.article_view == ArticleView::Detail);
    assert_eq!(s.article_detail_id, Some(9));
    assert_eq!(s.article_content.as_deref(), Some("Hello"));
    assert!(matches!(s.handle_key(Key::Char('t')), Effect::Call(ApiCall::Translate(9))));
    s.handle_key(Key::Esc);
    assert!(s.article_view == ArticleView::List);
    assert!(s.article_content.is_none());
    let again = s.on_detail_loaded(9, Ok("x".to_string()));
    assert!(again.is_none());
    s.on_articles_loaded(Err("boom".to_string()));
    assert_eq!(s.message.as_deref(), Some("加载文章失败: boom"));
}

#[test]
fn global_keys_and_search() {
    let mut s = TuiState::new();
    s.handle_key(Key::Char('3'));
    assert!(s.tab == Tab::Jobs);
    assert!(matches!(s.handle_key(Key::Char('r')), Effect::Load(Tab::Jobs)));
    assert!(s.loading);
    s.handle_key(Key::Char('/'));
    assert!(s.search_mode);
    s.handle_key(Key::Char('a'));
    s.handle_key(Key::Char('b'));
    s.handle_key(Key::Backspace);
    assert_eq!(s.search_query, "a");
    s.handle_key(Key::Char('q'));
    assert!(!s.should_quit);
    assert_eq!(s.search_query, "aq");
    s.handle_key(Key::Esc);
    assert!(!s.search_mode);
    assert_eq!(s.search_query, "");
    s.handle_key(Key::Char('q'));
    assert!(s.should_quit);
}

#[test]
fn subscription_and_job_keys() {
    let mut s = TuiState::new();
    s.handle_key(Key::Char('2'));
    assert!(matches!(s.handle_key(Key::Char('S')), Effect::Call(ApiCall::SyncAll)));
    assert!(matches!(s.handle_key(Key::Enter), Effect::Nothing));
    s.on_subscriptions_loaded(Ok(vec![sub(1, 11), sub(2, 22)]));
    s.handle_key(Key::Char('j'));
    assert!(matches!(s.handle_key(Key::Enter), Effect::ShowFeed(22)));
    assert!(matches!(s.handle_key(Key::Char('s')), Effect::Call(ApiCall::SyncSubscription(2))));
    s.on_feed_shown();
    assert!(s.tab == Tab::Articles);
    s.handle_key(Key::Char('3'));
    s.on_jobs_loaded(Ok(vec![job("a"), job("b")]));
    s.handle_key(Key::Char('k'));
    assert_eq!(s.job_index, 1);
    // `r` reloads on every tab before the job list sees it.
    assert!(matches!(s.handle_key(Key::Char('r')), Effect::Load(Tab::Jobs)));
    assert_eq!(s.job_index, 1);
    assert!(matches!(s.handle_key(Key::Char('c')), Effect::Call(ApiCall::ClearCompleted)));
}

#[test]
fn html_rendered_as_text() {
    let t = html_to_text("<p>One</p><p>Two</p>");
    assert!(t.contains("One"));
    assert!(t.contains("Two"));
    assert!(!t.contains("<p>"));
}
