use tranrss::article::ArticleBlock;
use tranrss::fever::{
    favicon_data, feed_read_query, fever_feed, fever_item, fever_lookup_key, fever_route, group_read_query,
    groups_and_feeds, item_blocks_query, item_ids_query, items_query, parse_with_ids, plan_fever_mark, FeverFeedRow,
    FeverItemRow, FeverMark, FeverQuery, FeverRoute,
};
use tranrss::greader::encode_continuation;
use tranrss::greader_actions::{
    build_subscription, build_tag_list, client_login_body, form_values, mark_all_read_query, parse_form_pairs,
    parse_item_ids, plan_edit_tag, plan_subscription_edit, quickadd_url, user_email, ArticleFlag, FolderChange,
    SubscriptionEdit, SubscriptionRow,
};
use tranrss::greader_stream::{
    build_item, contents_continuation, item_ref, next_continuation, stream_contents_plan, stream_ids_plan, take_page,
    StreamQuery, StreamRow,
};

const BLANK: &str = "image/gif;base64,R0lGODlhAQABAIAAAAAAAP///yH5BAEAAAAALAAAAAABAAEAAAIBRAA7";

fn no_query() -> FeverQuery {
    FeverQuery {
        groups: None,
        feeds: None,
        items: None,
        favicons: None,
        unread_item_ids: None,
        saved_item_ids: None,
        mark: None,
        as_: None,
        as_real: None,
        id: None,
        before: None,
        since_id: None,
        max_id: None,
        with_ids: None,
    }
}

fn no_stream() -> StreamQuery {
    StreamQuery { s: None, n: None, xt: None, it: None, r: None, ot: None, nt: None, c: None, output: None }
}

#[test]
fn fever_routes_first_list_asked_for() {
    let mut q = no_query();
    q.feeds = Some(String::new());
    q.groups = Some(String::new());
    assert!(fever_route(false, Some(true), &q) == FeverRoute::Unauthorized);
    assert!(fever_route(true, None, &q) == FeverRoute::Unauthorized);
    assert!(fever_route(true, Some(false), &q) == FeverRoute::Unauthorized);
    assert!(fever_route(true, Some(true), &q) == FeverRoute::Groups);
    let mut m = no_query();
    m.mark = Some("item".to_string());
    assert!(fever_route(true, Some(true), &m) == FeverRoute::Mark);
    m.items = Some(String::new());
    assert!(fever_route(true, Some(true), &m) == FeverRoute::Items);
    assert!(fever_route(true, Some(true), &no_query()) == FeverRoute::AuthOnly);
    assert_eq!(fever_lookup_key("ABCdef"), Some("abcdef".to_string()));
    assert_eq!(fever_lookup_key(""), None);
}

#[test]
fn fever_groups_feeds_and_icons() {
    let (groups, fgs) = groups_and_feeds(
        vec![(1, "A".to_string()), (2, "B".to_string())],
        &[(10, Some(1)), (11, None), (12, Some(1)), (13, Some(2))],
    );
    assert_eq!(groups.len(), 2);
    assert_eq!((groups[1].id, groups[1].title.as_str()), (2, "B"));
    assert_eq!(fgs.len(), 2);
    assert_eq!((fgs[0].group_id, fgs[0].feed_ids.as_str()), (1, "10,12"));
    assert_eq!((fgs[1].group_id, fgs[1].feed_ids.as_str()), (2, "13"));
    let f = fever_feed(FeverFeedRow { id: 4, url: "u".to_string(), site_url: None, title: "T".to_string(), updated: None });
    assert_eq!((f.favicon_id, f.site_url.as_str(), f.last_updated_on_time, f.is_spark), (4, "", 0, 0));
    assert_eq!(favicon_data(None), BLANK);
    assert_eq!(favicon_data(Some(String::new())), BLANK);
    assert_eq!(favicon_data(Some("data:image/png;base64,AAA".to_string())), "image/png;base64,AAA");
    assert_eq!(favicon_data(Some("data:imagebad".to_string())), BLANK);
    assert_eq!(favicon_data(Some("QUJD".to_string())), "image/png;base64,QUJD");
}

#[test]
fn fever_item_queries() {
    assert_eq!(
        item_ids_query(true, false),
        "SELECT id FROM articles WHERE feed_id IN (SELECT feed_id FROM subscriptions WHERE user_id = ?) AND is_starred = 1 ORDER BY id DESC"
    );
    assert_eq!(parse_with_ids("1,x,3,"), vec![1, 3]);
    let q = items_query(Some(5), None, &Some("7,8".to_string()));
    assert!(q.ends_with("WHERE s.user_id = ? \n         AND a.id > 5 AND a.id IN (7,8) ORDER BY a.id DESC LIMIT 50"));
    let none = items_query(None, Some(9), &Some("x".to_string()));
    assert!(none.ends_with("? \n         AND a.id < 9 ORDER BY a.id DESC LIMIT 50"));
    assert_eq!(
        item_blocks_query(&[1, 2]),
        "SELECT article_id, block_index, raw_text, trans_text FROM article_blocks WHERE user_id = ? AND article_id IN (1,2)"
    );
}

#[test]
fn fever_item_of_row() {
    let row = FeverItemRow {
        id: 3,
        feed_id: 8,
        title: "Raw".to_string(),
        author: None,
        link: Some("http://l".to_string()),
        is_saved: true,
        is_read: false,
        published_at: None,
        crawl_time: Some(9),
        skeleton: Some("<p>[[TEXT_0]]</p>".to_string()),
        summary: Some("  ".to_string()),
        need_translate: false,
    };
    let blocks = vec![
        ArticleBlock { article_id: 3, block_index: -1, raw_text: "Raw".to_string(), trans_text: Some("译".to_string()) },
        ArticleBlock { article_id: 3, block_index: 0, raw_text: " x ".to_string(), trans_text: None },
        ArticleBlock { article_id: 4, block_index: 0, raw_text: "other".to_string(), trans_text: None },
    ];
    let item = fever_item(&row, &blocks);
    assert_eq!(item.title, "译");
    assert_eq!(item.html, "<p>x</p>");
    assert_eq!((item.is_saved, item.is_read, item.created_on_time), (1, 0, 9));
    assert_eq!((item.author.as_str(), item.url.as_str()), ("", "http://l"));
}

#[test]
fn fever_marks() {
    let mut q = no_query();
    q.mark = Some("item".to_string());
    q.as_real = Some("saved".to_string());
    assert!(matches!(plan_fever_mark(&q), FeverMark::Nothing));
    q.id = Some(4);
    match plan_fever_mark(&q) {
        FeverMark::Item(u) => assert!(u.article_id == 4 && u.flag == ArticleFlag::Starred && u.value),
        _ => panic!("saved item"),
    }
    q.as_real = None;
    q.as_ = Some("unread".to_string());
    match plan_fever_mark(&q) {
        FeverMark::Item(u) => assert!(u.flag == ArticleFlag::Read && !u.value),
        _ => panic!("unread item"),
    }
    let mut f = no_query();
    f.mark = Some("feed".to_string());
    f.as_real = Some("read".to_string());
    f.id = Some(6);
    f.before = Some(100);
    assert!(matches!(plan_fever_mark(&f), FeverMark::FeedRead { feed_id: 6, before: Some(100) }));
    f.mark = Some("group".to_string());
    f.before = Some(0);
    assert!(matches!(plan_fever_mark(&f), FeverMark::GroupRead { group_id: 6, before: None }));
    assert_eq!(
        feed_read_query(Some(100)),
        "UPDATE articles SET is_read = 1 WHERE feed_id = ? AND feed_id IN (SELECT feed_id FROM subscriptions WHERE user_id = ?) AND (published_at < 100 OR (published_at IS NULL AND crawl_time < 100))"
    );
    assert_eq!(
        group_read_query(0, None),
        "UPDATE articles SET is_read = 1 WHERE feed_id IN (SELECT feed_id FROM subscriptions WHERE user_id = ?)"
    );
    assert_eq!(
        group_read_query(5, None),
        "UPDATE articles SET is_read = 1 WHERE feed_id IN (SELECT feed_id FROM subscriptions WHERE user_id = ? AND folder_id = ?)"
    );
}

#[test]
fn greader_forms_and_tags() {
    let pairs = parse_form_pairs("i=1&a=user%2F-%2Fstate%2Fcom.google%2Fread&i[]=2&r=x&novalue");
    assert_eq!(form_values(&pairs, "i"), vec!["1".to_string(), "2".to_string()]);
    assert_eq!(form_values(&pairs, "a"), vec!["user/-/state/com.google/read".to_string()]);
    let ids = parse_item_ids(&vec![
        "tag:google.com,2005:reader/item/000000000000000a".to_string(),
        "0000000000000010".to_string(),
        "42".to_string(),
        "bad".to_string(),
    ]);
    assert_eq!(ids, vec![10, 16, 42]);
    let ups = plan_edit_tag(
        &vec![5, 6],
        &vec!["user/-/state/com.google/read".to_string(), "user/-/state/com.google/starred".to_string()],
        &vec!["user/-/state/com.google/starred".to_string()],
    );
    let got: Vec<(i64, bool, bool)> = ups.iter().map(|u| (u.article_id, u.flag == ArticleFlag::Read, u.value)).collect();
    assert_eq!(got, vec![(5, true, true), (5, false, true), (5, false, false), (6, true, true), (6, false, true), (6, false, false)]);
    assert_eq!(
        mark_all_read_query("feed/12", Some(1_700_000_000_000), 3),
        "UPDATE articles SET is_read = 1 WHERE is_read = 0 AND feed_id = 12 AND published_at <= 1700000000"
    );
    assert_eq!(
        mark_all_read_query("user/-/label/Te'ch", None, 3),
        "UPDATE articles SET is_read = 1 WHERE is_read = 0 AND feed_id IN (SELECT feed_id FROM subscriptions s2 JOIN folders fo ON s2.folder_id = fo.id WHERE s2.user_id = 3 AND fo.title = 'Te''ch')"
    );
}

#[test]
fn greader_subscription_edits() {
    match plan_subscription_edit("edit", "feed/7", &Some("New".to_string()), &Some("user/-/label/News".to_string()), &None) {
        SubscriptionEdit::Edit { feed_id: 7, title: Some(t), folder: FolderChange::Move(l) } => {
            assert_eq!(t, "New");
            assert_eq!(l, "News");
        }
        _ => panic!("edit with a move"),
    }
    match plan_subscription_edit("edit", "feed/7", &Some(String::new()), &None, &Some("user/-/label/X".to_string())) {
        SubscriptionEdit::Edit { feed_id: 7, title: None, folder: FolderChange::Clear } => {}
        _ => panic!("edit clearing the folder"),
    }
    assert!(matches!(plan_subscription_edit("unsubscribe", "feed/7", &None, &None, &None), SubscriptionEdit::Unsubscribe { feed_id: 7 }));
    assert!(matches!(plan_subscription_edit("edit", "feed/x", &None, &None, &None), SubscriptionEdit::Ignore));
    assert!(matches!(plan_subscription_edit("edit", "label/7", &None, &None, &None), SubscriptionEdit::Ignore));
    assert!(matches!(plan_subscription_edit("other", "feed/7", &None, &None, &None), SubscriptionEdit::Ignore));
    assert_eq!(quickadd_url("  http://x/rss \n"), Some("http://x/rss".to_string()));
    assert_eq!(quickadd_url("   "), None);
}

#[test]
fn greader_lists() {
    let tags = build_tag_list(3, &vec!["A".to_string(), "B".to_string()]);
    let got: Vec<(String, String, Option<String>)> = tags.into_iter().map(|t| (t.id, t.sortid, t.tag_type)).collect();
    assert_eq!(
        got,
        vec![
            ("user/3/state/com.google/starred".to_string(), "00000001".to_string(), Some("tag".to_string())),
            ("user/3/state/com.google/read".to_string(), "00000002".to_string(), None),
            ("user/3/label/A".to_string(), "0000000a".to_string(), Some("folder".to_string())),
            ("user/3/label/B".to_string(), "0000000b".to_string(), Some("folder".to_string())),
        ]
    );
    let s = build_subscription(
        3,
        &SubscriptionRow {
            feed_id: 26,
            feed_url: "http://x/rss".to_string(),
            title: "X".to_string(),
            site_url: None,
            icon_url: Some("http://x/i.png".to_string()),
            folder_title: Some("F".to_string()),
        },
    );
    assert_eq!((s.id.as_str(), s.sortid.as_str(), s.firstitemmsec.as_str()), ("feed/26", "0000001a", "0"));
    assert_eq!((s.html_url.as_str(), s.icon_url.as_str()), ("", "http://x/i.png"));
    assert_eq!(s.categories.len(), 1);
    assert_eq!((s.categories[0].id.as_str(), s.categories[0].label.as_str()), ("user/3/label/F", "F"));
    assert_eq!(client_login_body("tok"), "SID=ignored\nLSID=ignored\nAuth=tok");
    assert_eq!(user_email("bob"), "bob@localhost");
}

#[test]
fn greader_stream_plans_and_pages() {
    let mut p = no_stream();
    p.n = Some(5000);
    p.c = Some(encode_continuation(40));
    p.r = Some("o".to_string());
    p.xt = Some("user/-/state/com.google/read".to_string());
    let plan = stream_contents_plan("feed/5", &p, 1);
    assert_eq!((plan.limit, plan.offset), (1000, 40));
    assert!(plan.sql.ends_with("WHERE s.user_id = ?\n         AND a.feed_id = 5 AND a.is_read = 0 ORDER BY a.published_at ASC LIMIT 1001 OFFSET 40"));
    let mut q = no_stream();
    q.s = Some("user/-/state/com.google/starred".to_string());
    q.ot = Some(1_600_000_000_000_000);
    let ids = stream_ids_plan(&q, 1);
    assert_eq!((ids.limit, ids.offset), (1000, 0));
    assert!(ids.sql.ends_with(" AND a.is_starred = 1 AND a.crawl_time >= 1600000000 ORDER BY a.published_at DESC LIMIT 1001 OFFSET 0"));
    let mut rows = vec![1, 2, 3];
    assert!(take_page(&mut rows, 2));
    assert_eq!(rows, vec![1, 2]);
    assert!(!take_page(&mut rows, 2));
    assert_eq!(next_continuation(true, 40, 20), Some(encode_continuation(60)));
    assert_eq!(next_continuation(false, 40, 20), None);
    assert_eq!(contents_continuation(false, 40, 20), "");
    let r = item_ref(5, 3, Some(2));
    assert_eq!((r.id.as_str(), r.timestamp_usec.as_str()), ("5", "2000000"));
    assert_eq!(r.direct_stream_ids, vec!["feed/3".to_string()]);
    assert_eq!(item_ref(5, 3, None).timestamp_usec, "0");
}

#[test]
fn greader_items() {
    let row = StreamRow {
        id: 10,
        title: "Raw".to_string(),
        link: Some("http://l".to_string()),
        author: Some("me".to_string()),
        published_at: None,
        crawl_time: Some(100),
        is_read: false,
        is_starred: true,
        feed_id: 4,
        feed_title: "Feed".to_string(),
        site_url: None,
        skeleton: "[[TEXT_0]]".to_string(),
        summary: String::new(),
        need_translate: true,
    };
    let blocks = vec![
        ArticleBlock { article_id: 10, block_index: -1, raw_text: "Raw".to_string(), trans_text: Some("T".to_string()) },
        ArticleBlock { article_id: 10, block_index: 0, raw_text: "Body".to_string(), trans_text: None },
    ];
    let item = build_item(&row, &blocks, Some(50));
    assert_eq!(item.id, "tag:google.com,2005:reader/item/000000000000000a");
    assert_eq!((item.crawl_time_msec.as_str(), item.timestamp_usec.as_str()), ("100000", "100000000"));
    assert_eq!((item.published, item.updated), (100, 100));
    assert_eq!(item.title, "T");
    assert_eq!(item.summary.content, "Body");
    assert_eq!(item.content.as_ref().map(|c| c.content.as_str()), Some("Body"));
    assert_eq!(
        item.categories,
        vec![
            "user/-/state/com.google/reading-list".to_string(),
            "user/-/state/com.google/kept-unread".to_string(),
            "user/-/state/com.google/fresh".to_string(),
            "user/-/state/com.google/starred".to_string(),
        ]
    );
    assert_eq!((item.origin.stream_id.as_str(), item.origin.html_url.as_str()), ("feed/4", ""));
    let stale = build_item(&row, &blocks, Some(100));
    assert_eq!(stale.categories.len(), 3);
    let unfresh = build_item(&row, &blocks, None);
    assert_eq!(unfresh.categories.len(), 3);
}
