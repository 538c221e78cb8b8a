//! The texts the first terminal interface shows: its header, the entries of
//! its lists, an article's details and the status line.
use vstd::prelude::*;
use crate::api::{Article, Subscription};
use crate::app::{App, AppState};
use crate::num::{dec_spec, u64_to_dec};
use crate::text::{extend_chars, extend_str, from_chars, to_chars};

verus! {

/// The header of the interface: the list shown, or the subscription whose
/// articles are shown.
pub open spec fn header_spec(state: AppState, subs: Seq<Subscription>, sub_index: int) -> Seq<char> {
    match state {
        AppState::Subscriptions => "TranRSS TUI - 订阅列表"@,
        AppState::Articles => if 0 <= sub_index < subs.len() {
            "TranRSS TUI - "@ + subs[sub_index].title@
        } else {
            "TranRSS TUI - 文章列表"@
        },
    }
}

/// The header of the interface.
pub fn header_text(app: &App) -> (r: String)
    ensures
        r@ == header_spec(app.state, app.subscriptions@, app.sub_index as int),
{
    match app.state {
        AppState::Subscriptions => String::from_str("TranRSS TUI - 订阅列表"),
        AppState::Articles => {
            if app.sub_index < app.subscriptions.len() {
                let mut v = to_chars("TranRSS TUI - ");
                extend_str(&mut v, app.subscriptions[app.sub_index].title.as_str());
                from_chars(&v)
            } else {
                String::from_str("TranRSS TUI - 文章列表")
            }
        },
    }
}

/// A subscription's entry: its title, then its category in brackets when it
/// has one.
pub open spec fn subscription_entry_spec(s: Subscription) -> Seq<char> {
    if s.category@.len() == 0 {
        s.title@
    } else {
        s.title@ + " ["@ + s.category@ + "]"@
    }
}

/// A subscription's entry in the list.
pub fn subscription_entry(s: &Subscription) -> (r: String)
    ensures
        r@ == subscription_entry_spec(*s),
{
    let mut v = to_chars(s.title.as_str());
    let c = to_chars(s.category.as_str());
    if c.len() > 0 {
        extend_str(&mut v, " [");
        extend_chars(&mut v, &c);
        extend_str(&mut v, "]");
    }
    from_chars(&v)
}

/// An article's entry: a star when starred, a dot when unread, its title.
pub open spec fn article_entry_spec(a: Article) -> Seq<char> {
    (if a.is_starred {
        "★ "@
    } else {
        "  "@
    }) + (if a.is_read {
        "  "@
    } else {
        "● "@
    }) + a.title@
}

/// An article's entry in the list.
pub fn article_entry(a: &Article) -> (r: String)
    ensures
        r@ == article_entry_spec(*a),
{
    let mut v = if a.is_starred {
        to_chars("★ ")
    } else {
        to_chars("  ")
    };
    if a.is_read {
        extend_str(&mut v, "  ");
    } else {
        extend_str(&mut v, "● ");
    }
    extend_str(&mut v, a.title.as_str());
    from_chars(&v)
}

/// How an entry is shown.
#[derive(PartialEq, Eq, Structural)]
pub enum Emphasis {
    /// The selected entry.
    Selected,
    /// An article already read, dimmed.
    Dimmed,
    Plain,
}

/// How the article entry at `i` is shown: selected first, then dimmed when
/// read.
pub fn article_emphasis(i: usize, selected: usize, is_read: bool) -> (e: Emphasis)
    ensures
        i == selected ==> e == Emphasis::Selected,
        i != selected && is_read ==> e == Emphasis::Dimmed,
        i != selected && !is_read ==> e == Emphasis::Plain,
{
    if i == selected {
        Emphasis::Selected
    } else if is_read {
        Emphasis::Dimmed
    } else {
        Emphasis::Plain
    }
}

/// A line of the detail pane: a label (empty for none) and its text.
pub struct DetailLine {
    pub label: String,
    pub text: String,
}

/// A time in seconds since the epoch formatted (UTC) with a `strftime`
/// pattern, when `chrono` can represent the time.
pub uninterp spec fn formatted_time(ts: i64, pattern: Seq<char>) -> Option<Seq<char>>;

/// The times `chrono` holds: from the first second of the year -262143 to the
/// last second of the year 262142.
pub open spec fn chrono_time(ts: i64) -> bool {
    -8334601228800 <= ts <= 8210266876799
}

/// The patterns the interfaces format dates with; every item of them formats
/// for every time.
pub open spec fn date_pattern(p: Seq<char>) -> bool {
    p == "%m-%d"@ || p == "%Y-%m-%d %H:%M"@
}

/// `DateTime::from_timestamp(ts, 0)` formatted with `pattern`: the named
/// text, there exactly for the times `chrono` holds. (A pattern with an item
/// that cannot be formatted would make `to_string` panic; the patterns
/// admitted have none.)
#[verifier::external_body]
pub(crate) fn format_utc(ts: i64, pattern: &str) -> (r: Option<String>)
    requires
        date_pattern(pattern@),
    ensures
        r is Some <==> chrono_time(ts),
        r is None ==> formatted_time(ts, pattern@) is None,
        r matches Some(t) ==> formatted_time(ts, pattern@) == Some(t@),
{
    chrono::DateTime::from_timestamp(ts, 0).map(|d| d.format(pattern).to_string())
}

/// A time as `YYYY-MM-DD hh:mm`.
pub open spec fn minute_time(ts: i64) -> Option<Seq<char>> {
    formatted_time(ts, "%Y-%m-%d %H:%M"@)
}

/// The state line of an article.
pub open spec fn state_line_spec(a: Article) -> Seq<char> {
    "状态: "@ + (if a.is_read {
        "已读"@
    } else {
        "未读"@
    }) + " "@ + (if a.is_starred {
        "★ 已收藏"@
    } else {
        ""@
    })
}

/// The lines of an article's details, as (label, text).
pub open spec fn detail_spec(a: Article) -> Seq<(Seq<char>, Seq<char>)> {
    let blank = (Seq::<char>::empty(), Seq::<char>::empty());
    let head = seq![("标题: "@, a.title@), blank];
    let with_author = match a.author {
        Some(x) => head.push(("作者: "@, x@)),
        None => head,
    };
    let with_feed = match a.feed_title {
        Some(x) => with_author.push(("来源: "@, x@)),
        None => with_author,
    };
    let with_time = match a.published_at {
        Some(ts) => with_feed.push(
            (
                "时间: "@,
                match minute_time(ts) {
                    Some(t) => t,
                    None => Seq::<char>::empty(),
                },
            ),
        ),
        None => with_feed,
    };
    let with_link = match a.link {
        Some(l) => with_time.push(blank).push(("链接: "@, l@)),
        None => with_time,
    };
    with_link.push(blank).push((Seq::<char>::empty(), state_line_spec(a)))
}

fn push_line(v: &mut Vec<DetailLine>, label: &str, text: &str)
    ensures
        final(v)@.map_values(|d: DetailLine| (d.label@, d.text@)) == old(v)@.map_values(
            |d: DetailLine| (d.label@, d.text@),
        ).push((label@, text@)),
{
    let ghost before = v@.map_values(|d: DetailLine| (d.label@, d.text@));
    v.push(DetailLine { label: from_chars(&to_chars(label)), text: from_chars(&to_chars(text)) });
    assert(v@.map_values(|d: DetailLine| (d.label@, d.text@)) =~= before.push((label@, text@)));
}

/// The lines of an article's details: title, author, source, time and link
/// where known, and the read and starred state.
pub fn detail_lines(a: &Article) -> (r: Vec<DetailLine>)
    ensures
        r@.map_values(|d: DetailLine| (d.label@, d.text@)) == detail_spec(*a),
{
    proof {
        reveal_strlit("");
        assert(""@ =~= Seq::<char>::empty());
    }
    let ghost blank = (Seq::<char>::empty(), Seq::<char>::empty());
    let mut v: Vec<DetailLine> = Vec::new();
    assert(v@.map_values(|d: DetailLine| (d.label@, d.text@)) =~= Seq::<(Seq<char>, Seq<char>)>::empty());
    push_line(&mut v, "标题: ", a.title.as_str());
    assert(v@.map_values(|d: DetailLine| (d.label@, d.text@)) =~= seq![("标题: "@, a.title@)]);
    push_line(&mut v, "", "");
    let ghost head = seq![("标题: "@, a.title@), blank];
    assert(v@.map_values(|d: DetailLine| (d.label@, d.text@)) =~= head);
    if let Some(x) = &a.author {
        push_line(&mut v, "作者: ", x.as_str());
    }
    if let Some(x) = &a.feed_title {
        push_line(&mut v, "来源: ", x.as_str());
    }
    if let Some(ts) = a.published_at {
        let t = match format_utc(ts, "%Y-%m-%d %H:%M") {
            Some(t) => t,
            None => String::new(),
        };
        push_line(&mut v, "时间: ", t.as_str());
    }
    if let Some(l) = &a.link {
        push_line(&mut v, "", "");
        push_line(&mut v, "链接: ", l.as_str());
    }
    push_line(&mut v, "", "");
    let mut s = to_chars("状态: ");
    if a.is_read {
        extend_str(&mut s, "已读");
    } else {
        extend_str(&mut s, "未读");
    }
    extend_str(&mut s, " ");
    if a.is_starred {
        extend_str(&mut s, "★ 已收藏");
    } else {
        extend_str(&mut s, "");
    }
    assert(s@ == state_line_spec(*a));
    push_line(&mut v, "", from_chars(&s).as_str());
    v
}

/// How many articles have the given read state.
pub open spec fn count_read(arts: Seq<Article>, read: bool) -> nat
    decreases arts.len(),
{
    if arts.len() == 0 {
        0
    } else {
        count_read(arts.drop_last(), read) + if arts.last().is_read == read {
            1nat
        } else {
            0nat
        }
    }
}

proof fn lemma_count_bound(arts: Seq<Article>, read: bool)
    ensures
        count_read(arts, read) <= arts.len(),
    decreases arts.len(),
{
    if arts.len() > 0 {
        lemma_count_bound(arts.drop_last(), read);
    }
}

fn count_articles(arts: &[Article], read: bool) -> (n: usize)
    ensures
        n == count_read(arts@, read),
{
    let mut n: usize = 0;
    let mut i: usize = 0;
    while i < arts.len()
        invariant
            i <= arts.len(),
            n == count_read(arts@.take(i as int), read),
        decreases arts.len() - i,
    {
        assert(arts@.take(i + 1).drop_last() =~= arts@.take(i as int));
        proof {
            lemma_count_bound(arts@.take(i as int), read);
        }
        if arts[i].is_read == read {
            n = n + 1;
        }
        i += 1;
    }
    assert(arts@.take(arts.len() as int) =~= arts@);
    n
}

/// The status line: loading, else the message, else the size of the list
/// shown (for articles, with how many are read and unread).
pub open spec fn status_spec(app: App) -> Seq<char> {
    if app.loading {
        "加载中..."@
    } else {
        match app.message {
            Some(m) => m@,
            None => match app.state {
                AppState::Subscriptions => "共 "@ + dec_spec(app.subscriptions.len() as int)
                    + " 个订阅"@,
                AppState::Articles => "共 "@ + dec_spec(app.articles.len() as int) + " 篇文章 | 已读 "@
                    + dec_spec(count_read(app.articles@, true) as int) + " | 未读 "@ + dec_spec(
                    count_read(app.articles@, false) as int,
                ),
            },
        }
    }
}

/// The status line.
pub fn status_line(app: &App) -> (r: String)
    ensures
        r@ == status_spec(*app),
{
    if app.loading {
        return String::from_str("加载中...");
    }
    match &app.message {
        Some(m) => m.clone(),
        None => match app.state {
            AppState::Subscriptions => {
                let mut v = to_chars("共 ");
                extend_chars(&mut v, &u64_to_dec(app.subscriptions.len() as u64));
                extend_str(&mut v, " 个订阅");
                from_chars(&v)
            },
            AppState::Articles => {
                let read = count_articles(app.articles.as_slice(), true);
                let unread = count_articles(app.articles.as_slice(), false);
                let mut v = to_chars("共 ");
                extend_chars(&mut v, &u64_to_dec(app.articles.len() as u64));
                extend_str(&mut v, " 篇文章 | 已读 ");
                extend_chars(&mut v, &u64_to_dec(read as u64));
                extend_str(&mut v, " | 未读 ");
                extend_chars(&mut v, &u64_to_dec(unread as u64));
                from_chars(&v)
            },
        },
    }
}

} // verus!
