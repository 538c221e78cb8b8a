//! Google Reader streams: which articles a request selects, how they are
//! paged, and the items served for them.
use vstd::prelude::*;
use crate::article::{ArticleBlock, blocks_of, display_title, stitch_spec, stitch_article_content_of, title_of};
use crate::greader::{
    encode_continuation, encode_continuation_spec, item_id_to_greader,
    item_id_to_greader_spec, parse_continuation, parse_continuation_spec, state_fresh,
    state_kept_unread, state_read, state_reading_list, state_starred,
};
use crate::num::{dec_spec, i64_to_dec, parse_i64, parse_i64_spec};
use crate::text::{
    chars_eq, contains_exec, contains_spec, extend_chars, extend_str, from_chars, is_blank,
    replace_char, replace_char_spec, split_last, split_last_spec, starts_with_exec,
    starts_with_spec, sub_chars, to_chars, trim_spec,
};

verus! {

/// The query parameters of a stream request.
pub struct StreamQuery {
    /// Stream id.
    pub s: Option<String>,
    /// Number of items.
    pub n: Option<i64>,
    /// Exclude target.
    pub xt: Option<String>,
    /// Include target.
    pub it: Option<String>,
    /// Order: `o` for oldest first.
    pub r: Option<String>,
    /// Only items crawled at or after this time.
    pub ot: Option<i64>,
    /// Only items crawled at or before this time.
    pub nt: Option<i64>,
    /// Continuation token.
    pub c: Option<String>,
    pub output: Option<String>,
}

/// The text of an optional string, or `dflt`.
pub open spec fn opt_text(o: Option<String>, dflt: Seq<char>) -> Seq<char> {
    match o {
        Some(x) => x@,
        None => dflt,
    }
}

// ---------------------------------------------------------------------------
// Titles, labels, timestamps
// ---------------------------------------------------------------------------

/// The title shown for a stream.
pub open spec fn resolve_stream_title_spec(s: Seq<char>) -> Seq<char> {
    if contains_spec(s, "reading-list"@) {
        "All Articles"@
    } else if contains_spec(s, "starred"@) {
        "Starred"@
    } else if starts_with_spec(s, "feed/"@) {
        s.skip(5)
    } else {
        s
    }
}

/// The title shown for a stream: fixed names for the reading list and the
/// starred items, the id of a feed stream, the stream id otherwise.
pub fn resolve_stream_title(stream_id: &str) -> (r: String)
    ensures
        r@ == resolve_stream_title_spec(stream_id@),
{
    let s = to_chars(stream_id);
    if contains_exec(&s, &to_chars("reading-list")) {
        String::from_str("All Articles")
    } else if contains_exec(&s, &to_chars("starred")) {
        String::from_str("Starred")
    } else if starts_with_exec(&s, &to_chars("feed/")) {
        proof {
            reveal_strlit("feed/");
        }
        from_chars(&sub_chars(&s, 5, s.len()))
    } else {
        String::from_str(stream_id)
    }
}

/// The folder name in a label stream id: what follows the last `/label/`.
pub open spec fn label_of(s: Seq<char>) -> Seq<char> {
    split_last_spec(s, "/label/"@)
}

/// The folder name in a label stream id.
pub fn tag_label(s: &str) -> (r: String)
    ensures
        r@ == label_of(s@),
{
    let sep = to_chars("/label/");
    proof {
        reveal_strlit("/label/");
    }
    from_chars(&split_last(&to_chars(s), &sep))
}

/// A text quoted for an SQL string literal: every `'` doubled.
pub open spec fn sql_quote(s: Seq<char>) -> Seq<char> {
    replace_char_spec(s, '\'', "''"@)
}

/// A timestamp in seconds, from seconds, milliseconds or microseconds.
pub open spec fn normalize_ts_spec(t: i64) -> i64 {
    if t > 10_000_000_000_000 {
        (t / 1_000_000) as i64
    } else if t > 10_000_000_000 {
        (t / 1000) as i64
    } else {
        t
    }
}

/// Reads a timestamp given in seconds, milliseconds or microseconds as seconds.
pub fn normalize_ts(t: i64) -> (r: i64)
    ensures
        r == normalize_ts_spec(t),
{
    if t > 10_000_000_000_000 {
        t / 1_000_000
    } else if t > 10_000_000_000 {
        t / 1000
    } else {
        t
    }
}

// ---------------------------------------------------------------------------
// Filters
// ---------------------------------------------------------------------------

/// The folder condition on feeds (`col` is the feed column compared).
pub open spec fn label_condition(col: Seq<char>, user_id: i64, label: Seq<char>) -> Seq<char> {
    " AND "@ + col
        + " IN (SELECT feed_id FROM subscriptions s2 JOIN folders fo ON s2.folder_id = fo.id WHERE s2.user_id = "@
        + dec_spec(user_id as int) + " AND fo.title = '"@ + sql_quote(label) + "')"@
}

/// The condition that a stream id puts on the articles of a stream query.
pub open spec fn stream_source_filter(s: Seq<char>, user_id: i64) -> Seq<char> {
    if starts_with_spec(s, "feed/"@) {
        match parse_i64_spec(s.skip(5)) {
            Some(f) => " AND a.feed_id = "@ + dec_spec(f as int),
            None => Seq::<char>::empty(),
        }
    } else if contains_spec(s, "state/com.google/starred"@) {
        " AND a.is_starred = 1"@
    } else if contains_spec(s, "/label/"@) {
        label_condition("f.id"@, user_id, label_of(s))
    } else {
        Seq::<char>::empty()
    }
}

/// A label stream (an id with `/label/`, neither a feed nor the starred
/// items) selects the folder it names: right after the base query, the
/// planned SQL keeps only the articles of feeds that the user filed in the
/// folder titled with the text after the last `/label/` (quotes doubled).
pub proof fn lemma_label_stream_selects_folder(
    base: Seq<char>,
    stream_id: Seq<char>,
    p: StreamQuery,
    user_id: i64,
    dflt: i64,
    max: i64,
    plan: StreamPlan,
)
    requires
        plan_spec(base, stream_id, p, user_id, dflt, max, plan),
        !starts_with_spec(opt_text(p.s, stream_id), "feed/"@),
        !contains_spec(opt_text(p.s, stream_id), "state/com.google/starred"@),
        contains_spec(opt_text(p.s, stream_id), "/label/"@),
    ensures
        ({
            let cond = " AND f.id IN (SELECT feed_id FROM subscriptions s2 JOIN folders fo ON s2.folder_id = fo.id WHERE s2.user_id = "@
                + dec_spec(user_id as int) + " AND fo.title = '"@ + replace_char_spec(
                split_last_spec(opt_text(p.s, stream_id), "/label/"@),
                '\'',
                "''"@,
            ) + "')"@;
            plan.sql@.subrange(base.len() as int, base.len() + cond.len() as int) == cond
        }),
{
    let sid = opt_text(p.s, stream_id);
    let cond = label_condition("f.id"@, user_id, label_of(sid));
    reveal_strlit(" AND ");
    reveal_strlit("f.id");
    reveal_strlit(" IN (SELECT feed_id FROM subscriptions s2 JOIN folders fo ON s2.folder_id = fo.id WHERE s2.user_id = ");
    reveal_strlit(" AND f.id IN (SELECT feed_id FROM subscriptions s2 JOIN folders fo ON s2.folder_id = fo.id WHERE s2.user_id = ");
    assert(" AND "@ + "f.id"@ + " IN (SELECT feed_id FROM subscriptions s2 JOIN folders fo ON s2.folder_id = fo.id WHERE s2.user_id = "@
        =~= " AND f.id IN (SELECT feed_id FROM subscriptions s2 JOIN folders fo ON s2.folder_id = fo.id WHERE s2.user_id = "@);
    assert(stream_source_filter(sid, user_id) == cond);
    let rest = exclude_filter(p.xt) + include_filter(p.it) + time_filter(" AND a.crawl_time >= "@, p.ot)
        + time_filter(" AND a.crawl_time <= "@, p.nt) + order_clause(p.r) + limit_clause(plan.limit, plan.offset);
    assert(plan.sql@ =~= base + cond + rest);
    assert(plan.sql@.subrange(base.len() as int, base.len() + cond.len() as int) =~= cond);
}

/// The condition of the exclude target: unread only, for the read state.
pub open spec fn exclude_filter(xt: Option<String>) -> Seq<char> {
    match xt {
        Some(x) => if contains_spec(x@, "state/com.google/read"@) {
            " AND a.is_read = 0"@
        } else {
            Seq::<char>::empty()
        },
        None => Seq::<char>::empty(),
    }
}

/// The condition of the include target: read, or starred.
pub open spec fn include_filter(it: Option<String>) -> Seq<char> {
    match it {
        Some(x) => if contains_spec(x@, "state/com.google/read"@) {
            " AND a.is_read = 1"@
        } else if contains_spec(x@, "state/com.google/starred"@) {
            " AND a.is_starred = 1"@
        } else {
            Seq::<char>::empty()
        },
        None => Seq::<char>::empty(),
    }
}

/// A crawl-time bound, `head` followed by the time in seconds.
pub open spec fn time_filter(head: Seq<char>, t: Option<i64>) -> Seq<char> {
    match t {
        Some(t) => head + dec_spec(normalize_ts_spec(t) as int),
        None => Seq::<char>::empty(),
    }
}

/// Every condition a stream request adds to the query.
pub open spec fn stream_filters_spec(stream_id: Seq<char>, p: StreamQuery, user_id: i64) -> Seq<char> {
    stream_source_filter(opt_text(p.s, stream_id), user_id) + exclude_filter(p.xt)
        + include_filter(p.it) + time_filter(" AND a.crawl_time >= "@, p.ot)
        + time_filter(" AND a.crawl_time <= "@, p.nt)
}

fn exclude_filter_exec(xt: &Option<String>) -> (r: Vec<char>)
    ensures
        r@ == exclude_filter(*xt),
{
    if let Some(x) = xt {
        if contains_exec(&to_chars(x.as_str()), &to_chars("state/com.google/read")) {
            return to_chars(" AND a.is_read = 0");
        }
    }
    Vec::new()
}

fn include_filter_exec(it: &Option<String>) -> (r: Vec<char>)
    ensures
        r@ == include_filter(*it),
{
    if let Some(x) = it {
        let v = to_chars(x.as_str());
        if contains_exec(&v, &to_chars("state/com.google/read")) {
            return to_chars(" AND a.is_read = 1");
        } else if contains_exec(&v, &to_chars("state/com.google/starred")) {
            return to_chars(" AND a.is_starred = 1");
        }
    }
    Vec::new()
}

fn time_filter_exec(head: &str, t: Option<i64>) -> (r: Vec<char>)
    ensures
        r@ == time_filter(head@, t),
{
    match t {
        Some(t) => {
            let mut v = to_chars(head);
            extend_chars(&mut v, &i64_to_dec(normalize_ts(t)));
            v
        },
        None => Vec::new(),
    }
}

/// Appends the folder condition.
pub fn push_label_condition(v: &mut Vec<char>, col: &str, user_id: i64, label: &[char])
    ensures
        final(v)@ == old(v)@ + label_condition(col@, user_id, label@),
{
    extend_str(v, " AND ");
    extend_str(v, col);
    extend_str(
        v,
        " IN (SELECT feed_id FROM subscriptions s2 JOIN folders fo ON s2.folder_id = fo.id WHERE s2.user_id = ",
    );
    extend_chars(v, &i64_to_dec(user_id));
    extend_str(v, " AND fo.title = '");
    extend_chars(v, &replace_char(label, '\'', &to_chars("''")));
    extend_str(v, "')");
}

/// The condition a stream id puts on the articles.
fn source_filter_exec(s: &[char], user_id: i64) -> (r: Vec<char>)
    ensures
        r@ == stream_source_filter(s@, user_id),
{
    let mut v: Vec<char> = Vec::new();
    if starts_with_exec(s, &to_chars("feed/")) {
        proof {
            reveal_strlit("feed/");
        }
        let rest = sub_chars(s, 5, s.len());
        assert(rest@ =~= s@.skip(5));
        if let Some(f) = parse_i64(&rest) {
            extend_str(&mut v, " AND a.feed_id = ");
            extend_chars(&mut v, &i64_to_dec(f));
        }
    } else if contains_exec(s, &to_chars("state/com.google/starred")) {
        extend_str(&mut v, " AND a.is_starred = 1");
    } else if contains_exec(s, &to_chars("/label/")) {
        proof {
            reveal_strlit("/label/");
        }
        let label = split_last(s, &to_chars("/label/"));
        push_label_condition(&mut v, "f.id", user_id, &label);
    }
    assert(v@ =~= stream_source_filter(s@, user_id));
    v
}

/// Appends to `query_str` the conditions that select the stream's articles:
/// the feed, the starred items or the folder named by the stream id (the `s`
/// parameter when given), the read-state filters, and the crawl-time bounds.
pub fn apply_stream_filters(query_str: &mut String, stream_id: &str, params: &StreamQuery, user_id: i64)
    ensures
        final(query_str)@ == old(query_str)@ + stream_filters_spec(stream_id@, *params, user_id),
{
    let mut v = to_chars(query_str.as_str());
    let s = match &params.s {
        Some(x) => to_chars(x.as_str()),
        None => to_chars(stream_id),
    };
    let src = source_filter_exec(&s, user_id);
    extend_chars(&mut v, &src);
    extend_chars(&mut v, &exclude_filter_exec(&params.xt));
    extend_chars(&mut v, &include_filter_exec(&params.it));
    extend_chars(&mut v, &time_filter_exec(" AND a.crawl_time >= ", params.ot));
    extend_chars(&mut v, &time_filter_exec(" AND a.crawl_time <= ", params.nt));
    assert(v@ =~= old(query_str)@ + stream_filters_spec(stream_id@, *params, user_id));
    *query_str = from_chars(&v);
}

// ---------------------------------------------------------------------------
// Query plans and paging
// ---------------------------------------------------------------------------

/// The start of the stream contents query.
pub open spec fn contents_base() -> Seq<char> {
    "\n        SELECT \n            a.id, a.title, a.link, a.author, a.published_at, a.crawl_time,\n            a.is_read, a.is_starred, a.feed_id, f.title as feed_title, f.site_url,\n            COALESCE(a.content_skeleton, '') as skeleton, COALESCE(a.summary, '') as summary,\n            a.updated_at, s.need_translate\n        FROM articles a\n        JOIN feeds f ON a.feed_id = f.id\n        JOIN subscriptions s ON s.feed_id = f.id\n        WHERE s.user_id = ?\n        "@
}

/// The start of the stream item ids query.
pub open spec fn ids_base() -> Seq<char> {
    "\n        SELECT a.id, a.published_at, a.feed_id, a.crawl_time\n        FROM articles a\n        JOIN feeds f ON a.feed_id = f.id\n        JOIN subscriptions s ON s.feed_id = f.id\n        WHERE s.user_id = ?\n"@
}

/// Oldest first when `r` is `o`, newest first otherwise.
pub open spec fn order_clause(r: Option<String>) -> Seq<char> {
    if opt_text(r, Seq::<char>::empty()) == seq!['o'] && r is Some {
        " ORDER BY a.published_at ASC"@
    } else {
        " ORDER BY a.published_at DESC"@
    }
}

/// One row more than the page, from the offset.
pub open spec fn limit_clause(limit: i64, offset: i64) -> Seq<char> {
    " LIMIT "@ + dec_spec(limit + 1) + " OFFSET "@ + dec_spec(offset as int)
}

/// A page request: the query, the page size and the offset.
pub struct StreamPlan {
    pub sql: String,
    pub limit: i64,
    pub offset: i64,
}

/// The page size: `n` or the default, at most `max`.
pub open spec fn page_limit(n: Option<i64>, dflt: i64, max: i64) -> i64 {
    let v = match n {
        Some(x) => x,
        None => dflt,
    };
    if v < max {
        v
    } else {
        max
    }
}

/// The offset named by the continuation token, 0 without one.
pub open spec fn page_offset(c: Option<String>) -> i64 {
    match c {
        Some(t) => parse_continuation_spec(t@),
        None => 0,
    }
}

/// The plan for a page of a stream whose query starts with `base`.
pub open spec fn plan_spec(
    base: Seq<char>,
    stream_id: Seq<char>,
    p: StreamQuery,
    user_id: i64,
    dflt: i64,
    max: i64,
    plan: StreamPlan,
) -> bool {
    &&& plan.limit == page_limit(p.n, dflt, max)
    &&& plan.offset == page_offset(p.c)
    &&& plan.sql@ == base + stream_filters_spec(stream_id, p, user_id) + order_clause(p.r)
        + limit_clause(plan.limit, plan.offset)
}

fn order_is_oldest(r: &Option<String>) -> (b: bool)
    ensures
        b == (r is Some && opt_text(*r, Seq::<char>::empty()) == seq!['o']),
{
    match r {
        Some(x) => {
            let v = to_chars(x.as_str());
            let o = vec!['o'];
            assert(o@ =~= seq!['o']);
            chars_eq(&v, &o)
        },
        None => false,
    }
}

fn build_plan(base: &str, stream_id: &str, params: &StreamQuery, user_id: i64, dflt: i64, max: i64) -> (plan: StreamPlan)
    requires
        max < i64::MAX,
    ensures
        plan_spec(base@, stream_id@, *params, user_id, dflt, max, plan),
{
    let n = match params.n {
        Some(x) => x,
        None => dflt,
    };
    let limit = if n < max {
        n
    } else {
        max
    };
    let offset = match &params.c {
        Some(c) => parse_continuation(c.as_str()),
        None => 0,
    };
    let mut q = String::from_str(base);
    apply_stream_filters(&mut q, stream_id, params, user_id);
    let mut v = to_chars(q.as_str());
    let ghost v0 = v@;
    if order_is_oldest(&params.r) {
        extend_str(&mut v, " ORDER BY a.published_at ASC");
    } else {
        extend_str(&mut v, " ORDER BY a.published_at DESC");
    }
    let ghost v1 = v@;
    extend_str(&mut v, " LIMIT ");
    extend_chars(&mut v, &i64_to_dec(limit + 1));
    extend_str(&mut v, " OFFSET ");
    extend_chars(&mut v, &i64_to_dec(offset));
    assert(v@ =~= base@ + stream_filters_spec(stream_id@, *params, user_id) + order_clause(params.r)
        + limit_clause(limit, offset));
    StreamPlan { sql: from_chars(&v), limit, offset }
}

/// The query for a page of stream contents: at most 1000 items (20 by
/// default), one more fetched to see whether another page follows.
pub fn stream_contents_plan(stream_id: &str, params: &StreamQuery, user_id: i64) -> (plan: StreamPlan)
    ensures
        plan_spec(contents_base(), stream_id@, *params, user_id, 20, 1000, plan),
{
    build_plan(
        "\n        SELECT \n            a.id, a.title, a.link, a.author, a.published_at, a.crawl_time,\n            a.is_read, a.is_starred, a.feed_id, f.title as feed_title, f.site_url,\n            COALESCE(a.content_skeleton, '') as skeleton, COALESCE(a.summary, '') as summary,\n            a.updated_at, s.need_translate\n        FROM articles a\n        JOIN feeds f ON a.feed_id = f.id\n        JOIN subscriptions s ON s.feed_id = f.id\n        WHERE s.user_id = ?\n        ",
        stream_id,
        params,
        user_id,
        20,
        1000,
    )
}

/// The query for a page of item ids: at most 10000 (1000 by default), the
/// stream named by `s` (none when it is missing).
pub fn stream_ids_plan(params: &StreamQuery, user_id: i64) -> (plan: StreamPlan)
    ensures
        plan_spec(ids_base(), opt_text(params.s, Seq::<char>::empty()), *params, user_id, 1000, 10000, plan),
{
    let sid = match &params.s {
        Some(x) => String::from_str(x.as_str()),
        None => String::new(),
    };
    build_plan(
        "\n        SELECT a.id, a.published_at, a.feed_id, a.crawl_time\n        FROM articles a\n        JOIN feeds f ON a.feed_id = f.id\n        JOIN subscriptions s ON s.feed_id = f.id\n        WHERE s.user_id = ?\n",
        sid.as_str(),
        params,
        user_id,
        1000,
        10000,
    )
}

/// Keeps the first `limit` rows when more were fetched; says whether there
/// were more.
pub fn take_page<T>(rows: &mut Vec<T>, limit: i64) -> (has_more: bool)
    ensures
        has_more == ((old(rows).len() as i64) > limit),
        has_more && 0 <= limit ==> final(rows)@ == old(rows)@.take(limit as int),
        !(has_more && 0 <= limit) ==> final(rows)@ == old(rows)@,
{
    let has_more = (rows.len() as i64) > limit;
    if has_more && limit >= 0 {
        rows.truncate(limit as usize);
    }
    has_more
}

/// The token for the page after this one, when there is one.
pub fn next_continuation(has_more: bool, offset: i64, limit: i64) -> (r: Option<String>)
    requires
        has_more ==> i64::MIN <= offset + limit <= i64::MAX,
    ensures
        has_more ==> r is Some && r->0@ == encode_continuation_spec((offset + limit) as i64),
        !has_more ==> r is None,
{
    if has_more {
        Some(encode_continuation(offset + limit))
    } else {
        None
    }
}

/// The continuation of a page of stream contents: the token of the next
/// page, or empty text on the last page.
pub fn contents_continuation(has_more: bool, offset: i64, limit: i64) -> (r: String)
    requires
        has_more ==> i64::MIN <= offset + limit <= i64::MAX,
    ensures
        has_more ==> r@ == encode_continuation_spec((offset + limit) as i64),
        !has_more ==> r@ == Seq::<char>::empty(),
{
    match next_continuation(has_more, offset, limit) {
        Some(t) => t,
        None => String::new(),
    }
}

/// A reference to an item in an id listing.
pub struct GReaderItemRef {
    /// The article id in decimal.
    pub id: String,
    pub timestamp_usec: String,
    pub direct_stream_ids: Vec<String>,
}

/// The reference of an article: its id in decimal, its crawl time in
/// microseconds (0 when unknown), its feed's stream.
pub fn item_ref(id: i64, feed_id: i64, crawl_time: Option<i64>) -> (r: GReaderItemRef)
    requires
        crawl_time matches Some(ct) ==> -9_223_372_036_854 <= ct <= 9_223_372_036_854,
    ensures
        r.id@ == dec_spec(id as int),
        r.timestamp_usec@ == dec_spec(
            match crawl_time {
                Some(ct) => ct * 1_000_000,
                None => 0,
            },
        ),
        r.direct_stream_ids@.len() == 1,
        r.direct_stream_ids@[0]@ == "feed/"@ + dec_spec(feed_id as int),
{
    let ct: i64 = match crawl_time {
        Some(c) => c,
        None => 0,
    };
    let mut stream = to_chars("feed/");
    extend_chars(&mut stream, &i64_to_dec(feed_id));
    let mut streams: Vec<String> = Vec::new();
    streams.push(from_chars(&stream));
    GReaderItemRef {
        id: from_chars(&i64_to_dec(id)),
        timestamp_usec: from_chars(&i64_to_dec(ct * 1_000_000)),
        direct_stream_ids: streams,
    }
}

// ---------------------------------------------------------------------------
// Items
// ---------------------------------------------------------------------------

/// An article row of a stream query.
pub struct StreamRow {
    pub id: i64,
    pub title: String,
    pub link: Option<String>,
    pub author: Option<String>,
    pub published_at: Option<i64>,
    pub crawl_time: Option<i64>,
    pub is_read: bool,
    pub is_starred: bool,
    pub feed_id: i64,
    pub feed_title: String,
    pub site_url: Option<String>,
    pub skeleton: String,
    pub summary: String,
    pub need_translate: bool,
}

pub struct GReaderLink {
    pub href: String,
}

pub struct GReaderContent {
    pub direction: String,
    pub content: String,
}

pub struct GReaderOrigin {
    pub stream_id: String,
    pub title: String,
    pub html_url: String,
}

/// An item as the protocol serves it.
pub struct GReaderItem {
    pub id: String,
    pub crawl_time_msec: String,
    pub timestamp_usec: String,
    pub published: i64,
    pub updated: i64,
    pub title: String,
    pub canonical: Vec<GReaderLink>,
    pub alternate: Vec<GReaderLink>,
    pub summary: GReaderContent,
    pub content: Option<GReaderContent>,
    pub author: String,
    pub categories: Vec<String>,
    pub origin: GReaderOrigin,
}

/// The state tags of an item.
pub open spec fn item_categories_spec(is_read: bool, is_starred: bool, fresh: bool) -> Seq<Seq<char>> {
    seq![state_reading_list()] + (if is_read {
        seq![state_read()]
    } else {
        seq![state_kept_unread()] + (if fresh {
            seq![state_fresh()]
        } else {
            Seq::<Seq<char>>::empty()
        })
    }) + (if is_starred {
        seq![state_starred()]
    } else {
        Seq::<Seq<char>>::empty()
    })
}

/// The summary handed to stitching: none when blank.
pub open spec fn summary_arg(summary: Seq<char>) -> Option<Seq<char>> {
    if trim_spec(summary).len() == 0 {
        None
    } else {
        Some(summary)
    }
}

/// Crawl times whose microsecond value fits in an `i64`.
pub open spec fn crawl_time_fits(row: StreamRow) -> bool {
    match row.crawl_time {
        Some(ct) => -9_223_372_036_854 <= ct <= 9_223_372_036_854,
        None => true,
    }
}

/// The item served for a row, given all blocks fetched for the page.
/// `fresh_after` is the time after which an unread item is also tagged fresh.
pub open spec fn item_spec(row: StreamRow, all_blocks: Seq<ArticleBlock>, fresh_after: Option<i64>, item: GReaderItem) -> bool {
    let ct: i64 = match row.crawl_time {
        Some(c) => c,
        None => 0,
    };
    let ts: i64 = match row.published_at {
        Some(p) => p,
        None => ct,
    };
    let blocks = blocks_of(all_blocks, row.id);
    let fresh = match fresh_after {
        Some(f) => ct > f,
        None => false,
    };
    let html = stitch_spec(row.skeleton@, blocks, summary_arg(row.summary@), row.need_translate);
    let link = opt_text(row.link, Seq::<char>::empty());
    &&& item.id@ == item_id_to_greader_spec(row.id)
    &&& item.crawl_time_msec@ == dec_spec(ct * 1000)
    &&& item.timestamp_usec@ == dec_spec(ct * 1_000_000)
    &&& item.published == ts
    &&& item.updated == ts
    &&& item.title@ == display_title(row.title@, blocks)
    &&& item.canonical@.len() == 1 && item.canonical@[0].href@ == link
    &&& item.alternate@.len() == 1 && item.alternate@[0].href@ == link
    &&& item.summary.direction@ == "ltr"@ && item.summary.content@ == html
    &&& item.content is Some && item.content->0.direction@ == "ltr"@ && item.content->0.content@ == html
    &&& item.author@ == opt_text(row.author, Seq::<char>::empty())
    &&& item.categories@.map_values(|c: String| c@) == item_categories_spec(row.is_read, row.is_starred, fresh)
    &&& item.origin.stream_id@ == "feed/"@ + dec_spec(row.feed_id as int)
    &&& item.origin.title@ == row.feed_title@
    &&& item.origin.html_url@ == opt_text(row.site_url, Seq::<char>::empty())
}

fn opt_string(o: &Option<String>) -> (r: String)
    ensures
        r@ == opt_text(*o, Seq::<char>::empty()),
{
    match o {
        Some(x) => x.clone(),
        None => String::new(),
    }
}

fn state_tag(which: u8) -> (r: String)
    requires
        which < 5,
    ensures
        which == 0 ==> r@ == state_reading_list(),
        which == 1 ==> r@ == state_read(),
        which == 2 ==> r@ == state_kept_unread(),
        which == 3 ==> r@ == state_fresh(),
        which == 4 ==> r@ == state_starred(),
{
    if which == 0 {
        String::from_str("user/-/state/com.google/reading-list")
    } else if which == 1 {
        String::from_str("user/-/state/com.google/read")
    } else if which == 2 {
        String::from_str("user/-/state/com.google/kept-unread")
    } else if which == 3 {
        String::from_str("user/-/state/com.google/fresh")
    } else {
        String::from_str("user/-/state/com.google/starred")
    }
}

/// The state tags of an item: reading list, read or kept-unread (and fresh),
/// starred.
pub fn item_categories(is_read: bool, is_starred: bool, fresh: bool) -> (r: Vec<String>)
    ensures
        r@.map_values(|c: String| c@) == item_categories_spec(is_read, is_starred, fresh),
{
    let mut r: Vec<String> = Vec::new();
    r.push(state_tag(0));
    if is_read {
        r.push(state_tag(1));
    } else {
        r.push(state_tag(2));
        if fresh {
            r.push(state_tag(3));
        }
    }
    if is_starred {
        r.push(state_tag(4));
    }
    assert(r@.map_values(|c: String| c@) =~= item_categories_spec(is_read, is_starred, fresh));
    r
}

/// The item served for a stream row. `fresh_after`, when given, is the time
/// after which an unread item's crawl makes it fresh.
pub fn build_item(row: &StreamRow, all_blocks: &[ArticleBlock], fresh_after: Option<i64>) -> (item: GReaderItem)
    requires
        crawl_time_fits(*row),
    ensures
        item_spec(*row, all_blocks@, fresh_after, item),
{
    let ct: i64 = match row.crawl_time {
        Some(c) => c,
        None => 0,
    };
    let ts: i64 = match row.published_at {
        Some(p) => p,
        None => ct,
    };
    let title = title_of(&row.title, all_blocks, row.id);
    let sv = to_chars(row.summary.as_str());
    let html = if is_blank(&sv) {
        stitch_article_content_of(row.skeleton.as_str(), all_blocks, row.id, None, row.need_translate)
    } else {
        stitch_article_content_of(row.skeleton.as_str(), all_blocks, row.id, Some(row.summary.as_str()), row.need_translate)
    };
    let fresh = match fresh_after {
        Some(f) => ct > f,
        None => false,
    };
    let link = opt_string(&row.link);
    let mut canonical: Vec<GReaderLink> = Vec::new();
    canonical.push(GReaderLink { href: link.clone() });
    let mut alternate: Vec<GReaderLink> = Vec::new();
    alternate.push(GReaderLink { href: link });
    let mut origin_id = to_chars("feed/");
    extend_chars(&mut origin_id, &i64_to_dec(row.feed_id));
    GReaderItem {
        id: item_id_to_greader(row.id),
        crawl_time_msec: from_chars(&i64_to_dec(ct * 1000)),
        timestamp_usec: from_chars(&i64_to_dec(ct * 1_000_000)),
        published: ts,
        updated: ts,
        title,
        canonical,
        alternate,
        summary: GReaderContent { direction: String::from_str("ltr"), content: html.clone() },
        content: Some(GReaderContent { direction: String::from_str("ltr"), content: html }),
        author: opt_string(&row.author),
        categories: item_categories(row.is_read, row.is_starred, fresh),
        origin: GReaderOrigin {
            stream_id: from_chars(&origin_id),
            title: row.feed_title.clone(),
            html_url: opt_string(&row.site_url),
        },
    }
}

} // verus!
