//! The Fever API: which answer a request asks for, the lists it returns, the
//! item query, and the read/saved marks it sets.
use vstd::prelude::*;
use crate::article::{ArticleBlock, blocks_of, display_title, stitch_spec, stitch_article_content_of, title_of};
use crate::greader_actions::{ArticleFlag, FlagUpdate};
use crate::greader_stream::{opt_text, summary_arg};
use crate::num::{dec_spec, i64_to_dec, parse_i64, parse_i64_spec};
use crate::text::{
    ascii_lower, chars_eq, contains_exec, contains_spec, extend_chars, extend_str, from_chars, is_blank,
    join_chars, join_spec, split_chars, split_spec, starts_with_exec, starts_with_spec, sub_chars,
    to_chars,
};

verus! {

/// The query of a Fever request: which lists are asked for (only presence
/// counts), and the item and mark parameters.
pub struct FeverQuery {
    pub groups: Option<String>,
    pub feeds: Option<String>,
    pub items: Option<String>,
    pub favicons: Option<String>,
    pub unread_item_ids: Option<String>,
    pub saved_item_ids: Option<String>,
    pub mark: Option<String>,
    pub as_: Option<String>,
    pub as_real: Option<String>,
    pub id: Option<i64>,
    pub before: Option<i64>,
    pub since_id: Option<i64>,
    pub max_id: Option<i64>,
    pub with_ids: Option<String>,
}

/// The answer a Fever request gets.
#[derive(PartialEq, Eq, Structural)]
pub enum FeverRoute {
    /// The key is unknown or the user has the Fever API switched off.
    Unauthorized,
    Groups,
    Feeds,
    Favicons,
    UnreadItemIds,
    SavedItemIds,
    Items,
    Mark,
    /// Only the authentication result.
    AuthOnly,
}

/// The answer a request gets, the first list asked for winning.
pub open spec fn fever_route_spec(authenticated: bool, enabled: Option<bool>, q: FeverQuery) -> FeverRoute {
    if !authenticated || enabled != Some(true) {
        FeverRoute::Unauthorized
    } else if q.groups is Some {
        FeverRoute::Groups
    } else if q.feeds is Some {
        FeverRoute::Feeds
    } else if q.favicons is Some {
        FeverRoute::Favicons
    } else if q.unread_item_ids is Some {
        FeverRoute::UnreadItemIds
    } else if q.saved_item_ids is Some {
        FeverRoute::SavedItemIds
    } else if q.items is Some {
        FeverRoute::Items
    } else if q.mark is Some {
        FeverRoute::Mark
    } else {
        FeverRoute::AuthOnly
    }
}

/// Decides the answer of a request: the user must be known and have the Fever
/// API switched on (`enabled` is the stored switch, `None` when none could be
/// read); then the first of groups, feeds, favicons, unread ids, saved ids,
/// items and mark that is asked for.
pub fn fever_route(authenticated: bool, enabled: Option<bool>, q: &FeverQuery) -> (r: FeverRoute)
    ensures
        r == fever_route_spec(authenticated, enabled, *q),
{
    let on = match enabled {
        Some(b) => b,
        None => false,
    };
    if !authenticated || !on {
        FeverRoute::Unauthorized
    } else if q.groups.is_some() {
        FeverRoute::Groups
    } else if q.feeds.is_some() {
        FeverRoute::Feeds
    } else if q.favicons.is_some() {
        FeverRoute::Favicons
    } else if q.unread_item_ids.is_some() {
        FeverRoute::UnreadItemIds
    } else if q.saved_item_ids.is_some() {
        FeverRoute::SavedItemIds
    } else if q.items.is_some() {
        FeverRoute::Items
    } else if q.mark.is_some() {
        FeverRoute::Mark
    } else {
        FeverRoute::AuthOnly
    }
}

/// What `str::to_lowercase` makes of a text.
pub uninterp spec fn lowercased(s: Seq<char>) -> Seq<char>;

/// `str::to_lowercase`: the named lower-casing, which on ASCII text is ASCII
/// lower-casing.
#[verifier::external_body]
pub(crate) fn to_lowercase(s: &str) -> (r: String)
    ensures
        r@ == lowercased(s@),
        (forall|i: int| 0 <= i < s@.len() ==> (#[trigger] s@[i] as u32) < 128) ==> r@ == s@.map_values(
            |c: char| ascii_lower(c),
        ),
{
    s.to_lowercase()
}

/// The key looked up for a request: none for an empty key, the lower-cased key
/// otherwise.
pub fn fever_lookup_key(api_key: &str) -> (r: Option<String>)
    ensures
        api_key@.len() == 0 ==> r is None,
        api_key@.len() > 0 ==> r is Some && r->0@ == lowercased(api_key@),
{
    if to_chars(api_key).len() == 0 {
        None
    } else {
        Some(to_lowercase(api_key))
    }
}

// ---------------------------------------------------------------------------
// Lists
// ---------------------------------------------------------------------------

pub struct FeverGroup {
    pub id: i64,
    pub title: String,
}

pub struct FeverFeedGroup {
    pub group_id: i64,
    /// Comma-separated feed ids.
    pub feed_ids: String,
}

pub struct FeverFeed {
    pub id: i64,
    pub favicon_id: i64,
    pub title: String,
    pub url: String,
    pub site_url: String,
    pub is_spark: i32,
    pub last_updated_on_time: i64,
}

pub struct FeverFavicon {
    pub id: i64,
    pub data: String,
}

/// Numbers in decimal, joined with commas.
pub open spec fn id_list(ids: Seq<i64>) -> Seq<char> {
    join_spec(ids.map_values(|i: i64| dec_spec(i as int)), seq![','])
}

/// Joins ids with commas.
pub fn join_ids(ids: &[i64]) -> (r: String)
    ensures
        r@ == id_list(ids@),
{
    let mut parts: Vec<Vec<char>> = Vec::new();
    let mut i: usize = 0;
    while i < ids.len()
        invariant
            i <= ids.len(),
            parts@.map_values(|p: Vec<char>| p@) =~= ids@.take(i as int).map_values(|x: i64| dec_spec(x as int)),
        decreases ids.len() - i,
    {
        parts.push(i64_to_dec(ids[i]));
        assert(ids@.take(i + 1).map_values(|x: i64| dec_spec(x as int)) =~= ids@.take(i as int).map_values(
            |x: i64| dec_spec(x as int),
        ).push(dec_spec(ids@[i as int] as int)));
        i += 1;
    }
    assert(ids@.take(ids.len() as int) =~= ids@);
    let comma = vec![','];
    assert(comma@ =~= seq![',']);
    from_chars(&join_chars(&parts, &comma))
}

/// The feeds of subscriptions in a folder, in order.
pub open spec fn feeds_in(subs: Seq<(i64, Option<i64>)>, folder: i64) -> Seq<i64>
    decreases subs.len(),
{
    if subs.len() == 0 {
        Seq::empty()
    } else {
        let rest = feeds_in(subs.drop_last(), folder);
        if subs.last().1 == Some(folder) {
            rest.push(subs.last().0)
        } else {
            rest
        }
    }
}

/// The folder ids without repeats, in order of first appearance.
pub open spec fn distinct_ids(ids: Seq<i64>) -> Seq<i64>
    decreases ids.len(),
{
    if ids.len() == 0 {
        Seq::empty()
    } else {
        let rest = distinct_ids(ids.drop_last());
        if rest.contains(ids.last()) {
            rest
        } else {
            rest.push(ids.last())
        }
    }
}

fn feeds_in_exec(subs: &[(i64, Option<i64>)], folder: i64) -> (r: Vec<i64>)
    ensures
        r@ == feeds_in(subs@, folder),
{
    let mut out: Vec<i64> = Vec::new();
    let mut i: usize = 0;
    while i < subs.len()
        invariant
            i <= subs.len(),
            out@ == feeds_in(subs@.take(i as int), folder),
        decreases subs.len() - i,
    {
        assert(subs@.take(i + 1).drop_last() =~= subs@.take(i as int));
        let (feed_id, folder_id) = subs[i];
        if folder_id == Some(folder) {
            out.push(feed_id);
        }
        i += 1;
    }
    assert(subs@.take(subs.len() as int) =~= subs@);
    out
}

/// The folders as groups, and for each folder (once) the feeds filed in it.
/// The folders come in their order (the protocol fixes no order for them).
pub fn groups_and_feeds(folders: Vec<(i64, String)>, subs: &[(i64, Option<i64>)]) -> (r: (Vec<FeverGroup>, Vec<FeverFeedGroup>))
    ensures
        r.0@.len() == folders@.len(),
        forall|i: int| 0 <= i < folders@.len() ==> (#[trigger] r.0@[i]).id == folders@[i].0 && r.0@[i].title@ == folders@[i].1@,
        r.1@.len() == distinct_ids(folders@.map_values(|f: (i64, String)| f.0)).len(),
        forall|i: int| 0 <= i < r.1@.len() ==> {
            let g = distinct_ids(folders@.map_values(|f: (i64, String)| f.0))[i];
            &&& (#[trigger] r.1@[i]).group_id == g
            &&& r.1@[i].feed_ids@ == id_list(feeds_in(subs@, g))
        },
{
    let ghost ids = folders@.map_values(|f: (i64, String)| f.0);
    let mut groups: Vec<FeverGroup> = Vec::new();
    let mut seen: Vec<i64> = Vec::new();
    let mut fgs: Vec<FeverFeedGroup> = Vec::new();
    let mut i: usize = 0;
    while i < folders.len()
        invariant
            i <= folders.len(),
            ids == folders@.map_values(|f: (i64, String)| f.0),
            groups@.len() == i,
            forall|k: int| 0 <= k < i ==> (#[trigger] groups@[k]).id == folders@[k].0 && groups@[k].title@ == folders@[k].1@,
            seen@ == distinct_ids(ids.take(i as int)),
            fgs@.len() == seen@.len(),
            forall|k: int| 0 <= k < fgs@.len() ==> (#[trigger] fgs@[k]).group_id == seen@[k]
                && fgs@[k].feed_ids@ == id_list(feeds_in(subs@, seen@[k])),
        decreases folders.len() - i,
    {
        assert(ids.take(i + 1).drop_last() =~= ids.take(i as int));
        assert(ids.take(i + 1).last() == folders@[i as int].0);
        let fid = folders[i].0;
        groups.push(FeverGroup { id: fid, title: folders[i].1.clone() });
        let mut j: usize = 0;
        let mut found = false;
        while j < seen.len()
            invariant
                j <= seen.len(),
                found == exists|k: int| 0 <= k < j && seen@[k] == fid,
            decreases seen.len() - j,
        {
            if seen[j] == fid {
                found = true;
            }
            j += 1;
        }
        if !found {
            assert(!seen@.contains(fid));
            seen.push(fid);
            fgs.push(FeverFeedGroup { group_id: fid, feed_ids: join_ids(&feeds_in_exec(subs, fid)) });
        } else {
            assert(seen@.contains(fid));
        }
        i += 1;
    }
    assert(ids.take(folders.len() as int) =~= ids);
    (groups, fgs)
}

/// A feed row: feed id, address, site, title, last fetch.
pub struct FeverFeedRow {
    pub id: i64,
    pub url: String,
    pub site_url: Option<String>,
    pub title: String,
    pub updated: Option<i64>,
}

/// A feed as listed: its favicon has the feed's id; no site is empty; never
/// fetched is time 0.
pub fn fever_feed(row: FeverFeedRow) -> (f: FeverFeed)
    ensures
        f.id == row.id,
        f.favicon_id == row.id,
        f.title@ == row.title@,
        f.url@ == row.url@,
        f.site_url@ == opt_text(row.site_url, Seq::<char>::empty()),
        f.is_spark == 0,
        f.last_updated_on_time == match row.updated {
            Some(u) => u,
            None => 0,
        },
{
    let site = match row.site_url {
        Some(s) => s,
        None => String::new(),
    };
    FeverFeed {
        id: row.id,
        favicon_id: row.id,
        title: row.title,
        url: row.url,
        site_url: site,
        is_spark: 0,
        last_updated_on_time: match row.updated {
            Some(u) => u,
            None => 0,
        },
    }
}

/// The transparent one-pixel image used when a feed has no icon.
pub open spec fn blank_favicon() -> Seq<char> {
    "image/gif;base64,R0lGODlhAQABAIAAAAAAAP///yH5BAEAAAAALAAAAAABAAEAAAIBRAA7"@
}

/// The favicon data of a stored icon: a data URI without its `data:` (when it
/// has a `;`), raw base64 as PNG, the blank image otherwise.
pub open spec fn favicon_data_spec(icon: Option<Seq<char>>) -> Seq<char> {
    match icon {
        Some(b) => if starts_with_spec(b, "data:image"@) {
            if contains_spec(b, seq![';']) {
                b.skip(5)
            } else {
                blank_favicon()
            }
        } else if b.len() > 0 {
            "image/png;base64,"@ + b
        } else {
            blank_favicon()
        },
        None => blank_favicon(),
    }
}

/// The favicon data for a stored icon.
pub fn favicon_data(icon: Option<String>) -> (r: String)
    ensures
        r@ == favicon_data_spec(match icon {
            Some(s) => Some(s@),
            None => None,
        }),
{
    let blank = "image/gif;base64,R0lGODlhAQABAIAAAAAAAP///yH5BAEAAAAALAAAAAABAAEAAAIBRAA7";
    match icon {
        Some(b) => {
            let v = to_chars(b.as_str());
            if starts_with_exec(&v, &to_chars("data:image")) {
                let semi = vec![';'];
                assert(semi@ =~= seq![';']);
                if contains_exec(&v, &semi) {
                    proof {
                        reveal_strlit("data:image");
                    }
                    from_chars(&sub_chars(&v, 5, v.len()))
                } else {
                    String::from_str(blank)
                }
            } else if v.len() > 0 {
                let mut w = to_chars("image/png;base64,");
                extend_chars(&mut w, &v);
                from_chars(&w)
            } else {
                String::from_str(blank)
            }
        },
        None => String::from_str(blank),
    }
}

// ---------------------------------------------------------------------------
// Item ids and items
// ---------------------------------------------------------------------------

/// The query for a user's item ids, newest first, starred or unread only.
pub open spec fn item_ids_query_spec(starred_only: bool, unread_only: bool) -> Seq<char> {
    "SELECT id FROM articles WHERE feed_id IN (SELECT feed_id FROM subscriptions WHERE user_id = ?)"@
        + (if starred_only { " AND is_starred = 1"@ } else { Seq::<char>::empty() })
        + (if unread_only { " AND is_read = 0"@ } else { Seq::<char>::empty() }) + " ORDER BY id DESC"@
}

/// Builds the item id query.
pub fn item_ids_query(starred_only: bool, unread_only: bool) -> (q: String)
    ensures
        q@ == item_ids_query_spec(starred_only, unread_only),
{
    let mut v = to_chars("SELECT id FROM articles WHERE feed_id IN (SELECT feed_id FROM subscriptions WHERE user_id = ?)");
    let ghost v0 = v@;
    if starred_only {
        extend_str(&mut v, " AND is_starred = 1");
    }
    let ghost v1 = v@;
    if unread_only {
        extend_str(&mut v, " AND is_read = 0");
    }
    extend_str(&mut v, " ORDER BY id DESC");
    assert(v@ =~= item_ids_query_spec(starred_only, unread_only));
    from_chars(&v)
}

/// The numbers among comma-separated pieces, in order.
pub open spec fn parsed_ids(pieces: Seq<Seq<char>>) -> Seq<i64>
    decreases pieces.len(),
{
    if pieces.len() == 0 {
        Seq::empty()
    } else {
        let rest = parsed_ids(pieces.drop_last());
        match parse_i64_spec(pieces.last()) {
            Some(v) => rest.push(v),
            None => rest,
        }
    }
}

/// The ids of a `with_ids` list: its comma-separated pieces that are numbers.
pub open spec fn with_ids_spec(s: Seq<char>) -> Seq<i64> {
    parsed_ids(split_spec(s, seq![',']))
}

/// Reads the ids of a `with_ids` list, skipping pieces that are not numbers.
pub fn parse_with_ids(s: &str) -> (r: Vec<i64>)
    ensures
        r@ == with_ids_spec(s@),
{
    let comma = vec![','];
    assert(comma@ =~= seq![',']);
    let parts = split_chars(&to_chars(s), &comma);
    let ghost ps = split_spec(s@, seq![',']);
    let mut out: Vec<i64> = Vec::new();
    let mut i: usize = 0;
    while i < parts.len()
        invariant
            i <= parts.len(),
            parts@.map_values(|p: Vec<char>| p@) == ps,
            out@ == parsed_ids(ps.take(i as int)),
        decreases parts.len() - i,
    {
        assert(ps.take(i + 1).drop_last() =~= ps.take(i as int));
        assert(ps.take(i + 1).last() == parts@[i as int]@);
        if let Some(v) = parse_i64(&parts[i]) {
            out.push(v);
        }
        i += 1;
    }
    assert(ps.take(parts.len() as int) =~= ps);
    out
}

/// The start of the item query.
pub open spec fn items_base() -> Seq<char> {
    "\n        SELECT a.id, a.feed_id, a.title, a.author, a.link, a.is_saved, a.is_read, a.published_at, a.crawl_time, a.content_skeleton, a.summary, s.need_translate\n        FROM articles a\n        JOIN subscriptions s ON a.feed_id = s.feed_id\n        WHERE s.user_id = ? \n        "@
}

/// The item query: above `since_id`, below `max_id`, among `with_ids` (when it
/// names any), the 50 newest.
pub open spec fn items_query_spec(since_id: Option<i64>, max_id: Option<i64>, with_ids: Option<Seq<char>>) -> Seq<char> {
    items_base() + (match since_id {
        Some(s) => " AND a.id > "@ + dec_spec(s as int),
        None => Seq::<char>::empty(),
    }) + (match max_id {
        Some(m) => " AND a.id < "@ + dec_spec(m as int),
        None => Seq::<char>::empty(),
    }) + (match with_ids {
        Some(w) => if with_ids_spec(w).len() > 0 {
            " AND a.id IN ("@ + id_list(with_ids_spec(w)) + ")"@
        } else {
            Seq::<char>::empty()
        },
        None => Seq::<char>::empty(),
    }) + " ORDER BY a.id DESC LIMIT 50"@
}

/// Builds the item query.
pub fn items_query(since_id: Option<i64>, max_id: Option<i64>, with_ids: &Option<String>) -> (q: String)
    ensures
        q@ == items_query_spec(since_id, max_id, match with_ids {
            Some(w) => Some(w@),
            None => None,
        }),
{
    let mut v = to_chars("\n        SELECT a.id, a.feed_id, a.title, a.author, a.link, a.is_saved, a.is_read, a.published_at, a.crawl_time, a.content_skeleton, a.summary, s.need_translate\n        FROM articles a\n        JOIN subscriptions s ON a.feed_id = s.feed_id\n        WHERE s.user_id = ? \n        ");
    let ghost v0 = v@;
    if let Some(s) = since_id {
        extend_str(&mut v, " AND a.id > ");
        extend_chars(&mut v, &i64_to_dec(s));
    }
    let ghost v1 = v@;
    if let Some(m) = max_id {
        extend_str(&mut v, " AND a.id < ");
        extend_chars(&mut v, &i64_to_dec(m));
    }
    let ghost v2 = v@;
    if let Some(w) = with_ids {
        let ids = parse_with_ids(w.as_str());
        if ids.len() > 0 {
            extend_str(&mut v, " AND a.id IN (");
            extend_str(&mut v, join_ids(&ids).as_str());
            extend_str(&mut v, ")");
        }
    }
    let ghost v3 = v@;
    extend_str(&mut v, " ORDER BY a.id DESC LIMIT 50");
    assert(v@ =~= items_query_spec(since_id, max_id, match with_ids {
        Some(w) => Some(w@),
        None => None,
    }));
    from_chars(&v)
}

/// The query for the blocks of the listed articles.
pub fn item_blocks_query(ids: &[i64]) -> (q: String)
    ensures
        q@ == "SELECT article_id, block_index, raw_text, trans_text FROM article_blocks WHERE user_id = ? AND article_id IN ("@
            + id_list(ids@) + ")"@,
{
    let mut v = to_chars("SELECT article_id, block_index, raw_text, trans_text FROM article_blocks WHERE user_id = ? AND article_id IN (");
    extend_str(&mut v, join_ids(ids).as_str());
    extend_str(&mut v, ")");
    from_chars(&v)
}

/// An item row.
pub struct FeverItemRow {
    pub id: i64,
    pub feed_id: i64,
    pub title: String,
    pub author: Option<String>,
    pub link: Option<String>,
    pub is_saved: bool,
    pub is_read: bool,
    pub published_at: Option<i64>,
    pub crawl_time: Option<i64>,
    pub skeleton: Option<String>,
    pub summary: Option<String>,
    pub need_translate: bool,
}

pub struct FeverItem {
    pub id: i64,
    pub feed_id: i64,
    pub title: String,
    pub author: String,
    pub html: String,
    pub url: String,
    pub is_saved: i32,
    pub is_read: i32,
    pub created_on_time: i64,
}

/// The summary handed to stitching: none when missing or blank.
pub open spec fn item_summary(summary: Option<String>) -> Option<Seq<char>> {
    match summary {
        Some(s) => summary_arg(s@),
        None => None,
    }
}

/// `1` for yes, `0` for no.
pub open spec fn flag_int(b: bool) -> i32 {
    if b {
        1
    } else {
        0
    }
}

/// The item served for a row, given the blocks fetched for the page.
pub open spec fn fever_item_spec(row: FeverItemRow, all_blocks: Seq<ArticleBlock>, item: FeverItem) -> bool {
    let blocks = blocks_of(all_blocks, row.id);
    &&& item.id == row.id
    &&& item.feed_id == row.feed_id
    &&& item.title@ == display_title(row.title@, blocks)
    &&& item.author@ == opt_text(row.author, Seq::<char>::empty())
    &&& item.html@ == stitch_spec(
        opt_text(row.skeleton, Seq::<char>::empty()),
        blocks,
        item_summary(row.summary),
        row.need_translate,
    )
    &&& item.url@ == opt_text(row.link, Seq::<char>::empty())
    &&& item.is_saved == flag_int(row.is_saved)
    &&& item.is_read == flag_int(row.is_read)
    &&& item.created_on_time == match row.published_at {
        Some(p) => p,
        None => match row.crawl_time {
            Some(c) => c,
            None => 0,
        },
    }
}

fn text_or_empty(o: &Option<String>) -> (r: String)
    ensures
        r@ == opt_text(*o, Seq::<char>::empty()),
{
    match o {
        Some(s) => s.clone(),
        None => String::new(),
    }
}

/// The item served for a row.
pub fn fever_item(row: &FeverItemRow, all_blocks: &[ArticleBlock]) -> (item: FeverItem)
    ensures
        fever_item_spec(*row, all_blocks@, item),
{
    let title = title_of(&row.title, all_blocks, row.id);
    let skeleton = text_or_empty(&row.skeleton);
    let html = match &row.summary {
        Some(s) => if is_blank(&to_chars(s.as_str())) {
            stitch_article_content_of(skeleton.as_str(), all_blocks, row.id, None, row.need_translate)
        } else {
            stitch_article_content_of(skeleton.as_str(), all_blocks, row.id, Some(s.as_str()), row.need_translate)
        },
        None => stitch_article_content_of(skeleton.as_str(), all_blocks, row.id, None, row.need_translate),
    };
    FeverItem {
        id: row.id,
        feed_id: row.feed_id,
        title,
        author: text_or_empty(&row.author),
        html,
        url: text_or_empty(&row.link),
        is_saved: if row.is_saved { 1 } else { 0 },
        is_read: if row.is_read { 1 } else { 0 },
        created_on_time: match row.published_at {
            Some(p) => p,
            None => match row.crawl_time {
                Some(c) => c,
                None => 0,
            },
        },
    }
}

// ---------------------------------------------------------------------------
// Marks
// ---------------------------------------------------------------------------

/// What a mark request does.
pub enum FeverMark {
    Nothing,
    /// Set a flag of one item.
    Item(FlagUpdate),
    /// Mark a feed's items read (those published, or crawled when unpublished,
    /// before the time, when one is given).
    FeedRead { feed_id: i64, before: Option<i64> },
    /// Mark the items of a folder read, likewise (a request with id 0 plans
    /// nothing, so the group id here is never 0).
    GroupRead { group_id: i64, before: Option<i64> },
}

/// What a mark request does: `mark` is item, feed or group; `as` is read,
/// unread, saved or unsaved; nothing without an id.
pub open spec fn fever_mark_spec(mark: Seq<char>, as_status: Seq<char>, id: i64, before: i64, m: FeverMark) -> bool {
    let b = if before > 0 { Some(before) } else { None };
    if id == 0 {
        m is Nothing
    } else if mark == "item"@ {
        if as_status == "read"@ {
            m == FeverMark::Item(FlagUpdate { article_id: id, flag: ArticleFlag::Read, value: true })
        } else if as_status == "unread"@ {
            m == FeverMark::Item(FlagUpdate { article_id: id, flag: ArticleFlag::Read, value: false })
        } else if as_status == "saved"@ {
            m == FeverMark::Item(FlagUpdate { article_id: id, flag: ArticleFlag::Starred, value: true })
        } else if as_status == "unsaved"@ {
            m == FeverMark::Item(FlagUpdate { article_id: id, flag: ArticleFlag::Starred, value: false })
        } else {
            m is Nothing
        }
    } else if mark == "feed"@ && as_status == "read"@ {
        m == FeverMark::FeedRead { feed_id: id, before: b }
    } else if mark == "group"@ && as_status == "read"@ {
        m == FeverMark::GroupRead { group_id: id, before: b }
    } else {
        m is Nothing
    }
}

/// An item mark with an id sets one flag of that article: the read flag for
/// `read` and `unread`, the star for `saved` and `unsaved`; it is set for
/// `read` and `saved` and cleared for `unread` and `unsaved`.
pub proof fn lemma_item_marks(mark: Seq<char>, as_status: Seq<char>, id: i64, before: i64, m: FeverMark)
    requires
        fever_mark_spec(mark, as_status, id, before, m),
        mark == "item"@,
        id != 0,
        as_status == "read"@ || as_status == "unread"@ || as_status == "saved"@ || as_status == "unsaved"@,
    ensures
        m matches FeverMark::Item(u) && {
            &&& u.article_id == id
            &&& (u.flag is Read <==> (as_status == "read"@ || as_status == "unread"@))
            &&& (u.flag is Starred <==> (as_status == "saved"@ || as_status == "unsaved"@))
            &&& (u.value <==> (as_status == "read"@ || as_status == "saved"@))
        },
{
    reveal_strlit("read");
    reveal_strlit("unread");
    reveal_strlit("saved");
    reveal_strlit("unsaved");
    reveal_strlit("item");
    assert("read"@.len() == 4 && "unread"@.len() == 6 && "saved"@.len() == 5 && "unsaved"@.len() == 7);
}

/// Marking a feed or a folder read plans that feed's or folder's articles
/// read, bounded by the time only when a positive one was given; a request
/// without an id (id 0) plans nothing.
pub proof fn lemma_feed_group_marks(mark: Seq<char>, as_status: Seq<char>, id: i64, before: i64, m: FeverMark)
    requires
        fever_mark_spec(mark, as_status, id, before, m),
    ensures
        id == 0 ==> m is Nothing,
        id != 0 && mark == "feed"@ && as_status == "read"@ ==> (m matches FeverMark::FeedRead { feed_id, before: b }
            && feed_id == id && (b is Some <==> before > 0) && (b matches Some(x) ==> x == before)),
        id != 0 && mark == "group"@ && as_status == "read"@ ==> (m matches FeverMark::GroupRead {
            group_id,
            before: b,
        } && group_id == id && (b is Some <==> before > 0) && (b matches Some(x) ==> x == before)),
{
    reveal_strlit("item");
    reveal_strlit("feed");
    reveal_strlit("group");
    assert("item"@ != "group"@) by {
        assert("item"@.len() == 4 && "group"@.len() == 5);
    }
    assert("item"@ != "feed"@) by {
        assert("item"@[0] == 'i' && "feed"@[0] == 'f');
    }
}

/// The `as` of a mark request: `as` before `as_`, empty without either.
pub open spec fn as_status_of(q: FeverQuery) -> Seq<char> {
    match q.as_real {
        Some(a) => a@,
        None => opt_text(q.as_, Seq::<char>::empty()),
    }
}

fn is_word(v: &[char], w: &str) -> (b: bool)
    ensures
        b == (v@ == w@),
{
    chars_eq(v, &to_chars(w))
}

/// Decides a mark request.
pub fn plan_fever_mark(q: &FeverQuery) -> (m: FeverMark)
    ensures
        fever_mark_spec(opt_text(q.mark, Seq::<char>::empty()), as_status_of(*q), match q.id {
            Some(i) => i,
            None => 0,
        }, match q.before {
            Some(b) => b,
            None => 0,
        }, m),
{
    let mark = match &q.mark {
        Some(m) => to_chars(m.as_str()),
        None => Vec::new(),
    };
    let st = match &q.as_real {
        Some(a) => to_chars(a.as_str()),
        None => match &q.as_ {
            Some(a) => to_chars(a.as_str()),
            None => Vec::new(),
        },
    };
    let id = match q.id {
        Some(i) => i,
        None => 0,
    };
    let before = match q.before {
        Some(b) => b,
        None => 0,
    };
    if id == 0 {
        return FeverMark::Nothing;
    }
    let b = if before > 0 {
        Some(before)
    } else {
        None
    };
    if is_word(&mark, "item") {
        if is_word(&st, "read") {
            FeverMark::Item(FlagUpdate { article_id: id, flag: ArticleFlag::Read, value: true })
        } else if is_word(&st, "unread") {
            FeverMark::Item(FlagUpdate { article_id: id, flag: ArticleFlag::Read, value: false })
        } else if is_word(&st, "saved") {
            FeverMark::Item(FlagUpdate { article_id: id, flag: ArticleFlag::Starred, value: true })
        } else if is_word(&st, "unsaved") {
            FeverMark::Item(FlagUpdate { article_id: id, flag: ArticleFlag::Starred, value: false })
        } else {
            FeverMark::Nothing
        }
    } else if is_word(&mark, "feed") && is_word(&st, "read") {
        FeverMark::FeedRead { feed_id: id, before: b }
    } else if is_word(&mark, "group") && is_word(&st, "read") {
        FeverMark::GroupRead { group_id: id, before: b }
    } else {
        FeverMark::Nothing
    }
}

/// The time condition of a feed or group mark.
pub open spec fn before_condition(before: Option<i64>) -> Seq<char> {
    match before {
        Some(t) => " AND (published_at < "@ + dec_spec(t as int) + " OR (published_at IS NULL AND crawl_time < "@
            + dec_spec(t as int) + "))"@,
        None => Seq::<char>::empty(),
    }
}

fn push_before(v: &mut Vec<char>, before: Option<i64>)
    ensures
        final(v)@ == old(v)@ + before_condition(before),
{
    if let Some(t) = before {
        extend_str(v, " AND (published_at < ");
        extend_chars(v, &i64_to_dec(t));
        extend_str(v, " OR (published_at IS NULL AND crawl_time < ");
        extend_chars(v, &i64_to_dec(t));
        extend_str(v, "))");
    }
}

/// The update that marks a feed read.
pub fn feed_read_query(before: Option<i64>) -> (q: String)
    ensures
        q@ == "UPDATE articles SET is_read = 1 WHERE feed_id = ? AND feed_id IN (SELECT feed_id FROM subscriptions WHERE user_id = ?)"@
            + before_condition(before),
{
    let mut v = to_chars("UPDATE articles SET is_read = 1 WHERE feed_id = ? AND feed_id IN (SELECT feed_id FROM subscriptions WHERE user_id = ?)");
    push_before(&mut v, before);
    from_chars(&v)
}

/// The update that marks a folder read; for group id 0 (which a mark plan
/// never holds) it covers every folder of the user.
pub fn group_read_query(group_id: i64, before: Option<i64>) -> (q: String)
    ensures
        q@ == (if group_id == 0 {
            "UPDATE articles SET is_read = 1 WHERE feed_id IN (SELECT feed_id FROM subscriptions WHERE user_id = ?)"@
        } else {
            "UPDATE articles SET is_read = 1 WHERE feed_id IN (SELECT feed_id FROM subscriptions WHERE user_id = ? AND folder_id = ?)"@
        }) + before_condition(before),
{
    let mut v = if group_id == 0 {
        to_chars("UPDATE articles SET is_read = 1 WHERE feed_id IN (SELECT feed_id FROM subscriptions WHERE user_id = ?)")
    } else {
        to_chars("UPDATE articles SET is_read = 1 WHERE feed_id IN (SELECT feed_id FROM subscriptions WHERE user_id = ? AND folder_id = ?)")
    };
    push_before(&mut v, before);
    from_chars(&v)
}

} // verus!
