//! A user's subscriptions: the values a new one is stored with, how an update
//! places it in a folder, the OPML export of the subscriptions and the
//! subscriptions an OPML upload asks for.
use vstd::prelude::*;
use crate::greader_actions::{from_utf8_lossy, utf8_lossy};
use crate::jobs::SyncFeedJob;
use crate::text::{
    chars_eq, extend_chars, extend_str, from_chars, is_quote, matches_at, matches_at_exec, sub_chars, to_chars,
};

verus! {

/// A subscription as it is listed; `last_sync` in seconds since the epoch.
pub struct SubscriptionDetail {
    pub id: i64,
    pub feed_id: i64,
    pub title: String,
    pub url: String,
    pub category: String,
    pub article_count: i64,
    pub last_sync: Option<i64>,
    pub status: String,
    pub target_language: Option<String>,
    pub language: String,
    pub auto_translate: bool,
    pub need_summary: bool,
    pub site_url: Option<String>,
    pub description: Option<String>,
    pub icon_url: Option<String>,
    pub icon_base64: Option<String>,
    pub refresh_interval: i64,
    pub last_status_code: Option<i32>,
    pub last_error: Option<String>,
}

/// A request for a new subscription.
pub struct CreateSubscriptionRequest {
    pub feed_url: String,
    pub folder_id: Option<i64>,
    pub category: Option<String>,
    pub custom_title: Option<String>,
    pub need_translate: Option<bool>,
    pub need_summary: Option<bool>,
    pub site_url: Option<String>,
    pub description: Option<String>,
    pub icon_url: Option<String>,
    pub icon_base64: Option<String>,
    pub target_language: Option<String>,
    pub num: Option<i64>,
    pub refresh_interval: Option<i64>,
    pub is_shared: Option<bool>,
}

/// A partial update of a subscription; what is `None` stays as stored.
pub struct UpdateSubscriptionRequest {
    pub folder_id: Option<i64>,
    pub category: Option<String>,
    pub custom_title: Option<String>,
    pub need_translate: Option<bool>,
    pub need_summary: Option<bool>,
    pub target_language: Option<String>,
    pub num: Option<i64>,
    pub refresh_interval: Option<i64>,
    pub is_shared: Option<bool>,
}

/// A feed that stopped being fetched for a user, and why.
pub struct InactiveFeed {
    pub feed_id: i64,
    pub title: String,
    pub url: String,
    pub reason: Option<String>,
    pub disabled_at: String,
}

/// The feeds to fetch again.
pub struct ActivateRequest {
    pub feed_ids: Vec<i64>,
}

/// The address of a feed to preview.
pub struct PreviewRequest {
    pub url: String,
}

// ---------------------------------------------------------------------------
// Folders and stored values
// ---------------------------------------------------------------------------

/// The name of the category that stands for no folder.
pub open spec fn uncategorized() -> Seq<char> {
    "未分类"@
}

/// A category names a folder: it is neither empty nor the uncategorized one.
pub open spec fn names_folder(cat: Seq<char>) -> bool {
    cat.len() > 0 && cat != uncategorized()
}

fn names_folder_exec(cat: &str) -> (r: bool)
    ensures
        r == names_folder(cat@),
{
    let c = to_chars(cat);
    c.len() > 0 && !chars_eq(&c, &to_chars("未分类"))
}

/// Where a subscription is filed.
pub enum FolderChoice {
    /// In no folder.
    NoFolder,
    /// In the folder with this id.
    Folder(i64),
    /// In the user's folder with this title, made if it does not exist.
    Named(String),
}

/// The values a new subscription is stored with.
pub struct NewSubscription {
    /// The title the feed is stored with when it is new.
    pub feed_title: String,
    pub folder: FolderChoice,
    pub need_translate: bool,
    pub need_summary: bool,
    pub target_language: String,
    pub num: i64,
    pub refresh_interval: i64,
    pub is_shared: bool,
}

/// The values a new subscription is stored with: its folder is the one given,
/// else the one its category names; the feed's title is the custom title or
/// "New Feed"; no translation, no summary, Chinese, 200 articles, a refresh
/// every 30 minutes and no sharing unless asked.
pub fn new_subscription(req: &CreateSubscriptionRequest) -> (n: NewSubscription)
    ensures
        n.feed_title@ == match req.custom_title {
            Some(t) => t@,
            None => "New Feed"@,
        },
        match req.folder_id {
            Some(id) => n.folder == FolderChoice::Folder(id),
            None => match req.category {
                Some(c) => if names_folder(c@) {
                    n.folder matches FolderChoice::Named(t) && t@ == c@
                } else {
                    n.folder == FolderChoice::NoFolder
                },
                None => n.folder == FolderChoice::NoFolder,
            },
        },
        n.need_translate == match req.need_translate {
            Some(b) => b,
            None => false,
        },
        n.need_summary == match req.need_summary {
            Some(b) => b,
            None => false,
        },
        n.target_language@ == match req.target_language {
            Some(t) => t@,
            None => "Chinese"@,
        },
        n.num == match req.num {
            Some(v) => v,
            None => 200i64,
        },
        n.refresh_interval == match req.refresh_interval {
            Some(v) => v,
            None => 30i64,
        },
        n.is_shared == match req.is_shared {
            Some(b) => b,
            None => false,
        },
{
    let folder = match req.folder_id {
        Some(id) => FolderChoice::Folder(id),
        None => match &req.category {
            Some(c) => if names_folder_exec(c.as_str()) {
                FolderChoice::Named(c.clone())
            } else {
                FolderChoice::NoFolder
            },
            None => FolderChoice::NoFolder,
        },
    };
    NewSubscription {
        feed_title: match &req.custom_title {
            Some(t) => t.clone(),
            None => String::from_str("New Feed"),
        },
        folder,
        need_translate: match req.need_translate {
            Some(b) => b,
            None => false,
        },
        need_summary: match req.need_summary {
            Some(b) => b,
            None => false,
        },
        target_language: match &req.target_language {
            Some(t) => t.clone(),
            None => String::from_str("Chinese"),
        },
        num: match req.num {
            Some(v) => v,
            None => 200,
        },
        refresh_interval: match req.refresh_interval {
            Some(v) => v,
            None => 30,
        },
        is_shared: match req.is_shared {
            Some(b) => b,
            None => false,
        },
    }
}

/// The folder an update files a subscription in: `None` when it leaves the
/// folder as it is. A given category decides (its folder, or no folder when
/// it names none); without one, a given folder id does.
pub fn update_folder(req: &UpdateSubscriptionRequest) -> (r: Option<FolderChoice>)
    ensures
        match req.category {
            Some(c) => if names_folder(c@) {
                r matches Some(FolderChoice::Named(t)) && t@ == c@
            } else {
                r == Some(FolderChoice::NoFolder)
            },
            None => match req.folder_id {
                Some(id) => r == Some(FolderChoice::Folder(id)),
                None => r is None,
            },
        },
{
    match &req.category {
        Some(c) => if names_folder_exec(c.as_str()) {
            Some(FolderChoice::Named(c.clone()))
        } else {
            Some(FolderChoice::NoFolder)
        },
        None => match req.folder_id {
            Some(id) => Some(FolderChoice::Folder(id)),
            None => None,
        },
    }
}

/// The sync jobs a user starts for feeds, one per feed in order.
pub fn sync_jobs(feed_ids: &[i64], user_id: i64) -> (r: Vec<SyncFeedJob>)
    ensures
        r.len() == feed_ids.len(),
        forall|i: int|
            0 <= i < r.len() ==> (#[trigger] r@[i]).feed_id == feed_ids@[i]
                && r@[i].initiator_user_id == Some(user_id),
{
    let mut out: Vec<SyncFeedJob> = Vec::new();
    let mut i: usize = 0;
    while i < feed_ids.len()
        invariant
            i <= feed_ids.len(),
            out.len() == i,
            forall|j: int|
                0 <= j < i ==> (#[trigger] out@[j]).feed_id == feed_ids@[j]
                    && out@[j].initiator_user_id == Some(user_id),
        decreases feed_ids.len() - i,
    {
        out.push(SyncFeedJob { feed_id: feed_ids[i], initiator_user_id: Some(user_id) });
        i += 1;
    }
    out
}

// ---------------------------------------------------------------------------
// XML escaping
// ---------------------------------------------------------------------------

/// The escape of one character in XML text and attributes.
pub open spec fn xml_escape_char(c: char) -> Seq<char> {
    if c == '&' {
        "&amp;"@
    } else if c == '<' {
        "&lt;"@
    } else if c == '>' {
        "&gt;"@
    } else if c == '"' {
        "&quot;"@
    } else if c == '\'' {
        "&apos;"@
    } else {
        seq![c]
    }
}

/// A text with `&`, `<`, `>`, `"` and `'` written as entities.
pub open spec fn escape_xml_spec(s: Seq<char>) -> Seq<char>
    decreases s.len(),
{
    if s.len() == 0 {
        s
    } else {
        escape_xml_spec(s.drop_last()) + xml_escape_char(s.last())
    }
}

/// A character that ends or quotes markup.
pub open spec fn is_markup(c: char) -> bool {
    c == '<' || c == '>' || c == '"' || c == '\''
}

proof fn lemma_escape_char_plain(c: char)
    ensures
        forall|k: int|
            0 <= k < xml_escape_char(c).len() ==> !is_markup(#[trigger] xml_escape_char(c)[k]),
{
    reveal_strlit("&amp;");
    reveal_strlit("&lt;");
    reveal_strlit("&gt;");
    reveal_strlit("&quot;");
    reveal_strlit("&apos;");
}

/// Escaped text holds no character that ends or quotes markup, so it can
/// stand inside an element or a quoted attribute.
pub proof fn lemma_escape_xml_plain(s: Seq<char>)
    ensures
        forall|k: int|
            0 <= k < escape_xml_spec(s).len() ==> !is_markup(#[trigger] escape_xml_spec(s)[k]),
    decreases s.len(),
{
    if s.len() > 0 {
        lemma_escape_xml_plain(s.drop_last());
        lemma_escape_char_plain(s.last());
        let a = escape_xml_spec(s.drop_last());
        let b = xml_escape_char(s.last());
        assert forall|k: int| 0 <= k < (a + b).len() implies !is_markup(#[trigger] (a + b)[k]) by {
            if k < a.len() {
                assert((a + b)[k] == a[k]);
            } else {
                assert((a + b)[k] == b[k - a.len()]);
            }
        }
    }
}

fn escape_char_exec(c: char) -> (r: Option<&'static str>)
    ensures
        r is None ==> xml_escape_char(c) == seq![c],
        r matches Some(e) ==> e@ == xml_escape_char(c),
{
    if c == '&' {
        Some("&amp;")
    } else if c == '<' {
        Some("&lt;")
    } else if c == '>' {
        Some("&gt;")
    } else if c == '"' {
        Some("&quot;")
    } else if c == '\'' {
        Some("&apos;")
    } else {
        None
    }
}

/// A text with `&`, `<`, `>`, `"` and `'` written as entities.
pub fn escape_xml(s: &str) -> (r: String)
    ensures
        r@ == escape_xml_spec(s@),
        forall|k: int| 0 <= k < r@.len() ==> !is_markup(#[trigger] r@[k]),
{
    let v = to_chars(s);
    let mut out: Vec<char> = Vec::new();
    let mut i: usize = 0;
    while i < v.len()
        invariant
            i <= v.len(),
            v@ == s@,
            out@ == escape_xml_spec(v@.take(i as int)),
        decreases v.len() - i,
    {
        let c = v[i];
        match escape_char_exec(c) {
            None => out.push(c),
            Some(e) => extend_str(&mut out, e),
        }
        assert(v@.take(i + 1).drop_last() =~= v@.take(i as int));
        assert(v@.take(i + 1).last() == c);
        assert(out@ =~= escape_xml_spec(v@.take(i as int)) + xml_escape_char(c));
        i += 1;
    }
    assert(v@.take(v.len() as int) =~= v@);
    proof {
        lemma_escape_xml_plain(s@);
    }
    from_chars(&out)
}

// ---------------------------------------------------------------------------
// OPML export
// ---------------------------------------------------------------------------

/// The distinct categories of subscriptions, in the order they first appear.
pub open spec fn categories_of(subs: Seq<SubscriptionDetail>) -> Seq<Seq<char>>
    decreases subs.len(),
{
    if subs.len() == 0 {
        seq![]
    } else {
        let rest = categories_of(subs.drop_last());
        let c = subs.last().category@;
        if rest.contains(c) {
            rest
        } else {
            rest.push(c)
        }
    }
}

/// The OPML line of a subscription, indented.
pub open spec fn outline_line(indent: Seq<char>, sub: SubscriptionDetail) -> Seq<char> {
    let t = escape_xml_spec(sub.title@);
    indent + "<outline text=\""@ + t + "\" title=\""@ + t + "\" type=\"rss\" xmlUrl=\""@
        + escape_xml_spec(sub.url@) + "\" htmlUrl=\""@ + escape_xml_spec(
        match sub.site_url {
            Some(u) => u@,
            None => seq![],
        },
    ) + "\"/>\n"@
}

/// The lines of the subscriptions in a category, in order.
pub open spec fn category_lines(indent: Seq<char>, subs: Seq<SubscriptionDetail>, cat: Seq<char>) -> Seq<char>
    decreases subs.len(),
{
    if subs.len() == 0 {
        seq![]
    } else {
        category_lines(indent, subs.drop_last(), cat) + if subs.last().category@ == cat {
            outline_line(indent, subs.last())
        } else {
            seq![]
        }
    }
}

/// The part of the export for one category: its subscriptions at the top
/// level when it names no folder, else inside an outline of the category.
pub open spec fn category_section(subs: Seq<SubscriptionDetail>, cat: Seq<char>) -> Seq<char> {
    if !names_folder(cat) {
        category_lines("    "@, subs, cat)
    } else {
        let e = escape_xml_spec(cat);
        "    <outline text=\""@ + e + "\" title=\""@ + e + "\">\n"@ + category_lines(
            "      "@,
            subs,
            cat,
        ) + "    </outline>\n"@
    }
}

/// The sections of the given categories, in order.
pub open spec fn sections(subs: Seq<SubscriptionDetail>, cats: Seq<Seq<char>>) -> Seq<char>
    decreases cats.len(),
{
    if cats.len() == 0 {
        seq![]
    } else {
        sections(subs, cats.drop_last()) + category_section(subs, cats.last())
    }
}

/// The head of an OPML export.
pub open spec fn opml_head() -> Seq<char> {
    "<?xml version=\"1.0\" encoding=\"UTF-8\"?>\n<opml version=\"2.0\">\n  <head>\n    <title>TranRSS Export</title>\n  </head>\n  <body>\n"@
}

/// The OPML export of subscriptions, grouped by category.
pub open spec fn opml_spec(subs: Seq<SubscriptionDetail>) -> Seq<char> {
    opml_head() + sections(subs, categories_of(subs)) + "  </body>\n</opml>"@
}

fn seq_contains_chars(v: &Vec<Vec<char>>, c: &[char]) -> (r: bool)
    ensures
        r == v@.map_values(|p: Vec<char>| p@).contains(c@),
{
    let ghost vs = v@.map_values(|p: Vec<char>| p@);
    let mut j: usize = 0;
    while j < v.len()
        invariant
            j <= v.len(),
            vs == v@.map_values(|p: Vec<char>| p@),
            forall|k: int| 0 <= k < j ==> vs[k] != c@,
        decreases v.len() - j,
    {
        if chars_eq(&v[j], c) {
            assert(vs[j as int] == c@);
            return true;
        }
        j += 1;
    }
    false
}

fn categories_exec(subs: &[SubscriptionDetail]) -> (r: Vec<Vec<char>>)
    ensures
        r@.map_values(|p: Vec<char>| p@) == categories_of(subs@),
{
    let mut out: Vec<Vec<char>> = Vec::new();
    let mut i: usize = 0;
    while i < subs.len()
        invariant
            i <= subs.len(),
            out@.map_values(|p: Vec<char>| p@) == categories_of(subs@.take(i as int)),
        decreases subs.len() - i,
    {
        let c = to_chars(subs[i].category.as_str());
        assert(subs@.take(i + 1).drop_last() =~= subs@.take(i as int));
        assert(subs@.take(i + 1).last() == subs@[i as int]);
        if !seq_contains_chars(&out, &c) {
            let ghost before = out@.map_values(|p: Vec<char>| p@);
            out.push(c);
            assert(out@.map_values(|p: Vec<char>| p@) =~= before.push(subs@[i as int].category@));
        }
        i += 1;
    }
    assert(subs@.take(subs.len() as int) =~= subs@);
    out
}

fn outline_line_exec(indent: &str, sub: &SubscriptionDetail) -> (r: Vec<char>)
    ensures
        r@ == outline_line(indent@, *sub),
{
    let t = to_chars(escape_xml(sub.title.as_str()).as_str());
    let mut v = to_chars(indent);
    extend_str(&mut v, "<outline text=\"");
    extend_chars(&mut v, &t);
    extend_str(&mut v, "\" title=\"");
    extend_chars(&mut v, &t);
    extend_str(&mut v, "\" type=\"rss\" xmlUrl=\"");
    extend_str(&mut v, escape_xml(sub.url.as_str()).as_str());
    extend_str(&mut v, "\" htmlUrl=\"");
    match &sub.site_url {
        Some(u) => extend_str(&mut v, escape_xml(u.as_str()).as_str()),
        None => {
            proof {
                assert(escape_xml_spec(Seq::<char>::empty()) =~= Seq::<char>::empty());
            }
        },
    }
    extend_str(&mut v, "\"/>\n");
    v
}

fn category_lines_exec(indent: &str, subs: &[SubscriptionDetail], cat: &[char]) -> (r: Vec<char>)
    ensures
        r@ == category_lines(indent@, subs@, cat@),
{
    let mut out: Vec<char> = Vec::new();
    let mut i: usize = 0;
    while i < subs.len()
        invariant
            i <= subs.len(),
            out@ == category_lines(indent@, subs@.take(i as int), cat@),
        decreases subs.len() - i,
    {
        assert(subs@.take(i + 1).drop_last() =~= subs@.take(i as int));
        assert(subs@.take(i + 1).last() == subs@[i as int]);
        if chars_eq(&to_chars(subs[i].category.as_str()), cat) {
            let line = outline_line_exec(indent, &subs[i]);
            extend_chars(&mut out, &line);
        } else {
            assert(out@ + Seq::<char>::empty() =~= out@);
        }
        i += 1;
    }
    assert(subs@.take(subs.len() as int) =~= subs@);
    out
}

/// The OPML export of subscriptions: each category's subscriptions in the
/// order they come, the categories in the order they first appear; those of
/// no folder at the top level, the others in an outline named after their
/// category; every text escaped.
pub fn export_opml(subs: &[SubscriptionDetail]) -> (r: String)
    ensures
        r@ == opml_spec(subs@),
{
    let cats = categories_exec(subs);
    let ghost cs = cats@.map_values(|p: Vec<char>| p@);
    let mut out = to_chars(
        "<?xml version=\"1.0\" encoding=\"UTF-8\"?>\n<opml version=\"2.0\">\n  <head>\n    <title>TranRSS Export</title>\n  </head>\n  <body>\n",
    );
    let mut k: usize = 0;
    assert(cs.take(0) =~= Seq::<Seq<char>>::empty());
    assert(out@ =~= opml_head() + sections(subs@, cs.take(0)));
    while k < cats.len()
        invariant
            k <= cats.len(),
            cs == cats@.map_values(|p: Vec<char>| p@),
            out@ == opml_head() + sections(subs@, cs.take(k as int)),
        decreases cats.len() - k,
    {
        let cat = &cats[k];
        assert(cat@ == cs[k as int]);
        assert(cs.take(k + 1).drop_last() =~= cs.take(k as int));
        assert(cs.take(k + 1).last() == cs[k as int]);
        let named = names_folder_exec(from_chars(cat).as_str());
        let ghost before = out@;
        if !named {
            let lines = category_lines_exec("    ", subs, cat);
            extend_chars(&mut out, &lines);
        } else {
            let e = to_chars(escape_xml(from_chars(cat).as_str()).as_str());
            extend_str(&mut out, "    <outline text=\"");
            extend_chars(&mut out, &e);
            extend_str(&mut out, "\" title=\"");
            extend_chars(&mut out, &e);
            extend_str(&mut out, "\">\n");
            let lines = category_lines_exec("      ", subs, cat);
            extend_chars(&mut out, &lines);
            extend_str(&mut out, "    </outline>\n");
        }
        assert(out@ =~= before + category_section(subs@, cs[k as int]));
        k += 1;
    }
    assert(cs.take(cats.len() as int) =~= cs);
    extend_str(&mut out, "  </body>\n</opml>");
    assert(out@ =~= opml_spec(subs@));
    from_chars(&out)
}

// ---------------------------------------------------------------------------
// OPML import
// ---------------------------------------------------------------------------

/// Why an OPML upload imported nothing.
#[derive(PartialEq, Eq, Structural)]
pub enum ImportError {
    /// No file came, or it was empty.
    NoFile,
    /// No subscription in the file could be made.
    NothingImported,
}

/// The first `>` at or after `i` (the text's length when there is none).
pub open spec fn next_gt(s: Seq<char>, i: int) -> int
    decreases s.len() - i,
{
    if i >= s.len() {
        s.len() as int
    } else if s[i] == '>' {
        i
    } else {
        next_gt(s, i + 1)
    }
}

/// The first quote (`"` or `'`) at or after `i` (the text's length when
/// there is none).
pub open spec fn next_quote(s: Seq<char>, i: int) -> int
    decreases s.len() - i,
{
    if i >= s.len() {
        s.len() as int
    } else if is_quote(s[i]) {
        i
    } else {
        next_quote(s, i + 1)
    }
}

pub proof fn lemma_next_gt(s: Seq<char>, i: int)
    requires
        0 <= i <= s.len(),
    ensures
        i <= next_gt(s, i) <= s.len(),
        next_gt(s, i) < s.len() ==> s[next_gt(s, i)] == '>',
        forall|j: int| i <= j < next_gt(s, i) ==> s[j] != '>',
    decreases s.len() - i,
{
    if i < s.len() && s[i] != '>' {
        lemma_next_gt(s, i + 1);
    }
}

pub proof fn lemma_next_quote(s: Seq<char>, i: int)
    requires
        0 <= i <= s.len(),
    ensures
        i <= next_quote(s, i) <= s.len(),
        next_quote(s, i) < s.len() ==> is_quote(s[next_quote(s, i)]),
        forall|j: int| i <= j < next_quote(s, i) ==> !is_quote(s[j]),
    decreases s.len() - i,
{
    if i < s.len() && !is_quote(s[i]) {
        lemma_next_quote(s, i + 1);
    }
}

/// `xmlUrl=["']([^"']+)["'][^>]*>` matches at `k`: a quoted, non-empty
/// address (the closing quote is the first quote after it, of either kind),
/// then a `>` somewhere after the closing quote.
pub open spec fn url_tail_at(s: Seq<char>, k: int) -> bool {
    &&& matches_at(s, "xmlUrl="@, k)
    &&& k + 7 < s.len()
    &&& is_quote(s[k + 7])
    &&& next_quote(s, k + 8) > k + 8
    &&& next_quote(s, k + 8) < s.len()
    &&& next_gt(s, next_quote(s, k + 8) + 1) < s.len()
}

/// Where `xmlUrl=` starts in an outline whose attributes begin at `q`: the
/// last place at or before `k` (and after `q`) where the rest matches, as the
/// greedy `[^>]+` before it takes as much as it can.
pub open spec fn url_split(s: Seq<char>, q: int, k: int) -> Option<int>
    decreases k - q,
{
    if k <= q {
        None
    } else if url_tail_at(s, k) {
        Some(k)
    } else {
        url_split(s, q, k - 1)
    }
}

pub proof fn lemma_url_split(s: Seq<char>, q: int, k: int)
    ensures
        url_split(s, q, k) matches Some(x) ==> q < x <= k && url_tail_at(s, x),
    decreases k - q,
{
    if k > q && !url_tail_at(s, k) {
        lemma_url_split(s, q, k - 1);
    }
}

/// An outline with a feed address, `<outline[^>]+xmlUrl=["']([^"']+)["'][^>]*>`,
/// starts at `p`: where its `xmlUrl=` stands.
pub open spec fn outline_split(s: Seq<char>, p: int) -> Option<int> {
    if matches_at(s, "<outline"@, p) {
        url_split(s, p + 8, next_gt(s, p + 8))
    } else {
        None
    }
}

/// The outlines with a feed address from `i` on, found left to right without
/// overlap: each tag's text (up to the first `>` after the address) and the
/// address.
pub open spec fn outlines_from(s: Seq<char>, i: int) -> Seq<(Seq<char>, Seq<char>)>
    decreases s.len() - i,
{
    if i < 0 || i >= s.len() {
        Seq::empty()
    } else {
        match outline_split(s, i) {
            Some(k) => {
                let e = next_quote(s, k + 8);
                let g = next_gt(s, e + 1);
                proof {
                    reveal_strlit("<outline");
                    lemma_next_gt(s, i + 8);
                    lemma_url_split(s, i + 8, next_gt(s, i + 8));
                    lemma_next_quote(s, k + 8);
                    lemma_next_gt(s, e + 1);
                }
                seq![(s.subrange(i, g + 1), s.subrange(k + 8, e))] + outlines_from(s, g + 1)
            },
            None => outlines_from(s, i + 1),
        }
    }
}

/// The `outline` tags of a text that carry an `xmlUrl`, in order: each tag's
/// text and the address.
pub open spec fn feed_outlines(text: Seq<char>) -> Seq<(Seq<char>, Seq<char>)> {
    outlines_from(text, 0)
}

/// `title=["']([^"']+)["']` matches at `p`.
pub open spec fn title_at(s: Seq<char>, p: int) -> bool {
    &&& matches_at(s, "title="@, p)
    &&& p + 6 < s.len()
    &&& is_quote(s[p + 6])
    &&& next_quote(s, p + 7) > p + 7
    &&& next_quote(s, p + 7) < s.len()
}

/// The value of the first `title` attribute at or after `i`.
pub open spec fn title_from(s: Seq<char>, i: int) -> Option<Seq<char>>
    decreases s.len() - i,
{
    if i < 0 || i >= s.len() {
        None
    } else if title_at(s, i) {
        Some(s.subrange(i + 7, next_quote(s, i + 7)))
    } else {
        title_from(s, i + 1)
    }
}

/// The value of the first `title` attribute in a tag: the quoted, non-empty
/// text after `title=` up to the next quote of either kind.
pub open spec fn title_attribute(tag: Seq<char>) -> Option<Seq<char>> {
    title_from(tag, 0)
}

fn find_gt(s: &[char], from: usize) -> (r: usize)
    requires
        from <= s.len(),
    ensures
        r == next_gt(s@, from as int),
{
    let mut i = from;
    while i < s.len() && s[i] != '>'
        invariant
            from <= i <= s.len(),
            next_gt(s@, from as int) == next_gt(s@, i as int),
        decreases s.len() - i,
    {
        i += 1;
    }
    i
}

fn find_quote(s: &[char], from: usize) -> (r: usize)
    requires
        from <= s.len(),
    ensures
        r == next_quote(s@, from as int),
{
    let mut i = from;
    while i < s.len() && s[i] != '"' && s[i] != '\''
        invariant
            from <= i <= s.len(),
            next_quote(s@, from as int) == next_quote(s@, i as int),
        decreases s.len() - i,
    {
        i += 1;
    }
    i
}

fn url_tail_at_exec(s: &[char], key: &[char], k: usize) -> (b: bool)
    requires
        key@ == "xmlUrl="@,
    ensures
        b == url_tail_at(s@, k as int),
{
    proof {
        reveal_strlit("xmlUrl=");
    }
    if !matches_at_exec(s, key, k) || s.len() - k <= 7 {
        return false;
    }
    if s[k + 7] != '"' && s[k + 7] != '\'' {
        return false;
    }
    let e = find_quote(s, k + 8);
    proof {
        lemma_next_quote(s@, k + 8);
    }
    if e <= k + 8 || e >= s.len() {
        return false;
    }
    find_gt(s, e + 1) < s.len()
}

fn url_split_exec(s: &[char], key: &[char], q: usize, k: usize) -> (r: Option<usize>)
    requires
        key@ == "xmlUrl="@,
    ensures
        match r {
            Some(x) => url_split(s@, q as int, k as int) == Some(x as int),
            None => url_split(s@, q as int, k as int) is None,
        },
{
    let mut j = k;
    while j > q
        invariant
            q <= k ==> q <= j <= k,
            j <= k,
            key@ == "xmlUrl="@,
            url_split(s@, q as int, k as int) == url_split(s@, q as int, j as int),
        decreases j,
    {
        if url_tail_at_exec(s, key, j) {
            return Some(j);
        }
        j -= 1;
    }
    None
}

/// The outlines of a text that carry a feed address, in order: each tag's
/// text and the address.
pub fn outline_matches(text: &str) -> (r: Vec<(String, String)>)
    ensures
        r@.map_values(|e: (String, String)| (e.0@, e.1@)) == feed_outlines(text@),
{
    let s = to_chars(text);
    let open = to_chars("<outline");
    let key = to_chars("xmlUrl=");
    proof {
        reveal_strlit("<outline");
    }
    let mut out: Vec<(String, String)> = Vec::new();
    let mut i: usize = 0;
    while i < s.len()
        invariant
            i <= s.len(),
            s@ == text@,
            open@ == "<outline"@,
            key@ == "xmlUrl="@,
            out@.map_values(|e: (String, String)| (e.0@, e.1@)) + outlines_from(s@, i as int)
                == outlines_from(s@, 0),
        decreases s.len() - i,
    {
        let ghost before = out@.map_values(|e: (String, String)| (e.0@, e.1@));
        proof {
            reveal_strlit("<outline");
        }
        let split = if matches_at_exec(&s, &open, i) {
            let g0 = find_gt(&s, i + 8);
            url_split_exec(&s, &key, i + 8, g0)
        } else {
            None
        };
        match split {
            Some(k) => {
                proof {
                    lemma_next_gt(s@, i + 8);
                    lemma_url_split(s@, i + 8, next_gt(s@, i + 8));
                    lemma_next_quote(s@, k + 8);
                }
                let e = find_quote(&s, k + 8);
                proof {
                    lemma_next_gt(s@, e + 1);
                }
                let g = find_gt(&s, e + 1);
                let tag = from_chars(&sub_chars(&s, i, g + 1));
                let url = from_chars(&sub_chars(&s, k + 8, e));
                out.push((tag, url));
                assert(out@.map_values(|e: (String, String)| (e.0@, e.1@)) =~= before.push(
                    (s@.subrange(i as int, g + 1), s@.subrange(k + 8, e as int)),
                ));
                assert(before + outlines_from(s@, i as int) =~= out@.map_values(
                    |e: (String, String)| (e.0@, e.1@),
                ) + outlines_from(s@, g + 1));
                i = g + 1;
            },
            None => {
                i += 1;
            },
        }
    }
    assert(outlines_from(s@, i as int) =~= Seq::<(Seq<char>, Seq<char>)>::empty());
    out
}

/// The value of the first `title` attribute in a tag, if any.
pub fn title_in(tag: &str) -> (r: Option<String>)
    ensures
        (match r {
            Some(t) => Some(t@),
            None => None,
        }) == title_attribute(tag@),
{
    let s = to_chars(tag);
    let key = to_chars("title=");
    proof {
        reveal_strlit("title=");
    }
    let mut i: usize = 0;
    while i < s.len()
        invariant
            i <= s.len(),
            s@ == tag@,
            key@ == "title="@,
            title_from(s@, 0) == title_from(s@, i as int),
        decreases s.len() - i,
    {
        if matches_at_exec(&s, &key, i) && s.len() - i > 6 && (s[i + 6] == '"' || s[i + 6] == '\'') {
            proof {
                lemma_next_quote(s@, i + 7);
            }
            let e = find_quote(&s, i + 7);
            if e > i + 7 && e < s.len() {
                return Some(from_chars(&sub_chars(&s, i + 7, e)));
            }
        }
        i += 1;
    }
    None
}

/// The request an imported outline makes: its address and title, no folder,
/// no translation or summary, 200 articles, a refresh every 30 minutes.
pub open spec fn imported_request(tag: Seq<char>, url: Seq<char>, r: CreateSubscriptionRequest) -> bool {
    &&& r.feed_url@ == url
    &&& match title_attribute(tag) {
        Some(t) => r.custom_title matches Some(c) && c@ == t,
        None => r.custom_title is None,
    }
    &&& r.folder_id is None
    &&& r.category is None
    &&& r.need_translate == Some(false)
    &&& r.need_summary == Some(false)
    &&& r.site_url is None
    &&& r.description is None
    &&& r.icon_url is None
    &&& r.icon_base64 is None
    &&& r.target_language is None
    &&& r.num == Some(200i64)
    &&& r.refresh_interval == Some(30i64)
    &&& r.is_shared is None
}

/// The subscriptions an uploaded OPML file asks for, one per outline with a
/// feed address, in order; the file is read as UTF-8, leniently, and must not
/// be empty.
pub fn opml_import_requests(data: &[u8]) -> (r: Result<Vec<CreateSubscriptionRequest>, ImportError>)
    ensures
        utf8_lossy(data@).len() == 0 ==> r == Err::<Vec<CreateSubscriptionRequest>, ImportError>(
            ImportError::NoFile,
        ),
        utf8_lossy(data@).len() > 0 ==> (r matches Ok(v) && v.len() == feed_outlines(
            utf8_lossy(data@),
        ).len() && forall|i: int|
            0 <= i < v.len() ==> imported_request(
                feed_outlines(utf8_lossy(data@))[i].0,
                feed_outlines(utf8_lossy(data@))[i].1,
                #[trigger] v@[i],
            )),
{
    let content = from_utf8_lossy(data);
    if to_chars(content.as_str()).len() == 0 {
        return Err(ImportError::NoFile);
    }
    let outlines = outline_matches(content.as_str());
    let ghost os = feed_outlines(content@);
    assert(outlines@.map_values(|e: (String, String)| (e.0@, e.1@)) == os);
    let mut out: Vec<CreateSubscriptionRequest> = Vec::new();
    let mut i: usize = 0;
    while i < outlines.len()
        invariant
            i <= outlines.len(),
            os.len() == outlines.len(),
            forall|k: int| 0 <= k < outlines.len() ==> (#[trigger] os[k]) == (outlines@[k].0@, outlines@[k].1@),
            out.len() == i,
            forall|k: int| 0 <= k < i ==> imported_request(os[k].0, os[k].1, #[trigger] out@[k]),
        decreases outlines.len() - i,
    {
        let title = title_in(outlines[i].0.as_str());
        let ghost k = i as int;
        assert(os[k] == (outlines@[k].0@, outlines@[k].1@));
        out.push(
            CreateSubscriptionRequest {
                feed_url: outlines[i].1.clone(),
                folder_id: None,
                category: None,
                custom_title: title,
                need_translate: Some(false),
                need_summary: Some(false),
                site_url: None,
                description: None,
                icon_url: None,
                icon_base64: None,
                target_language: None,
                num: Some(200),
                refresh_interval: Some(30),
                is_shared: None,
            },
        );
        i += 1;
    }
    Ok(out)
}

/// The answer to an upload once its subscriptions were made: refused when
/// none was.
pub fn import_outcome(created: usize) -> (r: Result<(), ImportError>)
    ensures
        created == 0 ==> r == Err::<(), ImportError>(ImportError::NothingImported),
        created > 0 ==> r is Ok,
{
    if created == 0 {
        Err(ImportError::NothingImported)
    } else {
        Ok(())
    }
}

} // verus!
