//! Feeds: reading a fetched RSS/Atom document into articles (identity, title,
//! link, author, date, skeleton and blocks), the feed preview, icons, and the
//! retry policy of a fetch.
use vstd::prelude::*;
use vstd::utf8::{decode_utf8, valid_utf8};
use crate::greader_actions::{from_utf8_lossy, utf8_lossy};
use crate::html::{extract_blocks_from_html, extract_spec, html_fragment_tokens};
use crate::num::{dec_spec, i64_to_dec, u64_to_dec};
use crate::text::{
    chars_eq, decimal_digit, extend_chars, extend_str, from_chars, is_decimal_digit, matches_at, matches_at_exec,
    sub_chars, to_chars,
};
use std::hash::{Hash, Hasher};

verus! {

/// A request to create a feed, and the preview of one.
pub struct CreateFeedRequest {
    pub feed_url: String,
    pub site_url: Option<String>,
    pub title: String,
    pub description: Option<String>,
    pub icon_url: Option<String>,
    pub icon_base64: Option<String>,
    pub hub_url: Option<String>,
}

/// A link of a feed.
pub struct FeedLink {
    pub href: String,
    pub rel: Option<String>,
}

/// What the logic reads of a feed entry.
pub struct EntryData {
    pub id: String,
    pub first_link: Option<String>,
    pub title: Option<String>,
    pub first_author: Option<String>,
    pub content_body: Option<String>,
    pub summary: Option<String>,
    pub published: Option<i64>,
    pub updated: Option<i64>,
}

/// What the logic reads of a parsed feed besides its entries.
pub struct FeedHead {
    pub title: Option<String>,
    pub description: Option<String>,
    pub links: Vec<FeedLink>,
    pub logo: Option<String>,
    pub icon: Option<String>,
}

/// What `feed_rs` reads a document's head as (`None` when it cannot read the
/// document).
pub uninterp spec fn parsed_feed_head(xml: Seq<u8>) -> Option<FeedHead>;

/// What a document itself says of an entry: every field the logic reads but
/// the identity, which `feed_rs` may make up.
pub struct EntryText {
    pub first_link: Option<String>,
    pub title: Option<String>,
    pub first_author: Option<String>,
    pub content_body: Option<String>,
    pub summary: Option<String>,
    pub published: Option<i64>,
    pub updated: Option<i64>,
}

/// The text of an entry, its identity left out.
pub open spec fn entry_text(e: EntryData) -> EntryText {
    EntryText {
        first_link: e.first_link,
        title: e.title,
        first_author: e.first_author,
        content_body: e.content_body,
        summary: e.summary,
        published: e.published,
        updated: e.updated,
    }
}

/// What `feed_rs` reads the entries of a document as, in order, identities
/// left out.
pub uninterp spec fn parsed_feed_entries(xml: Seq<u8>) -> Option<Seq<EntryText>>;

/// `feed_rs::parser::parse`, with the fields of the feed the logic reads
/// picked out: the named head.
#[verifier::external_body]
pub(crate) fn parse_feed_head(xml: &[u8]) -> (r: Option<FeedHead>)
    ensures
        r == parsed_feed_head(xml@),
{
    let f = feed_rs::parser::parse(xml).ok()?;
    Some(FeedHead {
        title: f.title.map(|t| t.content),
        description: f.description.map(|d| d.content),
        links: f.links.into_iter().map(|l| FeedLink { href: l.href, rel: l.rel }).collect(),
        logo: f.logo.map(|l| l.uri),
        icon: f.icon.map(|i| i.uri),
    })
}

/// `Parser::parse` of the default parser (what `feed_rs::parser::parse`
/// runs), with the fields of each entry the logic reads picked out: the named
/// entries, read exactly when the head is. Every entry comes with an identity
/// that is not empty (the document's, else one the parser makes); when an
/// entry has neither an identity nor a link that made-up one is a random
/// UUID, so no clause says which identity comes.
#[verifier::external_body]
fn parse_feed_items(xml: &[u8]) -> (r: Option<Vec<EntryData>>)
    ensures
        r is None <==> parsed_feed_head(xml@) is None,
        r is None ==> parsed_feed_entries(xml@) is None,
        r matches Some(v) ==> (parsed_feed_entries(xml@) matches Some(ts) && ts.len() == v@.len()
            && forall|i: int| 0 <= i < v@.len() ==> entry_text(#[trigger] v@[i]) == ts[i] && v@[i].id@.len() > 0),
{
    let f = feed_rs::parser::Builder::new().build().parse(xml).ok()?;
    Some(f.entries.into_iter().map(|e| EntryData {
        id: e.id,
        first_link: e.links.into_iter().next().map(|l| l.href),
        title: e.title.map(|t| t.content),
        first_author: e.authors.into_iter().next().map(|a| a.name),
        content_body: e.content.and_then(|c| c.body),
        summary: e.summary.map(|s| s.content),
        published: e.published.map(|d| d.timestamp()),
        updated: e.updated.map(|d| d.timestamp()),
    }).collect())
}

/// The `k`-th character of a bare date `\d{4}-\d{2}-\d{2} \d{2}:\d{2}:\d{2}`
/// (19 characters; a digit is any Unicode decimal digit).
pub open spec fn pubdate_value_char(k: int, c: char) -> bool {
    if k == 4 || k == 7 {
        c == '-'
    } else if k == 10 {
        c == ' '
    } else if k == 13 || k == 16 {
        c == ':'
    } else {
        decimal_digit(c)
    }
}

/// A bare date element `<pubDate>YYYY-MM-DD hh:mm:ss</pubDate>` (38
/// characters) starts at `i`.
pub open spec fn bare_pubdate_at(s: Seq<char>, i: int) -> bool {
    &&& matches_at(s, "<pubDate>"@, i)
    &&& i + 38 <= s.len()
    &&& forall|k: int| 0 <= k < 19 ==> #[trigger] pubdate_value_char(k, s[i + 9 + k])
    &&& matches_at(s, "</pubDate>"@, i + 28)
}

/// The text from `i` on with each bare date element, found left to right
/// without overlap, given the `+0800` zone.
pub open spec fn pubdates_fixed_from(s: Seq<char>, i: int) -> Seq<char>
    decreases s.len() - i,
{
    if i + 38 > s.len() {
        s.skip(i)
    } else if bare_pubdate_at(s, i) {
        s.subrange(i, i + 28) + " +0800"@ + s.subrange(i + 28, i + 38) + pubdates_fixed_from(s, i + 38)
    } else {
        seq![s[i]] + pubdates_fixed_from(s, i + 1)
    }
}

/// A document with every `<pubDate>YYYY-MM-DD hh:mm:ss</pubDate>` made
/// `<pubDate>YYYY-MM-DD hh:mm:ss +0800</pubDate>`, as a pattern replacement
/// of all matches, left to right, would.
pub open spec fn pubdates_fixed(xml: Seq<char>) -> Seq<char> {
    pubdates_fixed_from(xml, 0)
}

fn bare_pubdate_at_exec(s: &[char], open: &[char], close: &[char], i: usize) -> (b: bool)
    requires
        open@ == "<pubDate>"@,
        close@ == "</pubDate>"@,
    ensures
        b == bare_pubdate_at(s@, i as int),
{
    proof {
        reveal_strlit("<pubDate>");
        reveal_strlit("</pubDate>");
    }
    if !matches_at_exec(s, open, i) {
        return false;
    }
    if s.len() - i < 38 {
        return false;
    }
    let mut k: usize = 0;
    while k < 19
        invariant
            i + 38 <= s.len(),
            k <= 19,
            forall|j: int| 0 <= j < k ==> #[trigger] pubdate_value_char(j, s@[i + 9 + j]),
        decreases 19 - k,
    {
        let c = s[i + 9 + k];
        let ok = if k == 4 || k == 7 {
            c == '-'
        } else if k == 10 {
            c == ' '
        } else if k == 13 || k == 16 {
            c == ':'
        } else {
            is_decimal_digit(c)
        };
        if !ok {
            assert(!pubdate_value_char(k as int, s@[i + 9 + k]));
            return false;
        }
        k += 1;
    }
    matches_at_exec(s, close, i + 28)
}

/// Gives every bare `<pubDate>YYYY-MM-DD hh:mm:ss</pubDate>` of a document the
/// `+0800` zone.
pub fn fix_pubdates(xml: &str) -> (r: String)
    ensures
        r@ == pubdates_fixed(xml@),
{
    let s = to_chars(xml);
    let open = to_chars("<pubDate>");
    let close = to_chars("</pubDate>");
    let zone = to_chars(" +0800");
    let mut out: Vec<char> = Vec::new();
    let mut i: usize = 0;
    while s.len() - i >= 38
        invariant
            i <= s.len(),
            s@ == xml@,
            open@ == "<pubDate>"@,
            close@ == "</pubDate>"@,
            zone@ == " +0800"@,
            out@ + pubdates_fixed_from(s@, i as int) == pubdates_fixed_from(s@, 0),
        decreases s.len() - i,
    {
        let ghost before = out@;
        if bare_pubdate_at_exec(&s, &open, &close, i) {
            let head = sub_chars(&s, i, i + 28);
            let tail = sub_chars(&s, i + 28, i + 38);
            extend_chars(&mut out, &head);
            extend_chars(&mut out, &zone);
            extend_chars(&mut out, &tail);
            assert(before + pubdates_fixed_from(s@, i as int) =~= out@ + pubdates_fixed_from(
                s@,
                i + 38,
            ));
            i = i + 38;
        } else {
            out.push(s[i]);
            assert(before + pubdates_fixed_from(s@, i as int) =~= out@ + pubdates_fixed_from(
                s@,
                i + 1,
            ));
            i = i + 1;
        }
    }
    let rest = sub_chars(&s, i, s.len());
    assert(rest@ =~= pubdates_fixed_from(s@, i as int));
    extend_chars(&mut out, &rest);
    from_chars(&out)
}

/// What `DefaultHasher` makes of a text.
pub uninterp spec fn default_hash(s: Seq<char>) -> u64;

/// Hashes a text with a fresh `DefaultHasher` (fixed keys): the named hash.
#[verifier::external_body]
fn hash_text(s: &str) -> (r: u64)
    ensures
        r == default_hash(s@),
{
    let mut hasher = std::collections::hash_map::DefaultHasher::new();
    s.hash(&mut hasher);
    hasher.finish()
}

// ---------------------------------------------------------------------------
// Entries
// ---------------------------------------------------------------------------

/// An entry read into an article.
pub struct ParsedArticle {
    pub id: i64,
    pub origin_guid: String,
    pub title: String,
    pub link: Option<String>,
    pub author: Option<String>,
    pub published_at: Option<i64>,
    pub skeleton: String,
    /// Block `n` fills `[[TEXT_n]]`.
    pub blocks: Vec<String>,
}

/// The text of an optional string, or `dflt`.
pub open spec fn text_or(o: Option<String>, dflt: Seq<char>) -> Seq<char> {
    match o {
        Some(s) => s@,
        None => dflt,
    }
}

/// The identity of an entry: its id, else its first link, else its title, else
/// an id made from the time.
pub open spec fn entry_guid(e: EntryData, now_nanos: i64) -> Seq<char> {
    if e.id@.len() > 0 {
        e.id@
    } else {
        match e.first_link {
            Some(l) => l@,
            None => match e.title {
                Some(t) => t@,
                None => "auto-id-"@ + dec_spec(now_nanos as int),
            },
        }
    }
}

/// The largest integer a JavaScript number holds exactly; article ids stay below it.
pub open spec fn max_safe_integer() -> u64 {
    9_007_199_254_740_991
}

/// The article id of an identity: its hash, below the largest safe integer.
pub open spec fn article_id_of(guid: Seq<char>) -> i64 {
    (default_hash(guid) % max_safe_integer()) as i64
}

/// The HTML of an entry: its content, else its summary, else nothing.
pub open spec fn text_html(t: EntryText) -> Seq<char> {
    match t.content_body {
        Some(b) => b@,
        None => text_or(t.summary, Seq::<char>::empty()),
    }
}

/// The HTML of an entry.
pub open spec fn entry_html(e: EntryData) -> Seq<char> {
    text_html(entry_text(e))
}

/// What an article takes from the text of its entry: its title (or
/// "No Title"), link, author, date (published, else updated), and the
/// skeleton and blocks of its HTML.
pub open spec fn text_article_spec(t: EntryText, a: ParsedArticle) -> bool {
    let html = text_html(t);
    &&& a.title@ == text_or(t.title, "No Title"@)
    &&& crate::access_key::opt_view(a.link) == crate::access_key::opt_view(t.first_link)
    &&& crate::access_key::opt_view(a.author) == crate::access_key::opt_view(t.first_author)
    &&& a.published_at == match t.published {
        Some(p) => Some(p),
        None => t.updated,
    }
    &&& a.skeleton@ == extract_spec(html_fragment_tokens(html)).0
    &&& a.blocks@.map_values(|b: String| b@) == extract_spec(html_fragment_tokens(html)).1
}

/// An article's skeleton and blocks come from its entry's content when the
/// entry has one, whatever its summary; from the summary only when there is
/// no content; from nothing when there is neither.
pub proof fn lemma_content_before_summary(t: EntryText, a: ParsedArticle)
    requires
        text_article_spec(t, a),
    ensures
        t.content_body matches Some(b) ==> {
            &&& a.skeleton@ == extract_spec(html_fragment_tokens(b@)).0
            &&& a.blocks@.map_values(|x: String| x@) == extract_spec(html_fragment_tokens(b@)).1
        },
        t.content_body is None ==> (t.summary matches Some(s) ==> {
            &&& a.skeleton@ == extract_spec(html_fragment_tokens(s@)).0
            &&& a.blocks@.map_values(|x: String| x@) == extract_spec(html_fragment_tokens(s@)).1
        }),
        t.content_body is None && t.summary is None ==> {
            &&& a.skeleton@ == extract_spec(html_fragment_tokens(Seq::<char>::empty())).0
            &&& a.blocks@.map_values(|x: String| x@) == extract_spec(
                html_fragment_tokens(Seq::<char>::empty()),
            ).1
        },
{
}

/// The article an entry is read into.
pub open spec fn parsed_article_spec(e: EntryData, now_nanos: i64, a: ParsedArticle) -> bool {
    let guid = entry_guid(e, now_nanos);
    &&& a.origin_guid@ == guid
    &&& a.id == article_id_of(guid)
    &&& text_article_spec(entry_text(e), a)
}

fn clone_text(o: &Option<String>) -> (r: Option<String>)
    ensures
        crate::access_key::opt_view(r) == crate::access_key::opt_view(*o),
{
    match o {
        Some(s) => Some(s.clone()),
        None => None,
    }
}

/// Reads an entry into an article; `now_nanos` names an entry with no
/// identity at all.
pub fn parse_entry(e: &EntryData, now_nanos: i64) -> (a: ParsedArticle)
    ensures
        parsed_article_spec(*e, now_nanos, a),
{
    let guid = if to_chars(e.id.as_str()).len() > 0 {
        e.id.clone()
    } else {
        match &e.first_link {
            Some(l) => l.clone(),
            None => match &e.title {
                Some(t) => t.clone(),
                None => {
                    let mut v = to_chars("auto-id-");
                    extend_chars(&mut v, &i64_to_dec(now_nanos));
                    from_chars(&v)
                },
            },
        }
    };
    let h = hash_text(guid.as_str());
    let id = (h % 9_007_199_254_740_991u64) as i64;
    let title = match &e.title {
        Some(t) => t.clone(),
        None => String::from_str("No Title"),
    };
    let html = match &e.content_body {
        Some(b) => b.clone(),
        None => match &e.summary {
            Some(s) => s.clone(),
            None => String::new(),
        },
    };
    let (skeleton, blocks) = extract_blocks_from_html(html.as_str());
    ParsedArticle {
        id,
        origin_guid: guid,
        title,
        link: clone_text(&e.first_link),
        author: clone_text(&e.first_author),
        published_at: match e.published {
            Some(p) => Some(p),
            None => e.updated,
        },
        skeleton,
        blocks,
    }
}

/// The first link marked `hub`.
pub open spec fn hub_url_spec(links: Seq<FeedLink>) -> Option<Seq<char>>
    decreases links.len(),
{
    if links.len() == 0 {
        None
    } else if links[0].rel is Some && links[0].rel->0@ == "hub"@ {
        Some(links[0].href@)
    } else {
        hub_url_spec(links.drop_first())
    }
}

/// The hub of a feed's links, if one is marked.
pub fn find_hub(links: &Vec<FeedLink>) -> (r: Option<String>)
    ensures
        crate::access_key::opt_view(r) == hub_url_spec(links@),
{
    let mut i: usize = 0;
    assert(links@.skip(0) =~= links@);
    while i < links.len()
        invariant
            i <= links.len(),
            hub_url_spec(links@.skip(i as int)) == hub_url_spec(links@),
        decreases links.len() - i,
    {
        assert(links@.skip(i as int)[0] == links@[i as int]);
        assert(links@.skip(i as int).drop_first() =~= links@.skip(i + 1));
        if let Some(rel) = &links[i].rel {
            if chars_eq(&to_chars(rel.as_str()), &to_chars("hub")) {
                return Some(links[i].href.clone());
            }
        }
        i += 1;
    }
    assert(links@.skip(links.len() as int) =~= Seq::<FeedLink>::empty());
    None
}

/// A parsed document: its articles and its hub.
pub struct ParsedFeed {
    pub articles: Vec<ParsedArticle>,
    pub hub_url: Option<String>,
}

/// The bytes parsed: the document read as UTF-8 (lossily), dates without a
/// zone given `+0800`.
pub open spec fn fixed_document(xml: Seq<u8>) -> Seq<char> {
    pubdates_fixed(utf8_lossy(xml))
}

/// Reads a fetched document into articles (none when it does not parse).
pub fn parse_feed_entries(xml: &[u8], now_nanos: i64) -> (r: ParsedFeed)
    ensures
        match parsed_feed_head(vstd::utf8::encode_utf8(fixed_document(xml@))) {
            None => r.articles@.len() == 0 && r.hub_url is None,
            Some(h) => {
                let ts = parsed_feed_entries(vstd::utf8::encode_utf8(fixed_document(xml@)))->0;
                &&& r.articles@.len() == ts.len()
                &&& forall|i: int| 0 <= i < ts.len() ==> {
                    &&& text_article_spec(ts[i], #[trigger] r.articles@[i])
                    &&& r.articles@[i].origin_guid@.len() > 0
                    &&& r.articles@[i].id == article_id_of(r.articles@[i].origin_guid@)
                }
                &&& crate::access_key::opt_view(r.hub_url) == hub_url_spec(h.links@)
            },
        },
{
    let text = from_utf8_lossy(xml);
    let fixed = fix_pubdates(text.as_str());
    let head = match parse_feed_head(fixed.as_str().as_bytes()) {
        Some(h) => h,
        None => {
            return ParsedFeed { articles: Vec::new(), hub_url: None };
        },
    };
    let entries = match parse_feed_items(fixed.as_str().as_bytes()) {
        Some(es) => es,
        None => {
            return ParsedFeed { articles: Vec::new(), hub_url: None };
        },
    };
    let hub_url = find_hub(&head.links);
    let mut articles: Vec<ParsedArticle> = Vec::new();
    let mut i: usize = 0;
    while i < entries.len()
        invariant
            i <= entries.len(),
            articles@.len() == i,
            forall|k: int| 0 <= k < entries.len() ==> (#[trigger] entries@[k]).id@.len() > 0,
            forall|k: int| 0 <= k < i ==> {
                &&& text_article_spec(entry_text(entries@[k]), #[trigger] articles@[k])
                &&& articles@[k].origin_guid@.len() > 0
                &&& articles@[k].id == article_id_of(articles@[k].origin_guid@)
            },
        decreases entries.len() - i,
    {
        let a = parse_entry(&entries[i], now_nanos);
        assert(entries@[i as int].id@.len() > 0);
        articles.push(a);
        i += 1;
    }
    ParsedFeed { articles, hub_url }
}

// ---------------------------------------------------------------------------
// Preview and icons
// ---------------------------------------------------------------------------

/// The preview of a feed at `url`: what the document says, or, when it does
/// not parse, a placeholder that still lets the feed be added.
pub open spec fn preview_spec(url: Seq<char>, f: Option<FeedHead>, p: CreateFeedRequest) -> bool {
    &&& p.feed_url@ == url
    &&& p.icon_base64 is None
    &&& match f {
        Some(feed) => {
            &&& p.title@ == text_or(feed.title, "Unknown Feed"@)
            &&& crate::access_key::opt_view(p.description) == crate::access_key::opt_view(feed.description)
            &&& crate::access_key::opt_view(p.site_url) == (if feed.links@.len() > 0 { Some(feed.links@[0].href@) } else { None })
            &&& crate::access_key::opt_view(p.icon_url) == (match feed.logo {
                Some(l) => Some(l@),
                None => crate::access_key::opt_view(feed.icon),
            })
            &&& crate::access_key::opt_view(p.hub_url) == hub_url_spec(feed.links@)
        },
        None => {
            &&& p.title@ == "Non-standard RSS Source"@
            &&& crate::access_key::opt_view(p.description) == Some("This feed uses a non-standard format but may still sync."@)
            &&& crate::access_key::opt_view(p.site_url) == Some(url)
            &&& p.icon_url is None
            &&& p.hub_url is None
        },
    }
}

/// The preview of a fetched feed (before its icon is looked up and fetched).
pub fn feed_preview(url: &str, f: Option<FeedHead>) -> (p: CreateFeedRequest)
    ensures
        preview_spec(url@, f, p),
{
    match f {
        Some(feed) => {
            let title = match &feed.title {
                Some(t) => t.clone(),
                None => String::from_str("Unknown Feed"),
            };
            let site_url = if feed.links.len() > 0 {
                Some(feed.links[0].href.clone())
            } else {
                None
            };
            let icon_url = match &feed.logo {
                Some(l) => Some(l.clone()),
                None => clone_text(&feed.icon),
            };
            CreateFeedRequest {
                feed_url: String::from_str(url),
                site_url,
                title,
                description: clone_text(&feed.description),
                icon_url,
                icon_base64: None,
                hub_url: find_hub(&feed.links),
            }
        },
        None => CreateFeedRequest {
            feed_url: String::from_str(url),
            site_url: Some(String::from_str(url)),
            title: String::from_str("Non-standard RSS Source"),
            description: Some(String::from_str("This feed uses a non-standard format but may still sync.")),
            icon_url: None,
            icon_base64: None,
            hub_url: None,
        },
    }
}

/// The preview of the document fetched from `url`: what its head says, or
/// the placeholder when it does not parse.
pub fn preview_of_document(url: &str, content: &[u8]) -> (p: CreateFeedRequest)
    ensures
        preview_spec(url@, parsed_feed_head(content@), p),
{
    feed_preview(url, parse_feed_head(content))
}

/// What standard base64 encodes bytes as.
pub uninterp spec fn base64_std_encoded(b: Seq<u8>) -> Seq<char>;

/// `base64::engine::general_purpose::STANDARD.encode`: the named encoding.
#[verifier::external_body]
fn base64_std_encode(b: &[u8]) -> (r: String)
    requires
        b.len() <= usize::MAX / 2,
    ensures
        r@ == base64_std_encoded(b@),
{
    base64::Engine::encode(&base64::engine::general_purpose::STANDARD, b)
}

/// The largest icon kept, in bytes.
pub open spec fn max_icon_bytes() -> nat {
    49152
}

/// An icon as a data URI (`image/x-icon` when no type was given); none for an
/// icon over 48 KiB.
pub fn icon_data_uri(mime: Option<&str>, bytes: &[u8]) -> (r: Option<String>)
    ensures
        bytes@.len() > max_icon_bytes() ==> r is None,
        bytes@.len() <= max_icon_bytes() ==> r is Some && r->0@ == "data:"@ + (match mime {
            Some(m) => m@,
            None => "image/x-icon"@,
        }) + ";base64,"@ + base64_std_encoded(bytes@),
{
    if bytes.len() > 48 * 1024 {
        return None;
    }
    let mut v = to_chars("data:");
    match mime {
        Some(m) => extend_str(&mut v, m),
        None => extend_str(&mut v, "image/x-icon"),
    }
    extend_str(&mut v, ";base64,");
    extend_str(&mut v, base64_std_encode(bytes).as_str());
    Some(from_chars(&v))
}

/// The address of the 128-pixel icon Google serves for a domain.
pub fn google_favicon_url(domain: &str) -> (r: String)
    ensures
        r@ == "https://www.google.com/s2/favicons?domain="@ + domain@ + "&sz=128"@,
{
    let mut v = to_chars("https://www.google.com/s2/favicons?domain=");
    extend_str(&mut v, domain);
    extend_str(&mut v, "&sz=128");
    from_chars(&v)
}

/// The address of DuckDuckGo's icon for a domain.
pub fn duckduckgo_icon_url(domain: &str) -> (r: String)
    ensures
        r@ == "https://icons.duckduckgo.com/ip3/"@ + domain@ + ".ico"@,
{
    let mut v = to_chars("https://icons.duckduckgo.com/ip3/");
    extend_str(&mut v, domain);
    extend_str(&mut v, ".ico");
    from_chars(&v)
}

// ---------------------------------------------------------------------------
// Fetch retries
// ---------------------------------------------------------------------------

/// The attempts at fetching a feed.
pub struct FetchAttempts {
    /// The attempt under way, from 1 to 3.
    pub attempt: u32,
    pub last_status: Option<i32>,
    pub last_error: Option<String>,
}

/// What follows an attempt's outcome.
#[derive(PartialEq, Eq, Structural)]
pub enum FetchStep {
    /// Read the body of a successful response.
    ReadBody,
    /// Wait two seconds and try again.
    Retry,
    /// Stop: every attempt failed.
    GiveUp,
}

impl FetchAttempts {
    /// The first attempt, nothing known yet.
    pub fn new() -> (a: FetchAttempts)
        ensures
            a.attempt == 1,
            a.last_status is None,
            a.last_error is None,
    {
        FetchAttempts { attempt: 1, last_status: None, last_error: None }
    }

    fn fail(&mut self) -> (s: FetchStep)
        requires
            1 <= old(self).attempt <= 3,
        ensures
            old(self).attempt < 3 ==> s == FetchStep::Retry && final(self).attempt == old(self).attempt + 1,
            old(self).attempt == 3 ==> s == FetchStep::GiveUp && final(self).attempt == 3,
            final(self).last_status == old(self).last_status,
            final(self).last_error == old(self).last_error,
    {
        if self.attempt < 3 {
            self.attempt = self.attempt + 1;
            FetchStep::Retry
        } else {
            FetchStep::GiveUp
        }
    }

    /// A response came with `code`: a success goes on to its body; a failure
    /// is recorded (`HTTP <code> - Feed 获取失败 (<reason>)`) and retried
    /// while attempts remain.
    pub fn on_status(&mut self, code: u16, success: bool, reason: Option<&str>) -> (s: FetchStep)
        requires
            1 <= old(self).attempt <= 3,
        ensures
            final(self).last_status == Some(code as i32),
            success ==> s == FetchStep::ReadBody && final(self).attempt == old(self).attempt
                && final(self).last_error == old(self).last_error,
            !success ==> {
                &&& final(self).last_error is Some
                &&& final(self).last_error->0@ == "HTTP "@ + dec_spec(code as int) + " - Feed 获取失败 ("@ + (match reason {
                    Some(r) => r@,
                    None => "Unknown"@,
                }) + ")"@
                &&& old(self).attempt < 3 ==> s == FetchStep::Retry && final(self).attempt == old(self).attempt + 1
                &&& old(self).attempt == 3 ==> s == FetchStep::GiveUp
            },
    {
        self.last_status = Some(code as i32);
        if success {
            return FetchStep::ReadBody;
        }
        let mut v = to_chars("HTTP ");
        extend_chars(&mut v, &u64_to_dec(code as u64));
        extend_str(&mut v, " - Feed 获取失败 (");
        match reason {
            Some(r) => extend_str(&mut v, r),
            None => extend_str(&mut v, "Unknown"),
        }
        extend_str(&mut v, ")");
        self.last_error = Some(from_chars(&v));
        self.fail()
    }

    /// The body could not be read: recorded and retried while attempts remain.
    pub fn on_body_error(&mut self, e: &str) -> (s: FetchStep)
        requires
            1 <= old(self).attempt <= 3,
        ensures
            final(self).last_error is Some,
            final(self).last_error->0@ == "Error reading response body: "@ + e@,
            final(self).last_status == old(self).last_status,
            old(self).attempt < 3 ==> s == FetchStep::Retry && final(self).attempt == old(self).attempt + 1,
            old(self).attempt == 3 ==> s == FetchStep::GiveUp,
    {
        let mut v = to_chars("Error reading response body: ");
        extend_str(&mut v, e);
        self.last_error = Some(from_chars(&v));
        self.fail()
    }

    /// The request failed: recorded and retried while attempts remain.
    pub fn on_send_error(&mut self, e: String) -> (s: FetchStep)
        requires
            1 <= old(self).attempt <= 3,
        ensures
            final(self).last_error == Some(e),
            final(self).last_status == old(self).last_status,
            old(self).attempt < 3 ==> s == FetchStep::Retry && final(self).attempt == old(self).attempt + 1,
            old(self).attempt == 3 ==> s == FetchStep::GiveUp,
    {
        self.last_error = Some(e);
        self.fail()
    }

    /// The error reported when every attempt failed.
    pub fn failure_message(&self) -> (m: String)
        ensures
            m@ == text_or(self.last_error, "Unknown error"@),
    {
        match &self.last_error {
            Some(e) => e.clone(),
            None => String::from_str("Unknown error"),
        }
    }

    /// Why a feed failing for over two days is set aside.
    pub fn inactive_reason(&self) -> (m: String)
        ensures
            m@ == "连续超过2天抓取失败: "@ + text_or(self.last_error, "未知错误"@),
    {
        let mut v = to_chars("连续超过2天抓取失败: ");
        match &self.last_error {
            Some(e) => extend_str(&mut v, e.as_str()),
            None => extend_str(&mut v, "未知错误"),
        }
        from_chars(&v)
    }
}

/// A feed fetched for the first time has its icon fetched when it has an
/// address for one but no stored copy.
pub fn should_fetch_icon(icon_url: &Option<String>, icon_base64: &Option<String>) -> (b: bool)
    ensures
        b == (icon_url is Some && icon_base64 is None),
{
    icon_url.is_some() && icon_base64.is_none()
}

} // verus!
