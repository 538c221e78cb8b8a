//! A shared feed: a subscription republished as RSS with the translations
//! and summaries of the user who shares it.
use vstd::prelude::*;
use crate::article::{stitch_article_content, stitch_spec, ArticleBlock, ArticleDetail};
use crate::num::{dec_spec, i64_to_dec};
use crate::text::{extend_str, from_chars, to_chars};
use crate::ui_text::chrono_time;

verus! {

/// An item of a shared feed.
pub struct ShareItem {
    pub title: String,
    pub link: Option<String>,
    /// The article with its translations stitched in.
    pub description: String,
    /// The publication date in RFC 2822 form.
    pub pub_date: Option<String>,
    /// The article id, in decimal.
    pub guid: String,
}

/// A shared feed.
pub struct ShareChannel {
    pub title: String,
    pub link: String,
    pub description: String,
    pub items: Vec<ShareItem>,
}

/// The RFC 2822 form of a time in seconds since the epoch, when it is one
/// `chrono` can represent.
pub uninterp spec fn rfc2822_date(ts: i64) -> Option<Seq<char>>;

/// The times whose year lies in 0..=9999, the years RFC 2822 writes.
pub open spec fn rfc2822_year(ts: i64) -> bool {
    -62167219200 <= ts <= 253402300799
}

/// The times `to_rfc2822` can write once `chrono` holds them (it panics on the
/// others).
pub open spec fn rfc2822_writable(ts: i64) -> bool {
    chrono_time(ts) ==> rfc2822_year(ts)
}

/// `DateTime::from_timestamp(ts, 0)` then `to_rfc2822`: the named date, there
/// exactly for the times `chrono` holds.
#[verifier::external_body]
fn rfc2822(ts: i64) -> (r: Option<String>)
    requires
        rfc2822_writable(ts),
    ensures
        r is Some <==> chrono_time(ts),
        r is None ==> rfc2822_date(ts) is None,
        r matches Some(d) ==> rfc2822_date(ts) == Some(d@),
{
    chrono::DateTime::from_timestamp(ts, 0).map(|dt| dt.to_rfc2822())
}

/// The view of an optional text.
pub open spec fn opt_view(t: Option<String>) -> Option<Seq<char>> {
    match t {
        Some(s) => Some(s@),
        None => None,
    }
}

/// The item of an article: its title and link, its content stitched with
/// the blocks (translations and summary shown as the article asks), its
/// date, and its id as guid.
pub fn share_item(id: i64, detail: &ArticleDetail, blocks: &[ArticleBlock]) -> (r: ShareItem)
    requires
        detail.published_at matches Some(ts) ==> rfc2822_writable(ts),
    ensures
        r.title@ == detail.title@,
        opt_view(r.link) == opt_view(detail.link),
        r.description@ == stitch_spec(
            match detail.content_skeleton {
                Some(s) => s@,
                None => Seq::<char>::empty(),
            },
            blocks@,
            opt_view(detail.summary),
            detail.need_translate,
        ),
        opt_view(r.pub_date) == match detail.published_at {
            Some(ts) => rfc2822_date(ts),
            None => None,
        },
        r.guid@ == dec_spec(id as int),
{
    let skeleton = match &detail.content_skeleton {
        Some(s) => s.clone(),
        None => String::new(),
    };
    let summary: Option<&str> = match &detail.summary {
        Some(s) => Some(s.as_str()),
        None => None,
    };
    let content = stitch_article_content(skeleton.as_str(), blocks, summary, detail.need_translate);
    let pub_date = match detail.published_at {
        Some(ts) => rfc2822(ts),
        None => None,
    };
    ShareItem {
        title: detail.title.clone(),
        link: match &detail.link {
            Some(l) => Some(l.clone()),
            None => None,
        },
        description: content,
        pub_date,
        guid: from_chars(&i64_to_dec(id)),
    }
}

/// The shared feed of a subscription: `TranRSS: <title>`, linking to the
/// site (or nothing), with the items given.
pub fn share_channel(title: &str, site_url: Option<String>, items: Vec<ShareItem>) -> (c: ShareChannel)
    ensures
        c.title@ == "TranRSS: "@ + title@,
        c.link@ == match site_url {
            Some(u) => u@,
            None => Seq::<char>::empty(),
        },
        c.description@ == "Translated feed for "@ + title@ + " (provided by TranRSS)"@,
        c.items == items,
{
    let mut t = to_chars("TranRSS: ");
    extend_str(&mut t, title);
    let mut d = to_chars("Translated feed for ");
    extend_str(&mut d, title);
    extend_str(&mut d, " (provided by TranRSS)");
    ShareChannel {
        title: from_chars(&t),
        link: match site_url {
            Some(u) => u,
            None => String::new(),
        },
        description: from_chars(&d),
        items,
    }
}

/// The RSS document of a feed with the given title, link, description and
/// items (title, link, description, date, guid).
pub uninterp spec fn rss_document(
    title: Seq<char>,
    link: Seq<char>,
    description: Seq<char>,
    items: Seq<(Seq<char>, Option<Seq<char>>, Seq<char>, Option<Seq<char>>, Seq<char>)>,
) -> Seq<char>;

/// The fields of an item as plain values.
pub open spec fn item_fields(i: ShareItem) -> (Seq<char>, Option<Seq<char>>, Seq<char>, Option<Seq<char>>, Seq<char>) {
    (i.title@, opt_view(i.link), i.description@, opt_view(i.pub_date), i.guid@)
}

/// `rss::Channel` of the feed (items with a permalink guid) written with
/// `to_string`: the named document.
#[verifier::external_body]
pub(crate) fn rss_text(c: &ShareChannel) -> (r: String)
    ensures
        r@ == rss_document(c.title@, c.link@, c.description@, c.items@.map_values(|i: ShareItem| item_fields(i))),
{
    let items = c.items.iter().map(|i| rss::Item {
        title: Some(i.title.clone()), link: i.link.clone(), description: Some(i.description.clone()),
        pub_date: i.pub_date.clone(), guid: Some(rss::Guid { value: i.guid.clone(), permalink: true }),
        ..Default::default()
    }).collect();
    rss::Channel { title: c.title.clone(), link: c.link.clone(), description: c.description.clone(), items, ..Default::default() }.to_string()
}

/// The RSS document of a shared feed: the channel of `share_channel` with
/// the items given, written out.
pub fn share_feed_document(title: &str, site_url: Option<String>, items: Vec<ShareItem>) -> (r: String)
    ensures
        r@ == rss_document(
            "TranRSS: "@ + title@,
            match site_url {
                Some(u) => u@,
                None => Seq::<char>::empty(),
            },
            "Translated feed for "@ + title@ + " (provided by TranRSS)"@,
            items@.map_values(|i: ShareItem| item_fields(i)),
        ),
{
    let c = share_channel(title, site_url, items);
    rss_text(&c)
}

} // verus!
