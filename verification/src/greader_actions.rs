//! Google Reader actions: form bodies, state changes on items, subscription
//! and folder edits, and the lists of subscriptions and tags.
use vstd::prelude::*;
use vstd::utf8::{decode_utf8, encode_utf8, valid_utf8};
use crate::greader::{greader_to_item_id, greader_to_item_id_spec};
use crate::greader_stream::{label_condition, label_of, normalize_ts, normalize_ts_spec, push_label_condition, tag_label, time_filter};
use crate::num::{dec_spec, hex_pad, hex_pad_spec, i64_to_dec, parse_i64, parse_i64_spec};
use crate::text::{
    chars_eq, contains_exec, contains_spec, extend_chars, extend_str, from_chars, split_chars,
    split_spec, starts_with_exec, starts_with_spec, sub_chars, to_chars, trim_chars, trim_spec,
};

verus! {

// ---------------------------------------------------------------------------
// Form bodies
// ---------------------------------------------------------------------------

/// The value of an ASCII hex digit byte.
pub open spec fn hex_byte_val(b: u8) -> Option<u8> {
    if 48 <= b <= 57 {
        Some((b - 48) as u8)
    } else if 65 <= b <= 70 {
        Some((b - 55) as u8)
    } else if 97 <= b <= 102 {
        Some((b - 87) as u8)
    } else {
        None
    }
}

/// Percent-decoding of bytes: `%` and two hex digits stand for one byte;
/// everything else, a lone `%` included, stands for itself.
pub open spec fn pct_decode(b: Seq<u8>) -> Seq<u8>
    decreases b.len(),
{
    if b.len() == 0 {
        b
    } else if b[0] == 37 && b.len() >= 3 && hex_byte_val(b[1]) is Some && hex_byte_val(b[2]) is Some {
        seq![(hex_byte_val(b[1])->0 * 16 + hex_byte_val(b[2])->0) as u8] + pct_decode(b.skip(3))
    } else {
        seq![b[0]] + pct_decode(b.skip(1))
    }
}

/// The text a percent-encoded text stands for, when its bytes are UTF-8.
pub open spec fn url_decode_spec(s: Seq<char>) -> Option<Seq<char>> {
    let b = pct_decode(encode_utf8(s));
    if valid_utf8(b) {
        Some(decode_utf8(b))
    } else {
        None
    }
}

/// `urlencoding::decode`: percent-decodes the text's bytes and reads them as
/// UTF-8; `None` where they are not UTF-8.
#[verifier::external_body]
pub(crate) fn url_decode(s: &str) -> (r: Option<String>)
    ensures
        r is Some <==> url_decode_spec(s@) is Some,
        r is Some ==> r->0@ == url_decode_spec(s@)->0,
{
    match urlencoding::decode(s) {
        Ok(c) => Some(c.into_owned()),
        Err(_) => None,
    }
}

/// What `String::from_utf8_lossy` makes of bytes.
pub uninterp spec fn utf8_lossy(b: Seq<u8>) -> Seq<char>;

/// `String::from_utf8_lossy`: the named reading of the bytes, which for valid
/// UTF-8 is the text they encode.
#[verifier::external_body]
pub(crate) fn from_utf8_lossy(b: &[u8]) -> (r: String)
    ensures
        r@ == utf8_lossy(b@),
        valid_utf8(b@) ==> r@ == decode_utf8(b@),
{
    String::from_utf8_lossy(b).into_owned()
}

/// The key and raw value of each `key=value` part of a form body, in order;
/// parts without `=` are skipped, and the value ends at a second `=`.
pub open spec fn form_pairs(parts: Seq<Seq<char>>) -> Seq<(Seq<char>, Seq<char>)>
    decreases parts.len(),
{
    if parts.len() == 0 {
        Seq::empty()
    } else {
        let rest = form_pairs(parts.drop_last());
        let kv = split_spec(parts.last(), "="@);
        if kv.len() >= 2 {
            rest.push((kv[0], kv[1]))
        } else {
            rest
        }
    }
}

/// The pairs of a form body.
pub open spec fn body_pairs(body: Seq<char>) -> Seq<(Seq<char>, Seq<char>)> {
    form_pairs(split_spec(body, "&"@))
}

/// `k` is `name` or `name[]`.
pub open spec fn key_is(k: Seq<char>, name: Seq<char>) -> bool {
    k == name || k == name + "[]"@
}

/// The decoded values of the pairs whose key is `name` or `name[]` (values
/// that do not decode are dropped).
pub open spec fn values_for(pairs: Seq<(Seq<char>, Seq<char>)>, name: Seq<char>) -> Seq<Seq<char>>
    decreases pairs.len(),
{
    if pairs.len() == 0 {
        Seq::empty()
    } else {
        let rest = values_for(pairs.drop_last(), name);
        let (k, v) = pairs.last();
        if key_is(k, name) && url_decode_spec(v) is Some {
            rest.push(url_decode_spec(v)->0)
        } else {
            rest
        }
    }
}

/// The key/value parts of a form body.
pub fn parse_form_pairs(body: &str) -> (r: Vec<(String, String)>)
    ensures
        r@.map_values(|p: (String, String)| (p.0@, p.1@)) == body_pairs(body@),
{
    let amp = to_chars("&");
    let eq = to_chars("=");
    proof {
        reveal_strlit("&");
        reveal_strlit("=");
    }
    let parts = split_chars(&to_chars(body), &amp);
    let ghost ps = split_spec(body@, "&"@);
    let mut out: Vec<(String, String)> = Vec::new();
    let mut i: usize = 0;
    while i < parts.len()
        invariant
            i <= parts.len(),
            eq@ == "="@,
            eq@.len() > 0,
            parts@.map_values(|p: Vec<char>| p@) == ps,
            out@.map_values(|p: (String, String)| (p.0@, p.1@)) == form_pairs(ps.take(i as int)),
        decreases parts.len() - i,
    {
        let kv = split_chars(&parts[i], &eq);
        assert(ps.take(i + 1).drop_last() =~= ps.take(i as int));
        assert(ps.take(i + 1).last() == parts@[i as int]@);
        if kv.len() >= 2 {
            let k = from_chars(&kv[0]);
            let v = from_chars(&kv[1]);
            out.push((k, v));
        }
        assert(out@.map_values(|p: (String, String)| (p.0@, p.1@)) =~= form_pairs(ps.take(i + 1)));
        i += 1;
    }
    assert(ps.take(parts.len() as int) =~= ps);
    out
}

/// Whether `k` is `name` or `name[]`.
fn key_is_exec(k: &str, name: &str) -> (b: bool)
    ensures
        b == key_is(k@, name@),
{
    let kv = to_chars(k);
    let nv = to_chars(name);
    if chars_eq(&kv, &nv) {
        return true;
    }
    let mut nb = to_chars(name);
    extend_str(&mut nb, "[]");
    chars_eq(&kv, &nb)
}

/// The decoded values given for `name` (or `name[]`) in a form body.
pub fn form_values(pairs: &Vec<(String, String)>, name: &str) -> (r: Vec<String>)
    ensures
        r@.map_values(|s: String| s@) == values_for(pairs@.map_values(|p: (String, String)| (p.0@, p.1@)), name@),
{
    let ghost ps = pairs@.map_values(|p: (String, String)| (p.0@, p.1@));
    let mut out: Vec<String> = Vec::new();
    let mut i: usize = 0;
    while i < pairs.len()
        invariant
            i <= pairs.len(),
            ps == pairs@.map_values(|p: (String, String)| (p.0@, p.1@)),
            out@.map_values(|s: String| s@) == values_for(ps.take(i as int), name@),
        decreases pairs.len() - i,
    {
        assert(ps.take(i + 1).drop_last() =~= ps.take(i as int));
        assert(ps.take(i + 1).last() == ps[i as int]);
        let (k, v) = (&pairs[i].0, &pairs[i].1);
        if key_is_exec(k.as_str(), name) {
            if let Some(d) = url_decode(v.as_str()) {
                out.push(d);
            }
        }
        assert(out@.map_values(|s: String| s@) =~= values_for(ps.take(i + 1), name@));
        i += 1;
    }
    assert(ps.take(pairs.len() as int) =~= ps);
    out
}

/// The article ids among item identifiers (those that do not read are dropped).
pub open spec fn item_ids_of(ids: Seq<Seq<char>>) -> Seq<i64>
    decreases ids.len(),
{
    if ids.len() == 0 {
        Seq::empty()
    } else {
        let rest = item_ids_of(ids.drop_last());
        match greader_to_item_id_spec(ids.last()) {
            Some(id) => rest.push(id),
            None => rest,
        }
    }
}

/// Reads the article ids of a list of item identifiers, skipping bad ones.
pub fn parse_item_ids(ids: &Vec<String>) -> (r: Vec<i64>)
    ensures
        r@ == item_ids_of(ids@.map_values(|s: String| s@)),
{
    let ghost ss = ids@.map_values(|s: String| s@);
    let mut out: Vec<i64> = Vec::new();
    let mut i: usize = 0;
    while i < ids.len()
        invariant
            i <= ids.len(),
            ss == ids@.map_values(|s: String| s@),
            out@ == item_ids_of(ss.take(i as int)),
        decreases ids.len() - i,
    {
        assert(ss.take(i + 1).drop_last() =~= ss.take(i as int));
        assert(ss.take(i + 1).last() == ss[i as int]);
        if let Some(id) = greader_to_item_id(ids[i].as_str()) {
            out.push(id);
        }
        i += 1;
    }
    assert(ss.take(ids.len() as int) =~= ss);
    out
}

// ---------------------------------------------------------------------------
// Item state changes
// ---------------------------------------------------------------------------

/// A flag of an article.
#[derive(Clone, Copy, PartialEq, Eq, Structural)]
pub enum ArticleFlag {
    Read,
    Starred,
}

/// Setting a flag of an article to a value.
#[derive(Clone, Copy, PartialEq, Eq, Structural)]
pub struct FlagUpdate {
    pub article_id: i64,
    pub flag: ArticleFlag,
    pub value: bool,
}

/// Some tag contains `pat`.
pub open spec fn any_contains(tags: Seq<Seq<char>>, pat: Seq<char>) -> bool {
    exists|i: int| 0 <= i < tags.len() && contains_spec(#[trigger] tags[i], pat)
}

/// `[u]` when `c` holds, nothing otherwise.
pub open spec fn update_if(c: bool, id: i64, f: ArticleFlag, v: bool) -> Seq<FlagUpdate> {
    if c {
        seq![FlagUpdate { article_id: id, flag: f, value: v }]
    } else {
        Seq::<FlagUpdate>::empty()
    }
}

/// The updates of one article, given which tags were added and removed.
pub open spec fn updates_for(id: i64, add_read: bool, add_star: bool, add_keep: bool, rem_read: bool, rem_star: bool) -> Seq<FlagUpdate> {
    update_if(add_read, id, ArticleFlag::Read, true) + update_if(add_star, id, ArticleFlag::Starred, true)
        + update_if(add_keep, id, ArticleFlag::Read, false) + update_if(rem_read, id, ArticleFlag::Read, false)
        + update_if(rem_star, id, ArticleFlag::Starred, false)
}

/// The updates of one article, in the order they are applied.
pub open spec fn item_updates(id: i64, add: Seq<Seq<char>>, rem: Seq<Seq<char>>) -> Seq<FlagUpdate> {
    updates_for(
        id,
        any_contains(add, "state/com.google/read"@),
        any_contains(add, "state/com.google/starred"@),
        any_contains(add, "state/com.google/kept-unread"@),
        any_contains(rem, "state/com.google/read"@),
        any_contains(rem, "state/com.google/starred"@),
    )
}

fn push_updates(out: &mut Vec<FlagUpdate>, id: i64, add_read: bool, add_star: bool, add_keep: bool, rem_read: bool, rem_star: bool)
    ensures
        final(out)@ == old(out)@ + updates_for(id, add_read, add_star, add_keep, rem_read, rem_star),
{
    if add_read {
        out.push(FlagUpdate { article_id: id, flag: ArticleFlag::Read, value: true });
    }
    if add_star {
        out.push(FlagUpdate { article_id: id, flag: ArticleFlag::Starred, value: true });
    }
    if add_keep {
        out.push(FlagUpdate { article_id: id, flag: ArticleFlag::Read, value: false });
    }
    if rem_read {
        out.push(FlagUpdate { article_id: id, flag: ArticleFlag::Read, value: false });
    }
    if rem_star {
        out.push(FlagUpdate { article_id: id, flag: ArticleFlag::Starred, value: false });
    }
    assert(out@ =~= old(out)@ + updates_for(id, add_read, add_star, add_keep, rem_read, rem_star));
}

/// The updates of an edit-tag request, article after article.
pub open spec fn edit_tag_updates(ids: Seq<i64>, add: Seq<Seq<char>>, rem: Seq<Seq<char>>) -> Seq<FlagUpdate>
    decreases ids.len(),
{
    if ids.len() == 0 {
        Seq::empty()
    } else {
        edit_tag_updates(ids.drop_last(), add, rem) + item_updates(ids.last(), add, rem)
    }
}

fn any_contains_exec(tags: &Vec<String>, pat: &str) -> (b: bool)
    ensures
        b == any_contains(tags@.map_values(|s: String| s@), pat@),
{
    let p = to_chars(pat);
    let ghost ts = tags@.map_values(|s: String| s@);
    let mut i: usize = 0;
    while i < tags.len()
        invariant
            i <= tags.len(),
            p@ == pat@,
            ts == tags@.map_values(|s: String| s@),
            forall|k: int| 0 <= k < i ==> !contains_spec(#[trigger] ts[k], pat@),
        decreases tags.len() - i,
    {
        if contains_exec(&to_chars(tags[i].as_str()), &p) {
            assert(contains_spec(ts[i as int], pat@));
            return true;
        }
        i += 1;
    }
    false
}

/// The flag updates an edit-tag request asks for: for each article, the
/// added read, starred and kept-unread tags, then the removed read and
/// starred tags.
pub fn plan_edit_tag(ids: &Vec<i64>, add: &Vec<String>, rem: &Vec<String>) -> (r: Vec<FlagUpdate>)
    ensures
        r@ == edit_tag_updates(ids@, add@.map_values(|s: String| s@), rem@.map_values(|s: String| s@)),
{
    let ghost a = add@.map_values(|s: String| s@);
    let ghost m = rem@.map_values(|s: String| s@);
    let add_read = any_contains_exec(add, "state/com.google/read");
    let add_star = any_contains_exec(add, "state/com.google/starred");
    let add_keep = any_contains_exec(add, "state/com.google/kept-unread");
    let rem_read = any_contains_exec(rem, "state/com.google/read");
    let rem_star = any_contains_exec(rem, "state/com.google/starred");
    let mut out: Vec<FlagUpdate> = Vec::new();
    let mut i: usize = 0;
    while i < ids.len()
        invariant
            i <= ids.len(),
            a == add@.map_values(|s: String| s@),
            m == rem@.map_values(|s: String| s@),
            add_read == any_contains(a, "state/com.google/read"@),
            add_star == any_contains(a, "state/com.google/starred"@),
            add_keep == any_contains(a, "state/com.google/kept-unread"@),
            rem_read == any_contains(m, "state/com.google/read"@),
            rem_star == any_contains(m, "state/com.google/starred"@),
            out@ == edit_tag_updates(ids@.take(i as int), a, m),
        decreases ids.len() - i,
    {
        let id = ids[i];
        assert(ids@.take(i + 1).drop_last() =~= ids@.take(i as int));
        push_updates(&mut out, id, add_read, add_star, add_keep, rem_read, rem_star);
        i += 1;
    }
    assert(ids@.take(ids.len() as int) =~= ids@);
    out
}

// ---------------------------------------------------------------------------
// Mark all as read
// ---------------------------------------------------------------------------

/// The update that marks a stream's unread articles read, up to `ts`.
pub open spec fn mark_all_read_query_spec(s: Seq<char>, ts: Option<i64>, user_id: i64) -> Seq<char> {
    "UPDATE articles SET is_read = 1 WHERE is_read = 0"@ + (if starts_with_spec(s, "feed/"@) {
        match parse_i64_spec(s.skip(5)) {
            Some(f) => " AND feed_id = "@ + dec_spec(f as int),
            None => Seq::<char>::empty(),
        }
    } else if contains_spec(s, "/label/"@) {
        label_condition("feed_id"@, user_id, label_of(s))
    } else {
        Seq::<char>::empty()
    }) + time_filter(" AND published_at <= "@, ts)
}

/// Builds the update that marks the unread articles of a feed, a folder or
/// everything read, only those published at or before `ts` when it is given.
pub fn mark_all_read_query(s: &str, ts: Option<i64>, user_id: i64) -> (q: String)
    ensures
        q@ == mark_all_read_query_spec(s@, ts, user_id),
{
    let sv = to_chars(s);
    let mut v = to_chars("UPDATE articles SET is_read = 1 WHERE is_read = 0");
    let ghost v0 = v@;
    if starts_with_exec(&sv, &to_chars("feed/")) {
        proof {
            reveal_strlit("feed/");
        }
        let rest = sub_chars(&sv, 5, sv.len());
        assert(rest@ =~= sv@.skip(5));
        if let Some(f) = parse_i64(&rest) {
            extend_str(&mut v, " AND feed_id = ");
            extend_chars(&mut v, &i64_to_dec(f));
        }
    } else if contains_exec(&sv, &to_chars("/label/")) {
        let label = to_chars(tag_label(s).as_str());
        push_label_condition(&mut v, "feed_id", user_id, &label);
    }
    let ghost v1 = v@;
    if let Some(t) = ts {
        extend_str(&mut v, " AND published_at <= ");
        extend_chars(&mut v, &i64_to_dec(normalize_ts(t)));
    }
    assert(v@ =~= mark_all_read_query_spec(s@, ts, user_id));
    from_chars(&v)
}

// ---------------------------------------------------------------------------
// Subscription edits
// ---------------------------------------------------------------------------

/// What happens to a subscription's folder.
pub enum FolderChange {
    Keep,
    /// Into the folder of this name (created when missing).
    Move(String),
    Clear,
}

/// What a subscription edit request does.
pub enum SubscriptionEdit {
    Ignore,
    Unsubscribe { feed_id: i64 },
    Edit { feed_id: i64, title: Option<String>, folder: FolderChange },
}

/// The feed id of a `feed/<id>` stream, 0 when it does not read.
pub open spec fn edit_feed_id(s: Seq<char>) -> i64 {
    match parse_i64_spec(s.skip(5)) {
        Some(f) => f,
        None => 0,
    }
}

/// The folder change of an edit: into the label added, else out of a removed
/// label.
pub open spec fn folder_change_spec(a: Option<String>, r: Option<String>, c: FolderChange) -> bool {
    match a {
        Some(x) => c matches FolderChange::Move(l) && l@ == label_of(x@),
        None => match r {
            Some(x) => if contains_spec(x@, "/label/"@) {
                c is Clear
            } else {
                c is Keep
            },
            None => c is Keep,
        },
    }
}

/// What an edit request with action `ac` on stream `s` does.
pub open spec fn subscription_edit_spec(
    ac: Seq<char>,
    s: Seq<char>,
    t: Option<String>,
    a: Option<String>,
    r: Option<String>,
    e: SubscriptionEdit,
) -> bool {
    if !starts_with_spec(s, "feed/"@) || edit_feed_id(s) == 0 {
        e is Ignore
    } else if ac == "unsubscribe"@ {
        e matches SubscriptionEdit::Unsubscribe { feed_id } && feed_id == edit_feed_id(s)
    } else if ac == "edit"@ {
        e matches SubscriptionEdit::Edit { feed_id, title, folder } && feed_id == edit_feed_id(s)
            && (match t {
                Some(x) => if x@.len() > 0 {
                    title is Some && title->0@ == x@
                } else {
                    title is None
                },
                None => title is None,
            }) && folder_change_spec(a, r, folder)
    } else {
        e is Ignore
    }
}

/// Decides a subscription edit: unsubscribe, or retitle (a non-empty title)
/// and move between folders, for a `feed/<id>` stream with a non-zero id.
pub fn plan_subscription_edit(
    ac: &str,
    s: &str,
    t: &Option<String>,
    a: &Option<String>,
    r: &Option<String>,
) -> (e: SubscriptionEdit)
    ensures
        subscription_edit_spec(ac@, s@, *t, *a, *r, e),
{
    let sv = to_chars(s);
    if !starts_with_exec(&sv, &to_chars("feed/")) {
        return SubscriptionEdit::Ignore;
    }
    proof {
        reveal_strlit("feed/");
    }
    let rest = sub_chars(&sv, 5, sv.len());
    assert(rest@ =~= sv@.skip(5));
    let feed_id = match parse_i64(&rest) {
        Some(f) => f,
        None => 0,
    };
    if feed_id == 0 {
        return SubscriptionEdit::Ignore;
    }
    let acv = to_chars(ac);
    if chars_eq(&acv, &to_chars("unsubscribe")) {
        return SubscriptionEdit::Unsubscribe { feed_id };
    }
    if !chars_eq(&acv, &to_chars("edit")) {
        return SubscriptionEdit::Ignore;
    }
    let title = match t {
        Some(x) => if to_chars(x.as_str()).len() > 0 {
            Some(x.clone())
        } else {
            None
        },
        None => None,
    };
    let folder = match a {
        Some(x) => FolderChange::Move(tag_label(x.as_str())),
        None => match r {
            Some(x) => if contains_exec(&to_chars(x.as_str()), &to_chars("/label/")) {
                FolderChange::Clear
            } else {
                FolderChange::Keep
            },
            None => FolderChange::Keep,
        },
    };
    SubscriptionEdit::Edit { feed_id, title, folder }
}

/// The trimmed address of a quick-add request; `None` when it is blank.
pub fn quickadd_url(quickadd: &str) -> (r: Option<String>)
    ensures
        trim_spec(quickadd@).len() == 0 <==> r is None,
        r is Some ==> r->0@ == trim_spec(quickadd@),
{
    let t = trim_chars(&to_chars(quickadd));
    if t.len() == 0 {
        None
    } else {
        Some(from_chars(&t))
    }
}

/// `feed/<id>`, the stream of a feed.
pub open spec fn feed_stream_id(id: i64) -> Seq<char> {
    "feed/"@ + dec_spec(id as int)
}

/// The stream id of a feed.
pub fn feed_stream(id: i64) -> (r: String)
    ensures
        r@ == feed_stream_id(id),
{
    let mut v = to_chars("feed/");
    extend_chars(&mut v, &i64_to_dec(id));
    from_chars(&v)
}

// ---------------------------------------------------------------------------
// Lists
// ---------------------------------------------------------------------------

/// `user/<id>/label/<title>`, a folder's tag.
pub open spec fn label_tag(user_id: i64, title: Seq<char>) -> Seq<char> {
    "user/"@ + dec_spec(user_id as int) + "/label/"@ + title
}

/// The tag of a folder.
pub fn folder_tag(user_id: i64, title: &str) -> (r: String)
    ensures
        r@ == label_tag(user_id, title@),
{
    let mut v = to_chars("user/");
    extend_chars(&mut v, &i64_to_dec(user_id));
    extend_str(&mut v, "/label/");
    extend_str(&mut v, title);
    from_chars(&v)
}

/// A tag of the tag list.
pub struct GReaderTag {
    pub id: String,
    pub sortid: String,
    pub tag_type: Option<String>,
}

/// The tag list: starred, read, then one folder tag per folder, sorted from
/// `0000000a` on.
pub open spec fn tag_list_spec(user_id: i64, folders: Seq<Seq<char>>, tags: Seq<GReaderTag>) -> bool {
    let u = "user/"@ + dec_spec(user_id as int);
    &&& tags.len() == folders.len() + 2
    &&& tags[0].id@ == u + "/state/com.google/starred"@
    &&& tags[0].sortid@ == "00000001"@
    &&& tags[0].tag_type is Some && tags[0].tag_type->0@ == "tag"@
    &&& tags[1].id@ == u + "/state/com.google/read"@
    &&& tags[1].sortid@ == "00000002"@
    &&& tags[1].tag_type is None
    &&& forall|i: int| 0 <= i < folders.len() ==> {
        &&& (#[trigger] tags[i + 2]).id@ == label_tag(user_id, folders[i])
        &&& tags[i + 2].sortid@ == hex_pad_spec((i + 10) as nat, 8)
        &&& tags[i + 2].tag_type is Some && tags[i + 2].tag_type->0@ == "folder"@
    }
}

fn user_prefix(user_id: i64) -> (r: Vec<char>)
    ensures
        r@ == "user/"@ + dec_spec(user_id as int),
{
    let mut v = to_chars("user/");
    extend_chars(&mut v, &i64_to_dec(user_id));
    v
}

/// The tag list for a user with the given folders.
pub fn build_tag_list(user_id: i64, folders: &Vec<String>) -> (tags: Vec<GReaderTag>)
    requires
        folders.len() + 10 <= u64::MAX,
    ensures
        tag_list_spec(user_id, folders@.map_values(|s: String| s@), tags@),
{
    let ghost fs = folders@.map_values(|s: String| s@);
    let mut tags: Vec<GReaderTag> = Vec::new();
    let mut s1 = user_prefix(user_id);
    extend_str(&mut s1, "/state/com.google/starred");
    tags.push(GReaderTag {
        id: from_chars(&s1),
        sortid: String::from_str("00000001"),
        tag_type: Some(String::from_str("tag")),
    });
    let mut s2 = user_prefix(user_id);
    extend_str(&mut s2, "/state/com.google/read");
    tags.push(GReaderTag { id: from_chars(&s2), sortid: String::from_str("00000002"), tag_type: None });
    let mut i: usize = 0;
    while i < folders.len()
        invariant
            i <= folders.len(),
            folders.len() + 10 <= u64::MAX,
            fs == folders@.map_values(|s: String| s@),
            tags@.len() == i + 2,
            tags@[0].id@ == "user/"@ + dec_spec(user_id as int) + "/state/com.google/starred"@,
            tags@[0].sortid@ == "00000001"@,
            tags@[0].tag_type is Some && tags@[0].tag_type->0@ == "tag"@,
            tags@[1].id@ == "user/"@ + dec_spec(user_id as int) + "/state/com.google/read"@,
            tags@[1].sortid@ == "00000002"@,
            tags@[1].tag_type is None,
            forall|k: int| 0 <= k < i ==> {
                &&& (#[trigger] tags@[k + 2]).id@ == label_tag(user_id, fs[k])
                &&& tags@[k + 2].sortid@ == hex_pad_spec((k + 10) as nat, 8)
                &&& tags@[k + 2].tag_type is Some && tags@[k + 2].tag_type->0@ == "folder"@
            },
        decreases folders.len() - i,
    {
        let t = GReaderTag {
            id: folder_tag(user_id, folders[i].as_str()),
            sortid: from_chars(&hex_pad((i as u64) + 10, 8)),
            tag_type: Some(String::from_str("folder")),
        };
        tags.push(t);
        i += 1;
    }
    tags
}

/// A category of a subscription.
pub struct GReaderCategory {
    pub id: String,
    pub label: String,
}

/// A subscription as the protocol lists it.
pub struct GReaderSubscription {
    pub id: String,
    pub title: String,
    pub categories: Vec<GReaderCategory>,
    pub sortid: String,
    pub firstitemmsec: String,
    pub url: String,
    pub html_url: String,
    pub icon_url: String,
}

/// A subscription row: feed id, feed address, title, site, icon, folder.
pub struct SubscriptionRow {
    pub feed_id: i64,
    pub feed_url: String,
    pub title: String,
    pub site_url: Option<String>,
    pub icon_url: Option<String>,
    pub folder_title: Option<String>,
}

/// How a subscription row is listed.
pub open spec fn subscription_spec(user_id: i64, row: SubscriptionRow, s: GReaderSubscription) -> bool {
    &&& s.id@ == feed_stream_id(row.feed_id)
    &&& s.title@ == row.title@
    &&& (match row.folder_title {
        Some(ft) => s.categories@.len() == 1 && s.categories@[0].id@ == label_tag(user_id, ft@)
            && s.categories@[0].label@ == ft@,
        None => s.categories@.len() == 0,
    })
    &&& s.sortid@ == hex_pad_spec((row.feed_id as u64) as nat, 8)
    &&& s.firstitemmsec@ == "0"@
    &&& s.url@ == row.feed_url@
    &&& s.html_url@ == crate::greader_stream::opt_text(row.site_url, Seq::<char>::empty())
    &&& s.icon_url@ == crate::greader_stream::opt_text(row.icon_url, Seq::<char>::empty())
}

fn opt_or_empty(o: &Option<String>) -> (r: String)
    ensures
        r@ == crate::greader_stream::opt_text(*o, Seq::<char>::empty()),
{
    match o {
        Some(x) => x.clone(),
        None => String::new(),
    }
}

/// Lists one subscription: its feed stream, its folder as a category.
pub fn build_subscription(user_id: i64, row: &SubscriptionRow) -> (s: GReaderSubscription)
    ensures
        subscription_spec(user_id, *row, s),
{
    let mut categories: Vec<GReaderCategory> = Vec::new();
    if let Some(ft) = &row.folder_title {
        categories.push(GReaderCategory { id: folder_tag(user_id, ft.as_str()), label: ft.clone() });
    }
    GReaderSubscription {
        id: feed_stream(row.feed_id),
        title: row.title.clone(),
        categories,
        sortid: from_chars(&hex_pad(row.feed_id as u64, 8)),
        firstitemmsec: String::from_str("0"),
        url: row.feed_url.clone(),
        html_url: opt_or_empty(&row.site_url),
        icon_url: opt_or_empty(&row.icon_url),
    }
}

/// `<name>@localhost`, the address shown for a user.
pub fn user_email(username: &str) -> (r: String)
    ensures
        r@ == username@ + "@localhost"@,
{
    let mut v = to_chars(username);
    extend_str(&mut v, "@localhost");
    from_chars(&v)
}

/// The body of a successful client login.
pub fn client_login_body(token: &str) -> (r: String)
    ensures
        r@ == "SID=ignored\nLSID=ignored\nAuth="@ + token@,
{
    let mut v = to_chars("SID=ignored\nLSID=ignored\nAuth=");
    extend_str(&mut v, token);
    from_chars(&v)
}

} // verus!
