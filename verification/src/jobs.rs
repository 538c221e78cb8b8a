//! Background jobs: their payloads, how they are listed (category, the article
//! or feed they concern, a readable error), and the AI settings a job uses.
use vstd::prelude::*;
use crate::fever::id_list;
use crate::json::{json_has, json_has_key, json_i64_at, json_i64_field, json_str_field, json_string_at};
use crate::text::{
    ascii_lower, chars_eq, contains_exec, contains_spec, extend_str, from_chars, to_ascii_lower, to_chars,
};

verus! {

/// Syncs one feed.
pub struct SyncFeedJob {
    pub feed_id: i64,
    pub initiator_user_id: Option<i64>,
}

/// Translates one article for a user.
pub struct TranslateArticleJob {
    pub user_id: i64,
    pub article_id: i64,
}

/// Summarises one article for a user.
pub struct SummarizeArticleJob {
    pub user_id: i64,
    pub article_id: i64,
}

/// Looks for feeds due for a refresh.
pub struct RefreshFeedsJob;

/// The user a sync runs for: the one who asked, else the feed's first
/// subscriber; none (the sync is skipped) when the feed has no subscriber.
pub fn sync_user(initiator: Option<i64>, first_subscriber: Option<i64>) -> (r: Option<i64>)
    ensures
        r == match initiator {
            Some(u) => Some(u),
            None => first_subscriber,
        },
{
    match initiator {
        Some(u) => Some(u),
        None => first_subscriber,
    }
}

/// The articles of a feed (bound first) that a subscriber (bound second and
/// third) still waits to see translated after a sync: updated within the
/// hour, with no translated block of theirs and no open translation job for
/// them; the 20 most recently published.
pub open spec fn pending_translation_query() -> Seq<char> {
    "SELECT a.id FROM articles a WHERE a.feed_id = ? AND a.updated_at > datetime('now', '-1 hour') AND NOT EXISTS (SELECT 1 FROM article_blocks b WHERE b.article_id = a.id AND b.user_id = ? AND b.trans_text IS NOT NULL) AND NOT EXISTS (SELECT 1 FROM Jobs j WHERE j.job_type LIKE '%TranslateArticleJob%' AND j.job LIKE '%\"article_id\":' || a.id || '%' AND j.job LIKE '%\"user_id\":' || ? || '%' AND j.status IN ('Pending', 'Running', 'Killed')) ORDER BY a.published_at DESC LIMIT 20"@
}

/// The articles of a feed (bound first) that still lack a summary after a
/// sync for a subscriber (bound second): updated within the hour, with no
/// open summary job for them; the 20 most recently published.
pub open spec fn pending_summary_query() -> Seq<char> {
    "SELECT a.id FROM articles a WHERE a.feed_id = ? AND a.updated_at > datetime('now', '-1 hour') AND a.summary IS NULL AND NOT EXISTS (SELECT 1 FROM Jobs j WHERE j.job_type LIKE '%SummarizeArticleJob%' AND j.job LIKE '%\"article_id\":' || a.id || '%' AND j.job LIKE '%\"user_id\":' || ? || '%' AND j.status IN ('Pending', 'Running', 'Killed')) ORDER BY a.published_at DESC LIMIT 20"@
}

/// The follow-up work a sync queues for one subscriber: the query for the
/// articles to translate when the subscription asks for translations, and the
/// query for the articles to summarise when it asks for summaries.
pub fn follow_up_queries(need_translate: bool, need_summary: bool) -> (r: (Option<String>, Option<String>))
    ensures
        r.0 is Some <==> need_translate,
        r.0 matches Some(q) ==> q@ == pending_translation_query(),
        r.1 is Some <==> need_summary,
        r.1 matches Some(q) ==> q@ == pending_summary_query(),
{
    let t = if need_translate {
        Some(String::from_str("SELECT a.id FROM articles a WHERE a.feed_id = ? AND a.updated_at > datetime('now', '-1 hour') AND NOT EXISTS (SELECT 1 FROM article_blocks b WHERE b.article_id = a.id AND b.user_id = ? AND b.trans_text IS NOT NULL) AND NOT EXISTS (SELECT 1 FROM Jobs j WHERE j.job_type LIKE '%TranslateArticleJob%' AND j.job LIKE '%\"article_id\":' || a.id || '%' AND j.job LIKE '%\"user_id\":' || ? || '%' AND j.status IN ('Pending', 'Running', 'Killed')) ORDER BY a.published_at DESC LIMIT 20"))
    } else {
        None
    };
    let s = if need_summary {
        Some(String::from_str("SELECT a.id FROM articles a WHERE a.feed_id = ? AND a.updated_at > datetime('now', '-1 hour') AND a.summary IS NULL AND NOT EXISTS (SELECT 1 FROM Jobs j WHERE j.job_type LIKE '%SummarizeArticleJob%' AND j.job LIKE '%\"article_id\":' || a.id || '%' AND j.job LIKE '%\"user_id\":' || ? || '%' AND j.status IN ('Pending', 'Running', 'Killed')) ORDER BY a.published_at DESC LIMIT 20"))
    } else {
        None
    };
    (t, s)
}

/// The category of a job type.
pub open spec fn categorize_spec(job_type: Seq<char>) -> Seq<char> {
    if contains_spec(job_type, "SyncFeedJob"@) {
        "sync"@
    } else if contains_spec(job_type, "TranslateArticleJob"@) {
        "translate"@
    } else if contains_spec(job_type, "SummarizeArticleJob"@) {
        "summarize"@
    } else if contains_spec(job_type, "RefreshFeedsJob"@) {
        "system"@
    } else {
        "other"@
    }
}

/// The category shown for a job type: sync, translate, summarize, system or
/// other.
pub fn categorize_job_type(job_type: &str) -> (r: String)
    ensures
        r@ == categorize_spec(job_type@),
{
    let t = to_chars(job_type);
    if contains_exec(&t, &to_chars("SyncFeedJob")) {
        String::from_str("sync")
    } else if contains_exec(&t, &to_chars("TranslateArticleJob")) {
        String::from_str("translate")
    } else if contains_exec(&t, &to_chars("SummarizeArticleJob")) {
        String::from_str("summarize")
    } else if contains_exec(&t, &to_chars("RefreshFeedsJob")) {
        String::from_str("system")
    } else {
        String::from_str("other")
    }
}

/// A row of the job table.
pub struct JobRow {
    pub id: String,
    pub job_type: String,
    pub status: String,
    pub attempts: i32,
    pub last_error: Option<String>,
    pub run_at: i64,
    pub done_at: Option<i64>,
    /// The payload, as JSON text.
    pub job: String,
}

/// A job as listed.
pub struct JobInfo {
    pub id: String,
    pub job_type: String,
    pub category: String,
    pub status: String,
    pub attempts: i32,
    pub last_error: Option<String>,
    pub run_at: i64,
    pub done_at: Option<i64>,
    /// The payload, as JSON text.
    pub job_data: String,
    pub title_label: Option<String>,
    pub feed_id: Option<i64>,
    pub feed_title: Option<String>,
}

/// The numbers of a list without repeats, in order of first appearance.
pub open spec fn distinct(ids: Seq<i64>) -> Seq<i64>
    decreases ids.len(),
{
    if ids.len() == 0 {
        Seq::empty()
    } else {
        let rest = distinct(ids.drop_last());
        if rest.contains(ids.last()) {
            rest
        } else {
            rest.push(ids.last())
        }
    }
}

/// Appends `id` unless it is already there.
pub fn push_distinct(v: &mut Vec<i64>, id: i64)
    ensures
        final(v)@ == if old(v)@.contains(id) { old(v)@ } else { old(v)@.push(id) },
{
    let mut j: usize = 0;
    while j < v.len()
        invariant
            j <= v.len(),
            v@ == old(v)@,
            forall|k: int| 0 <= k < j ==> v@[k] != id,
        decreases v.len() - j,
    {
        if v[j] == id {
            assert(v@.contains(id));
            return;
        }
        j += 1;
    }
    v.push(id);
}

/// The values a payload field takes over the rows, in row order.
pub open spec fn payload_ids(rows: Seq<JobRow>, key: Seq<char>) -> Seq<i64>
    decreases rows.len(),
{
    if rows.len() == 0 {
        Seq::empty()
    } else {
        let rest = payload_ids(rows.drop_last(), key);
        match json_i64_field(rows.last().job@, key) {
            Some(v) => rest.push(v),
            None => rest,
        }
    }
}

/// The distinct article ids and feed ids the jobs' payloads name.
pub fn job_refs(rows: &Vec<JobRow>) -> (r: (Vec<i64>, Vec<i64>))
    ensures
        r.0@ == distinct(payload_ids(rows@, "article_id"@)),
        r.1@ == distinct(payload_ids(rows@, "feed_id"@)),
{
    let mut articles: Vec<i64> = Vec::new();
    let mut feeds: Vec<i64> = Vec::new();
    let mut i: usize = 0;
    while i < rows.len()
        invariant
            i <= rows.len(),
            articles@ == distinct(payload_ids(rows@.take(i as int), "article_id"@)),
            feeds@ == distinct(payload_ids(rows@.take(i as int), "feed_id"@)),
        decreases rows.len() - i,
    {
        assert(rows@.take(i + 1).drop_last() =~= rows@.take(i as int));
        let job = rows[i].job.as_str();
        if let Some(a) = json_i64_at(job, "article_id") {
            let ghost before = payload_ids(rows@.take(i as int), "article_id"@);
            assert(payload_ids(rows@.take(i + 1), "article_id"@) == before.push(a));
            assert(before.push(a).drop_last() =~= before);
            push_distinct(&mut articles, a);
        }
        if let Some(f) = json_i64_at(job, "feed_id") {
            let ghost before = payload_ids(rows@.take(i as int), "feed_id"@);
            assert(payload_ids(rows@.take(i + 1), "feed_id"@) == before.push(f));
            assert(before.push(f).drop_last() =~= before);
            push_distinct(&mut feeds, f);
        }
        i += 1;
    }
    assert(rows@.take(rows.len() as int) =~= rows@);
    (articles, feeds)
}

/// `ids` added in order to `s`, skipping those already present.
pub open spec fn extend_distinct(s: Seq<i64>, ids: Seq<i64>) -> Seq<i64>
    decreases ids.len(),
{
    if ids.len() == 0 {
        s
    } else {
        let r = extend_distinct(s, ids.drop_last());
        if r.contains(ids.last()) {
            r
        } else {
            r.push(ids.last())
        }
    }
}

/// Adds the feeds of the fetched articles to the feeds whose titles are needed.
pub fn add_article_feeds(feeds: &mut Vec<i64>, articles: &Vec<(i64, i64)>)
    ensures
        final(feeds)@ == extend_distinct(old(feeds)@, articles@.map_values(|a: (i64, i64)| a.1)),
{
    let ghost fs = articles@.map_values(|a: (i64, i64)| a.1);
    let mut i: usize = 0;
    while i < articles.len()
        invariant
            i <= articles.len(),
            fs == articles@.map_values(|a: (i64, i64)| a.1),
            feeds@ == extend_distinct(old(feeds)@, fs.take(i as int)),
        decreases articles.len() - i,
    {
        assert(fs.take(i + 1).drop_last() =~= fs.take(i as int));
        push_distinct(feeds, articles[i].1);
        i += 1;
    }
    assert(fs.take(articles.len() as int) =~= fs);
}

/// `SELECT ... WHERE id IN (ids)` for a table's query head.
pub fn in_query(head: &str, ids: &[i64]) -> (q: String)
    ensures
        q@ == head@ + id_list(ids@) + ")"@,
{
    let mut v = to_chars(head);
    extend_str(&mut v, crate::fever::join_ids(ids).as_str());
    extend_str(&mut v, ")");
    from_chars(&v)
}

/// The value a lookup list gives a key: its last entry for the key, as a map
/// filled in order keeps.
pub open spec fn lookup_last<V>(entries: Seq<(i64, V)>, key: i64) -> Option<V>
    decreases entries.len(),
{
    if entries.len() == 0 {
        None
    } else if entries.last().0 == key {
        Some(entries.last().1)
    } else {
        lookup_last(entries.drop_last(), key)
    }
}

fn lookup_title(entries: &Vec<(i64, String)>, key: i64) -> (r: Option<String>)
    ensures
        crate::access_key::opt_view(r) == match lookup_last(entries@, key) {
            Some(s) => Some(s@),
            None => None,
        },
{
    let mut i = entries.len();
    assert(entries@.take(i as int) =~= entries@);
    while i > 0
        invariant
            i <= entries.len(),
            lookup_last(entries@, key) == lookup_last(entries@.take(i as int), key),
        decreases i,
    {
        assert(entries@.take(i as int).drop_last() =~= entries@.take(i - 1));
        if entries[i - 1].0 == key {
            return Some(entries[i - 1].1.clone());
        }
        i -= 1;
    }
    None
}

fn lookup_feed(entries: &Vec<(i64, i64)>, key: i64) -> (r: Option<i64>)
    ensures
        r == lookup_last(entries@, key),
{
    let mut i = entries.len();
    assert(entries@.take(i as int) =~= entries@);
    while i > 0
        invariant
            i <= entries.len(),
            lookup_last(entries@, key) == lookup_last(entries@.take(i as int), key),
        decreases i,
    {
        assert(entries@.take(i as int).drop_last() =~= entries@.take(i - 1));
        if entries[i - 1].0 == key {
            return Some(entries[i - 1].1);
        }
        i -= 1;
    }
    None
}

/// The error shown for a job: none once it is done; the message of an
/// `{"Err": ...}` record, none for an `{"Ok": ...}` record, the text otherwise.
pub open spec fn shown_error(status: Seq<char>, last_error: Option<Seq<char>>) -> Option<Seq<char>> {
    if status.map_values(|c: char| ascii_lower(c)) == "done"@ {
        None
    } else {
        match last_error {
            Some(e) => match json_str_field(e, "Err"@) {
                Some(m) => Some(m),
                None => if json_has_key(e, "Ok"@) {
                    None
                } else {
                    Some(e)
                },
            },
            None => None,
        }
    }
}

/// The error shown for a job. (ASCII lower-casing compares the status with
/// `done` as `str::to_lowercase` does.)
pub fn clean_job_error(status: &str, last_error: Option<String>) -> (r: Option<String>)
    ensures
        crate::access_key::opt_view(r) == shown_error(status@, crate::access_key::opt_view(last_error)),
{
    if chars_eq(&to_ascii_lower(&to_chars(status)), &to_chars("done")) {
        return None;
    }
    match last_error {
        Some(e) => match json_string_at(e.as_str(), "Err") {
            Some(m) => Some(m),
            None => if json_has(e.as_str(), "Ok") {
                None
            } else {
                Some(e)
            },
        },
        None => None,
    }
}

/// How a job row is listed, given the titles and feeds of the articles and
/// the titles of the feeds it may concern.
pub open spec fn job_info_spec(
    row: JobRow,
    articles: Seq<(i64, i64)>,
    article_titles: Seq<(i64, String)>,
    feed_titles: Seq<(i64, String)>,
    j: JobInfo,
) -> bool {
    let aid = json_i64_field(row.job@, "article_id"@);
    let fid0 = json_i64_field(row.job@, "feed_id"@);
    let fid = match fid0 {
        Some(f) => Some(f),
        None => match aid {
            Some(a) => lookup_last(articles, a),
            None => None,
        },
    };
    let ftitle = match fid {
        Some(f) => match lookup_last(feed_titles, f) {
            Some(t) => Some(t@),
            None => None,
        },
        None => None,
    };
    let atitle = match aid {
        Some(a) => match lookup_last(article_titles, a) {
            Some(t) => Some(t@),
            None => None,
        },
        None => None,
    };
    &&& j.id@ == row.id@
    &&& j.job_type@ == row.job_type@
    &&& j.category@ == categorize_spec(row.job_type@)
    &&& j.status@ == row.status@
    &&& j.attempts == row.attempts
    &&& crate::access_key::opt_view(j.last_error) == shown_error(row.status@, crate::access_key::opt_view(row.last_error))
    &&& j.run_at == row.run_at
    &&& j.done_at == row.done_at
    &&& j.job_data@ == row.job@
    &&& j.feed_id == fid
    &&& crate::access_key::opt_view(j.feed_title) == ftitle
    &&& crate::access_key::opt_view(j.title_label) == if fid is Some && contains_spec(row.job_type@, "SyncFeedJob"@) {
        ftitle
    } else {
        atitle
    }
}

/// Lists a job: its category, the feed it concerns (named in its payload, or
/// that of its article), a label (the feed's title for syncs, the article's
/// title otherwise), and its error made readable.
pub fn build_job_info(
    row: JobRow,
    articles: &Vec<(i64, i64)>,
    article_titles: &Vec<(i64, String)>,
    feed_titles: &Vec<(i64, String)>,
) -> (j: JobInfo)
    ensures
        job_info_spec(row, articles@, article_titles@, feed_titles@, j),
{
    let aid = json_i64_at(row.job.as_str(), "article_id");
    let fid0 = json_i64_at(row.job.as_str(), "feed_id");
    let mut title_label: Option<String> = None;
    let mut feed_id = fid0;
    if let Some(a) = aid {
        title_label = lookup_title(article_titles, a);
        if feed_id.is_none() {
            feed_id = lookup_feed(articles, a);
        }
    }
    let mut feed_title: Option<String> = None;
    if let Some(f) = feed_id {
        feed_title = lookup_title(feed_titles, f);
        if contains_exec(&to_chars(row.job_type.as_str()), &to_chars("SyncFeedJob")) {
            title_label = match &feed_title {
                Some(t) => Some(t.clone()),
                None => None,
            };
        }
    }
    let category = categorize_job_type(row.job_type.as_str());
    let last_error = clean_job_error(row.status.as_str(), row.last_error);
    JobInfo {
        id: row.id,
        job_type: row.job_type,
        category,
        status: row.status,
        attempts: row.attempts,
        last_error,
        run_at: row.run_at,
        done_at: row.done_at,
        job_data: row.job,
        title_label,
        feed_id,
        feed_title,
    }
}

/// The model and target language of an AI API's settings (JSON text):
/// `gpt-3.5-turbo` and `Chinese` unless set.
pub fn ai_settings(settings: &str) -> (r: (String, String))
    ensures
        r.0@ == match json_str_field(settings@, "model"@) {
            Some(m) => m,
            None => "gpt-3.5-turbo"@,
        },
        r.1@ == match json_str_field(settings@, "target_lang"@) {
            Some(t) => t,
            None => "Chinese"@,
        },
{
    let model = match json_string_at(settings, "model") {
        Some(m) => m,
        None => String::from_str("gpt-3.5-turbo"),
    };
    let lang = match json_string_at(settings, "target_lang") {
        Some(t) => t,
        None => String::from_str("Chinese"),
    };
    (model, lang)
}

} // verus!
