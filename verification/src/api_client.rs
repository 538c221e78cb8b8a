//! The records the HTTP API returns to the command-line client, and the calls
//! the client makes: their paths, methods and bodies.
use vstd::prelude::*;
use crate::config::{Config, DatabaseMode};
use crate::num::{dec_spec, i64_to_dec};
use crate::text::{extend_chars, extend_str, from_chars, to_chars, trim_end_char_spec};

verus! {

pub struct Subscription {
    pub id: i64,
    pub feed_id: i64,
    pub title: String,
    pub url: String,
    pub site_url: Option<String>,
    pub category: String,
    pub custom_title: Option<String>,
    pub need_translate: Option<bool>,
    pub need_summary: Option<bool>,
}

pub struct Article {
    pub id: i64,
    pub title: String,
    pub link: Option<String>,
    pub author: Option<String>,
    pub feed_id: i64,
    pub feed_title: Option<String>,
    pub is_read: bool,
    pub is_starred: bool,
    pub published_at: Option<i64>,
}

pub struct ArticleDetail {
    pub detail: ArticleInfo,
    pub blocks: Vec<ArticleBlock>,
    pub content: String,
    pub is_need_translated: bool,
}

pub struct ArticleInfo {
    pub id: i64,
    pub title: String,
    pub link: Option<String>,
    pub author: Option<String>,
    pub summary: Option<String>,
    pub published_at: Option<i64>,
}

pub struct ArticleBlock {
    pub block_index: i32,
    pub raw_text: String,
    pub trans_text: Option<String>,
}

pub struct JobInfo {
    pub id: String,
    pub job_type: String,
    pub category: String,
    pub status: String,
    pub attempts: i32,
    pub last_error: Option<String>,
    pub feed_title: Option<String>,
    pub title_label: Option<String>,
}

pub struct ApiConfigInfo {
    pub id: i64,
    pub name: String,
    pub api_type: String,
    pub base_url: Option<String>,
}

/// Where the client sends its requests and the key it sends.
pub struct ApiClient {
    pub server: String,
    pub api_key: String,
}

impl ApiClient {
    /// The client for a configuration: its API base and key.
    pub fn new(config: &Config) -> (c: ApiClient)
        ensures
            c.server@ == match config.database {
                DatabaseMode::Remote { server, .. } => trim_end_char_spec(server@, '/'),
                _ => Seq::<char>::empty(),
            },
            c.api_key@ == match config.database {
                DatabaseMode::Remote { api_key, .. } => api_key@,
                _ => Seq::<char>::empty(),
            },
    {
        ApiClient { server: config.api_base(), api_key: config.api_key_value() }
    }

    /// The `Authorization` header value: `Bearer <key>`.
    pub fn auth_header(&self) -> (h: String)
        ensures
            h@ == "Bearer "@ + self.api_key@,
    {
        let mut v = to_chars("Bearer ");
        extend_str(&mut v, self.api_key.as_str());
        from_chars(&v)
    }

    /// The address of an API path.
    pub fn url(&self, path: &str) -> (u: String)
        ensures
            u@ == self.server@ + path@,
    {
        let mut v = to_chars(self.server.as_str());
        extend_str(&mut v, path);
        from_chars(&v)
    }
}

/// The calls the client makes.
pub enum ApiCall {
    GetSubscriptions,
    SyncSubscription(i64),
    SyncAll,
    GetArticles { feed_id: Option<i64>, is_read: Option<bool>, is_starred: Option<bool> },
    GetArticleDetail(i64),
    MarkRead { id: i64, read: bool },
    MarkStarred { id: i64, starred: bool },
    Translate(i64),
    Summarize(i64),
    GetJobs,
    RetryJob(String),
    ClearCompleted,
    GetApiConfigs,
}

/// The JSON body `{ key: value }` of a flag call.
pub struct FlagBody {
    pub key: String,
    pub value: bool,
}

/// `true` or `false`.
pub open spec fn bool_text(b: bool) -> Seq<char> {
    if b {
        "true"@
    } else {
        "false"@
    }
}

/// The query of the article list: the given filters joined with `&` after `?`.
pub open spec fn articles_query(feed_id: Option<i64>, is_read: Option<bool>, is_starred: Option<bool>) -> Seq<char> {
    let params = (match feed_id {
        Some(f) => seq!["feed_id="@ + dec_spec(f as int)],
        None => Seq::<Seq<char>>::empty(),
    }) + (match is_read {
        Some(r) => seq!["is_read="@ + bool_text(r)],
        None => Seq::<Seq<char>>::empty(),
    }) + (match is_starred {
        Some(s) => seq!["is_starred="@ + bool_text(s)],
        None => Seq::<Seq<char>>::empty(),
    });
    if params.len() == 0 {
        Seq::<char>::empty()
    } else {
        seq!['?'] + crate::text::join_spec(params, "&"@)
    }
}

/// The path of a call.
pub open spec fn call_path(c: ApiCall) -> Seq<char> {
    match c {
        ApiCall::GetSubscriptions => "/api/feeds"@,
        ApiCall::SyncSubscription(id) => "/api/feeds/"@ + dec_spec(id as int) + "/sync"@,
        ApiCall::SyncAll => "/api/feeds/sync_all"@,
        ApiCall::GetArticles { feed_id, is_read, is_starred } => "/api/articles"@ + articles_query(feed_id, is_read, is_starred),
        ApiCall::GetArticleDetail(id) => "/api/articles/"@ + dec_spec(id as int),
        ApiCall::MarkRead { id, .. } => "/api/articles/"@ + dec_spec(id as int) + "/read"@,
        ApiCall::MarkStarred { id, .. } => "/api/articles/"@ + dec_spec(id as int) + "/star"@,
        ApiCall::Translate(id) => "/api/articles/"@ + dec_spec(id as int) + "/translate"@,
        ApiCall::Summarize(id) => "/api/articles/"@ + dec_spec(id as int) + "/summarize"@,
        ApiCall::GetJobs => "/api/jobs"@,
        ApiCall::RetryJob(id) => "/api/jobs/"@ + id@ + "/retry"@,
        ApiCall::ClearCompleted => "/api/jobs/clear_completed"@,
        ApiCall::GetApiConfigs => "/api/translate-configs"@,
    }
}

/// Whether a call reads (`GET`) rather than acts (`POST`).
pub open spec fn call_is_get(c: ApiCall) -> bool {
    c is GetSubscriptions || c is GetArticles || c is GetArticleDetail || c is GetJobs || c is GetApiConfigs
}

fn push_bool(v: &mut Vec<char>, b: bool)
    ensures
        final(v)@ == old(v)@ + bool_text(b),
{
    if b {
        extend_str(v, "true");
    } else {
        extend_str(v, "false");
    }
}

fn id_path(head: &str, id: i64, tail: &str) -> (r: String)
    ensures
        r@ == head@ + dec_spec(id as int) + tail@,
{
    let mut v = to_chars(head);
    extend_chars(&mut v, &i64_to_dec(id));
    extend_str(&mut v, tail);
    from_chars(&v)
}

fn articles_query_exec(feed_id: Option<i64>, is_read: Option<bool>, is_starred: Option<bool>) -> (r: Vec<char>)
    ensures
        r@ == articles_query(feed_id, is_read, is_starred),
{
    let mut params: Vec<Vec<char>> = Vec::new();
    if let Some(f) = feed_id {
        let mut v = to_chars("feed_id=");
        extend_chars(&mut v, &i64_to_dec(f));
        params.push(v);
    }
    let ghost p0 = params@.map_values(|p: Vec<char>| p@);
    if let Some(r) = is_read {
        let mut v = to_chars("is_read=");
        push_bool(&mut v, r);
        params.push(v);
    }
    let ghost p1 = params@.map_values(|p: Vec<char>| p@);
    if let Some(st) = is_starred {
        let mut v = to_chars("is_starred=");
        push_bool(&mut v, st);
        params.push(v);
    }
    proof {
        let q0 = match feed_id {
            Some(f) => seq!["feed_id="@ + dec_spec(f as int)],
            None => Seq::<Seq<char>>::empty(),
        };
        let q1 = match is_read {
            Some(r) => seq!["is_read="@ + bool_text(r)],
            None => Seq::<Seq<char>>::empty(),
        };
        let q2 = match is_starred {
            Some(s) => seq!["is_starred="@ + bool_text(s)],
            None => Seq::<Seq<char>>::empty(),
        };
        assert(p0 =~= q0);
        assert(p1 =~= q0 + q1);
        assert(params@.map_values(|p: Vec<char>| p@) =~= q0 + q1 + q2);
    }
    if params.len() == 0 {
        Vec::new()
    } else {
        let mut q = vec!['?'];
        let joined = crate::text::join_chars(&params, &to_chars("&"));
        extend_chars(&mut q, &joined);
        q
    }
}

impl ApiCall {
    /// The API path the call goes to.
    pub fn path(&self) -> (p: String)
        ensures
            p@ == call_path(*self),
    {
        match self {
            ApiCall::GetSubscriptions => String::from_str("/api/feeds"),
            ApiCall::SyncSubscription(id) => id_path("/api/feeds/", *id, "/sync"),
            ApiCall::SyncAll => String::from_str("/api/feeds/sync_all"),
            ApiCall::GetArticles { feed_id, is_read, is_starred } => {
                let mut v = to_chars("/api/articles");
                extend_chars(&mut v, &articles_query_exec(*feed_id, *is_read, *is_starred));
                from_chars(&v)
            },
            ApiCall::GetArticleDetail(id) => {
                let mut v = to_chars("/api/articles/");
                extend_chars(&mut v, &i64_to_dec(*id));
                from_chars(&v)
            },
            ApiCall::MarkRead { id, .. } => id_path("/api/articles/", *id, "/read"),
            ApiCall::MarkStarred { id, .. } => id_path("/api/articles/", *id, "/star"),
            ApiCall::Translate(id) => id_path("/api/articles/", *id, "/translate"),
            ApiCall::Summarize(id) => id_path("/api/articles/", *id, "/summarize"),
            ApiCall::GetJobs => String::from_str("/api/jobs"),
            ApiCall::RetryJob(id) => {
                let mut v = to_chars("/api/jobs/");
                extend_str(&mut v, id.as_str());
                extend_str(&mut v, "/retry");
                from_chars(&v)
            },
            ApiCall::ClearCompleted => String::from_str("/api/jobs/clear_completed"),
            ApiCall::GetApiConfigs => String::from_str("/api/translate-configs"),
        }
    }

    /// Whether the call is a `GET`.
    pub fn is_get(&self) -> (b: bool)
        ensures
            b == call_is_get(*self),
    {
        match self {
            ApiCall::GetSubscriptions | ApiCall::GetArticles { .. } | ApiCall::GetArticleDetail(_)
            | ApiCall::GetJobs | ApiCall::GetApiConfigs => true,
            _ => false,
        }
    }

    /// The one-field JSON body of the flag calls: its key and value.
    pub fn flag_body(&self) -> (b: Option<FlagBody>)
        ensures
            match *self {
                ApiCall::MarkRead { read, .. } => b is Some && b->0.key@ == "read"@ && b->0.value == read,
                ApiCall::MarkStarred { starred, .. } => b is Some && b->0.key@ == "starred"@ && b->0.value == starred,
                _ => b is None,
            },
    {
        match self {
            ApiCall::MarkRead { read, .. } => Some(FlagBody { key: String::from_str("read"), value: *read }),
            ApiCall::MarkStarred { starred, .. } => Some(FlagBody { key: String::from_str("starred"), value: *starred }),
            _ => None,
        }
    }
}

} // verus!
