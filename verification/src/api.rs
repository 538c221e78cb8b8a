//! The records of the first, smaller client API, and where that client sends
//! its requests.
use vstd::prelude::*;
use crate::config::Config;
use crate::num::{dec_spec, i64_to_dec};
use crate::text::{extend_chars, extend_str, from_chars, to_chars, trim_end_char, trim_end_char_spec};

verus! {

pub struct Subscription {
    pub id: i64,
    pub feed_id: i64,
    pub title: String,
    pub url: String,
    pub site_url: Option<String>,
    pub category: String,
    pub custom_title: Option<String>,
}

pub struct Article {
    pub id: i64,
    pub title: String,
    pub link: Option<String>,
    pub author: Option<String>,
    pub feed_id: i64,
    pub feed_title: Option<String>,
    pub is_read: bool,
    pub is_starred: bool,
    pub published_at: Option<i64>,
}

/// Where the client sends its requests and the key it sends, taken from the
/// top-level server and key of the configuration.
pub struct ApiClient {
    pub server: String,
    pub api_key: String,
}

impl ApiClient {
    /// The client of a configuration: its server without trailing `/`, its key.
    pub fn new(config: &Config) -> (c: ApiClient)
        ensures
            c.server@ == trim_end_char_spec(config.server@, '/'),
            c.api_key@ == config.api_key@,
    {
        ApiClient {
            server: from_chars(&trim_end_char(&to_chars(config.server.as_str()), '/')),
            api_key: config.api_key.clone(),
        }
    }

    /// `Bearer <key>`.
    pub fn auth_header(&self) -> (h: String)
        ensures
            h@ == "Bearer "@ + self.api_key@,
    {
        let mut v = to_chars("Bearer ");
        extend_str(&mut v, self.api_key.as_str());
        from_chars(&v)
    }

    /// The address of the subscription list.
    pub fn subscriptions_url(&self) -> (u: String)
        ensures
            u@ == self.server@ + "/api/feeds"@,
    {
        let mut v = to_chars(self.server.as_str());
        extend_str(&mut v, "/api/feeds");
        from_chars(&v)
    }

    /// The address of the article list, of one feed or of all.
    pub fn articles_url(&self, feed_id: Option<i64>, is_read: Option<bool>) -> (u: String)
        ensures
            u@ == self.server@ + "/api/articles"@ + articles_params(feed_id, is_read),
    {
        let mut v = to_chars(self.server.as_str());
        extend_str(&mut v, "/api/articles");
        let ghost v0 = v@;
        if let Some(f) = feed_id {
            extend_str(&mut v, "?feed_id=");
            extend_chars(&mut v, &i64_to_dec(f));
        }
        let ghost v1 = v@;
        if let Some(r) = is_read {
            if feed_id.is_some() {
                extend_str(&mut v, "&is_read=");
            } else {
                extend_str(&mut v, "?is_read=");
            }
            if r {
                extend_str(&mut v, "true");
            } else {
                extend_str(&mut v, "false");
            }
        }
        assert(v@ =~= self.server@ + "/api/articles"@ + articles_params(feed_id, is_read));
        from_chars(&v)
    }

    /// The address that sets an article's read flag.
    pub fn read_url(&self, id: i64) -> (u: String)
        ensures
            u@ == self.server@ + "/api/articles/"@ + dec_spec(id as int) + "/read"@,
    {
        let mut v = to_chars(self.server.as_str());
        extend_str(&mut v, "/api/articles/");
        extend_chars(&mut v, &i64_to_dec(id));
        extend_str(&mut v, "/read");
        from_chars(&v)
    }

    /// The address that sets an article's starred flag.
    pub fn star_url(&self, id: i64) -> (u: String)
        ensures
            u@ == self.server@ + "/api/articles/"@ + dec_spec(id as int) + "/star"@,
    {
        let mut v = to_chars(self.server.as_str());
        extend_str(&mut v, "/api/articles/");
        extend_chars(&mut v, &i64_to_dec(id));
        extend_str(&mut v, "/star");
        from_chars(&v)
    }
}

/// The query of the article list: `?feed_id=..`, then the read filter.
pub open spec fn articles_params(feed_id: Option<i64>, is_read: Option<bool>) -> Seq<char> {
    (match feed_id {
        Some(f) => "?feed_id="@ + dec_spec(f as int),
        None => Seq::<char>::empty(),
    }) + (match is_read {
        Some(r) => (if feed_id is Some { "&is_read="@ } else { "?is_read="@ }) + (if r { "true"@ } else { "false"@ }),
        None => Seq::<char>::empty(),
    })
}

} // verus!
