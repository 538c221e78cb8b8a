//! Translation API configurations of a user: how a new one is filled in, how
//! an update merges into the stored one, how the stored key is shown, and
//! which configuration a user's work uses.
use vstd::prelude::*;
use crate::crypto::{decrypt_safe, decrypt_safe_spec, encrypt, encrypt_spec};

verus! {

/// A stored API configuration; `api_key` holds the encrypted key and
/// `settings` a JSON object as text.
pub struct ApiConfig {
    pub id: i64,
    pub user_id: i64,
    pub name: String,
    pub api_type: String,
    pub api_key: Option<String>,
    pub base_url: Option<String>,
    pub settings: String,
    pub timeout_seconds: i32,
    pub retry_count: i32,
    pub retry_interval_ms: i32,
    pub retry_enabled: bool,
}

/// A request for a new configuration; `settings` is the JSON text of the
/// settings object, when given.
pub struct CreateApiConfigRequest {
    pub name: String,
    pub api_type: String,
    pub api_key: Option<String>,
    pub base_url: Option<String>,
    pub settings: Option<String>,
    pub timeout_seconds: Option<i32>,
    pub retry_count: Option<i32>,
    pub retry_interval_ms: Option<i32>,
    pub retry_enabled: Option<bool>,
}

/// A partial update; what is `None` stays as stored.
pub struct UpdateApiConfigRequest {
    pub name: Option<String>,
    pub api_type: Option<String>,
    pub api_key: Option<String>,
    pub base_url: Option<String>,
    pub settings: Option<String>,
    pub timeout_seconds: Option<i32>,
    pub retry_count: Option<i32>,
    pub retry_interval_ms: Option<i32>,
    pub retry_enabled: Option<bool>,
}

/// The values stored for a configuration, before the store gives it an id.
pub struct NewApiConfig {
    pub user_id: i64,
    pub name: String,
    pub api_type: String,
    pub api_key: Option<String>,
    pub base_url: Option<String>,
    pub settings: String,
    pub timeout_seconds: i32,
    pub retry_count: i32,
    pub retry_interval_ms: i32,
    pub retry_enabled: bool,
}

/// One recorded use of an API; `created_at` in seconds since the epoch.
pub struct ApiUsage {
    pub id: i64,
    pub user_id: i64,
    pub api_config_id: i64,
    pub model: String,
    pub prompt_tokens: i32,
    pub completion_tokens: i32,
    pub total_tokens: i32,
    pub created_at: Option<i64>,
}

/// Token totals of a user, in all and per model.
pub struct ApiUsageStats {
    pub total_prompt_tokens: i64,
    pub total_completion_tokens: i64,
    pub total_tokens: i64,
    pub usage_by_model: Vec<ModelUsage>,
}

/// Token totals of one model.
pub struct ModelUsage {
    pub model: String,
    pub prompt_tokens: i64,
    pub completion_tokens: i64,
    pub total_tokens: i64,
}

/// Token totals of one day, configuration and model.
pub struct TimeSeriesUsage {
    pub date: String,
    pub api_config_id: i64,
    pub model: String,
    pub prompt_tokens: i64,
    pub completion_tokens: i64,
    pub total_tokens: i64,
}

/// The stored form of an optional key.
pub open spec fn stored_key_spec(enc_key: Seq<char>, key: Option<String>) -> Option<Seq<char>> {
    match key {
        Some(k) => Some(encrypt_spec(enc_key, k@)),
        None => None,
    }
}

/// The view of an optional text.
pub open spec fn opt_text(t: Option<String>) -> Option<Seq<char>> {
    match t {
        Some(s) => Some(s@),
        None => None,
    }
}

fn stored_key(enc_key: &str, key: &Option<String>) -> (r: Option<String>)
    ensures
        opt_text(r) == stored_key_spec(enc_key@, *key),
        r matches Some(s) ==> (key matches Some(k) && decrypt_safe_spec(enc_key@, s@) == k@),
{
    match key {
        Some(k) => Some(encrypt(enc_key, k.as_str())),
        None => None,
    }
}

/// The values a new configuration is stored with: the key encrypted under
/// `enc_key`, settings `{}` unless given, a timeout of 180 s, 3 retries 1000 ms
/// apart, retrying on.
pub fn new_config(enc_key: &str, user_id: i64, req: CreateApiConfigRequest) -> (c: NewApiConfig)
    ensures
        c.user_id == user_id,
        c.name@ == req.name@,
        c.api_type@ == req.api_type@,
        opt_text(c.api_key) == stored_key_spec(enc_key@, req.api_key),
        c.api_key matches Some(s) ==> (req.api_key matches Some(k) && decrypt_safe_spec(enc_key@, s@) == k@),
        opt_text(c.base_url) == opt_text(req.base_url),
        c.settings@ == match req.settings {
            Some(s) => s@,
            None => "{}"@,
        },
        c.timeout_seconds == match req.timeout_seconds {
            Some(t) => t,
            None => 180i32,
        },
        c.retry_count == match req.retry_count {
            Some(t) => t,
            None => 3i32,
        },
        c.retry_interval_ms == match req.retry_interval_ms {
            Some(t) => t,
            None => 1000i32,
        },
        c.retry_enabled == match req.retry_enabled {
            Some(b) => b,
            None => true,
        },
{
    let api_key = stored_key(enc_key, &req.api_key);
    let settings = match req.settings {
        Some(s) => s,
        None => String::from_str("{}"),
    };
    NewApiConfig {
        user_id,
        name: req.name,
        api_type: req.api_type,
        api_key,
        base_url: req.base_url,
        settings,
        timeout_seconds: match req.timeout_seconds {
            Some(t) => t,
            None => 180,
        },
        retry_count: match req.retry_count {
            Some(t) => t,
            None => 3,
        },
        retry_interval_ms: match req.retry_interval_ms {
            Some(t) => t,
            None => 1000,
        },
        retry_enabled: match req.retry_enabled {
            Some(b) => b,
            None => true,
        },
    }
}

/// A stored configuration with an update merged in: every given field
/// replaces the stored one, a new key is stored encrypted under `enc_key`.
pub fn merge_update(enc_key: &str, old: ApiConfig, req: UpdateApiConfigRequest) -> (c: ApiConfig)
    ensures
        c.id == old.id,
        c.user_id == old.user_id,
        c.name@ == match req.name {
            Some(n) => n@,
            None => old.name@,
        },
        c.api_type@ == match req.api_type {
            Some(t) => t@,
            None => old.api_type@,
        },
        opt_text(c.api_key) == match req.api_key {
            Some(k) => Some(encrypt_spec(enc_key@, k@)),
            None => opt_text(old.api_key),
        },
        req.api_key matches Some(k) ==> (c.api_key matches Some(s) && decrypt_safe_spec(enc_key@, s@) == k@),
        opt_text(c.base_url) == match req.base_url {
            Some(u) => Some(u@),
            None => opt_text(old.base_url),
        },
        c.settings@ == match req.settings {
            Some(s) => s@,
            None => old.settings@,
        },
        c.timeout_seconds == match req.timeout_seconds {
            Some(t) => t,
            None => old.timeout_seconds,
        },
        c.retry_count == match req.retry_count {
            Some(t) => t,
            None => old.retry_count,
        },
        c.retry_interval_ms == match req.retry_interval_ms {
            Some(t) => t,
            None => old.retry_interval_ms,
        },
        c.retry_enabled == match req.retry_enabled {
            Some(b) => b,
            None => old.retry_enabled,
        },
{
    let api_key = match req.api_key {
        Some(k) => Some(encrypt(enc_key, k.as_str())),
        None => old.api_key,
    };
    ApiConfig {
        id: old.id,
        user_id: old.user_id,
        name: match req.name {
            Some(n) => n,
            None => old.name,
        },
        api_type: match req.api_type {
            Some(t) => t,
            None => old.api_type,
        },
        api_key,
        base_url: match req.base_url {
            Some(u) => Some(u),
            None => old.base_url,
        },
        settings: match req.settings {
            Some(s) => s,
            None => old.settings,
        },
        timeout_seconds: match req.timeout_seconds {
            Some(t) => t,
            None => old.timeout_seconds,
        },
        retry_count: match req.retry_count {
            Some(t) => t,
            None => old.retry_count,
        },
        retry_interval_ms: match req.retry_interval_ms {
            Some(t) => t,
            None => old.retry_interval_ms,
        },
        retry_enabled: match req.retry_enabled {
            Some(b) => b,
            None => old.retry_enabled,
        },
    }
}

/// `shown` is `stored` as it is shown: the key decrypted under `enc_key`, the
/// rest unchanged.
pub open spec fn revealed(enc_key: Seq<char>, stored: ApiConfig, shown: ApiConfig) -> bool {
    &&& opt_text(shown.api_key) == match stored.api_key {
        Some(k) => Some(decrypt_safe_spec(enc_key, k@)),
        None => None,
    }
    &&& shown.id == stored.id
    &&& shown.user_id == stored.user_id
    &&& shown.name == stored.name
    &&& shown.api_type == stored.api_type
    &&& shown.base_url == stored.base_url
    &&& shown.settings == stored.settings
    &&& shown.timeout_seconds == stored.timeout_seconds
    &&& shown.retry_count == stored.retry_count
    &&& shown.retry_interval_ms == stored.retry_interval_ms
    &&& shown.retry_enabled == stored.retry_enabled
}

/// A stored configuration as it is shown: the key decrypted under `enc_key`
/// (leniently: what does not decrypt is shown as stored), the rest unchanged.
pub fn reveal_key(enc_key: &str, config: ApiConfig) -> (c: ApiConfig)
    ensures
        revealed(enc_key@, config, c),
{
    let ApiConfig {
        id,
        user_id,
        name,
        api_type,
        api_key,
        base_url,
        settings,
        timeout_seconds,
        retry_count,
        retry_interval_ms,
        retry_enabled,
    } = config;
    let api_key = match api_key {
        Some(k) => Some(decrypt_safe(enc_key, k.as_str())),
        None => None,
    };
    ApiConfig {
        id,
        user_id,
        name,
        api_type,
        api_key,
        base_url,
        settings,
        timeout_seconds,
        retry_count,
        retry_interval_ms,
        retry_enabled,
    }
}

/// Every configuration of a list as it is shown, in the same order.
pub fn reveal_keys(enc_key: &str, configs: Vec<ApiConfig>) -> (r: Vec<ApiConfig>)
    ensures
        r.len() == configs.len(),
        forall|i: int| 0 <= i < r.len() ==> revealed(enc_key@, configs@[i], #[trigger] r@[i]),
{
    let mut out: Vec<ApiConfig> = Vec::new();
    let mut rest = configs;
    let ghost orig = rest@;
    while rest.len() > 0
        invariant
            out.len() + rest.len() == orig.len(),
            rest@ == orig.skip(out.len() as int),
            forall|i: int| 0 <= i < out.len() ==> revealed(enc_key@, orig[i], #[trigger] out@[i]),
        decreases rest.len(),
    {
        let c = rest.remove(0);
        assert(c == orig[out.len() as int]);
        out.push(reveal_key(enc_key, c));
        assert(rest@ =~= orig.skip(out.len() as int));
    }
    out
}

/// The configuration a user's work uses: the one asked for, else the user's
/// default, else the user's first.
pub fn effective_api_id(specific: Option<i64>, default_id: Option<i64>, first_id: Option<i64>) -> (r: Option<i64>)
    ensures
        r == match specific {
            Some(id) => Some(id),
            None => match default_id {
                Some(id) => Some(id),
                None => first_id,
            },
        },
{
    match specific {
        Some(id) => Some(id),
        None => match default_id {
            Some(id) => Some(id),
            None => first_id,
        },
    }
}

/// What a configuration is used for.
pub enum ApiPurpose {
    Translation,
    Summary,
}

/// The configuration a request goes ahead with, or the refusal asking the
/// user to configure one for the purpose first.
pub fn require_api(effective: Option<i64>, purpose: ApiPurpose) -> (r: Result<i64, String>)
    ensures
        effective matches Some(id) ==> r == Ok::<i64, String>(id),
        effective is None ==> (r matches Err(m) && m@ == match purpose {
            ApiPurpose::Translation => "Please configure a translation API in settings first"@,
            ApiPurpose::Summary => "Please configure a summary API in settings first"@,
        }),
{
    match effective {
        Some(id) => Ok(id),
        None => Err(
            match purpose {
                ApiPurpose::Translation => String::from_str(
                    "Please configure a translation API in settings first",
                ),
                ApiPurpose::Summary => String::from_str(
                    "Please configure a summary API in settings first",
                ),
            },
        ),
    }
}

} // verus!
