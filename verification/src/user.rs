//! Users: accounts, their settings, registration being open or closed, and the
//! Fever API key derived from the credentials.
use vstd::prelude::*;
use vstd::utf8::encode_utf8;
use crate::auth::{bcrypt_verified, hash_password, verify_password};
use crate::num::{digit_char, digit_char_exec};
use crate::text::{ascii_lower, chars_eq, contains_exec, contains_spec, extend_str, from_chars, to_ascii_lower, to_chars, trim_chars, trim_spec};

verus! {

pub struct RegisterRequest {
    pub username: String,
    pub password: String,
}

pub struct User {
    pub id: i64,
    pub username: String,
    pub password_hash: String,
}

pub struct LoginRequest {
    pub username: String,
    pub password: String,
}

pub struct LoginResponse {
    pub token: String,
    pub username: String,
    pub translate_api_id: Option<i64>,
    pub summary_api_id: Option<i64>,
    pub default_api_id: Option<i64>,
    pub app_mode: Option<bool>,
    pub log_num_limit: Option<i32>,
}

pub struct UpdatePasswordRequest {
    pub old_password: String,
    pub new_password: String,
}

pub struct UpdateUsernameRequest {
    pub new_username: String,
}

pub struct UpdateUserSettingRequest {
    pub translate_api_id: Option<i64>,
    pub summary_api_id: Option<i64>,
    pub default_api_id: Option<i64>,
    pub greader_api: Option<bool>,
    pub fever_api: Option<bool>,
    pub api_proxy: Option<bool>,
    pub api_proxy_url: Option<String>,
    pub app_mode: Option<bool>,
    pub log_num_limit: Option<i32>,
    pub custom_trans_style: Option<String>,
}

pub struct UserSetting {
    pub translate_api_id: Option<i64>,
    pub summary_api_id: Option<i64>,
    pub default_api_id: Option<i64>,
    pub greader_api: Option<bool>,
    pub fever_api: Option<bool>,
    pub api_proxy: Option<bool>,
    pub api_proxy_url: Option<String>,
    pub app_mode: Option<bool>,
    pub user_id: i64,
    pub log_num_limit: Option<i32>,
    pub custom_trans_style: Option<String>,
}

/// The login settings of a user: translation, summary and default APIs, app
/// mode, log limit.
pub struct LoginSettings {
    pub translate_api_id: Option<i64>,
    pub summary_api_id: Option<i64>,
    pub default_api_id: Option<i64>,
    pub app_mode: Option<bool>,
    pub log_num_limit: Option<i32>,
}

/// The answer to a successful login; a user without settings gets none.
pub fn login_response(token: String, username: String, settings: Option<LoginSettings>) -> (r: LoginResponse)
    ensures
        r.token == token,
        r.username == username,
        match settings {
            Some(s) => r.translate_api_id == s.translate_api_id && r.summary_api_id == s.summary_api_id
                && r.default_api_id == s.default_api_id && r.app_mode == s.app_mode
                && r.log_num_limit == s.log_num_limit,
            None => r.translate_api_id is None && r.summary_api_id is None && r.default_api_id is None
                && r.app_mode is None && r.log_num_limit is None,
        },
{
    match settings {
        Some(s) => LoginResponse {
            token,
            username,
            translate_api_id: s.translate_api_id,
            summary_api_id: s.summary_api_id,
            default_api_id: s.default_api_id,
            app_mode: s.app_mode,
            log_num_limit: s.log_num_limit,
        },
        None => LoginResponse {
            token,
            username,
            translate_api_id: None,
            summary_api_id: None,
            default_api_id: None,
            app_mode: None,
            log_num_limit: None,
        },
    }
}

// ---------------------------------------------------------------------------
// Registration
// ---------------------------------------------------------------------------

/// The stored `allow_registration` value, trimmed and lower-cased, is `word`.
/// (ASCII lower-casing decides this as `str::to_lowercase` does: no other
/// character lower-cases to a letter of `true` or `false`.)
pub open spec fn config_value_is(val: Seq<char>, word: Seq<char>) -> bool {
    trim_spec(val).map_values(|c: char| ascii_lower(c)) == word
}

fn config_value_is_exec(val: &str, word: &str) -> (b: bool)
    ensures
        b == config_value_is(val@, word@),
{
    let t = trim_chars(&to_chars(val));
    let l = to_ascii_lower(&t);
    chars_eq(&l, &to_chars(word))
}

/// Whether registration is open, as reported: the stored value is `true`, or
/// nothing is stored.
pub fn registration_status(stored: Option<String>) -> (allow: bool)
    ensures
        allow == match stored {
            Some(v) => config_value_is(v@, "true"@),
            None => true,
        },
{
    match stored {
        Some(v) => config_value_is_exec(v.as_str(), "true"),
        None => true,
    }
}

/// Whether a registration is refused: only when the stored value is `false`.
pub fn registration_blocked(stored: Option<String>) -> (blocked: bool)
    ensures
        blocked == match stored {
            Some(v) => config_value_is(v@, "false"@),
            None => false,
        },
{
    match stored {
        Some(v) => config_value_is_exec(v.as_str(), "false"),
        None => false,
    }
}

/// The stored form of the registration switch.
pub fn registration_value(allow: bool) -> (r: String)
    ensures
        r@ == if allow { "true"@ } else { "false"@ },
{
    if allow {
        String::from_str("true")
    } else {
        String::from_str("false")
    }
}

/// Whether a database error is a uniqueness violation (a taken username).
pub fn is_unique_violation(message: &str) -> (b: bool)
    ensures
        b == contains_spec(message@, "UNIQUE"@),
{
    contains_exec(&to_chars(message), &to_chars("UNIQUE"))
}

/// The translation style a new user starts with.
pub open spec fn default_trans_style_spec() -> Seq<char> {
    "display: block;\nfont-style: italic;\nopacity: 0.6;\nfont-size: 0.95em;\nmargin-top: 0.3rem;\npadding-left: 0.75rem;\nborder-left: 2px solid rgba(var(--v-theme-primary), 0.4);"@
}

/// The translation style a new user starts with.
pub fn default_trans_style() -> (r: String)
    ensures
        r@ == default_trans_style_spec(),
{
    String::from_str("display: block;\nfont-style: italic;\nopacity: 0.6;\nfont-size: 0.95em;\nmargin-top: 0.3rem;\npadding-left: 0.75rem;\nborder-left: 2px solid rgba(var(--v-theme-primary), 0.4);")
}

// ---------------------------------------------------------------------------
// Fever key
// ---------------------------------------------------------------------------

/// The MD5 digest of bytes.
pub uninterp spec fn md5_digest(b: Seq<u8>) -> Seq<u8>;

/// `md5::compute`: the named digest, sixteen bytes.
#[verifier::external_body]
fn md5_compute(b: &[u8]) -> (r: Vec<u8>)
    ensures
        r@ == md5_digest(b@),
        r@.len() == 16,
{
    md5::compute(b).0.to_vec()
}

/// Bytes as lower-case hex, two digits each.
pub open spec fn hex_lower(b: Seq<u8>) -> Seq<char>
    decreases b.len(),
{
    if b.len() == 0 {
        Seq::empty()
    } else {
        hex_lower(b.drop_last()) + seq![digit_char((b.last() / 16) as nat), digit_char((b.last() % 16) as nat)]
    }
}

/// Formats bytes as lower-case hex.
pub fn hex_lower_exec(b: &[u8]) -> (r: Vec<char>)
    ensures
        r@ == hex_lower(b@),
{
    let mut out: Vec<char> = Vec::new();
    let mut i: usize = 0;
    while i < b.len()
        invariant
            i <= b.len(),
            out@ == hex_lower(b@.take(i as int)),
        decreases b.len() - i,
    {
        assert(b@.take(i + 1).drop_last() =~= b@.take(i as int));
        let x = b[i];
        out.push(digit_char_exec((x / 16) as u64));
        out.push(digit_char_exec((x % 16) as u64));
        assert(out@ =~= hex_lower(b@.take(i + 1)));
        i += 1;
    }
    assert(b@.take(b.len() as int) =~= b@);
    out
}

/// The Fever API key of a user: the MD5 of `username:password`, in hex.
pub open spec fn fever_key_spec(username: Seq<char>, password: Seq<char>) -> Seq<char> {
    hex_lower(md5_digest(encode_utf8(username + seq![':'] + password)))
}

/// The Fever API key for a user's credentials.
pub fn fever_api_key(username: &str, password: &str) -> (r: String)
    ensures
        r@ == fever_key_spec(username@, password@),
{
    let mut v = to_chars(username);
    v.push(':');
    extend_str(&mut v, password);
    assert(v@ =~= username@ + seq![':'] + password@);
    let s = from_chars(&v);
    let d = md5_compute(s.as_str().as_bytes());
    from_chars(&hex_lower_exec(&d))
}

// ---------------------------------------------------------------------------
// Accounts and passwords
// ---------------------------------------------------------------------------

/// The stored values of a new account.
pub struct NewAccount {
    pub username: String,
    pub password_hash: String,
    pub fever_api_key: String,
    pub custom_trans_style: String,
}

/// The values a new account is stored with: a hash that verifies the
/// password, the Fever key of `username:password` and the default
/// translation style; none when hashing fails.
pub fn new_account(username: &str, password: &str) -> (r: Option<NewAccount>)
    ensures
        r matches Some(a) ==> {
            &&& a.username@ == username@
            &&& bcrypt_verified(password@, a.password_hash@) == Some(true)
            &&& a.fever_api_key@ == fever_key_spec(username@, password@)
            &&& a.custom_trans_style@ == default_trans_style_spec()
        },
{
    match hash_password(password) {
        None => None,
        Some(h) => Some(
            NewAccount {
                username: from_chars(&to_chars(username)),
                password_hash: h,
                fever_api_key: fever_api_key(username, password),
                custom_trans_style: default_trans_style(),
            },
        ),
    }
}

/// Why a password was not changed.
pub enum PasswordError {
    /// The old password does not match the stored hash.
    OldPasswordIncorrect,
    /// The new password could not be hashed.
    HashFailed,
}

/// A password change: when the old password matches the stored hash, the
/// new hash (which verifies the new password) and the new Fever key of
/// `username:new_password`. The old password is refused exactly when it
/// does not verify against the stored hash; otherwise the only failure is
/// hashing the new password.
pub fn password_update(username: &str, old_password: &str, current_hash: &str, new_password: &str) -> (r: Result<
    (String, String),
    PasswordError,
>)
    ensures
        (r matches Err(PasswordError::OldPasswordIncorrect)) <==> bcrypt_verified(
            old_password@,
            current_hash@,
        ) != Some(true),
        r matches Ok((h, k)) ==> {
            &&& bcrypt_verified(old_password@, current_hash@) == Some(true)
            &&& bcrypt_verified(new_password@, h@) == Some(true)
            &&& k@ == fever_key_spec(username@, new_password@)
        },
{
    if !verify_password(old_password, current_hash) {
        return Err(PasswordError::OldPasswordIncorrect);
    }
    match hash_password(new_password) {
        None => Err(PasswordError::HashFailed),
        Some(h) => Ok((h, fever_api_key(username, new_password))),
    }
}

} // verus!
