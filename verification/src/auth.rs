//! Authentication: the JWT secret and its one-time initialisation, the
//! token in an `Authorization` header, the claims of a token, and password
//! hashes.
use vstd::prelude::*;
use vstd::utf8::encode_utf8;
use crate::greader_actions::hex_byte_val;
use crate::json::{json_str_field, json_string_at, json_u64_at, json_u64_field};
use crate::num::{dec_spec, i64_to_dec, parse_i64_str, parse_i64_spec};
use crate::text::{
    from_chars, starts_with_exec, starts_with_spec, sub_chars, to_chars, trim_chars,
    trim_end_char, trim_end_char_spec, trim_spec, trim_start_char, trim_start_char_spec,
};
use rand::RngCore;

verus! {

/// The claims a token carries.
pub struct Claims {
    /// The user id, in decimal.
    pub sub: String,
    /// Expiry, seconds since the epoch.
    pub exp: usize,
    /// Issue time, seconds since the epoch.
    pub iat: usize,
    pub username: String,
}

/// The user a request is made by.
pub struct AuthUser {
    pub user_id: i64,
    pub username: String,
}

// ---------------------------------------------------------------------------
// The secret
// ---------------------------------------------------------------------------

/// The JWT secret, set at most once.
pub struct JwtSecret {
    pub value: Option<Vec<u8>>,
}

impl JwtSecret {
    /// No secret yet.
    pub fn new() -> (s: JwtSecret)
        ensures
            s.value is None,
    {
        JwtSecret { value: None }
    }
}

/// The secret after an initialisation with `s`: the first one set stays.
pub open spec fn after_init(v: Option<Vec<u8>>, s: Vec<u8>) -> Option<Vec<u8>> {
    if v is Some {
        v
    } else {
        Some(s)
    }
}

/// Sets the secret (as loaded from the database) if none is set yet; hands the
/// secret back when one already is.
pub fn init_jwt_secret(slot: &mut JwtSecret, secret: Vec<u8>) -> (r: Result<(), Vec<u8>>)
    ensures
        final(slot).value == after_init(old(slot).value, secret),
        old(slot).value is None ==> r is Ok,
        old(slot).value is Some ==> r == Err::<(), Vec<u8>>(secret),
{
    if slot.value.is_some() {
        Err(secret)
    } else {
        slot.value = Some(secret);
        Ok(())
    }
}

/// Once a secret is set, later initialisations keep it.
pub proof fn lemma_secret_set_once(first: Vec<u8>, second: Vec<u8>)
    ensures
        after_init(after_init(None, first), second) == Some(first),
{
}

/// The bytes of a hex text: pairs of hex digits, upper or lower case.
pub open spec fn hex_decoded(b: Seq<u8>) -> Option<Seq<u8>>
    decreases b.len(),
{
    if b.len() == 0 {
        Some(Seq::<u8>::empty())
    } else if b.len() == 1 {
        None
    } else {
        match (hex_byte_val(b[0]), hex_byte_val(b[1]), hex_decoded(b.skip(2))) {
            (Some(h), Some(l), Some(rest)) => Some(seq![(h * 16 + l) as u8] + rest),
            _ => None,
        }
    }
}

/// `hex::decode`: the bytes that the text's hex digits stand for; `None` for
/// an odd length or a character that is not a hex digit.
#[verifier::external_body]
pub(crate) fn hex_decode(s: &str) -> (r: Option<Vec<u8>>)
    ensures
        r is Some <==> hex_decoded(encode_utf8(s@)) is Some,
        r is Some ==> r->0@ == hex_decoded(encode_utf8(s@))->0,
{
    hex::decode(s).ok()
}

/// The secret an environment value gives: at least 32 bytes of hex, around
/// whitespace.
pub open spec fn secret_from_env_spec(val: Seq<char>) -> Option<Seq<u8>> {
    match hex_decoded(encode_utf8(trim_spec(val))) {
        Some(b) => if b.len() >= 32 {
            Some(b)
        } else {
            None
        },
        None => None,
    }
}

/// The secret of the `JWT_SECRET` value, when it is valid.
pub fn secret_from_env(val: &str) -> (r: Option<Vec<u8>>)
    ensures
        r is Some <==> secret_from_env_spec(val@) is Some,
        r is Some ==> r->0@ == secret_from_env_spec(val@)->0,
{
    let t = from_chars(&trim_chars(&to_chars(val)));
    match hex_decode(t.as_str()) {
        Some(b) => if b.len() >= 32 {
            Some(b)
        } else {
            None
        },
        None => None,
    }
}

/// Thirty-two bytes from the thread's random generator (`fill_bytes`).
#[verifier::external_body]
pub(crate) fn random_secret() -> (r: Vec<u8>)
    ensures
        r.len() == 32,
{
    let mut secret = vec![0u8; 32];
    rand::thread_rng().fill_bytes(&mut secret);
    secret
}

/// The secret: the one set, else the valid `JWT_SECRET` value, else 32 random
/// bytes; the secret found or made is kept.
pub fn get_jwt_secret(slot: &mut JwtSecret, env_value: Option<&str>) -> (r: Vec<u8>)
    ensures
        old(slot).value is Some ==> final(slot).value == old(slot).value && r@ == old(slot).value->0@,
        old(slot).value is None ==> final(slot).value is Some && final(slot).value->0@ == r@ && match env_value {
            Some(v) => match secret_from_env_spec(v@) {
                Some(b) => r@ == b,
                None => r.len() == 32,
            },
            None => r.len() == 32,
        },
{
    if let Some(v) = &slot.value {
        return v.clone();
    }
    let from_env = match env_value {
        Some(v) => secret_from_env(v),
        None => None,
    };
    let secret = match from_env {
        Some(b) => b,
        None => random_secret(),
    };
    slot.value = Some(secret.clone());
    secret
}

// ---------------------------------------------------------------------------
// Tokens in requests
// ---------------------------------------------------------------------------

/// Why a request is not authenticated.
pub enum AuthError {
    MissingHeader,
    InvalidFormat,
    InvalidToken(String),
}

/// The token of an `Authorization` header: after `Bearer ` (trimmed), or
/// after `GoogleLogin auth=` (quotes and whitespace trimmed).
pub open spec fn header_token(h: Seq<char>) -> Option<Seq<char>> {
    if starts_with_spec(h, "Bearer "@) {
        Some(trim_spec(h.skip(7)))
    } else if starts_with_spec(h, "GoogleLogin auth="@) {
        Some(trim_spec(trim_start_char_spec(trim_end_char_spec(h.skip(17), '"'), '"')))
    } else {
        None
    }
}

/// The token a request carries, or why it carries none.
pub fn extract_token(header: Option<&str>) -> (r: Result<String, AuthError>)
    ensures
        match header {
            None => r matches Err(AuthError::MissingHeader),
            Some(h) => match header_token(h@) {
                Some(t) => r is Ok && r->Ok_0@ == t,
                None => r matches Err(AuthError::InvalidFormat),
            },
        },
{
    let h = match header {
        Some(h) => to_chars(h),
        None => {
            return Err(AuthError::MissingHeader);
        },
    };
    if starts_with_exec(&h, &to_chars("Bearer ")) {
        proof {
            reveal_strlit("Bearer ");
        }
        let rest = sub_chars(&h, 7, h.len());
        assert(rest@ =~= h@.skip(7));
        Ok(from_chars(&trim_chars(&rest)))
    } else if starts_with_exec(&h, &to_chars("GoogleLogin auth=")) {
        proof {
            reveal_strlit("GoogleLogin auth=");
        }
        let rest = sub_chars(&h, 17, h.len());
        assert(rest@ =~= h@.skip(17));
        let unquoted = trim_start_char(&trim_end_char(&rest, '"'), '"');
        Ok(from_chars(&trim_chars(&unquoted)))
    } else {
        Err(AuthError::InvalidFormat)
    }
}

/// The user a token's claims name; the id is 0 when `sub` is not a number.
pub fn auth_user_from_claims(claims: Claims) -> (u: AuthUser)
    ensures
        u.user_id == match parse_i64_spec(claims.sub@) {
            Some(v) => v,
            None => 0,
        },
        u.username@ == claims.username@,
{
    let user_id = match parse_i64_str(claims.sub.as_str()) {
        Some(v) => v,
        None => 0,
    };
    AuthUser { user_id, username: claims.username }
}

/// Three days, in seconds: how long a token is valid.
pub open spec fn token_lifetime() -> int {
    259200
}

/// The last second a date can have.
pub open spec fn max_timestamp() -> int {
    8210266876799
}

/// The claims of a new token for a user: expiring three days after `now`,
/// issued at `issued_at`.
pub fn build_claims(user_id: i64, username: &str, now: i64, issued_at: i64) -> (c: Claims)
    requires
        now + token_lifetime() <= max_timestamp(),
    ensures
        c.sub@ == dec_spec(user_id as int),
        c.exp == (now + token_lifetime()) as usize,
        c.iat == issued_at as usize,
        c.username@ == username@,
{
    Claims {
        sub: from_chars(&i64_to_dec(user_id)),
        exp: (now + 259200) as usize,
        iat: issued_at as usize,
        username: String::from_str(username),
    }
}

// ---------------------------------------------------------------------------
// Signed tokens
// ---------------------------------------------------------------------------

/// The token HS256 signs under `secret` (default header) for a payload with
/// the claims `sub`, `exp`, `iat` and `username`.
pub uninterp spec fn jwt_signed(sub: Seq<char>, exp: int, iat: int, username: Seq<char>, secret: Seq<u8>) -> Seq<char>;

/// `jsonwebtoken::encode` with the default header (HS256) and
/// `EncodingKey::from_secret`, of a JSON object holding the four claims: the
/// named token. With an HMAC key and a JSON object the call cannot fail.
/// (The object's keys are written in sorted order.)
#[verifier::external_body]
pub(crate) fn jwt_encode(c: &Claims, secret: &[u8]) -> (r: Option<String>)
    ensures
        r is Some,
        r matches Some(t) ==> t@ == jwt_signed(c.sub@, c.exp as int, c.iat as int, c.username@, secret@),
{
    let mut m = serde_json::Map::new();
    m.insert("sub".to_string(), serde_json::Value::from(c.sub.clone()));
    m.insert("exp".to_string(), serde_json::Value::from(c.exp));
    m.insert("iat".to_string(), serde_json::Value::from(c.iat));
    m.insert("username".to_string(), serde_json::Value::from(c.username.clone()));
    let key = jsonwebtoken::EncodingKey::from_secret(secret);
    jsonwebtoken::encode(&jsonwebtoken::Header::default(), &m, &key).ok()
}

/// `jsonwebtoken::decode` into a JSON value with `DecodingKey::from_secret`
/// and the default validation (HS256, signature checked, `exp` required and
/// not passed, by the clock): the payload as JSON text, or the error's text.
/// Whether it succeeds depends on the time, so only this is claimed: a token
/// signed under the same secret for some claims decodes, if at all, to a
/// payload holding exactly those claims.
#[verifier::external_body]
pub(crate) fn jwt_decode_payload(token: &str, secret: &[u8]) -> (r: Result<String, String>)
    ensures
        forall|s: Seq<char>, e: int, i: int, u: Seq<char>|
            0 <= e <= usize::MAX && 0 <= i <= usize::MAX && token@ == #[trigger] jwt_signed(s, e, i, u, secret@)
                && r is Ok ==> {
                &&& json_str_field(r->Ok_0@, "sub"@) == Some(s)
                &&& json_u64_field(r->Ok_0@, "exp"@) == Some(e as u64)
                &&& json_u64_field(r->Ok_0@, "iat"@) == Some(i as u64)
                &&& json_str_field(r->Ok_0@, "username"@) == Some(u)
            },
{
    let key = jsonwebtoken::DecodingKey::from_secret(secret);
    let data = jsonwebtoken::decode::<serde_json::Value>(token, &key, &jsonwebtoken::Validation::default());
    data.map(|d| d.claims.to_string()).map_err(|e| e.to_string())
}

/// A new token for a user at `now`: signed under `secret`, its claims those of
/// `build_claims` (expiring three days later, issued at `now`).
pub fn create_token(secret: &[u8], user_id: i64, username: &str, now: i64) -> (r: String)
    requires
        now + token_lifetime() <= max_timestamp(),
    ensures
        r@ == jwt_signed(
            dec_spec(user_id as int),
            ((now + token_lifetime()) as usize) as int,
            (now as usize) as int,
            username@,
            secret@,
        ),
{
    let c = build_claims(user_id, username, now, now);
    match jwt_encode(&c, secret) {
        Some(t) => t,
        None => String::new(),
    }
}

/// The claims a payload holds: `sub` and `username` as strings, `exp` and
/// `iat` as unsigned integers that fit a `usize`.
pub open spec fn payload_claims(p: Seq<char>) -> Option<(Seq<char>, u64, u64, Seq<char>)> {
    match (
        json_str_field(p, "sub"@),
        json_u64_field(p, "exp"@),
        json_u64_field(p, "iat"@),
        json_str_field(p, "username"@),
    ) {
        (Some(s), Some(e), Some(i), Some(u)) => if e <= usize::MAX && i <= usize::MAX {
            Some((s, e, i, u))
        } else {
            None
        },
        _ => None,
    }
}

/// The message of a payload without the claims.
pub open spec fn bad_claims_message() -> Seq<char> {
    "the payload does not hold the claims"@
}

/// The claims of a token's payload, or why it has none.
pub fn claims_from_payload(payload: &str) -> (r: Result<Claims, AuthError>)
    ensures
        match payload_claims(payload@) {
            Some((s, e, i, u)) => r matches Ok(c) && c.sub@ == s && c.exp == e && c.iat == i && c.username@
                == u,
            None => r matches Err(AuthError::InvalidToken(m)) && m@ == bad_claims_message(),
        },
{
    let sub = json_string_at(payload, "sub");
    let exp = json_u64_at(payload, "exp");
    let iat = json_u64_at(payload, "iat");
    let username = json_string_at(payload, "username");
    match (sub, exp, iat, username) {
        (Some(s), Some(e), Some(i), Some(u)) => {
            if e <= usize::MAX as u64 && i <= usize::MAX as u64 {
                Ok(Claims { sub: s, exp: e as usize, iat: i as usize, username: u })
            } else {
                Err(AuthError::InvalidToken(String::from_str("the payload does not hold the claims")))
            }
        },
        _ => Err(AuthError::InvalidToken(String::from_str("the payload does not hold the claims"))),
    }
}

/// The claims of a token signed under `secret`, or why it is refused (a bad
/// signature, an expired token, or a payload without the claims, all as
/// `InvalidToken`). A token made by `create_token` under the same secret
/// decodes, when it is still valid, to the claims it was made with.
pub fn decode_token(token: &str, secret: &[u8]) -> (r: Result<Claims, AuthError>)
    ensures
        r matches Err(e) ==> e is InvalidToken,
        forall|s: Seq<char>, e: int, i: int, u: Seq<char>|
            0 <= e <= usize::MAX && 0 <= i <= usize::MAX && token@ == #[trigger] jwt_signed(s, e, i, u, secret@)
                && r is Ok ==> {
                &&& r->Ok_0.sub@ == s
                &&& r->Ok_0.exp == e
                &&& r->Ok_0.iat == i
                &&& r->Ok_0.username@ == u
            },
{
    match jwt_decode_payload(token, secret) {
        Ok(p) => claims_from_payload(p.as_str()),
        Err(m) => Err(AuthError::InvalidToken(m)),
    }
}

// ---------------------------------------------------------------------------
// Passwords
// ---------------------------------------------------------------------------

/// What `bcrypt::verify` answers for a password and a stored hash (`None` for
/// a hash it cannot read).
pub uninterp spec fn bcrypt_verified(password: Seq<char>, hash: Seq<char>) -> Option<bool>;

/// `bcrypt::verify`: the named answer.
#[verifier::external_body]
fn bcrypt_verify(password: &str, hash: &str) -> (r: Option<bool>)
    ensures
        r == bcrypt_verified(password@, hash@),
{
    bcrypt::verify(password, hash).ok()
}

/// `bcrypt::hash` at the default cost with a random salt; a hash it makes
/// verifies the password. At the default cost it fails only when the system's
/// random source cannot give the salt, which nothing here can foresee, so no
/// clause says when it succeeds.
#[verifier::external_body]
fn bcrypt_hash(password: &str) -> (r: Option<String>)
    ensures
        r is Some ==> bcrypt_verified(password@, r->0@) == Some(true),
{
    bcrypt::hash(password, bcrypt::DEFAULT_COST).ok()
}

/// Hashes a password for storage; the hash verifies the password. `None`
/// only when the random salt could not be had.
pub fn hash_password(password: &str) -> (r: Option<String>)
    ensures
        r is Some ==> bcrypt_verified(password@, r->0@) == Some(true),
{
    bcrypt_hash(password)
}

/// Whether a password matches a stored hash (no for a hash that cannot be
/// read).
pub fn verify_password(password: &str, hash: &str) -> (b: bool)
    ensures
        b == (bcrypt_verified(password@, hash@) == Some(true)),
{
    match bcrypt_verify(password, hash) {
        Some(v) => v,
        None => false,
    }
}

} // verus!
