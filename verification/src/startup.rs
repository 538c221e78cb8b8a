//! Starting the server: the default account of an empty store, when the
//! store is compacted, the token-signing secret kept in the store, the
//! front-end files served, and the options of the store set-up tool.
use vstd::prelude::*;
use crate::auth::{
    bcrypt_verified, get_jwt_secret, init_jwt_secret, secret_from_env,
    secret_from_env_spec, JwtSecret,
};
use crate::text::{chars_eq, from_chars, to_chars, trim_start_char, trim_start_char_spec};
use crate::user::{default_trans_style_spec, fever_key_spec, hex_lower, hex_lower_exec, new_account, NewAccount};

verus! {

/// The account to make at start-up: none when the store has users, else
/// `admin` with password `admin`; `Err` when hashing fails.
pub fn default_admin(user_count: i64) -> (r: Result<Option<NewAccount>, ()>)
    ensures
        user_count != 0 ==> r == Ok::<Option<NewAccount>, ()>(None),
        user_count == 0 ==> match r {
            Ok(Some(a)) => {
                &&& a.username@ == "admin"@
                &&& bcrypt_verified("admin"@, a.password_hash@) == Some(true)
                &&& a.fever_api_key@ == fever_key_spec("admin"@, "admin"@)
                &&& a.custom_trans_style@ == default_trans_style_spec()
            },
            Ok(None) => false,
            Err(_) => true,
        },
{
    if user_count != 0 {
        return Ok(None);
    }
    match new_account("admin", "admin") {
        None => Err(()),
        Some(a) => Ok(Some(a)),
    }
}

/// The store is compacted at start-up when it has more than 1000 free pages.
pub fn should_vacuum(freelist: i64) -> (b: bool)
    ensures
        b == (freelist > 1000),
{
    freelist > 1000
}

/// The signing secret at start-up, and the hex text to store: a valid stored
/// secret (at least 32 bytes of hex) is used when none is set yet; the secret
/// then in use (else that of the environment, else a random one) is the
/// result; it is stored only when the store had none.
pub fn sync_jwt_secret(slot: &mut JwtSecret, stored: Option<&str>, env_value: Option<&str>) -> (r: (
    Vec<u8>,
    Option<String>,
))
    ensures
        final(slot).value is Some,
        r.0@ == final(slot).value->0@,
        old(slot).value is Some ==> final(slot).value == old(slot).value,
        old(slot).value is None ==> (stored matches Some(s) ==> (secret_from_env_spec(s@) matches Some(b)
            ==> r.0@ == b)),
        stored is Some ==> r.1 is None,
        stored is None ==> (r.1 matches Some(h) && h@ == hex_lower(r.0@)),
{
    if let Some(s) = stored {
        if let Some(bytes) = secret_from_env(s) {
            let _ = init_jwt_secret(slot, bytes);
        }
    }
    let secret = get_jwt_secret(slot, env_value);
    let to_store = match stored {
        Some(_) => None,
        None => Some(from_chars(&hex_lower_exec(&secret))),
    };
    (secret, to_store)
}

// ---------------------------------------------------------------------------
// Front-end files
// ---------------------------------------------------------------------------

/// The name of a front-end file asked for by a request path.
pub open spec fn asset_name_spec(path: Seq<char>) -> Seq<char> {
    trim_start_char_spec(path, '/')
}

/// The name of the front-end file a request path asks for: the path without
/// its leading slashes.
pub fn asset_name(path: &str) -> (r: String)
    ensures
        r@ == asset_name_spec(path@),
{
    from_chars(&trim_start_char(&to_chars(path), '/'))
}

/// The media type guessed from a file name's extension, the generic binary
/// type when none is known.
pub uninterp spec fn guessed_mime(name: Seq<char>) -> Seq<char>;

/// `mime_guess::from_path(name).first_or_octet_stream()`, as text: the named
/// type.
#[verifier::external_body]
fn mime_of(name: &str) -> (r: String)
    ensures
        r@ == guessed_mime(name@),
{
    mime_guess::from_path(name).first_or_octet_stream().to_string()
}

/// How a request for a front-end file is answered.
pub enum FrontendReply {
    /// The file itself, with its media type and caching.
    Asset { name: String, content_type: String, cache_control: String },
    /// The page of the single-page application, never cached.
    Index,
    /// No front end was built in.
    Missing,
}

/// The answer to a request path: the built-in file it names when there is
/// one (the page itself never cached, the other files for a year), else the
/// application's page when there is one, else nothing.
pub fn frontend_reply(path: &str, asset_found: bool, index_found: bool) -> (r: FrontendReply)
    ensures
        asset_found ==> (r matches FrontendReply::Asset { name, content_type, cache_control } && {
            &&& name@ == asset_name_spec(path@)
            &&& content_type@ == guessed_mime(asset_name_spec(path@))
            &&& asset_name_spec(path@) == "index.html"@ ==> cache_control@ == "no-cache"@
            &&& asset_name_spec(path@) != "index.html"@ ==> cache_control@
                == "public, max-age=31536000, immutable"@
        }),
        !asset_found && index_found ==> r is Index,
        !asset_found && !index_found ==> r is Missing,
{
    if asset_found {
        let name = asset_name(path);
        let cache = if chars_eq(&to_chars(name.as_str()), &to_chars("index.html")) {
            String::from_str("no-cache")
        } else {
            String::from_str("public, max-age=31536000, immutable")
        };
        let content_type = mime_of(name.as_str());
        FrontendReply::Asset { name, content_type, cache_control: cache }
    } else if index_found {
        FrontendReply::Index
    } else {
        FrontendReply::Missing
    }
}

// ---------------------------------------------------------------------------
// Options of the set-up tool
// ---------------------------------------------------------------------------

/// The first position `i` from `from` on where `args[i]` is `key` and a value
/// follows.
pub open spec fn arg_pos(args: Seq<Seq<char>>, key: Seq<char>, from: int) -> Option<int>
    decreases args.len() - from,
{
    if from < 0 || from + 1 >= args.len() {
        None
    } else if args[from] == key {
        Some(from)
    } else {
        arg_pos(args, key, from + 1)
    }
}

/// The value of an option: what follows its first occurrence that has
/// something after it, else the default.
pub open spec fn get_arg_spec(args: Seq<Seq<char>>, key: Seq<char>, default: Seq<char>) -> Seq<char> {
    match arg_pos(args, key, 0) {
        Some(i) => args[i + 1],
        None => default,
    }
}

/// The value of a command-line option (`--key value`), or the default.
pub fn get_arg(args: &[String], key: &str, default: &str) -> (r: String)
    ensures
        r@ == get_arg_spec(args@.map_values(|a: String| a@), key@, default@),
{
    let ghost av = args@.map_values(|a: String| a@);
    let k = to_chars(key);
    let mut i: usize = 0;
    while i < args.len() && i + 1 < args.len()
        invariant
            av == args@.map_values(|a: String| a@),
            av.len() == args.len(),
            k@ == key@,
            i <= args.len(),
            arg_pos(av, key@, i as int) == arg_pos(av, key@, 0),
        decreases args.len() - i,
    {
        if chars_eq(&to_chars(args[i].as_str()), &k) {
            assert(av[i as int] == args@[i as int]@);
            return args[i + 1].clone();
        }
        i += 1;
    }
    from_chars(&to_chars(default))
}

} // verus!
