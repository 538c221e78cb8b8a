//! Access keys: long-lived API keys with `resource:action` permissions, shown
//! masked once created.
use vstd::prelude::*;
use vstd::utf8::{decode_utf8, encode_utf8, encode_utf8_decode_utf8, is_char_boundary};
use crate::auth::random_secret;
use crate::text::{chars_eq, extend_chars, extend_str, find_from, find_from_exec, from_chars, sub_chars, to_chars};
use crate::user::{hex_lower, hex_lower_exec};

verus! {

/// A stored access key.
pub struct AccessKey {
    pub id: i64,
    pub user_id: i64,
    pub key: String,
    pub name: String,
    /// A JSON array such as `["articles:read","subscriptions:*"]`.
    pub permissions: String,
    pub created_at: Option<String>,
    pub last_used_at: Option<String>,
}

/// An access key as listed: the key itself masked.
pub struct AccessKeyInfo {
    pub id: i64,
    pub name: String,
    pub key_prefix: String,
    pub permissions: Vec<String>,
    pub created_at: Option<String>,
    pub last_used_at: Option<String>,
}

pub struct CreateAccessKeyRequest {
    pub name: String,
    pub permissions: Vec<String>,
}

/// The answer to a creation: the only time the whole key is shown.
pub struct CreateAccessKeyResponse {
    pub id: i64,
    pub name: String,
    pub key: String,
    pub permissions: Vec<String>,
}

/// What `serde_json` reads a text as, when it is a JSON array of strings.
pub uninterp spec fn json_string_array(s: Seq<char>) -> Option<Seq<Seq<char>>>;

/// `serde_json::from_str::<Vec<String>>`: the named reading, `None` for text
/// that is not a JSON array of strings.
#[verifier::external_body]
pub(crate) fn parse_json_string_array(s: &str) -> (r: Option<Vec<String>>)
    ensures
        r is Some ==> json_string_array(s@) == Some(r->0@.map_values(|x: String| x@)),
        r is None ==> json_string_array(s@) is None,
{
    serde_json::from_str::<Vec<String>>(s).ok()
}

/// The key shown in lists: the first eight and last four bytes around `...`
/// for a key longer than twelve bytes, the key itself otherwise.
pub open spec fn key_prefix_spec(key: Seq<char>) -> Seq<char> {
    let b = encode_utf8(key);
    if b.len() > 12 {
        decode_utf8(b.subrange(0, 8)) + "..."@ + decode_utf8(b.subrange(b.len() - 4, b.len() as int))
    } else {
        key
    }
}

/// The cuts of a long key fall between characters.
pub open spec fn key_cuttable(key: Seq<char>) -> bool {
    let b = encode_utf8(key);
    b.len() > 12 ==> is_char_boundary(b, 8) && is_char_boundary(b, b.len() - 4)
}

impl AccessKey {
    /// The permissions stored as JSON; none when they do not parse.
    pub fn parse_permissions(&self) -> (r: Vec<String>)
        ensures
            r@.map_values(|x: String| x@) == match json_string_array(self.permissions@) {
                Some(v) => v,
                None => Seq::<Seq<char>>::empty(),
            },
    {
        match parse_json_string_array(self.permissions.as_str()) {
            Some(v) => v,
            None => {
                let v: Vec<String> = Vec::new();
                assert(v@.map_values(|x: String| x@) =~= Seq::<Seq<char>>::empty());
                v
            },
        }
    }

    /// The masked key.
    pub fn key_prefix(&self) -> (r: String)
        requires
            key_cuttable(self.key@),
        ensures
            r@ == key_prefix_spec(self.key@),
    {
        let key = self.key.as_str();
        let n = key.as_bytes().len();
        if n > 12 {
            let (head, _) = key.split_at(8);
            let (_, tail) = key.split_at(n - 4);
            proof {
                encode_utf8_decode_utf8(head@);
                encode_utf8_decode_utf8(tail@);
            }
            let mut v = to_chars(head);
            extend_str(&mut v, "...");
            extend_str(&mut v, tail);
            from_chars(&v)
        } else {
            self.key.clone()
        }
    }

    /// The key as listed: masked, with its permissions read.
    pub fn to_info(&self) -> (info: AccessKeyInfo)
        requires
            key_cuttable(self.key@),
        ensures
            info.id == self.id,
            info.name@ == self.name@,
            info.key_prefix@ == key_prefix_spec(self.key@),
            info.permissions@.map_values(|x: String| x@) == match json_string_array(self.permissions@) {
                Some(v) => v,
                None => Seq::<Seq<char>>::empty(),
            },
            opt_view(info.created_at) == opt_view(self.created_at),
            opt_view(info.last_used_at) == opt_view(self.last_used_at),
    {
        AccessKeyInfo {
            id: self.id,
            name: self.name.clone(),
            key_prefix: self.key_prefix(),
            permissions: self.parse_permissions(),
            created_at: clone_opt(&self.created_at),
            last_used_at: clone_opt(&self.last_used_at),
        }
    }
}

/// Whether permission `perm` grants `action` on `resource`: `*` grants
/// everything, `res:*` every action on `res`, `res:act` that action. The
/// resource is what precedes the first `:`.
pub open spec fn perm_grants(perm: Seq<char>, resource: Seq<char>, action: Seq<char>) -> bool {
    match find_from(perm, seq![':'], 0) {
        None => perm == seq!['*'],
        Some(j) => perm.take(j) == resource && (perm.skip(j + 1) == seq!['*'] || perm.skip(j + 1) == action),
    }
}

/// Some permission of the list grants `action` on `resource`.
pub open spec fn check_permission_spec(perms: Seq<Seq<char>>, resource: Seq<char>, action: Seq<char>) -> bool {
    exists|i: int| 0 <= i < perms.len() && perm_grants(#[trigger] perms[i], resource, action)
}

fn perm_grants_exec(perm: &str, resource: &str, action: &str) -> (b: bool)
    ensures
        b == perm_grants(perm@, resource@, action@),
{
    let p = to_chars(perm);
    let colon = vec![':'];
    assert(colon@ =~= seq![':']);
    let plen = p.len();
    assert(p@.len() == plen);
    match find_from_exec(p.as_slice(), colon.as_slice(), 0) {
        None => {
            let star = vec!['*'];
            assert(star@ =~= seq!['*']);
            chars_eq(&p, &star)
        },
        Some(j) => {
            proof {
                crate::text::lemma_find_from_facts(p@, colon@, 0);
                let jj = find_from(p@, colon@, 0)->0;
                assert(crate::text::matches_at(p@, colon@, jj));
                assert(jj == j as int);
                assert(colon@.len() == 1);
                assert(j + 1 <= p@.len());
            }
            let res = sub_chars(&p, 0, j);
            let act = sub_chars(&p, j + 1, p.len());
            assert(res@ =~= p@.take(j as int));
            assert(act@ =~= p@.skip(j + 1));
            let star = vec!['*'];
            assert(star@ =~= seq!['*']);
            chars_eq(&res, &to_chars(resource)) && (chars_eq(&act, &star) || chars_eq(&act, &to_chars(action)))
        },
    }
}

/// Whether any of the permissions grants `action` on `resource`
/// (`articles:read`, `articles:*` or `*`).
pub fn check_permission(permissions: &[String], resource: &str, action: &str) -> (b: bool)
    ensures
        b == check_permission_spec(permissions@.map_values(|x: String| x@), resource@, action@),
{
    let ghost ps = permissions@.map_values(|x: String| x@);
    let mut i: usize = 0;
    while i < permissions.len()
        invariant
            i <= permissions.len(),
            ps == permissions@.map_values(|x: String| x@),
            forall|k: int| 0 <= k < i ==> !perm_grants(#[trigger] ps[k], resource@, action@),
        decreases permissions.len() - i,
    {
        if perm_grants_exec(permissions[i].as_str(), resource, action) {
            assert(perm_grants(ps[i as int], resource@, action@));
            return true;
        }
        i += 1;
    }
    false
}

/// `*` grants every action on every resource, and `res:*` every action on
/// `res`.
pub proof fn lemma_wildcards(resource: Seq<char>, action: Seq<char>)
    ensures
        perm_grants(seq!['*'], resource, action),
        perm_grants(resource + seq![':'] + seq!['*'], resource, action) <== find_from(resource, seq![':'], 0) is None,
{
    crate::text::lemma_find_from_facts(seq!['*'], seq![':'], 0);
    if find_from(seq!['*'], seq![':'], 0) is Some {
        let j = find_from(seq!['*'], seq![':'], 0)->0;
        assert(seq!['*'].subrange(j, j + 1) =~= seq![seq!['*'][j]]);
    }
    let p = resource + seq![':'] + seq!['*'];
    if find_from(resource, seq![':'], 0) is None {
        crate::text::lemma_find_from_facts(resource, seq![':'], 0);
        let n = resource.len() as int;
        assert(p.subrange(n, n + 1) =~= seq![':']);
        crate::text::lemma_find_from_some(p, seq![':'], 0, n);
        let j = find_from(p, seq![':'], 0)->0;
        if j < n {
            assert(p.subrange(j, j + 1) =~= resource.subrange(j, j + 1));
            assert(crate::text::matches_at(resource, seq![':'], j));
        }
        assert(p.take(n) =~= resource);
        assert(p.skip(n + 1) =~= seq!['*']);
    }
}

/// The text of an optional string, as an optional sequence.
pub open spec fn opt_view(o: Option<String>) -> Option<Seq<char>> {
    match o {
        Some(s) => Some(s@),
        None => None,
    }
}

fn clone_opt(o: &Option<String>) -> (r: Option<String>)
    ensures
        opt_view(r) == opt_view(*o),
{
    match o {
        Some(s) => Some(s.clone()),
        None => None,
    }
}

// ---------------------------------------------------------------------------
// New keys
// ---------------------------------------------------------------------------

/// The JSON text of an array of strings.
pub uninterp spec fn json_strings_text(items: Seq<Seq<char>>) -> Seq<char>;

/// `serde_json::to_string` of a list of strings (which cannot fail): the named
/// text.
#[verifier::external_body]
pub(crate) fn json_of_strings(items: &Vec<String>) -> (r: String)
    ensures
        r@ == json_strings_text(items@.map_values(|x: String| x@)),
{
    serde_json::to_string(items).unwrap_or_else(|_| "[]".to_string())
}

/// The key made of random bytes: `trss_` and the bytes in hex.
pub open spec fn key_of_bytes(b: Seq<u8>) -> Seq<char> {
    "trss_"@ + hex_lower(b)
}

/// A new access key: `trss_` followed by 32 random bytes in hex.
pub fn generate_access_key() -> (r: String)
    ensures
        exists|b: Seq<u8>| b.len() == 32 && r@ == key_of_bytes(b),
{
    let bytes = random_secret();
    let mut v = to_chars("trss_");
    extend_chars(&mut v, &hex_lower_exec(&bytes));
    let r = from_chars(&v);
    assert(r@ == key_of_bytes(bytes@));
    r
}

} // verus!
