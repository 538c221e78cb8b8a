//! Encryption of stored API keys with AES-256 (base64 text), read back leniently:
//! text that does not decrypt is taken to be stored in the clear.
use vstd::prelude::*;
use crate::text::{from_chars, to_chars};
use magic_crypt::MagicCryptTrait;

verus! {

/// The key used when `API_ENCRYPTION_KEY` is not set.
pub open spec fn default_encryption_key() -> Seq<char> {
    "default_secure_key_1234567890abcdef"@
}

/// The encryption key: the environment's value, or the built-in default.
pub fn encryption_key(env_value: Option<String>) -> (k: String)
    ensures
        k@ == match env_value {
            Some(v) => v@,
            None => default_encryption_key(),
        },
{
    match env_value {
        Some(v) => v,
        None => String::from_str("default_secure_key_1234567890abcdef"),
    }
}

/// The base64 text that AES-256 under `key` (the cipher of `magic_crypt`) makes of `data`.
pub uninterp spec fn aes256_encrypted(key: Seq<char>, data: Seq<char>) -> Seq<char>;

/// What decrypting base64 text under `key` gives: the text, or `None` when it
/// does not decrypt to UTF-8.
pub uninterp spec fn aes256_decrypted(key: Seq<char>, text: Seq<char>) -> Option<Seq<char>>;

/// One character of the standard base64 alphabet, or its padding `=`.
pub open spec fn base64_char(c: char) -> bool {
    ('A' <= c && c <= 'Z') || ('a' <= c && c <= 'z') || ('0' <= c && c <= '9') || c == '+' || c
        == '/' || c == '='
}

/// Standard (padded) base64 text: characters of its alphabet, in groups of four.
pub open spec fn base64_text(s: Seq<char>) -> bool {
    &&& s.len() % 4 == 0
    &&& forall|i: int| 0 <= i < s.len() ==> #[trigger] base64_char(s[i])
}

/// `MagicCrypt256::encrypt_str_to_base64` with the cipher made from `key`
/// (no IV): the named encryption of `data`, which is never empty (a padded
/// block at least), is written in the standard padded base64 alphabet, and
/// decrypts under the same key to `data`.
#[verifier::external_body]
fn aes256_encrypt(key: &str, data: &str) -> (r: String)
    ensures
        r@ == aes256_encrypted(key@, data@),
        r@.len() > 0,
        base64_text(r@),
        aes256_decrypted(key@, r@) == Some(data@),
{
    magic_crypt::MagicCrypt256::new(key, None::<String>).encrypt_str_to_base64(data)
}

/// `MagicCrypt256::decrypt_base64_to_string` with the cipher made from `key`:
/// the named decryption. The text is first read as padded standard base64,
/// so only such text can decrypt.
#[verifier::external_body]
fn aes256_decrypt(key: &str, text: &str) -> (r: Option<String>)
    ensures
        r is Some ==> base64_text(text@),
        r is Some ==> aes256_decrypted(key@, text@) == Some(r->0@),
        r is None ==> aes256_decrypted(key@, text@) is None,
{
    match magic_crypt::MagicCrypt256::new(key, None::<String>).decrypt_base64_to_string(text) {
        Ok(s) => Some(s),
        Err(_) => None,
    }
}

/// The stored form of a secret: empty stays empty.
pub open spec fn encrypt_spec(key: Seq<char>, data: Seq<char>) -> Seq<char> {
    if data.len() == 0 {
        data
    } else {
        aes256_encrypted(key, data)
    }
}

/// The secret of a stored form: empty stays empty, text that does not decrypt
/// is kept as it is.
pub open spec fn decrypt_safe_spec(key: Seq<char>, text: Seq<char>) -> Seq<char> {
    if text.len() == 0 {
        text
    } else {
        match aes256_decrypted(key, text) {
            Some(p) => p,
            None => text,
        }
    }
}

/// Encrypts a secret for storage (base64 text); an empty secret stays empty.
/// Reading the stored form back under the same key gives the secret.
pub fn encrypt(key: &str, data: &str) -> (r: String)
    ensures
        r@ == encrypt_spec(key@, data@),
        base64_text(r@),
        r@.len() == 0 <==> data@.len() == 0,
        decrypt_safe_spec(key@, r@) == data@,
{
    if to_chars(data).len() == 0 {
        return String::new();
    }
    aes256_encrypt(key, data)
}

/// Reads a stored secret: decrypted when it decrypts, as it is otherwise (old
/// data was stored in the clear). Text that is not padded standard base64
/// always comes back unchanged.
pub fn decrypt_safe(key: &str, encrypted: &str) -> (r: String)
    ensures
        r@ == decrypt_safe_spec(key@, encrypted@),
        !base64_text(encrypted@) ==> r@ == encrypted@,
{
    if to_chars(encrypted).len() == 0 {
        return String::new();
    }
    match aes256_decrypt(key, encrypted) {
        Some(p) => p,
        None => String::from_str(encrypted),
    }
}

} // verus!
