//! The Google Reader compatible API: item identifiers, continuation tokens,
//! stream filters and the shape of the items it serves.
use vstd::prelude::*;
use crate::num::{all_digits, dec_spec, digit_val, digit_val_exec, hex_pad, hex_pad_spec, i64_to_dec, lemma_div_smaller, lemma_hex_pad_value, lemma_radix_digits_len, lemma_radix_digits_value, parse_i64, parse_i64_spec, parse_i64_str, parse_u64_radix, parse_u64_radix_spec, radix_digits, strip_plus};
use crate::text::{extend_chars, from_chars, starts_with_exec, starts_with_spec, sub_chars, to_chars};
use vstd::arithmetic::power::pow;
use vstd::utf8::{valid_utf8, decode_utf8, encode_utf8, encode_utf8_valid_utf8, encode_utf8_decode_utf8, is_ascii_chars, is_ascii_chars_encode_utf8};

verus! {

// ---------------------------------------------------------------------------
// Protocol constants
// ---------------------------------------------------------------------------

/// The prefix of a long-form item identifier.
pub open spec fn item_prefix() -> Seq<char> {
    "tag:google.com,2005:reader/item/"@
}

/// The `read` state tag.
pub open spec fn state_read() -> Seq<char> {
    "user/-/state/com.google/read"@
}

/// The `starred` state tag.
pub open spec fn state_starred() -> Seq<char> {
    "user/-/state/com.google/starred"@
}

/// The reading list, the stream of every article.
pub open spec fn state_reading_list() -> Seq<char> {
    "user/-/state/com.google/reading-list"@
}

/// The `kept-unread` state tag.
pub open spec fn state_kept_unread() -> Seq<char> {
    "user/-/state/com.google/kept-unread"@
}

/// The `fresh` state tag.
pub open spec fn state_fresh() -> Seq<char> {
    "user/-/state/com.google/fresh"@
}

// ---------------------------------------------------------------------------
// Item identifiers
// ---------------------------------------------------------------------------

/// The long-form identifier of an item: the prefix and sixteen hex digits of
/// the id's two's-complement bits.
pub open spec fn item_id_to_greader_spec(id: i64) -> Seq<char> {
    item_prefix() + hex_pad_spec((id as u64) as nat, 16)
}

/// An identifier read back: the long form, sixteen bare hex digits, or a
/// decimal number.
pub open spec fn greader_to_item_id_spec(g: Seq<char>) -> Option<i64> {
    if starts_with_spec(g, item_prefix()) {
        match parse_u64_radix_spec(g.skip(item_prefix().len() as int), 16) {
            Some(v) => Some(v as i64),
            None => None,
        }
    } else if g.len() == 16 && all_digits(g, 16) {
        match parse_u64_radix_spec(g, 16) {
            Some(v) => Some(v as i64),
            None => None,
        }
    } else {
        parse_i64_spec(g)
    }
}

/// Formats an article id as a long-form item identifier.
pub fn item_id_to_greader(id: i64) -> (s: String)
    ensures
        s@ == item_id_to_greader_spec(id),
{
    let mut v = to_chars("tag:google.com,2005:reader/item/");
    let h = hex_pad(id as u64, 16);
    extend_chars(&mut v, &h);
    from_chars(&v)
}

/// Reads an item identifier in any of the three accepted forms.
pub fn greader_to_item_id(greader_id: &str) -> (r: Option<i64>)
    ensures
        r == greader_to_item_id_spec(greader_id@),
{
    let g = to_chars(greader_id);
    let p = to_chars("tag:google.com,2005:reader/item/");
    if starts_with_exec(&g, &p) {
        let hex = sub_chars(&g, p.len(), g.len());
        assert(hex@ =~= g@.skip(item_prefix().len() as int));
        match parse_u64_radix(&hex, 16) {
            Some(v) => Some(v as i64),
            None => None,
        }
    } else if g.len() == 16 && all_hex(&g) {
        match parse_u64_radix(&g, 16) {
            Some(v) => Some(v as i64),
            None => None,
        }
    } else {
        parse_i64(&g)
    }
}

/// Every character is an ASCII hex digit.
fn all_hex(g: &[char]) -> (r: bool)
    ensures
        r == all_digits(g@, 16),
{
    let mut i: usize = 0;
    while i < g.len()
        invariant
            i <= g.len(),
            forall|k: int| 0 <= k < i ==> (#[trigger] digit_val(g@[k], 16)) is Some,
        decreases g.len() - i,
    {
        if digit_val_exec(g[i], 16).is_none() {
            return false;
        }
        i += 1;
    }
    true
}

proof fn lemma_u64_i64_roundtrip(id: i64)
    ensures
        ((id as u64) as i64) == id,
{
    assert(((id as u64) as i64) == id) by (bit_vector);
}

/// A formatted identifier reads back as the id it was made from.
pub proof fn lemma_item_id_roundtrip(id: i64)
    ensures
        greader_to_item_id_spec(item_id_to_greader_spec(id)) == Some(id),
{
    let n = (id as u64) as nat;
    let h = hex_pad_spec(n, 16);
    let g = item_id_to_greader_spec(id);
    let p = item_prefix();
    assert(g.take(p.len() as int) =~= p);
    assert(g.skip(p.len() as int) =~= h);
    lemma_hex_pad_value(n, 16);
    assert(all_digits(h, 16));
    assert(h.len() > 0);
    assert(digit_val(h[0], 16) is Some);
    assert(h[0] != '+');
    assert(strip_plus(h) == h);
    lemma_u64_i64_roundtrip(id);
}

// ---------------------------------------------------------------------------
// Continuation tokens
// ---------------------------------------------------------------------------

/// What the URL-safe, unpadded base64 engine decodes a text to.
pub uninterp spec fn base64_url_decoded(s: Seq<char>) -> Option<Seq<u8>>;

/// What the URL-safe, unpadded base64 engine encodes bytes as.
pub uninterp spec fn base64_url_encoded(b: Seq<u8>) -> Seq<char>;

/// Calls `base64::Engine::decode` on `URL_SAFE_NO_PAD`; the result is the
/// named decoding of the text, `None` where the engine reports an error, and
/// the encoding of some bytes decodes to those bytes.
#[verifier::external_body]
fn base64_url_decode(s: &str) -> (r: Option<Vec<u8>>)
    ensures
        r is Some ==> base64_url_decoded(s@) == Some(r->0@),
        r is None ==> base64_url_decoded(s@) is None,
        forall|b: Seq<u8>| s@ == #[trigger] base64_url_encoded(b) ==> r is Some && r->0@ == b,
{
    base64::Engine::decode(&base64::engine::general_purpose::URL_SAFE_NO_PAD, s).ok()
}

/// Calls `base64::Engine::encode` on `URL_SAFE_NO_PAD`; the result is the named
/// encoding of the bytes.
#[verifier::external_body]
fn base64_url_encode(b: &[u8]) -> (r: String)
    requires
        b.len() <= usize::MAX / 2,
    ensures
        r@ == base64_url_encoded(b@),
{
    base64::Engine::encode(&base64::engine::general_purpose::URL_SAFE_NO_PAD, b)
}

/// `std::str::from_utf8`: the text that valid UTF-8 bytes encode, `None` for
/// bytes that are not valid UTF-8.
#[verifier::external_body]
pub(crate) fn utf8_decode(b: &[u8]) -> (r: Option<String>)
    ensures
        r is Some <==> valid_utf8(b@),
        r is Some ==> r->0@ == decode_utf8(b@),
{
    match std::str::from_utf8(b) {
        Ok(s) => Some(s.to_string()),
        Err(_) => None,
    }
}

/// The offset a continuation token stands for: base64 of the decimal text,
/// with 0 for anything that does not decode to a number.
pub open spec fn parse_continuation_spec(c: Seq<char>) -> i64 {
    let bytes = match base64_url_decoded(c) {
        Some(b) => b,
        None => Seq::<u8>::empty(),
    };
    if valid_utf8(bytes) {
        match parse_i64_spec(decode_utf8(bytes)) {
            Some(v) => v,
            None => 0,
        }
    } else {
        0
    }
}

/// The token that stands for an offset.
pub open spec fn encode_continuation_spec(offset: i64) -> Seq<char> {
    base64_url_encoded(encode_utf8(dec_spec(offset as int)))
}

/// Reads the offset out of a continuation token; the token made for an offset
/// reads back as that offset.
pub fn parse_continuation(c: &str) -> (r: i64)
    ensures
        r == parse_continuation_spec(c@),
        forall|o: i64| c@ == #[trigger] encode_continuation_spec(o) ==> r == o,
{
    let decoded = match base64_url_decode(c) {
        Some(b) => b,
        None => Vec::new(),
    };
    assert(base64_url_decoded(c@) is None ==> decoded@ =~= Seq::<u8>::empty());
    let r = match utf8_decode(&decoded) {
        Some(s) => match parse_i64_str(s.as_str()) {
            Some(v) => v,
            None => 0,
        },
        None => 0,
    };
    proof {
        assert forall|o: i64| c@ == #[trigger] encode_continuation_spec(o) implies r == o by {
            let d = dec_spec(o as int);
            encode_utf8_valid_utf8(d);
            encode_utf8_decode_utf8(d);
            lemma_parse_dec(o);
        }
    }
    r
}

/// Encodes an offset as a continuation token (base64 of its decimal text).
pub fn encode_continuation(offset: i64) -> (r: String)
    ensures
        r@ == encode_continuation_spec(offset),
{
    let digits = from_chars(&i64_to_dec(offset));
    let bytes = digits.as_str().as_bytes();
    proof {
        lemma_dec_len(offset);
        lemma_dec_ascii_len(offset as int);
    }
    base64_url_encode(bytes)
}

/// Reading the decimal text of a number gives the number.
pub proof fn lemma_parse_dec(n: i64)
    ensures
        parse_i64_spec(dec_spec(n as int)) == Some(n),
{
    if n < 0 {
        let m = (-n) as nat;
        lemma_radix_digits_value(m, 10);
        let d = dec_spec(n as int);
        assert(d.drop_first() =~= radix_digits(m, 10));
    } else {
        let m = n as nat;
        lemma_radix_digits_value(m, 10);
        let d = radix_digits(m, 10);
        assert(digit_val(d[0], 10) is Some);
        assert(strip_plus(d) == d);
    }
}

/// The decimal text of a number is ASCII, so it has as many UTF-8 bytes as
/// characters.
proof fn lemma_dec_ascii_len(n: int)
    ensures
        encode_utf8(dec_spec(n)).len() == dec_spec(n).len(),
{
    let m: nat = if n < 0 { (-n) as nat } else { n as nat };
    lemma_radix_digits_value(m, 10);
    let d = dec_spec(n);
    let r = radix_digits(m, 10);
    if n < 0 {
        assert(d =~= seq!['-'] + r);
    }
    assert forall|i: int| 0 <= i < d.len() implies '\0' <= #[trigger] d[i] <= '\u{7f}' by {
        if n < 0 && i == 0 {
            assert(d[i] == '-');
        } else if n < 0 {
            assert(d[i] == r[i - 1]);
            assert(digit_val(r[i - 1], 10) is Some);
        } else {
            assert(digit_val(r[i], 10) is Some);
        }
        lemma_char_ascii(d[i]);
    }
    assert(is_ascii_chars(d));
    is_ascii_chars_encode_utf8(d);
}

proof fn lemma_char_ascii(c: char)
    requires
        c == '-' || digit_val(c, 10) is Some,
    ensures
        '\0' <= c <= '\u{7f}',
{
}

/// The decimal text of an `i64` has at most twenty characters.
proof fn lemma_dec_len(n: i64)
    ensures
        dec_spec(n as int).len() <= 20,
{
    let m: nat = if n < 0 { (-n) as nat } else { n as nat };
    assert(m < pow(10, 19)) by {
        reveal_with_fuel(pow, 20);
        assert(pow(10, 19) == 10000000000000000000int);
    }
    lemma_radix_digits_len(m, 10, 19);
}

} // verus!
