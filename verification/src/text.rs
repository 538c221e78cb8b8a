//! Character-level text operations with exact specifications.
//!
//! Strings are handled as sequences of `char`; the spec functions here say what
//! the familiar `str` operations (trim, replace, split, find) compute, and the
//! executable functions are proved to compute exactly that.
use vstd::prelude::*;

verus! {

// ---------------------------------------------------------------------------
// Specifications
// ---------------------------------------------------------------------------

/// Unicode `White_Space`, the set that `char::is_whitespace` accepts.
pub open spec fn is_ws(c: char) -> bool {
    let u = c as u32;
    ||| (0x9 <= u && u <= 0xD)
    ||| u == 0x20
    ||| u == 0x85
    ||| u == 0xA0
    ||| u == 0x1680
    ||| (0x2000 <= u && u <= 0x200A)
    ||| u == 0x2028
    ||| u == 0x2029
    ||| u == 0x202F
    ||| u == 0x205F
    ||| u == 0x3000
}

/// `s` without its trailing whitespace.
pub open spec fn trim_end_spec(s: Seq<char>) -> Seq<char>
    decreases s.len(),
{
    if s.len() > 0 && is_ws(s.last()) {
        trim_end_spec(s.drop_last())
    } else {
        s
    }
}

/// `s` without its leading whitespace.
pub open spec fn trim_start_spec(s: Seq<char>) -> Seq<char>
    decreases s.len(),
{
    if s.len() > 0 && is_ws(s[0]) {
        trim_start_spec(s.drop_first())
    } else {
        s
    }
}

/// `s` without leading and trailing whitespace (`str::trim`).
pub open spec fn trim_spec(s: Seq<char>) -> Seq<char> {
    trim_start_spec(trim_end_spec(s))
}

/// `s` without trailing occurrences of `c` (`str::trim_end_matches` with a char).
pub open spec fn trim_end_char_spec(s: Seq<char>, c: char) -> Seq<char>
    decreases s.len(),
{
    if s.len() > 0 && s.last() == c {
        trim_end_char_spec(s.drop_last(), c)
    } else {
        s
    }
}

/// `s` without leading occurrences of `c`.
pub open spec fn trim_start_char_spec(s: Seq<char>, c: char) -> Seq<char>
    decreases s.len(),
{
    if s.len() > 0 && s[0] == c {
        trim_start_char_spec(s.drop_first(), c)
    } else {
        s
    }
}

/// `pat` occurs in `s` at position `i`.
pub open spec fn matches_at(s: Seq<char>, pat: Seq<char>, i: int) -> bool {
    0 <= i && i + pat.len() <= s.len() && s.subrange(i, i + pat.len()) == pat
}

/// The first position at or after `i` where `pat` occurs in `s`.
pub open spec fn find_from(s: Seq<char>, pat: Seq<char>, i: int) -> Option<int>
    decreases s.len() + 1 - i,
{
    if i < 0 || i + pat.len() > s.len() {
        None
    } else if matches_at(s, pat, i) {
        Some(i)
    } else {
        find_from(s, pat, i + 1)
    }
}

/// `pat` occurs somewhere in `s` (`str::contains`).
pub open spec fn contains_spec(s: Seq<char>, pat: Seq<char>) -> bool {
    find_from(s, pat, 0) is Some
}

/// `s` begins with `p`.
pub open spec fn starts_with_spec(s: Seq<char>, p: Seq<char>) -> bool {
    p.len() <= s.len() && s.take(p.len() as int) == p
}

/// `s` ends with `p`.
pub open spec fn ends_with_spec(s: Seq<char>, p: Seq<char>) -> bool {
    p.len() <= s.len() && s.skip(s.len() - p.len()) == p
}

/// Every non-overlapping occurrence of `pat` in `s`, scanning from the left,
/// replaced by `rep` (`str::replace` for a non-empty pattern).
pub open spec fn replace_spec(s: Seq<char>, pat: Seq<char>, rep: Seq<char>) -> Seq<char>
    recommends
        pat.len() > 0,
    decreases s.len(),
{
    if pat.len() == 0 || s.len() < pat.len() {
        s
    } else if s.take(pat.len() as int) == pat {
        rep + replace_spec(s.skip(pat.len() as int), pat, rep)
    } else {
        seq![s[0]] + replace_spec(s.drop_first(), pat, rep)
    }
}

/// Every occurrence of the character `c` replaced by `rep`.
pub open spec fn replace_char_spec(s: Seq<char>, c: char, rep: Seq<char>) -> Seq<char>
    decreases s.len(),
{
    if s.len() == 0 {
        s
    } else if s[0] == c {
        rep + replace_char_spec(s.drop_first(), c, rep)
    } else {
        seq![s[0]] + replace_char_spec(s.drop_first(), c, rep)
    }
}

/// The pieces of `s` between the non-overlapping occurrences of the non-empty
/// separator `sep`, scanning from the left (`str::split`).
pub open spec fn split_spec(s: Seq<char>, sep: Seq<char>) -> Seq<Seq<char>>
    recommends
        sep.len() > 0,
    decreases s.len(),
{
    if sep.len() == 0 {
        seq![s]
    } else {
        proof {
            lemma_find_from_facts(s, sep, 0);
        }
        match find_from(s, sep, 0) {
            None => seq![s],
            Some(j) => seq![s.take(j)] + split_spec(s.skip(j + sep.len()), sep),
        }
    }
}

/// The last piece of `split_spec(s, sep)`.
pub open spec fn split_last_spec(s: Seq<char>, sep: Seq<char>) -> Seq<char>
    recommends
        sep.len() > 0,
    decreases s.len(),
{
    if sep.len() == 0 {
        s
    } else {
        proof {
            lemma_find_from_facts(s, sep, 0);
        }
        match find_from(s, sep, 0) {
            None => s,
            Some(j) => split_last_spec(s.skip(j + sep.len()), sep),
        }
    }
}

/// The pieces joined with `sep` between them (`[String]::join`).
pub open spec fn join_spec(parts: Seq<Seq<char>>, sep: Seq<char>) -> Seq<char>
    decreases parts.len(),
{
    if parts.len() == 0 {
        seq![]
    } else if parts.len() == 1 {
        parts[0]
    } else {
        join_spec(parts.drop_last(), sep) + sep + parts.last()
    }
}

/// ASCII lower-casing of one character.
pub open spec fn ascii_lower(c: char) -> char {
    if 'A' <= c && c <= 'Z' {
        ((c as u32) + 32) as char
    } else {
        c
    }
}

// ---------------------------------------------------------------------------
// Lemmas
// ---------------------------------------------------------------------------

/// Pushing a piece extends the joined text by the separator and the piece.
pub proof fn lemma_join_push(parts: Seq<Seq<char>>, sep: Seq<char>, p: Seq<char>)
    ensures
        join_spec(parts.push(p), sep) == if parts.len() == 0 {
            p
        } else {
            join_spec(parts, sep) + sep + p
        },
{
    assert(parts.push(p).drop_last() =~= parts);
}

/// A position where `pat` occurs bounds the first occurrence from below.
pub proof fn lemma_find_from_some(s: Seq<char>, pat: Seq<char>, i: int, k: int)
    requires
        0 <= i <= k,
        matches_at(s, pat, k),
    ensures
        find_from(s, pat, i) is Some,
        find_from(s, pat, i)->0 <= k,
        i <= find_from(s, pat, i)->0,
        matches_at(s, pat, find_from(s, pat, i)->0),
    decreases k - i,
{
    if i < k && !matches_at(s, pat, i) {
        lemma_find_from_some(s, pat, i + 1, k);
    }
}

/// The first occurrence found from `i` is an occurrence, and none lies before it.
pub proof fn lemma_find_from_facts(s: Seq<char>, pat: Seq<char>, i: int)
    requires
        0 <= i,
    ensures
        find_from(s, pat, i) is Some ==> {
            let j = find_from(s, pat, i)->0;
            &&& i <= j
            &&& matches_at(s, pat, j)
            &&& forall|k: int| i <= k < j ==> !matches_at(s, pat, k)
        },
        find_from(s, pat, i) is None ==> forall|k: int| i <= k ==> !matches_at(s, pat, k),
    decreases s.len() + 1 - i,
{
    if i + pat.len() > s.len() {
    } else if matches_at(s, pat, i) {
    } else {
        lemma_find_from_facts(s, pat, i + 1);
    }
}

// ---------------------------------------------------------------------------
// Conversions between `str`/`String` and `Vec<char>`
// ---------------------------------------------------------------------------

/// The characters of `s`, in order.
pub fn to_chars(s: &str) -> (v: Vec<char>)
    ensures
        v@ == s@,
{
    let mut v: Vec<char> = Vec::new();
    for c in it: s.chars()
        invariant
            v@ == it.seq().take(it.index() as int),
            it.seq() == s@,
    {
        v.push(c);
    }
    v
}

/// Appends one character to a string (`String::push`).
#[verifier::external_body]
pub fn push_char(s: &mut String, c: char)
    ensures
        final(s)@ == old(s)@.push(c),
{
    s.push(c);
}

/// A string holding exactly the given characters.
pub fn from_chars(v: &[char]) -> (s: String)
    ensures
        s@ == v@,
{
    let mut s = String::new();
    let mut i: usize = 0;
    while i < v.len()
        invariant
            i <= v.len(),
            s@ == v@.take(i as int),
        decreases v.len() - i,
    {
        push_char(&mut s, v[i]);
        assert(v@.take(i as int).push(v@[i as int]) =~= v@.take(i + 1));
        i += 1;
    }
    assert(v@.take(v@.len() as int) =~= v@);
    s
}

/// Appends all characters of `src` to `dst`.
pub fn extend_chars(dst: &mut Vec<char>, src: &[char])
    ensures
        final(dst)@ == old(dst)@ + src@,
{
    let mut i: usize = 0;
    while i < src.len()
        invariant
            i <= src.len(),
            dst@ == old(dst)@ + src@.take(i as int),
        decreases src.len() - i,
    {
        dst.push(src[i]);
        assert(src@.take(i as int).push(src@[i as int]) =~= src@.take(i + 1));
        i += 1;
    }
    assert(src@.take(src@.len() as int) =~= src@);
}

/// Appends the characters of a string slice to `dst`.
pub fn extend_str(dst: &mut Vec<char>, src: &str)
    ensures
        final(dst)@ == old(dst)@ + src@,
{
    let v = to_chars(src);
    extend_chars(dst, &v);
}

/// A fresh copy of a character slice.
pub fn copy_chars(src: &[char]) -> (v: Vec<char>)
    ensures
        v@ == src@,
{
    let mut v: Vec<char> = Vec::new();
    extend_chars(&mut v, src);
    v
}

/// The characters `src[from..to]`.
pub fn sub_chars(src: &[char], from: usize, to: usize) -> (v: Vec<char>)
    requires
        from <= to <= src.len(),
    ensures
        v@ == src@.subrange(from as int, to as int),
{
    let mut v: Vec<char> = Vec::new();
    let mut i = from;
    while i < to
        invariant
            from <= i <= to <= src.len(),
            v@ == src@.subrange(from as int, i as int),
        decreases to - i,
    {
        v.push(src[i]);
        assert(src@.subrange(from as int, i as int).push(src@[i as int]) =~= src@.subrange(
            from as int,
            i + 1,
        ));
        i += 1;
    }
    v
}

// ---------------------------------------------------------------------------
// Predicates and searching
// ---------------------------------------------------------------------------

/// `p` occurs somewhere in `s`.
pub open spec fn occurs(s: Seq<char>, p: Seq<char>) -> bool {
    exists|i: int| matches_at(s, p, i)
}

/// An occurrence stays when text is appended.
pub proof fn lemma_occurs_append(a: Seq<char>, b: Seq<char>, p: Seq<char>)
    requires
        occurs(a, p),
    ensures
        occurs(a + b, p),
{
    let i = choose|i: int| matches_at(a, p, i);
    assert((a + b).subrange(i, i + p.len()) =~= a.subrange(i, i + p.len()));
    assert(matches_at(a + b, p, i));
}

/// Replacing a pattern that starts with `[` leaves a text without `[` as it is.
pub proof fn lemma_replace_without_bracket(s: Seq<char>, pat: Seq<char>, rep: Seq<char>)
    requires
        pat.len() > 0,
        pat[0] == '[',
        forall|j: int| 0 <= j < s.len() ==> s[j] != '[',
    ensures
        replace_spec(s, pat, rep) == s,
    decreases s.len(),
{
    if s.len() >= pat.len() {
        assert(s.take(pat.len() as int)[0] != pat[0]);
        lemma_replace_without_bracket(s.drop_first(), pat, rep);
        assert(seq![s[0]] + s.drop_first() =~= s);
    }
}

/// Replacing a pattern that starts with `[` passes over a leading part
/// without `[`.
pub proof fn lemma_replace_after_plain(pre: Seq<char>, x: Seq<char>, pat: Seq<char>, rep: Seq<char>)
    requires
        pat.len() > 0,
        pat[0] == '[',
        forall|j: int| 0 <= j < pre.len() ==> pre[j] != '[',
    ensures
        replace_spec(pre + x, pat, rep) == pre + replace_spec(x, pat, rep),
    decreases pre.len(),
{
    if pre.len() == 0 {
        assert(pre + x =~= x);
        assert(pre + replace_spec(x, pat, rep) =~= replace_spec(x, pat, rep));
    } else {
        let s = pre + x;
        assert(s[0] == pre[0]);
        lemma_replace_after_plain(pre.drop_first(), x, pat, rep);
        assert(s.drop_first() =~= pre.drop_first() + x);
        if s.len() >= pat.len() {
            assert(s.take(pat.len() as int)[0] != pat[0]);
            assert(seq![s[0]] + (pre.drop_first() + replace_spec(x, pat, rep)) =~= pre + replace_spec(
                x,
                pat,
                rep,
            ));
        } else {
            lemma_replace_short(x, pat, rep);
        }
    }
}

/// A text shorter than the pattern is left as it is.
pub proof fn lemma_replace_short(x: Seq<char>, pat: Seq<char>, rep: Seq<char>)
    requires
        x.len() < pat.len(),
    ensures
        replace_spec(x, pat, rep) == x,
{
}

/// A pattern standing between two texts without `[` (and starting with `[`)
/// is replaced in place.
pub proof fn lemma_replace_single(pre: Seq<char>, pat: Seq<char>, post: Seq<char>, rep: Seq<char>)
    requires
        pat.len() > 0,
        pat[0] == '[',
        forall|j: int| 0 <= j < pre.len() ==> pre[j] != '[',
        forall|j: int| 0 <= j < post.len() ==> post[j] != '[',
    ensures
        replace_spec(pre + pat + post, pat, rep) == pre + rep + post,
{
    assert(pre + pat + post =~= pre + (pat + post));
    lemma_replace_after_plain(pre, pat + post, pat, rep);
    let y = pat + post;
    assert(y.take(pat.len() as int) =~= pat);
    assert(y.skip(pat.len() as int) =~= post);
    lemma_replace_without_bracket(post, pat, rep);
    assert(pre + (rep + post) =~= pre + rep + post);
}

/// Trailing whitespace is gone: the result is empty or ends in a
/// non-whitespace character, and it is a prefix of `s`.
pub proof fn lemma_trim_end(s: Seq<char>)
    ensures
        trim_end_spec(s).len() <= s.len(),
        trim_end_spec(s) == s.subrange(0, trim_end_spec(s).len() as int),
        trim_end_spec(s).len() > 0 ==> !is_ws(trim_end_spec(s).last()),
    decreases s.len(),
{
    if s.len() > 0 && is_ws(s.last()) {
        lemma_trim_end(s.drop_last());
        assert(s.drop_last().subrange(0, trim_end_spec(s).len() as int) =~= s.subrange(
            0,
            trim_end_spec(s).len() as int,
        ));
    } else {
        assert(s.subrange(0, s.len() as int) =~= s);
    }
}

/// Leading whitespace is gone: the result is empty or starts with a
/// non-whitespace character, and it is a suffix of `s`.
pub proof fn lemma_trim_start(s: Seq<char>)
    ensures
        trim_start_spec(s).len() <= s.len(),
        trim_start_spec(s) == s.skip(s.len() - trim_start_spec(s).len()),
        trim_start_spec(s).len() > 0 ==> !is_ws(trim_start_spec(s)[0]),
    decreases s.len(),
{
    if s.len() > 0 && is_ws(s[0]) {
        lemma_trim_start(s.drop_first());
        assert(s.drop_first().skip(s.drop_first().len() - trim_start_spec(s).len()) =~= s.skip(
            s.len() - trim_start_spec(s).len(),
        ));
    } else {
        assert(s.skip(0) =~= s);
    }
}

/// Trimming twice is trimming once.
pub proof fn lemma_trim_idempotent(s: Seq<char>)
    ensures
        trim_spec(trim_spec(s)) == trim_spec(s),
{
    let y = trim_end_spec(s);
    let x = trim_start_spec(y);
    lemma_trim_end(s);
    lemma_trim_start(y);
    if x.len() > 0 {
        assert(x.last() == y.last());
    }
    assert(trim_end_spec(x) == x);
    assert(trim_start_spec(x) == x);
}

/// An occurrence of a text that starts and ends with non-whitespace
/// characters survives trimming.
pub proof fn lemma_trim_keeps(s: Seq<char>, p: Seq<char>)
    requires
        occurs(s, p),
        p.len() > 0,
        !is_ws(p[0]),
        !is_ws(p.last()),
    ensures
        occurs(trim_spec(s), p),
{
    let i = choose|i: int| matches_at(s, p, i);
    let y = trim_end_spec(s);
    lemma_trim_end(s);
    assert(s[i + p.len() - 1] == p.last()) by {
        assert(s.subrange(i, i + p.len())[p.len() - 1] == p[p.len() - 1]);
    }
    if i + p.len() > y.len() {
        // every character after the trimmed end is whitespace
        lemma_trim_end_tail(s, i + p.len() - 1);
    }
    assert(y.subrange(i, i + p.len()) =~= s.subrange(i, i + p.len()));
    assert(matches_at(y, p, i));
    let x = trim_start_spec(y);
    lemma_trim_start(y);
    let d = y.len() - x.len();
    assert(y[i] == p[0]) by {
        assert(y.subrange(i, i + p.len())[0] == p[0]);
    }
    if i < d {
        lemma_trim_start_head(y, i);
    }
    assert(x.subrange(i - d, i - d + p.len()) =~= y.subrange(i, i + p.len()));
    assert(matches_at(x, p, i - d));
}

/// The characters that trimming takes off the end are whitespace.
pub proof fn lemma_trim_end_tail(s: Seq<char>, j: int)
    requires
        trim_end_spec(s).len() <= j < s.len(),
    ensures
        is_ws(s[j]),
    decreases s.len(),
{
    if s.len() > 0 && is_ws(s.last()) {
        if j < s.len() - 1 {
            lemma_trim_end_tail(s.drop_last(), j);
        }
    }
}

/// The characters that trimming takes off the start are whitespace.
pub proof fn lemma_trim_start_head(s: Seq<char>, j: int)
    requires
        0 <= j < s.len() - trim_start_spec(s).len(),
    ensures
        is_ws(s[j]),
    decreases s.len(),
{
    lemma_trim_start(s);
    if s.len() > 0 && is_ws(s[0]) {
        if j > 0 {
            lemma_trim_start_head(s.drop_first(), j - 1);
        }
    }
}

/// A Unicode decimal digit (general category Nd, Unicode 16): the characters
/// the pattern class `\d` stands for.
pub open spec fn decimal_digit(c: char) -> bool {
    ('0' <= c && c <= '9')
        || ('\u{660}' <= c && c <= '\u{669}')
        || ('\u{6f0}' <= c && c <= '\u{6f9}')
        || ('\u{7c0}' <= c && c <= '\u{7c9}')
        || ('\u{966}' <= c && c <= '\u{96f}')
        || ('\u{9e6}' <= c && c <= '\u{9ef}')
        || ('\u{a66}' <= c && c <= '\u{a6f}')
        || ('\u{ae6}' <= c && c <= '\u{aef}')
        || ('\u{b66}' <= c && c <= '\u{b6f}')
        || ('\u{be6}' <= c && c <= '\u{bef}')
        || ('\u{c66}' <= c && c <= '\u{c6f}')
        || ('\u{ce6}' <= c && c <= '\u{cef}')
        || ('\u{d66}' <= c && c <= '\u{d6f}')
        || ('\u{de6}' <= c && c <= '\u{def}')
        || ('\u{e50}' <= c && c <= '\u{e59}')
        || ('\u{ed0}' <= c && c <= '\u{ed9}')
        || ('\u{f20}' <= c && c <= '\u{f29}')
        || ('\u{1040}' <= c && c <= '\u{1049}')
        || ('\u{1090}' <= c && c <= '\u{1099}')
        || ('\u{17e0}' <= c && c <= '\u{17e9}')
        || ('\u{1810}' <= c && c <= '\u{1819}')
        || ('\u{1946}' <= c && c <= '\u{194f}')
        || ('\u{19d0}' <= c && c <= '\u{19d9}')
        || ('\u{1a80}' <= c && c <= '\u{1a89}')
        || ('\u{1a90}' <= c && c <= '\u{1a99}')
        || ('\u{1b50}' <= c && c <= '\u{1b59}')
        || ('\u{1bb0}' <= c && c <= '\u{1bb9}')
        || ('\u{1c40}' <= c && c <= '\u{1c49}')
        || ('\u{1c50}' <= c && c <= '\u{1c59}')
        || ('\u{a620}' <= c && c <= '\u{a629}')
        || ('\u{a8d0}' <= c && c <= '\u{a8d9}')
        || ('\u{a900}' <= c && c <= '\u{a909}')
        || ('\u{a9d0}' <= c && c <= '\u{a9d9}')
        || ('\u{a9f0}' <= c && c <= '\u{a9f9}')
        || ('\u{aa50}' <= c && c <= '\u{aa59}')
        || ('\u{abf0}' <= c && c <= '\u{abf9}')
        || ('\u{ff10}' <= c && c <= '\u{ff19}')
        || ('\u{104a0}' <= c && c <= '\u{104a9}')
        || ('\u{10d30}' <= c && c <= '\u{10d39}')
        || ('\u{10d40}' <= c && c <= '\u{10d49}')
        || ('\u{11066}' <= c && c <= '\u{1106f}')
        || ('\u{110f0}' <= c && c <= '\u{110f9}')
        || ('\u{11136}' <= c && c <= '\u{1113f}')
        || ('\u{111d0}' <= c && c <= '\u{111d9}')
        || ('\u{112f0}' <= c && c <= '\u{112f9}')
        || ('\u{11450}' <= c && c <= '\u{11459}')
        || ('\u{114d0}' <= c && c <= '\u{114d9}')
        || ('\u{11650}' <= c && c <= '\u{11659}')
        || ('\u{116c0}' <= c && c <= '\u{116c9}')
        || ('\u{116d0}' <= c && c <= '\u{116e3}')
        || ('\u{11730}' <= c && c <= '\u{11739}')
        || ('\u{118e0}' <= c && c <= '\u{118e9}')
        || ('\u{11950}' <= c && c <= '\u{11959}')
        || ('\u{11bf0}' <= c && c <= '\u{11bf9}')
        || ('\u{11c50}' <= c && c <= '\u{11c59}')
        || ('\u{11d50}' <= c && c <= '\u{11d59}')
        || ('\u{11da0}' <= c && c <= '\u{11da9}')
        || ('\u{11f50}' <= c && c <= '\u{11f59}')
        || ('\u{16130}' <= c && c <= '\u{16139}')
        || ('\u{16a60}' <= c && c <= '\u{16a69}')
        || ('\u{16ac0}' <= c && c <= '\u{16ac9}')
        || ('\u{16b50}' <= c && c <= '\u{16b59}')
        || ('\u{16d70}' <= c && c <= '\u{16d79}')
        || ('\u{1ccf0}' <= c && c <= '\u{1ccf9}')
        || ('\u{1d7ce}' <= c && c <= '\u{1d7ff}')
        || ('\u{1e140}' <= c && c <= '\u{1e149}')
        || ('\u{1e2f0}' <= c && c <= '\u{1e2f9}')
        || ('\u{1e4f0}' <= c && c <= '\u{1e4f9}')
        || ('\u{1e5f1}' <= c && c <= '\u{1e5fa}')
        || ('\u{1e950}' <= c && c <= '\u{1e959}')
        || ('\u{1fbf0}' <= c && c <= '\u{1fbf9}')
}

/// Whether a character is a Unicode decimal digit.
pub fn is_decimal_digit(c: char) -> (b: bool)
    ensures
        b == decimal_digit(c),
{
    ('0' <= c && c <= '9')
        || ('\u{660}' <= c && c <= '\u{669}')
        || ('\u{6f0}' <= c && c <= '\u{6f9}')
        || ('\u{7c0}' <= c && c <= '\u{7c9}')
        || ('\u{966}' <= c && c <= '\u{96f}')
        || ('\u{9e6}' <= c && c <= '\u{9ef}')
        || ('\u{a66}' <= c && c <= '\u{a6f}')
        || ('\u{ae6}' <= c && c <= '\u{aef}')
        || ('\u{b66}' <= c && c <= '\u{b6f}')
        || ('\u{be6}' <= c && c <= '\u{bef}')
        || ('\u{c66}' <= c && c <= '\u{c6f}')
        || ('\u{ce6}' <= c && c <= '\u{cef}')
        || ('\u{d66}' <= c && c <= '\u{d6f}')
        || ('\u{de6}' <= c && c <= '\u{def}')
        || ('\u{e50}' <= c && c <= '\u{e59}')
        || ('\u{ed0}' <= c && c <= '\u{ed9}')
        || ('\u{f20}' <= c && c <= '\u{f29}')
        || ('\u{1040}' <= c && c <= '\u{1049}')
        || ('\u{1090}' <= c && c <= '\u{1099}')
        || ('\u{17e0}' <= c && c <= '\u{17e9}')
        || ('\u{1810}' <= c && c <= '\u{1819}')
        || ('\u{1946}' <= c && c <= '\u{194f}')
        || ('\u{19d0}' <= c && c <= '\u{19d9}')
        || ('\u{1a80}' <= c && c <= '\u{1a89}')
        || ('\u{1a90}' <= c && c <= '\u{1a99}')
        || ('\u{1b50}' <= c && c <= '\u{1b59}')
        || ('\u{1bb0}' <= c && c <= '\u{1bb9}')
        || ('\u{1c40}' <= c && c <= '\u{1c49}')
        || ('\u{1c50}' <= c && c <= '\u{1c59}')
        || ('\u{a620}' <= c && c <= '\u{a629}')
        || ('\u{a8d0}' <= c && c <= '\u{a8d9}')
        || ('\u{a900}' <= c && c <= '\u{a909}')
        || ('\u{a9d0}' <= c && c <= '\u{a9d9}')
        || ('\u{a9f0}' <= c && c <= '\u{a9f9}')
        || ('\u{aa50}' <= c && c <= '\u{aa59}')
        || ('\u{abf0}' <= c && c <= '\u{abf9}')
        || ('\u{ff10}' <= c && c <= '\u{ff19}')
        || ('\u{104a0}' <= c && c <= '\u{104a9}')
        || ('\u{10d30}' <= c && c <= '\u{10d39}')
        || ('\u{10d40}' <= c && c <= '\u{10d49}')
        || ('\u{11066}' <= c && c <= '\u{1106f}')
        || ('\u{110f0}' <= c && c <= '\u{110f9}')
        || ('\u{11136}' <= c && c <= '\u{1113f}')
        || ('\u{111d0}' <= c && c <= '\u{111d9}')
        || ('\u{112f0}' <= c && c <= '\u{112f9}')
        || ('\u{11450}' <= c && c <= '\u{11459}')
        || ('\u{114d0}' <= c && c <= '\u{114d9}')
        || ('\u{11650}' <= c && c <= '\u{11659}')
        || ('\u{116c0}' <= c && c <= '\u{116c9}')
        || ('\u{116d0}' <= c && c <= '\u{116e3}')
        || ('\u{11730}' <= c && c <= '\u{11739}')
        || ('\u{118e0}' <= c && c <= '\u{118e9}')
        || ('\u{11950}' <= c && c <= '\u{11959}')
        || ('\u{11bf0}' <= c && c <= '\u{11bf9}')
        || ('\u{11c50}' <= c && c <= '\u{11c59}')
        || ('\u{11d50}' <= c && c <= '\u{11d59}')
        || ('\u{11da0}' <= c && c <= '\u{11da9}')
        || ('\u{11f50}' <= c && c <= '\u{11f59}')
        || ('\u{16130}' <= c && c <= '\u{16139}')
        || ('\u{16a60}' <= c && c <= '\u{16a69}')
        || ('\u{16ac0}' <= c && c <= '\u{16ac9}')
        || ('\u{16b50}' <= c && c <= '\u{16b59}')
        || ('\u{16d70}' <= c && c <= '\u{16d79}')
        || ('\u{1ccf0}' <= c && c <= '\u{1ccf9}')
        || ('\u{1d7ce}' <= c && c <= '\u{1d7ff}')
        || ('\u{1e140}' <= c && c <= '\u{1e149}')
        || ('\u{1e2f0}' <= c && c <= '\u{1e2f9}')
        || ('\u{1e4f0}' <= c && c <= '\u{1e4f9}')
        || ('\u{1e5f1}' <= c && c <= '\u{1e5fa}')
        || ('\u{1e950}' <= c && c <= '\u{1e959}')
        || ('\u{1fbf0}' <= c && c <= '\u{1fbf9}')
}

/// A quote that may open or close an attribute value: `"` or `'`.
pub open spec fn is_quote(c: char) -> bool {
    c == '"' || c == '\''
}

/// `char::is_whitespace`.
pub fn is_whitespace(c: char) -> (b: bool)
    ensures
        b == is_ws(c),
{
    let u = c as u32;
    (0x9 <= u && u <= 0xD) || u == 0x20 || u == 0x85 || u == 0xA0 || u == 0x1680 || (0x2000 <= u
        && u <= 0x200A) || u == 0x2028 || u == 0x2029 || u == 0x202F || u == 0x205F || u == 0x3000
}

/// Two character sequences are equal.
pub fn chars_eq(a: &[char], b: &[char]) -> (r: bool)
    ensures
        r == (a@ == b@),
{
    if a.len() != b.len() {
        return false;
    }
    let mut i: usize = 0;
    while i < a.len()
        invariant
            a.len() == b.len(),
            i <= a.len(),
            forall|k: int| 0 <= k < i ==> a@[k] == b@[k],
        decreases a.len() - i,
    {
        if a[i] != b[i] {
            return false;
        }
        i += 1;
    }
    assert(a@ =~= b@);
    true
}

/// `pat` occurs in `s` at position `i`.
pub fn matches_at_exec(s: &[char], pat: &[char], i: usize) -> (r: bool)
    ensures
        r == matches_at(s@, pat@, i as int),
{
    if i > s.len() || pat.len() > s.len() - i {
        return false;
    }
    let mut k: usize = 0;
    while k < pat.len()
        invariant
            i + pat.len() <= s.len(),
            k <= pat.len(),
            forall|j: int| 0 <= j < k ==> s@[i + j] == pat@[j],
        decreases pat.len() - k,
    {
        if s[i + k] != pat[k] {
            assert(s@.subrange(i as int, i + pat.len())[k as int] != pat@[k as int]);
            return false;
        }
        k += 1;
    }
    assert(s@.subrange(i as int, i + pat.len()) =~= pat@);
    true
}

/// The first occurrence of `pat` in `s` at or after `from`.
pub fn find_from_exec(s: &[char], pat: &[char], from: usize) -> (r: Option<usize>)
    ensures
        match find_from(s@, pat@, from as int) {
            None => r is None,
            Some(j) => r == Some(j as usize),
        },
{
    let mut i = from;
    while i <= s.len() && pat.len() <= s.len() - i
        invariant
            from <= i,
            find_from(s@, pat@, from as int) == find_from(s@, pat@, i as int),
        decreases s.len() + 1 - i,
    {
        if matches_at_exec(s, pat, i) {
            return Some(i);
        }
        assert(pat@.len() == 0 ==> s@.subrange(i as int, i as int) =~= pat@);
        i += 1;
    }
    None
}

/// `pat` occurs in `s`.
pub fn contains_exec(s: &[char], pat: &[char]) -> (r: bool)
    ensures
        r == contains_spec(s@, pat@),
{
    find_from_exec(s, pat, 0).is_some()
}

/// `s` begins with `p`.
pub fn starts_with_exec(s: &[char], p: &[char]) -> (r: bool)
    ensures
        r == starts_with_spec(s@, p@),
{
    let r = matches_at_exec(s, p, 0);
    assert(s@.subrange(0, p@.len() as int) =~= s@.take(p@.len() as int));
    r
}

/// `s` ends with `p`.
pub fn ends_with_exec(s: &[char], p: &[char]) -> (r: bool)
    ensures
        r == ends_with_spec(s@, p@),
{
    if p.len() > s.len() {
        return false;
    }
    let r = matches_at_exec(s, p, s.len() - p.len());
    assert(s@.subrange(s@.len() - p@.len(), s@.len() as int) =~= s@.skip(s@.len() - p@.len()));
    r
}

// ---------------------------------------------------------------------------
// Trimming
// ---------------------------------------------------------------------------

/// Length of `s` once trailing whitespace is removed.
fn trim_end_len(s: &[char]) -> (e: usize)
    ensures
        e <= s.len(),
        trim_end_spec(s@) == s@.take(e as int),
{
    let mut e = s.len();
    assert(s@.take(e as int) =~= s@);
    while e > 0 && is_whitespace(s[e - 1])
        invariant
            e <= s.len(),
            trim_end_spec(s@) == trim_end_spec(s@.take(e as int)),
        decreases e,
    {
        assert(s@.take(e as int).drop_last() =~= s@.take(e - 1));
        e -= 1;
    }
    e
}

/// Index of the first non-whitespace character of `s[..end]` (or `end`).
fn trim_start_idx(s: &[char], end: usize) -> (b: usize)
    requires
        end <= s.len(),
    ensures
        b <= end,
        trim_start_spec(s@.take(end as int)) == s@.subrange(b as int, end as int),
{
    let mut b: usize = 0;
    assert(s@.subrange(0, end as int) =~= s@.take(end as int));
    while b < end && is_whitespace(s[b])
        invariant
            b <= end <= s.len(),
            trim_start_spec(s@.take(end as int)) == trim_start_spec(
                s@.subrange(b as int, end as int),
            ),
        decreases end - b,
    {
        assert(s@.subrange(b as int, end as int).drop_first() =~= s@.subrange(b + 1, end as int));
        b += 1;
    }
    b
}

/// `str::trim`.
pub fn trim_chars(s: &[char]) -> (r: Vec<char>)
    ensures
        r@ == trim_spec(s@),
{
    let e = trim_end_len(s);
    let b = trim_start_idx(s, e);
    sub_chars(s, b, e)
}

/// `str::trim_end`.
pub fn trim_end_chars(s: &[char]) -> (r: Vec<char>)
    ensures
        r@ == trim_end_spec(s@),
{
    let e = trim_end_len(s);
    sub_chars(s, 0, e)
}

/// `str::trim` on a string slice.
pub fn trim_str(s: &str) -> (r: Vec<char>)
    ensures
        r@ == trim_spec(s@),
{
    let v = to_chars(s);
    trim_chars(&v)
}

/// The trimmed text is empty (`s.trim().is_empty()`).
pub fn is_blank(s: &[char]) -> (r: bool)
    ensures
        r == (trim_spec(s@).len() == 0),
{
    let t = trim_chars(s);
    t.len() == 0
}

/// `str::trim_end_matches` with a single character.
pub fn trim_end_char(s: &[char], c: char) -> (r: Vec<char>)
    ensures
        r@ == trim_end_char_spec(s@, c),
{
    let mut e = s.len();
    assert(s@.take(e as int) =~= s@);
    while e > 0 && s[e - 1] == c
        invariant
            e <= s.len(),
            trim_end_char_spec(s@, c) == trim_end_char_spec(s@.take(e as int), c),
        decreases e,
    {
        assert(s@.take(e as int).drop_last() =~= s@.take(e - 1));
        e -= 1;
    }
    sub_chars(s, 0, e)
}

/// `str::trim_start_matches` with a single character.
pub fn trim_start_char(s: &[char], c: char) -> (r: Vec<char>)
    ensures
        r@ == trim_start_char_spec(s@, c),
{
    let mut b: usize = 0;
    assert(s@.subrange(0, s@.len() as int) =~= s@);
    while b < s.len() && s[b] == c
        invariant
            b <= s.len(),
            trim_start_char_spec(s@, c) == trim_start_char_spec(
                s@.subrange(b as int, s@.len() as int),
                c,
            ),
        decreases s.len() - b,
    {
        assert(s@.subrange(b as int, s@.len() as int).drop_first() =~= s@.subrange(
            b + 1,
            s@.len() as int,
        ));
        b += 1;
    }
    sub_chars(s, b, s.len())
}

// ---------------------------------------------------------------------------
// Replacing, splitting, joining
// ---------------------------------------------------------------------------

/// `str::replace` with a non-empty pattern.
pub fn replace_chars(s: &[char], pat: &[char], rep: &[char]) -> (r: Vec<char>)
    requires
        pat.len() > 0,
    ensures
        r@ == replace_spec(s@, pat@, rep@),
{
    let mut out: Vec<char> = Vec::new();
    let mut i: usize = 0;
    assert(s@.skip(0) =~= s@);
    while i < s.len()
        invariant
            pat@.len() > 0,
            i <= s.len(),
            replace_spec(s@, pat@, rep@) == out@ + replace_spec(s@.skip(i as int), pat@, rep@),
        decreases s.len() - i,
    {
        let ghost rest = s@.skip(i as int);
        if matches_at_exec(s, pat, i) {
            assert(rest.take(pat@.len() as int) =~= s@.subrange(i as int, i + pat@.len()));
            assert(rest.skip(pat@.len() as int) =~= s@.skip(i + pat@.len()));
            extend_chars(&mut out, rep);
            i += pat.len();
        } else {
            proof {
                if rest.len() >= pat@.len() {
                    assert(rest.take(pat@.len() as int) =~= s@.subrange(i as int, i + pat@.len()));
                }
            }
            assert(rest.drop_first() =~= s@.skip(i + 1));
            assert(rest[0] == s@[i as int]);
            out.push(s[i]);
            i += 1;
        }
    }
    assert(s@.skip(i as int) =~= Seq::<char>::empty());
    assert(out@ + Seq::<char>::empty() =~= out@);
    out
}

/// Every occurrence of the character `c` replaced by `rep`.
pub fn replace_char(s: &[char], c: char, rep: &[char]) -> (r: Vec<char>)
    ensures
        r@ == replace_char_spec(s@, c, rep@),
{
    let mut out: Vec<char> = Vec::new();
    let mut i: usize = 0;
    assert(s@.skip(0) =~= s@);
    while i < s.len()
        invariant
            i <= s.len(),
            replace_char_spec(s@, c, rep@) == out@ + replace_char_spec(s@.skip(i as int), c, rep@),
        decreases s.len() - i,
    {
        let ghost rest = s@.skip(i as int);
        assert(rest.drop_first() =~= s@.skip(i + 1));
        if s[i] == c {
            extend_chars(&mut out, rep);
        } else {
            out.push(s[i]);
        }
        i += 1;
    }
    assert(s@.skip(i as int) =~= Seq::<char>::empty());
    assert(out@ + Seq::<char>::empty() =~= out@);
    out
}

/// The last piece of `s.split(sep)`.
pub fn split_last(s: &[char], sep: &[char]) -> (r: Vec<char>)
    requires
        sep.len() > 0,
    ensures
        r@ == split_last_spec(s@, sep@),
{
    let mut start: usize = 0;
    assert(s@.skip(0) =~= s@);
    loop
        invariant
            sep@.len() > 0,
            start <= s.len(),
            split_last_spec(s@, sep@) == split_last_spec(s@.skip(start as int), sep@),
        decreases s.len() - start,
    {
        let rest = sub_chars(s, start, s.len());
        assert(rest@ =~= s@.skip(start as int));
        match find_from_exec(&rest, sep, 0) {
            None => {
                return rest;
            },
            Some(j) => {
                proof {
                    lemma_find_from_facts(rest@, sep@, 0);
                }
                assert(rest@.skip(j + sep@.len()) =~= s@.skip(start + j + sep@.len()));
                start = start + j + sep.len();
            },
        }
    }
}

/// The pieces of `s.split(sep)`.
pub fn split_chars(s: &[char], sep: &[char]) -> (r: Vec<Vec<char>>)
    requires
        sep.len() > 0,
    ensures
        r@.map_values(|p: Vec<char>| p@) == split_spec(s@, sep@),
{
    let mut out: Vec<Vec<char>> = Vec::new();
    let mut start: usize = 0;
    assert(s@.skip(0) =~= s@);
    assert(out@.map_values(|p: Vec<char>| p@) =~= Seq::<Seq<char>>::empty());
    loop
        invariant
            sep@.len() > 0,
            start <= s.len(),
            split_spec(s@, sep@) == out@.map_values(|p: Vec<char>| p@) + split_spec(
                s@.skip(start as int),
                sep@,
            ),
        decreases s.len() - start,
    {
        let rest = sub_chars(s, start, s.len());
        assert(rest@ =~= s@.skip(start as int));
        let ghost before = out@.map_values(|p: Vec<char>| p@);
        match find_from_exec(&rest, sep, 0) {
            None => {
                out.push(rest);
                assert(out@.map_values(|p: Vec<char>| p@) =~= before.push(
                    s@.skip(start as int),
                ));
                assert(before + seq![s@.skip(start as int)] =~= before.push(
                    s@.skip(start as int),
                ));
                return out;
            },
            Some(j) => {
                proof {
                    lemma_find_from_facts(rest@, sep@, 0);
                }
                let piece = sub_chars(&rest, 0, j);
                assert(piece@ =~= rest@.take(j as int));
                assert(rest@.skip(j + sep@.len()) =~= s@.skip(start + j + sep@.len()));
                out.push(piece);
                assert(out@.map_values(|p: Vec<char>| p@) =~= before.push(rest@.take(j as int)));
                assert(before + (seq![rest@.take(j as int)] + split_spec(
                    s@.skip(start + j + sep@.len()),
                    sep@,
                )) =~= before.push(rest@.take(j as int)) + split_spec(
                    s@.skip(start + j + sep@.len()),
                    sep@,
                ));
                start = start + j + sep.len();
            },
        }
    }
}

/// The pieces joined with `sep` between them.
pub fn join_chars(parts: &[Vec<char>], sep: &[char]) -> (r: Vec<char>)
    ensures
        r@ == join_spec(parts@.map_values(|p: Vec<char>| p@), sep@),
{
    let mut out: Vec<char> = Vec::new();
    let mut i: usize = 0;
    while i < parts.len()
        invariant
            i <= parts.len(),
            out@ == join_spec(parts@.take(i as int).map_values(|p: Vec<char>| p@), sep@),
        decreases parts.len() - i,
    {
        proof {
            let prev = parts@.take(i as int).map_values(|p: Vec<char>| p@);
            lemma_join_push(prev, sep@, parts@[i as int]@);
            assert(parts@.take(i + 1).map_values(|p: Vec<char>| p@) =~= prev.push(
                parts@[i as int]@,
            ));
        }
        if i > 0 {
            extend_chars(&mut out, sep);
        }
        extend_chars(&mut out, &parts[i]);
        i += 1;
    }
    assert(parts@.take(parts@.len() as int) =~= parts@);
    out
}

/// ASCII lower-casing (`str::to_ascii_lowercase`).
pub fn to_ascii_lower(s: &[char]) -> (r: Vec<char>)
    ensures
        r@ == s@.map_values(|c: char| ascii_lower(c)),
{
    let mut out: Vec<char> = Vec::new();
    let mut i: usize = 0;
    while i < s.len()
        invariant
            i <= s.len(),
            out@ == s@.take(i as int).map_values(|c: char| ascii_lower(c)),
        decreases s.len() - i,
    {
        let c = s[i];
        let l = if 'A' <= c && c <= 'Z' {
            char_from_ascii((c as u8) + 32)
        } else {
            c
        };
        proof {
            if 'A' <= c && c <= 'Z' {
                assert(((c as u32) + 32) as char == ((c as u8) + 32) as char);
            }
        }
        out.push(l);
        assert(s@.take(i + 1).map_values(|c: char| ascii_lower(c)) =~= s@.take(
            i as int,
        ).map_values(|c: char| ascii_lower(c)).push(ascii_lower(s@[i as int])));
        i += 1;
    }
    assert(s@.take(s@.len() as int) =~= s@);
    out
}

/// The character with the given ASCII code.
pub fn char_from_ascii(b: u8) -> (c: char)
    requires
        b < 128,
    ensures
        c == b as char,
{
    b as char
}


// ---------------------------------------------------------------------------
// Lines and repeated affixes
// ---------------------------------------------------------------------------

/// A line without the `\r` of a `\r\n` ending.
pub open spec fn strip_cr(t: Seq<char>) -> Seq<char> {
    if t.len() > 0 && t.last() == '\r' {
        t.drop_last()
    } else {
        t
    }
}

/// The lines of `s` (`str::lines`): the pieces between the `\n`s, each piece
/// that a `\n` ends losing one `\r` before it, and no empty line after a
/// final `\n`.
pub open spec fn lines_spec(s: Seq<char>) -> Seq<Seq<char>> {
    let p = split_spec(s, seq!['\n']);
    let ended = p.drop_last().map_values(|t: Seq<char>| strip_cr(t));
    if p.last().len() == 0 {
        ended
    } else {
        ended.push(p.last())
    }
}

/// `s` with every leading occurrence of the non-empty `p` removed
/// (`str::trim_start_matches`).
pub open spec fn trim_start_matches_spec(s: Seq<char>, p: Seq<char>) -> Seq<char>
    decreases s.len(),
{
    if p.len() > 0 && starts_with_spec(s, p) {
        trim_start_matches_spec(s.skip(p.len() as int), p)
    } else {
        s
    }
}

/// `s` with every trailing occurrence of the non-empty `p` removed
/// (`str::trim_end_matches`).
pub open spec fn trim_end_matches_spec(s: Seq<char>, p: Seq<char>) -> Seq<char>
    decreases s.len(),
{
    if p.len() > 0 && ends_with_spec(s, p) {
        trim_end_matches_spec(s.take(s.len() - p.len()), p)
    } else {
        s
    }
}

/// The pieces of `s` split at `\n`, at least one.
proof fn lemma_split_nonempty(s: Seq<char>, sep: Seq<char>)
    requires
        sep.len() > 0,
    ensures
        split_spec(s, sep).len() >= 1,
{
    lemma_find_from_facts(s, sep, 0);
}

/// `str::lines`.
pub fn lines(s: &[char]) -> (r: Vec<Vec<char>>)
    ensures
        r@.map_values(|p: Vec<char>| p@) == lines_spec(s@),
{
    let nl = vec!['\n'];
    let parts = split_chars(s, &nl);
    proof {
        lemma_split_nonempty(s@, nl@);
        assert(nl@ =~= seq!['\n']);
    }
    let ghost p = split_spec(s@, seq!['\n']);
    let n = parts.len();
    assert(parts@.map_values(|q: Vec<char>| q@).len() == n);
    let mut out: Vec<Vec<char>> = Vec::new();
    let mut i: usize = 0;
    while i + 1 < n
        invariant
            1 <= n == parts.len(),
            p.len() == n,
            i + 1 <= n,
            parts@.map_values(|q: Vec<char>| q@) == p,
            out@.map_values(|q: Vec<char>| q@) == p.take(i as int).map_values(
                |t: Seq<char>| strip_cr(t),
            ),
        decreases n - i,
    {
        let part = &parts[i];
        assert(part@ == p[i as int]);
        let line = if part.len() > 0 && part[part.len() - 1] == '\r' {
            sub_chars(part, 0, part.len() - 1)
        } else {
            copy_chars(part)
        };
        assert(line@ =~= strip_cr(p[i as int]));
        let ghost before = out@.map_values(|q: Vec<char>| q@);
        out.push(line);
        assert(out@.map_values(|q: Vec<char>| q@) =~= before.push(strip_cr(p[i as int])));
        assert(p.take(i + 1).map_values(|t: Seq<char>| strip_cr(t)) =~= p.take(
            i as int,
        ).map_values(|t: Seq<char>| strip_cr(t)).push(strip_cr(p[i as int])));
        i += 1;
    }
    assert(p.take(i as int) =~= p.drop_last());
    let last = &parts[n - 1];
    assert(last@ == p.last());
    if last.len() > 0 {
        let ghost before = out@.map_values(|q: Vec<char>| q@);
        out.push(copy_chars(last));
        assert(out@.map_values(|q: Vec<char>| q@) =~= before.push(p.last()));
    }
    out
}

/// `str::trim_start_matches` with a non-empty pattern.
pub fn trim_start_matches(s: &[char], p: &[char]) -> (r: Vec<char>)
    requires
        p.len() > 0,
    ensures
        r@ == trim_start_matches_spec(s@, p@),
{
    let mut v = copy_chars(s);
    while starts_with_exec(&v, p)
        invariant
            p.len() > 0,
            trim_start_matches_spec(v@, p@) == trim_start_matches_spec(s@, p@),
        decreases v.len(),
    {
        v = sub_chars(&v, p.len(), v.len());
    }
    v
}

/// `str::trim_end_matches` with a non-empty pattern.
pub fn trim_end_matches(s: &[char], p: &[char]) -> (r: Vec<char>)
    requires
        p.len() > 0,
    ensures
        r@ == trim_end_matches_spec(s@, p@),
{
    let mut v = copy_chars(s);
    while ends_with_exec(&v, p)
        invariant
            p.len() > 0,
            trim_end_matches_spec(v@, p@) == trim_end_matches_spec(s@, p@),
        decreases v.len(),
    {
        v = sub_chars(&v, 0, v.len() - p.len());
    }
    v
}

} // verus!
