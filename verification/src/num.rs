//! Integer formatting and parsing with exact specifications
//! (the behaviour of `to_string`, `{:x}` and `str::parse`).
use vstd::prelude::*;
use vstd::arithmetic::power::pow;

verus! {

/// The digit character for `d < 16` (lower-case hex for `d >= 10`).
pub open spec fn digit_char(d: nat) -> char {
    if d < 10 {
        ((d + 48) as u32) as char
    } else {
        ((d + 87) as u32) as char
    }
}

/// The value of a digit character in the given radix, if it is one.
pub open spec fn digit_val(c: char, radix: nat) -> Option<nat> {
    let u = c as u32;
    let v: int = if 48 <= u && u <= 57 {
        u - 48
    } else if 97 <= u && u <= 122 {
        u - 87
    } else if 65 <= u && u <= 90 {
        u - 55
    } else {
        99
    };
    if v < radix {
        Some(v as nat)
    } else {
        None
    }
}

/// Every character of `s` is a digit in `radix`.
pub open spec fn all_digits(s: Seq<char>, radix: nat) -> bool {
    forall|i: int| 0 <= i < s.len() ==> (#[trigger] digit_val(s[i], radix)) is Some
}

/// The number that the digits `s` denote in `radix`.
pub open spec fn digits_nat(s: Seq<char>, radix: nat) -> nat
    decreases s.len(),
{
    if s.len() == 0 {
        0
    } else {
        digits_nat(s.drop_last(), radix) * radix + digit_val(s.last(), radix)->0
    }
}

/// A non-empty digit string's value; `None` for anything else.
pub open spec fn digits_value(s: Seq<char>, radix: nat) -> Option<nat> {
    if s.len() > 0 && all_digits(s, radix) {
        Some(digits_nat(s, radix))
    } else {
        None
    }
}

/// `s` with one leading `+` removed, if present.
pub open spec fn strip_plus(s: Seq<char>) -> Seq<char> {
    if s.len() > 0 && s[0] == '+' {
        s.drop_first()
    } else {
        s
    }
}

/// What `u64::from_str_radix(s, radix)` returns on success.
pub open spec fn parse_u64_radix_spec(s: Seq<char>, radix: nat) -> Option<u64> {
    match digits_value(strip_plus(s), radix) {
        Some(v) => if v <= u64::MAX {
            Some(v as u64)
        } else {
            None
        },
        None => None,
    }
}

/// What `s.parse::<usize>()` returns on success.
pub open spec fn parse_usize_spec(s: Seq<char>) -> Option<usize> {
    match digits_value(strip_plus(s), 10) {
        Some(v) => if v <= usize::MAX {
            Some(v as usize)
        } else {
            None
        },
        None => None,
    }
}

/// What `s.parse::<i64>()` returns on success.
pub open spec fn parse_i64_spec(s: Seq<char>) -> Option<i64> {
    if s.len() > 0 && s[0] == '-' {
        match digits_value(s.drop_first(), 10) {
            Some(v) => if v <= 0x8000_0000_0000_0000 {
                Some((-v) as i64)
            } else {
                None
            },
            None => None,
        }
    } else {
        match digits_value(strip_plus(s), 10) {
            Some(v) => if v <= i64::MAX {
                Some(v as i64)
            } else {
                None
            },
            None => None,
        }
    }
}

/// The digits of `n` in `radix`, most significant first, without leading zeros.
pub open spec fn radix_digits(n: nat, radix: nat) -> Seq<char>
    recommends
        2 <= radix <= 16,
    decreases n,
{
    if radix < 2 || n < radix {
        seq![digit_char(n)]
    } else {
        proof {
            lemma_div_smaller(n, radix);
        }
        radix_digits(n / radix, radix).push(digit_char(n % radix))
    }
}

/// `s` left-padded with `'0'` to at least `w` characters.
pub open spec fn pad_zeros(s: Seq<char>, w: nat) -> Seq<char> {
    if s.len() >= w {
        s
    } else {
        Seq::new((w - s.len()) as nat, |i: int| '0') + s
    }
}

/// The decimal text of an integer (`i64::to_string`).
pub open spec fn dec_spec(n: int) -> Seq<char> {
    if n < 0 {
        seq!['-'] + radix_digits((-n) as nat, 10)
    } else {
        radix_digits(n as nat, 10)
    }
}

/// `format!("{:0w$x}", n)` for an unsigned value.
pub open spec fn hex_pad_spec(n: nat, w: nat) -> Seq<char> {
    pad_zeros(radix_digits(n, 16), w)
}

// ---------------------------------------------------------------------------
// Lemmas
// ---------------------------------------------------------------------------

/// Dividing by a radix of at least two shrinks a positive number.
pub proof fn lemma_div_smaller(n: nat, radix: nat)
    requires
        radix >= 2,
        n >= radix,
    ensures
        n / radix < n,
        n / radix >= 1,
{
    assert(n / radix < n) by (nonlinear_arith)
        requires
            radix >= 2,
            n >= radix,
    ;
    assert(n / radix >= 1) by (nonlinear_arith)
        requires
            radix >= 2,
            n >= radix,
    ;
}

proof fn lemma_digit_char_val(d: nat, radix: nat)
    requires
        d < radix <= 16,
    ensures
        digit_val(digit_char(d), radix) == Some(d),
{
}

/// Formatting then reading back gives the number.
pub proof fn lemma_radix_digits_value(n: nat, radix: nat)
    requires
        2 <= radix <= 16,
    ensures
        digits_value(radix_digits(n, radix), radix) == Some(n),
        all_digits(radix_digits(n, radix), radix),
        radix_digits(n, radix).len() > 0,
    decreases n,
{
    if n < radix {
        lemma_digit_char_val(n, radix);
        let s = radix_digits(n, radix);
        assert(s.drop_last() =~= Seq::<char>::empty());
        assert(digits_nat(s.drop_last(), radix) == 0);
        assert(s.last() == digit_char(n));
        assert(digit_val(s.last(), radix)->0 == n);
        assert(0 * radix == 0) by (nonlinear_arith);
        assert(digits_nat(s, radix) == digits_nat(s.drop_last(), radix) * radix + digit_val(s.last(), radix)->0);
        assert(digits_nat(s, radix) == n);
        assert(all_digits(s, radix));
        assert(digits_value(s, radix) == Some(n));
    } else {
        lemma_div_smaller(n, radix);
        lemma_radix_digits_value(n / radix, radix);
        let s = radix_digits(n, radix);
        assert(s.drop_last() =~= radix_digits(n / radix, radix));
        lemma_digit_char_val(n % radix, radix);
        assert forall|i: int| 0 <= i < s.len() implies (#[trigger] digit_val(s[i], radix)) is Some by {
            if i < s.len() - 1 {
                assert(s[i] == radix_digits(n / radix, radix)[i]);
            }
        }
        assert(n == (n / radix) * radix + n % radix) by (nonlinear_arith)
            requires
                radix > 0,
        ;
        assert(digits_nat(s, radix) == digits_nat(s.drop_last(), radix) * radix + digit_val(s.last(), radix)->0);
        assert(digits_nat(s, radix) == n);
        assert(all_digits(s, radix));
        assert(digits_value(s, radix) == Some(n));
    }
}

/// Leading zeros do not change a digit string's value.
pub proof fn lemma_leading_zeros(z: nat, s: Seq<char>, radix: nat)
    requires
        2 <= radix <= 16,
        all_digits(s, radix),
    ensures
        all_digits(Seq::new(z, |i: int| '0') + s, radix),
        digits_nat(Seq::new(z, |i: int| '0') + s, radix) == digits_nat(s, radix),
    decreases s.len(),
{
    let zs = Seq::new(z, |i: int| '0');
    let t = zs + s;
    assert forall|i: int| 0 <= i < t.len() implies (#[trigger] digit_val(t[i], radix)) is Some by {
        if i >= z {
            assert(t[i] == s[i - z]);
        }
    }
    if s.len() == 0 {
        lemma_zeros_value(z, radix);
        assert(t =~= zs);
    } else {
        lemma_leading_zeros(z, s.drop_last(), radix);
        assert(t.drop_last() =~= zs + s.drop_last());
    }
}

proof fn lemma_zeros_value(z: nat, radix: nat)
    requires
        2 <= radix <= 16,
    ensures
        digits_nat(Seq::new(z, |i: int| '0'), radix) == 0,
    decreases z,
{
    if z > 0 {
        lemma_zeros_value((z - 1) as nat, radix);
        let zs = Seq::new(z, |i: int| '0');
        assert(zs.drop_last() =~= Seq::new((z - 1) as nat, |i: int| '0'));
        assert(zs.last() == '0');
        assert(digit_val('0', radix) == Some(0nat));
        assert(digits_nat(zs, radix) == digits_nat(zs.drop_last(), radix) * radix + digit_val(zs.last(), radix)->0);
    }
}

/// The number of digits of `n` bounds it from above.
pub proof fn lemma_radix_digits_len(n: nat, radix: nat, k: nat)
    requires
        2 <= radix <= 16,
        n < vstd::arithmetic::power::pow(radix as int, k),
        k >= 1,
    ensures
        radix_digits(n, radix).len() <= k,
    decreases n,
{
    if n >= radix {
        lemma_div_smaller(n, radix);
        if k == 1 {
            assert(pow(radix as int, 1) == radix) by {
                vstd::arithmetic::power::lemma_pow1(radix as int);
            }
        } else {
            vstd::arithmetic::power::lemma_pow_positive(radix as int, (k - 1) as nat);
            assert(pow(radix as int, k) == radix * pow(radix as int, (k - 1) as nat)) by {
                vstd::arithmetic::power::lemma_pow_adds(radix as int, 1, (k - 1) as nat);
                vstd::arithmetic::power::lemma_pow1(radix as int);
            }
            let p = pow(radix as int, (k - 1) as nat);
            assert(n / radix < p) by (nonlinear_arith)
                requires
                    n < radix * p,
                    radix > 0,
                    p > 0,
            ;
            lemma_radix_digits_len(n / radix, radix, (k - 1) as nat);
        }
    }
}

/// Reading a zero-padded hex rendering back gives the number.
pub proof fn lemma_hex_pad_value(n: nat, w: nat)
    ensures
        digits_value(hex_pad_spec(n, w), 16) == Some(n),
{
    lemma_radix_digits_value(n, 16);
    let d = radix_digits(n, 16);
    if d.len() < w {
        lemma_leading_zeros((w - d.len()) as nat, d, 16);
    }
}

// ---------------------------------------------------------------------------
// Formatting
// ---------------------------------------------------------------------------

/// The digit character for `d < 16`.
pub fn digit_char_exec(d: u64) -> (c: char)
    requires
        d < 16,
    ensures
        c == digit_char(d as nat),
{
    if d < 10 {
        ((d + 48) as u8) as char
    } else {
        ((d + 87) as u8) as char
    }
}

/// The digits of `n` in `radix`.
pub fn radix_digits_exec(n: u64, radix: u64) -> (v: Vec<char>)
    requires
        2 <= radix <= 16,
    ensures
        v@ == radix_digits(n as nat, radix as nat),
    decreases n,
{
    if n < radix {
        let mut v = Vec::new();
        v.push(digit_char_exec(n));
        v
    } else {
        proof {
            lemma_div_smaller(n as nat, radix as nat);
        }
        let mut v = radix_digits_exec(n / radix, radix);
        v.push(digit_char_exec(n % radix));
        v
    }
}

/// `n.to_string()` for an `i64`.
pub fn i64_to_dec(n: i64) -> (v: Vec<char>)
    ensures
        v@ == dec_spec(n as int),
{
    if n < 0 {
        let mag: u64 = if n == i64::MIN {
            0x8000_0000_0000_0000u64
        } else {
            (-n) as u64
        };
        let digits = radix_digits_exec(mag, 10);
        let mut v = Vec::new();
        v.push('-');
        crate::text::extend_chars(&mut v, &digits);
        assert(v@ =~= seq!['-'] + digits@);
        v
    } else {
        radix_digits_exec(n as u64, 10)
    }
}

/// `n.to_string()` for a `u64`.
pub fn u64_to_dec(n: u64) -> (v: Vec<char>)
    ensures
        v@ == dec_spec(n as int),
{
    radix_digits_exec(n, 10)
}

/// `format!("{:0w$x}", n)`.
pub fn hex_pad(n: u64, w: usize) -> (v: Vec<char>)
    ensures
        v@ == hex_pad_spec(n as nat, w as nat),
{
    let digits = radix_digits_exec(n, 16);
    if digits.len() >= w {
        return digits;
    }
    let mut v: Vec<char> = Vec::new();
    let mut i: usize = 0;
    let k = w - digits.len();
    while i < k
        invariant
            i <= k,
            v@ == Seq::new(i as nat, |j: int| '0'),
        decreases k - i,
    {
        v.push('0');
        assert(v@ =~= Seq::new((i + 1) as nat, |j: int| '0'));
        i += 1;
    }
    crate::text::extend_chars(&mut v, &digits);
    v
}

// ---------------------------------------------------------------------------
// Parsing
// ---------------------------------------------------------------------------

/// The value of a digit character in `radix`.
pub fn digit_val_exec(c: char, radix: u32) -> (r: Option<u32>)
    requires
        radix <= 36,
    ensures
        r == (match digit_val(c, radix as nat) {
            Some(v) => Some(v as u32),
            None => None::<u32>,
        }),
{
    let u = c as u32;
    let v: u32 = if 48 <= u && u <= 57 {
        u - 48
    } else if 97 <= u && u <= 122 {
        u - 87
    } else if 65 <= u && u <= 90 {
        u - 55
    } else {
        99
    };
    if v < radix {
        Some(v)
    } else {
        None
    }
}

/// The value of a digit string, saturated at 2^64, and whether it is one.
fn digits_saturated(s: &[char], from: usize, radix: u32) -> (r: (bool, u128))
    requires
        2 <= radix <= 16,
        from <= s.len(),
    ensures
        r.0 == (s@.skip(from as int).len() > 0 && all_digits(s@.skip(from as int), radix as nat)),
        r.0 ==> r.1 == if digits_nat(s@.skip(from as int), radix as nat) < 0x1_0000_0000_0000_0000 {
            digits_nat(s@.skip(from as int), radix as nat)
        } else {
            0x1_0000_0000_0000_0000
        },
{
    let ghost t = s@.skip(from as int);
    if from == s.len() {
        return (false, 0);
    }
    let cap: u128 = 0x1_0000_0000_0000_0000;
    let mut acc: u128 = 0;
    let mut i = from;
    while i < s.len()
        invariant
            2 <= radix <= 16,
            from <= i <= s.len(),
            t == s@.skip(from as int),
            all_digits(s@.subrange(from as int, i as int), radix as nat),
            acc == if digits_nat(s@.subrange(from as int, i as int), radix as nat) < cap {
                digits_nat(s@.subrange(from as int, i as int), radix as nat) as int
            } else {
                cap as int
            },
            cap == 0x1_0000_0000_0000_0000u128,
        decreases s.len() - i,
    {
        let ghost prefix = s@.subrange(from as int, i as int);
        let ghost next = s@.subrange(from as int, i + 1);
        assert(next.drop_last() =~= prefix);
        match digit_val_exec(s[i], radix) {
            None => {
                assert(t[i - from] == s@[i as int]);
                return (false, 0);
            },
            Some(d) => {
                proof {
                    let v = digits_nat(prefix, radix as nat);
                    let r = radix as int;
                    let dd = d as int;
                    assert(digits_nat(next, radix as nat) == v * r + dd);
                    if v >= cap {
                        assert(v * r + dd >= cap) by (nonlinear_arith)
                            requires
                                v >= cap,
                                r >= 2,
                                dd >= 0,
                        ;
                    }
                    assert(acc * r + dd <= 0x1_0000_0000_0000_0000 * 16 + 16) by (nonlinear_arith)
                        requires
                            acc <= 0x1_0000_0000_0000_0000,
                            r <= 16,
                            dd < 16,
                    ;
                    assert forall|k: int| 0 <= k < next.len() implies (#[trigger] digit_val(
                        next[k],
                        radix as nat,
                    )) is Some by {
                        if k < prefix.len() {
                            assert(next[k] == prefix[k]);
                        }
                    }
                }
                let nv = acc * (radix as u128) + (d as u128);
                acc = if nv < cap {
                    nv
                } else {
                    cap
                };
            },
        }
        i += 1;
    }
    assert(s@.subrange(from as int, s@.len() as int) =~= t);
    (true, acc)
}

/// `u64::from_str_radix(s, radix).ok()`.
pub fn parse_u64_radix(s: &[char], radix: u32) -> (r: Option<u64>)
    requires
        2 <= radix <= 16,
    ensures
        r == parse_u64_radix_spec(s@, radix as nat),
{
    let from: usize = if s.len() > 0 && s[0] == '+' {
        1
    } else {
        0
    };
    assert(s@.skip(from as int) =~= strip_plus(s@));
    let (ok, v) = digits_saturated(s, from, radix);
    if ok && v <= 0xFFFF_FFFF_FFFF_FFFF {
        Some(v as u64)
    } else {
        None
    }
}

/// `s.parse::<usize>().ok()`.
pub fn parse_usize(s: &[char]) -> (r: Option<usize>)
    ensures
        r == parse_usize_spec(s@),
{
    let from: usize = if s.len() > 0 && s[0] == '+' {
        1
    } else {
        0
    };
    assert(s@.skip(from as int) =~= strip_plus(s@));
    let (ok, v) = digits_saturated(s, from, 10);
    if ok && v <= usize::MAX as u128 {
        Some(v as usize)
    } else {
        None
    }
}

/// `s.parse::<i64>().ok()`.
pub fn parse_i64(s: &[char]) -> (r: Option<i64>)
    ensures
        r == parse_i64_spec(s@),
{
    if s.len() > 0 && s[0] == '-' {
        assert(s@.skip(1) =~= s@.drop_first());
        let (ok, v) = digits_saturated(s, 1, 10);
        if ok && v <= 0x8000_0000_0000_0000u128 {
            if v == 0x8000_0000_0000_0000u128 {
                Some(i64::MIN)
            } else {
                Some(-(v as i64))
            }
        } else {
            None
        }
    } else {
        let from: usize = if s.len() > 0 && s[0] == '+' {
            1
        } else {
            0
        };
        assert(s@.skip(from as int) =~= strip_plus(s@));
        let (ok, v) = digits_saturated(s, from, 10);
        if ok && v <= 0x7FFF_FFFF_FFFF_FFFFu128 {
            Some(v as i64)
        } else {
            None
        }
    }
}

/// `s.parse::<i64>().ok()` for a string slice.
pub fn parse_i64_str(s: &str) -> (r: Option<i64>)
    ensures
        r == parse_i64_spec(s@),
{
    let v = crate::text::to_chars(s);
    parse_i64(&v)
}

} // verus!
