//! Small string helpers shared by the modules of this crate: conversion
//! between `String`/`&str` and character vectors, and a few character
//! predicates whose meaning is fixed by the Rust documentation.
use vstd::prelude::*;
use vstd::string::StringExecFns;

verus! {

/// `String::push` from std: appends one character.
#[verifier::external_body]
fn string_push(s: &mut String, c: char)
    ensures
        final(s)@ == old(s)@.push(c),
{
    s.push(c);
}

/// Builds a `String` holding exactly the given characters.
pub fn string_from_chars(cs: &[char]) -> (s: String)
    ensures
        s@ == cs@,
{
    let mut s = String::new();
    let mut i: usize = 0;
    while i < cs.len()
        invariant
            i <= cs@.len(),
            s@ == cs@.subrange(0, i as int),
        decreases cs@.len() - i,
    {
        string_push(&mut s, cs[i]);
        i = i + 1;
        assert(s@ =~= cs@.subrange(0, i as int));
    }
    assert(cs@.subrange(0, cs@.len() as int) =~= cs@);
    s
}

/// Collects the characters of a string slice.
pub fn chars_of(s: &str) -> (v: Vec<char>)
    ensures
        v@ == s@,
{
    let mut v: Vec<char> = Vec::new();
    for c in it: s.chars()
        invariant
            v@ == it.seq().take(it.index() as int),
            it.seq() == s@,
    {
        v.push(c);
    }
    v
}

/// The decimal digit character for a value below 10.
pub open spec fn digit_char(d: nat) -> char {
    (48 + d) as char
}

/// Decimal digits of a natural number, most significant first, without
/// leading zeros (`0` is rendered as "0").
pub open spec fn nat_digits(n: nat) -> Seq<char>
    decreases n,
{
    if n < 10 {
        seq![digit_char(n)]
    } else {
        nat_digits(n / 10).push(digit_char(n % 10))
    }
}

/// Decimal rendering of an integer as `i64::to_string` gives it: a minus sign
/// for negative values, followed by the digits of the absolute value.
pub open spec fn int_decimal(n: int) -> Seq<char> {
    if n < 0 {
        seq!['-'] + nat_digits((-n) as nat)
    } else {
        nat_digits(n as nat)
    }
}

/// Appends the decimal digits of `n`.
pub fn append_nat(s: &mut String, n: u64)
    ensures
        final(s)@ == old(s)@ + nat_digits(n as nat),
    decreases n,
{
    if n >= 10 {
        append_nat(s, n / 10);
    }
    let d: u8 = (n % 10) as u8;
    string_push(s, (48u8 + d) as char);
    assert(final(s)@ =~= old(s)@ + nat_digits(n as nat)) by {
        if n < 10 {
            assert(n % 10 == n);
        }
    }
}

/// Appends the decimal rendering of a signed integer.
pub fn append_int(s: &mut String, n: i64)
    ensures
        final(s)@ == old(s)@ + int_decimal(n as int),
{
    if n < 0 {
        string_push(s, '-');
        let m: u64 = (-(n as i128)) as u64;
        append_nat(s, m);
        assert(final(s)@ =~= old(s)@ + int_decimal(n as int));
    } else {
        append_nat(s, n as u64);
    }
}

/// Appends the decimal rendering of a `usize`.
pub fn append_usize(s: &mut String, n: usize)
    ensures
        final(s)@ == old(s)@ + nat_digits(n as nat),
{
    append_nat(s, n as u64);
}

/// A new string holding `a` followed by `b`.
pub fn concat2(a: &str, b: &str) -> (s: String)
    ensures
        s@ == a@ + b@,
{
    let mut s = String::from_str(a);
    s.append(b);
    s
}

/// Whether a character is whitespace in the sense of `char::is_whitespace`
/// (the Unicode `White_Space` property).
pub open spec fn is_unicode_whitespace(c: char) -> bool {
    ||| ('\u{9}' <= c && c <= '\u{d}')
    ||| c == ' '
    ||| c == '\u{85}'
    ||| c == '\u{a0}'
    ||| c == '\u{1680}'
    ||| ('\u{2000}' <= c && c <= '\u{200a}')
    ||| c == '\u{2028}'
    ||| c == '\u{2029}'
    ||| c == '\u{202f}'
    ||| c == '\u{205f}'
    ||| c == '\u{3000}'
}

/// Executable `char::is_whitespace`, proved against the property above.
pub fn is_whitespace(c: char) -> (b: bool)
    ensures
        b == is_unicode_whitespace(c),
{
    ('\u{9}' <= c && c <= '\u{d}') || c == ' ' || c == '\u{85}' || c == '\u{a0}' || c
        == '\u{1680}' || ('\u{2000}' <= c && c <= '\u{200a}') || c == '\u{2028}' || c
        == '\u{2029}' || c == '\u{202f}' || c == '\u{205f}' || c == '\u{3000}'
}

/// Number of leading characters of `s` that satisfy the predicate.
pub open spec fn leading_count(s: Seq<char>, p: spec_fn(char) -> bool) -> nat
    decreases s.len(),
{
    if s.len() == 0 || !p(s[0]) {
        0
    } else {
        1 + leading_count(s.drop_first(), p)
    }
}

/// Number of trailing characters of `s` that satisfy the predicate.
pub open spec fn trailing_count(s: Seq<char>, p: spec_fn(char) -> bool) -> nat
    decreases s.len(),
{
    if s.len() == 0 || !p(s.last()) {
        0
    } else {
        1 + trailing_count(s.drop_last(), p)
    }
}

/// The whitespace predicate as a value.
pub open spec fn ws_pred() -> spec_fn(char) -> bool {
    |c: char| is_unicode_whitespace(c)
}

/// The predicate "is the character `x`" as a value.
pub open spec fn eq_pred(x: char) -> spec_fn(char) -> bool {
    |c: char| c == x
}

/// `s` without the leading characters that satisfy `p`.
pub open spec fn strip_start(s: Seq<char>, p: spec_fn(char) -> bool) -> Seq<char> {
    s.skip(leading_count(s, p) as int)
}

/// `s` without the trailing characters that satisfy `p`.
pub open spec fn strip_end(s: Seq<char>, p: spec_fn(char) -> bool) -> Seq<char> {
    s.take(s.len() - trailing_count(s, p))
}

/// `s` without leading and trailing whitespace (`str::trim`).
pub open spec fn trim_spec(s: Seq<char>) -> Seq<char> {
    strip_end(strip_start(s, ws_pred()), ws_pred())
}

/// `s` with every leading and trailing occurrence of `c` removed
/// (`str::trim_matches` with a single character).
pub open spec fn trim_char_spec(s: Seq<char>, c: char) -> Seq<char> {
    strip_end(strip_start(s, eq_pred(c)), eq_pred(c))
}

pub proof fn lemma_leading_count(s: Seq<char>, p: spec_fn(char) -> bool, k: int)
    requires
        0 <= k <= s.len(),
        forall|j: int| 0 <= j < k ==> p(#[trigger] s[j]),
        k == s.len() || !p(s[k]),
    ensures
        leading_count(s, p) == k,
    decreases k,
{
    if k > 0 {
        let t = s.drop_first();
        assert forall|j: int| 0 <= j < k - 1 implies p(#[trigger] t[j]) by {
            assert(t[j] == s[j + 1]);
        }
        if k - 1 < t.len() {
            assert(t[k - 1] == s[k]);
        }
        lemma_leading_count(t, p, k - 1);
    }
}

pub proof fn lemma_trailing_count(s: Seq<char>, p: spec_fn(char) -> bool, k: int)
    requires
        0 <= k <= s.len(),
        forall|j: int| s.len() - k <= j < s.len() ==> p(#[trigger] s[j]),
        k == s.len() || !p(s[s.len() - k - 1]),
    ensures
        trailing_count(s, p) == k,
    decreases k,
{
    if k > 0 {
        let t = s.drop_last();
        assert forall|j: int| t.len() - (k - 1) <= j < t.len() implies p(#[trigger] t[j]) by {
            assert(t[j] == s[j]);
        }
        if k - 1 < t.len() {
            assert(t[t.len() - (k - 1) - 1] == s[s.len() - k - 1]);
        }
        assert(p(s[s.len() - 1]));
        lemma_trailing_count(t, p, k - 1);
    }
}

/// The characters `s[a..b]` as a new vector.
pub fn copy_range(s: &[char], a: usize, b: usize) -> (r: Vec<char>)
    requires
        a <= b <= s@.len(),
    ensures
        r@ == s@.subrange(a as int, b as int),
{
    let mut r: Vec<char> = Vec::new();
    let mut i = a;
    while i < b
        invariant
            a <= i <= b,
            b <= s@.len(),
            r@ == s@.subrange(a as int, i as int),
        decreases b - i,
    {
        r.push(s[i]);
        i = i + 1;
        assert(r@ =~= s@.subrange(a as int, i as int));
    }
    r
}

/// `str::trim` on a character vector.
pub fn trim(s: &[char]) -> (r: Vec<char>)
    ensures
        r@ == trim_spec(s@),
{
    let mut i: usize = 0;
    while i < s.len() && is_whitespace(s[i])
        invariant
            i <= s@.len(),
            forall|j: int| 0 <= j < i ==> is_unicode_whitespace(#[trigger] s@[j]),
        decreases s@.len() - i,
    {
        i = i + 1;
    }
    proof {
        lemma_leading_count(s@, ws_pred(), i as int);
    }
    let ghost t = s@.skip(i as int);
    let mut e: usize = s.len();
    while e > i && is_whitespace(s[e - 1])
        invariant
            i <= e <= s@.len(),
            t == s@.skip(i as int),
            forall|j: int| e <= j < s@.len() ==> is_unicode_whitespace(#[trigger] s@[j]),
        decreases e,
    {
        e = e - 1;
    }
    proof {
        let k = s@.len() - e;
        assert forall|j: int| t.len() - k <= j < t.len() implies (ws_pred())(#[trigger] t[j]) by {
            assert(t[j] == s@[j + i]);
        }
        if k < t.len() {
            assert(t[t.len() - k - 1] == s@[e - 1]);
        }
        lemma_trailing_count(t, ws_pred(), k);
        assert(strip_end(t, ws_pred()) =~= s@.subrange(i as int, e as int));
    }
    copy_range(s, i, e)
}

/// `str::trim_matches(c)` for a single character on a character vector.
pub fn trim_char(s: &[char], c: char) -> (r: Vec<char>)
    ensures
        r@ == trim_char_spec(s@, c),
{
    let mut i: usize = 0;
    while i < s.len() && s[i] == c
        invariant
            i <= s@.len(),
            forall|j: int| 0 <= j < i ==> #[trigger] s@[j] == c,
        decreases s@.len() - i,
    {
        i = i + 1;
    }
    proof {
        lemma_leading_count(s@, eq_pred(c), i as int);
    }
    let ghost t = s@.skip(i as int);
    let mut e: usize = s.len();
    while e > i && s[e - 1] == c
        invariant
            i <= e <= s@.len(),
            t == s@.skip(i as int),
            forall|j: int| e <= j < s@.len() ==> #[trigger] s@[j] == c,
        decreases e,
    {
        e = e - 1;
    }
    proof {
        let k = s@.len() - e;
        assert forall|j: int| t.len() - k <= j < t.len() implies (eq_pred(c))(#[trigger] t[j]) by {
            assert(t[j] == s@[j + i]);
        }
        if k < t.len() {
            assert(t[t.len() - k - 1] == s@[e - 1]);
        }
        lemma_trailing_count(t, eq_pred(c), k);
        assert(strip_end(t, eq_pred(c)) =~= s@.subrange(i as int, e as int));
    }
    copy_range(s, i, e)
}

/// Whether a character is an ASCII decimal digit.
pub open spec fn is_digit(c: char) -> bool {
    '0' <= c && c <= '9'
}

/// The value of a string of decimal digits.
pub open spec fn digits_value(s: Seq<char>) -> int
    decreases s.len(),
{
    if s.len() == 0 {
        0
    } else {
        digits_value(s.drop_last()) * 10 + (s.last() as int - 48)
    }
}

/// What follows an optional leading sign.
pub open spec fn unsigned_part(s: Seq<char>) -> Seq<char> {
    if s.len() > 0 && (s[0] == '-' || s[0] == '+') {
        s.skip(1)
    } else {
        s
    }
}

/// A non-empty run of ASCII decimal digits.
pub open spec fn all_digits(s: Seq<char>) -> bool {
    s.len() > 0 && forall|i: int| 0 <= i < s.len() ==> is_digit(#[trigger] s[i])
}

/// `str::parse::<i64>`: an optional '+' or '-' followed by at least one
/// decimal digit, and a value that fits in an `i64`.
pub open spec fn parse_i64_spec(s: Seq<char>) -> Option<i64> {
    let body = unsigned_part(s);
    if !all_digits(body) {
        None
    } else {
        let v = if s[0] == '-' {
            -digits_value(body)
        } else {
            digits_value(body)
        };
        if i64::MIN <= v <= i64::MAX {
            Some(v as i64)
        } else {
            None
        }
    }
}

proof fn lemma_digits_value_monotone(s: Seq<char>, k: int)
    requires
        0 <= k <= s.len(),
        forall|i: int| 0 <= i < s.len() ==> is_digit(#[trigger] s[i]),
    ensures
        digits_value(s.take(k)) <= digits_value(s),
        0 <= digits_value(s.take(k)),
    decreases s.len() - k,
{
    if k < s.len() {
        lemma_digits_value_monotone(s, k + 1);
        assert(s.take(k + 1).drop_last() =~= s.take(k));
        assert(s.take(k + 1).last() == s[k]);
    } else {
        assert(s.take(k) =~= s);
    }
    lemma_digits_value_nonneg(s.take(k));
}

proof fn lemma_digits_value_nonneg(s: Seq<char>)
    requires
        forall|i: int| 0 <= i < s.len() ==> is_digit(#[trigger] s[i]),
    ensures
        0 <= digits_value(s),
    decreases s.len(),
{
    if s.len() > 0 {
        assert forall|i: int| 0 <= i < s.drop_last().len() implies is_digit(#[trigger] s.drop_last()[i]) by {
            assert(s.drop_last()[i] == s[i]);
        }
        lemma_digits_value_nonneg(s.drop_last());
    }
}

/// Parses a decimal `i64` as `str::parse::<i64>` does.
pub fn parse_i64(s: &str) -> (r: Option<i64>)
    ensures
        r == parse_i64_spec(s@),
{
    let cs = chars_of(s);
    let n = cs.len();
    let neg = n > 0 && cs[0] == '-';
    let start: usize = if n > 0 && (cs[0] == '-' || cs[0] == '+') {
        1
    } else {
        0
    };
    let ghost body = unsigned_part(s@);
    assert(body =~= cs@.skip(start as int));
    if start >= n {
        return None;
    }
    let limit: i128 = 9223372036854775808;
    let mut acc: i128 = 0;
    let mut i: usize = start;
    while i < n
        invariant
            start <= i <= n,
            n == cs@.len(),
            cs@ == s@,
            body == cs@.skip(start as int),
            body == unsigned_part(s@),
            neg == (s@.len() > 0 && s@[0] == '-'),
            forall|j: int| 0 <= j < i - start ==> is_digit(#[trigger] body[j]),
            acc == digits_value(body.take(i - start)),
            0 <= acc <= limit,
            limit == 9223372036854775808,
        decreases n - i,
    {
        let c = cs[i];
        if !(c >= '0' && c <= '9') {
            proof {
                assert(!is_digit(body[i - start]));
                assert(!(forall|j: int| 0 <= j < body.len() ==> is_digit(#[trigger] body[j])));
                assert(parse_i64_spec(s@) is None);
            }
            return None;
        }
        let d: i128 = (c as u32 - 48) as i128;
        assert(body.take(i - start + 1).drop_last() =~= body.take(i - start));
        assert(body.take(i - start + 1).last() == c);
        acc = acc * 10 + d;
        i = i + 1;
        if acc > limit {
            proof {
                assert(forall|j: int| 0 <= j < i - start ==> is_digit(#[trigger] body[j]));
                if forall|j: int| 0 <= j < body.len() ==> is_digit(#[trigger] body[j]) {
                    lemma_digits_value_monotone(body, i - start);
                    assert(digits_value(body) > limit);
                    assert(parse_i64_spec(s@) is None);
                }
                assert(parse_i64_spec(s@) is None);
            }
            return None;
        }
    }
    assert(body.take(n - start) =~= body);
    if neg {
        let v = -acc;
        Some(v as i64)
    } else {
        if acc > 9223372036854775807 {
            return None;
        }
        Some(acc as i64)
    }
}

} // verus!
