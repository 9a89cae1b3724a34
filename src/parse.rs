//! The text form of a time: a decimal value followed by a unit, fused
//! (`"500ms"`) or parted by whitespace (`"500.0 ms"`).
use vstd::prelude::*;

use crate::timestamp::IntervalParseError;

verus! {

/// The characters that separate words: Unicode's `White_Space` property.
pub open spec fn is_ws(c: char) -> bool {
    ('\t' <= c && c <= '\r') || c == ' ' || c == '\u{85}' || c == '\u{a0}' || c == '\u{1680}'
        || ('\u{2000}' <= c && c <= '\u{200a}') || c == '\u{2028}' || c == '\u{2029}'
        || c == '\u{202f}' || c == '\u{205f}' || c == '\u{3000}'
}

pub open spec fn is_digit(c: char) -> bool {
    '0' <= c && c <= '9'
}

pub open spec fn is_ascii(c: char) -> bool {
    (c as u32) < 128
}

pub open spec fn is_sign(c: char) -> bool {
    c == '+' || c == '-'
}

pub open spec fn is_exp_mark(c: char) -> bool {
    c == 'e' || c == 'E'
}

/// Whether a character has Unicode's `Alphabetic` property.
pub uninterp spec fn alphabetic(c: char) -> bool;

/// Whether a character is in one of Unicode's numeric categories.
pub uninterp spec fn numeric(c: char) -> bool;

pub open spec fn digit_val(c: char) -> nat {
    (c as u32 - '0' as u32) as nat
}

/// The first index at or after `i` that holds no whitespace, or the length.
pub open spec fn next_non_ws(s: Seq<char>, i: int) -> int
    decreases s.len() - i,
{
    if i < 0 || i >= s.len() {
        s.len() as int
    } else if is_ws(s[i]) {
        next_non_ws(s, i + 1)
    } else {
        i
    }
}

/// The first index at or after `i` that holds whitespace, or the length.
pub open spec fn next_ws(s: Seq<char>, i: int) -> int
    decreases s.len() - i,
{
    if i < 0 || i >= s.len() {
        s.len() as int
    } else if !is_ws(s[i]) {
        next_ws(s, i + 1)
    } else {
        i
    }
}

/// The first index at or after `i`, below `end`, that holds neither a
/// numeric character nor a dot; `end` if there is none.
pub open spec fn skip_num(s: Seq<char>, i: int, end: int) -> int
    decreases end - i,
{
    if i >= end {
        end
    } else if numeric(s[i]) || s[i] == '.' {
        skip_num(s, i + 1, end)
    } else {
        i
    }
}

/// The end of `s[lo..hi]` once the alphabetic characters at its end are
/// taken off.
pub open spec fn trim_letters(s: Seq<char>, lo: int, hi: int) -> int
    decreases hi - lo,
{
    if hi <= lo {
        lo
    } else if alphabetic(s[hi - 1]) {
        trim_letters(s, lo, hi - 1)
    } else {
        hi
    }
}

/// The index of the first dot in `s[lo..hi]`, or `hi`.
pub open spec fn find_dot(s: Seq<char>, lo: int, hi: int) -> int
    decreases hi - lo,
{
    if lo >= hi {
        hi
    } else if s[lo] == '.' {
        lo
    } else {
        find_dot(s, lo + 1, hi)
    }
}

/// `s[lo..hi]` is a decimal number: digits with at most one dot among them,
/// and at least one digit.
pub open spec fn is_number(s: Seq<char>, lo: int, hi: int) -> bool {
    &&& forall|j: int| lo <= j < hi ==> is_digit(#[trigger] s[j]) || s[j] == '.'
    &&& exists|j: int| lo <= j < hi && is_digit(#[trigger] s[j])
    &&& forall|j: int, m: int| lo <= j < m < hi && #[trigger] s[j] == '.' ==> #[trigger] s[m] != '.'
}

/// The index of the first exponent mark in `s[lo..hi]`, or `hi`.
pub open spec fn find_exp(s: Seq<char>, lo: int, hi: int) -> int
    decreases hi - lo,
{
    if lo >= hi {
        hi
    } else if is_exp_mark(s[lo]) {
        lo
    } else {
        find_exp(s, lo + 1, hi)
    }
}

/// Where the digits of `s[lo..hi]` begin, past a leading sign.
pub open spec fn after_sign(s: Seq<char>, lo: int, hi: int) -> int {
    if lo < hi && is_sign(s[lo]) {
        lo + 1
    } else {
        lo
    }
}

/// `s[lo..hi]` is an exponent: an optional sign and at least one digit.
pub open spec fn is_exponent(s: Seq<char>, lo: int, hi: int) -> bool {
    let d = after_sign(s, lo, hi);
    d < hi && forall|j: int| d <= j < hi ==> is_digit(#[trigger] s[j])
}

/// `s[lo..hi]` is a decimal float as Rust's `f64` parser reads one: an
/// optional sign, a number, and an optional exponent. (Its `inf` and `nan`
/// forms end in a letter, and a value here never does.)
pub open spec fn is_float(s: Seq<char>, lo: int, hi: int) -> bool {
    let m = after_sign(s, lo, hi);
    let e = find_exp(s, m, hi);
    is_number(s, m, e) && (e < hi ==> is_exponent(s, e + 1, hi))
}

/// The value of the digits `s[lo..hi]`.
pub open spec fn digits_value(s: Seq<char>, lo: int, hi: int) -> nat
    decreases hi - lo,
{
    if hi <= lo {
        0
    } else {
        digits_value(s, lo, hi - 1) * 10 + digit_val(s[hi - 1])
    }
}

/// The first `k` digits of `s[lo..hi]`, padded with zeros to `k` digits, as a
/// number.
pub open spec fn leading_digits(s: Seq<char>, lo: int, hi: int, k: nat) -> nat
    decreases k,
{
    if k == 0 {
        0
    } else {
        let d: nat = if lo + k - 1 < hi { digit_val(s[lo + k - 1]) } else { 0 };
        leading_digits(s, lo, hi, (k - 1) as nat) * 10 + d
    }
}

pub open spec fn pow10(k: nat) -> nat
    decreases k,
{
    if k == 0 {
        1
    } else {
        10 * pow10((k - 1) as nat)
    }
}

/// How many decimal places a unit shifts by: `ns`, `us`, `ms` and `s`, in
/// either case.
pub open spec fn unit_shift(u: Seq<char>) -> Option<nat> {
    if u.len() == 1 && (u[0] == 's' || u[0] == 'S') {
        Some(9)
    } else if u.len() == 2 && (u[1] == 's' || u[1] == 'S') {
        if u[0] == 'n' || u[0] == 'N' {
            Some(0)
        } else if u[0] == 'u' || u[0] == 'U' {
            Some(3)
        } else if u[0] == 'm' || u[0] == 'M' {
            Some(6)
        } else {
            None
        }
    } else {
        None
    }
}

/// The number `s[lo..hi]` shifted left by `k` decimal places and truncated
/// toward zero, or `i64::MAX` where that is larger.
pub open spec fn scaled_value(s: Seq<char>, lo: int, hi: int, k: nat) -> i64 {
    let d = find_dot(s, lo, hi);
    let v = digits_value(s, lo, d) * pow10(k) + leading_digits(s, d + 1, hi, k);
    if v > i64::MAX {
        i64::MAX
    } else {
        v as i64
    }
}

/// What a time text denotes, in nanoseconds. The first word holds the value,
/// and the unit too where letters end it; else the unit is the second word.
/// Words past the unit are an error.
pub open spec fn parse_spec(s: Seq<char>) -> Result<i64, IntervalParseError> {
    let a = next_non_ws(s, 0);
    let b = next_ws(s, a);
    let u = skip_num(s, a, b);
    let v = trim_letters(s, a, b);
    let c = if u < b { u } else { next_non_ws(s, b) };
    let e = if u < b { b } else { next_ws(s, c) };
    if a >= s.len() || v == a {
        Err(IntervalParseError::NoValue)
    } else if !is_float(s, a, v) {
        Err(IntervalParseError::InvalidValue)
    } else if c >= s.len() {
        Err(IntervalParseError::NoUnit)
    } else if next_non_ws(s, e) < s.len() {
        Err(IntervalParseError::InvalidValue)
    } else {
        match unit_shift(s.subrange(c, e)) {
            None => Err(IntervalParseError::InvalidUnit),
            Some(k) => Ok(scaled_value(s, a, v, k)),
        }
    }
}

proof fn lemma_pow10_bound(k: nat)
    requires
        k <= 9,
    ensures
        1 <= pow10(k) <= 1_000_000_000,
{
    reveal_with_fuel(pow10, 10);
}

fn ws_char(c: char) -> (r: bool)
    ensures
        r == is_ws(c),
{
    ('\t' <= c && c <= '\r') || c == ' ' || c == '\u{85}' || c == '\u{a0}' || c == '\u{1680}'
        || ('\u{2000}' <= c && c <= '\u{200a}') || c == '\u{2028}' || c == '\u{2029}'
        || c == '\u{202f}' || c == '\u{205f}' || c == '\u{3000}'
}

fn digit_char(c: char) -> (r: bool)
    ensures
        r == is_digit(c),
{
    '0' <= c && c <= '9'
}

/// Relies on `char::is_alphabetic`: whether `c` has Unicode's `Alphabetic`
/// property.
#[verifier::external_body]
fn alphabetic_char(c: char) -> (r: bool)
    ensures
        r == alphabetic(c),
{
    c.is_alphabetic()
}

/// Relies on `char::is_numeric`: whether `c` is in the general categories
/// `Nd`, `Nl` or `No`, to which of the ASCII characters only the digits
/// belong.
#[verifier::external_body]
fn numeric_char(c: char) -> (r: bool)
    ensures
        r == numeric(c),
        is_ascii(c) ==> (r == is_digit(c)),
{
    c.is_numeric()
}

/// The characters of `s`, in order.
pub fn chars_of(s: &str) -> (r: Vec<char>)
    ensures
        r@ == s@,
{
    let n = s.unicode_len();
    let mut v: Vec<char> = Vec::new();
    let mut i: usize = 0;
    while i < n
        invariant
            n == s@.len(),
            i <= n,
            v@ == s@.subrange(0, i as int),
        decreases n - i,
    {
        v.push(s.get_char(i));
        i += 1;
    }
    assert(v@ =~= s@);
    v
}

pub fn skip_ws(s: &Vec<char>, i: usize) -> (r: usize)
    requires
        i <= s@.len(),
    ensures
        r == next_non_ws(s@, i as int),
        i <= r <= s@.len(),
{
    let mut j = i;
    while j < s.len() && ws_char(s[j])
        invariant
            i <= j <= s@.len(),
            next_non_ws(s@, i as int) == next_non_ws(s@, j as int),
        decreases s@.len() - j,
    {
        j += 1;
    }
    j
}

pub fn skip_word(s: &Vec<char>, i: usize) -> (r: usize)
    requires
        i <= s@.len(),
    ensures
        r == next_ws(s@, i as int),
        i <= r <= s@.len(),
{
    let mut j = i;
    while j < s.len() && !ws_char(s[j])
        invariant
            i <= j <= s@.len(),
            next_ws(s@, i as int) == next_ws(s@, j as int),
        decreases s@.len() - j,
    {
        j += 1;
    }
    j
}

pub fn skip_number(s: &Vec<char>, i: usize, end: usize) -> (r: usize)
    requires
        i <= end <= s@.len(),
    ensures
        r == skip_num(s@, i as int, end as int),
        i <= r <= end,
        forall|k: int| i <= k < r && is_ascii(#[trigger] s@[k]) ==> is_digit(s@[k]) || s@[k] == '.',
        r < end && is_ascii(s@[r as int]) ==> !is_digit(s@[r as int]) && s@[r as int] != '.',
{
    let mut j = i;
    while j < end
        invariant
            i <= j <= end <= s@.len(),
            skip_num(s@, i as int, end as int) == skip_num(s@, j as int, end as int),
            forall|k: int| i <= k < j && is_ascii(#[trigger] s@[k]) ==> is_digit(s@[k]) || s@[k] == '.',
        decreases end - j,
    {
        let c = s[j];
        if !(numeric_char(c) || c == '.') {
            return j;
        }
        j += 1;
    }
    j
}

pub fn first_exp(s: &Vec<char>, lo: usize, hi: usize) -> (r: usize)
    requires
        lo <= hi <= s@.len(),
    ensures
        r == find_exp(s@, lo as int, hi as int),
        lo <= r <= hi,
        r < hi ==> is_exp_mark(s@[r as int]),
{
    let mut j = lo;
    while j < hi && !(s[j] == 'e' || s[j] == 'E')
        invariant
            lo <= j <= hi <= s@.len(),
            find_exp(s@, lo as int, hi as int) == find_exp(s@, j as int, hi as int),
        decreases hi - j,
    {
        j += 1;
    }
    j
}

fn check_exponent(s: &Vec<char>, lo: usize, hi: usize) -> (r: bool)
    requires
        lo <= hi <= s@.len(),
    ensures
        r == is_exponent(s@, lo as int, hi as int),
{
    let d = if lo < hi && (s[lo] == '+' || s[lo] == '-') {
        lo + 1
    } else {
        lo
    };
    if d >= hi {
        return false;
    }
    let mut j = d;
    while j < hi
        invariant
            d <= j <= hi <= s@.len(),
            d == after_sign(s@, lo as int, hi as int),
            forall|k: int| d <= k < j ==> is_digit(#[trigger] s@[k]),
        decreases hi - j,
    {
        if !digit_char(s[j]) {
            assert(!is_digit(s@[j as int]));
            return false;
        }
        j += 1;
    }
    true
}

pub fn check_float(s: &Vec<char>, lo: usize, hi: usize) -> (r: bool)
    requires
        lo <= hi <= s@.len(),
    ensures
        r == is_float(s@, lo as int, hi as int),
        after_sign(s@, lo as int, hi as int) <= find_exp(
            s@,
            after_sign(s@, lo as int, hi as int),
            hi as int,
        ) <= hi,
        find_exp(s@, after_sign(s@, lo as int, hi as int), hi as int) < hi ==> is_exp_mark(
            s@[find_exp(s@, after_sign(s@, lo as int, hi as int), hi as int)],
        ),
{
    let m = if lo < hi && (s[lo] == '+' || s[lo] == '-') {
        lo + 1
    } else {
        lo
    };
    let e = first_exp(s, m, hi);
    if !check_number(s, m, e) {
        return false;
    }
    if e < hi {
        check_exponent(s, e + 1, hi)
    } else {
        true
    }
}

pub fn trim_end_letters(s: &Vec<char>, lo: usize, hi: usize) -> (r: usize)
    requires
        lo <= hi <= s@.len(),
    ensures
        r == trim_letters(s@, lo as int, hi as int),
        lo <= r <= hi,
{
    let mut j = hi;
    while j > lo && alphabetic_char(s[j - 1])
        invariant
            lo <= j <= hi <= s@.len(),
            trim_letters(s@, lo as int, hi as int) == trim_letters(s@, lo as int, j as int),
        decreases j,
    {
        j -= 1;
    }
    j
}

pub fn first_dot(s: &Vec<char>, lo: usize, hi: usize) -> (r: usize)
    requires
        lo <= hi <= s@.len(),
    ensures
        r == find_dot(s@, lo as int, hi as int),
        lo <= r <= hi,
        forall|j: int| lo <= j < r ==> s@[j] != '.',
        r < hi ==> s@[r as int] == '.',
{
    let mut j = lo;
    while j < hi && s[j] != '.'
        invariant
            lo <= j <= hi <= s@.len(),
            find_dot(s@, lo as int, hi as int) == find_dot(s@, j as int, hi as int),
            forall|m: int| lo <= m < j ==> s@[m] != '.',
        decreases hi - j,
    {
        j += 1;
    }
    j
}

pub fn check_number(s: &Vec<char>, lo: usize, hi: usize) -> (r: bool)
    requires
        lo <= hi <= s@.len(),
    ensures
        r == is_number(s@, lo as int, hi as int),
{
    let mut i = lo;
    let mut digit = false;
    let mut dot = false;
    while i < hi
        invariant
            lo <= i <= hi <= s@.len(),
            forall|j: int| lo <= j < i ==> is_digit(#[trigger] s@[j]) || s@[j] == '.',
            digit == exists|j: int| lo <= j < i && is_digit(#[trigger] s@[j]),
            dot == exists|j: int| lo <= j < i && #[trigger] s@[j] == '.',
            forall|j: int, m: int| lo <= j < m < i && #[trigger] s@[j] == '.' ==> #[trigger] s@[m] != '.',
        decreases hi - i,
    {
        let c = s[i];
        if digit_char(c) {
            digit = true;
        } else if c == '.' {
            if dot {
                let ghost w = choose|j: int| lo <= j < i && #[trigger] s@[j] == '.';
                assert(lo <= w < i && s@[w] == '.' && s@[i as int] == '.');
                return false;
            }
            dot = true;
        } else {
            assert(!(is_digit(s@[i as int]) || s@[i as int] == '.'));
            return false;
        }
        i += 1;
    }
    digit
}

/// Which decimal shift the unit `s[lo..hi]` stands for, if it is a unit.
pub fn unit_of(s: &Vec<char>, lo: usize, hi: usize) -> (r: Option<u32>)
    requires
        lo <= hi <= s@.len(),
    ensures
        r.is_some() == unit_shift(s@.subrange(lo as int, hi as int)).is_some(),
        r.is_some() ==> r.unwrap() as nat == unit_shift(s@.subrange(lo as int, hi as int)).unwrap(),
{
    let ghost u = s@.subrange(lo as int, hi as int);
    if hi - lo == 1 && (s[lo] == 's' || s[lo] == 'S') {
        assert(u[0] == s@[lo as int]);
        Some(9)
    } else if hi - lo == 2 && (s[lo + 1] == 's' || s[lo + 1] == 'S') {
        assert(u[0] == s@[lo as int] && u[1] == s@[lo + 1]);
        let c = s[lo];
        if c == 'n' || c == 'N' {
            Some(0)
        } else if c == 'u' || c == 'U' {
            Some(3)
        } else if c == 'm' || c == 'M' {
            Some(6)
        } else {
            None
        }
    } else {
        assert(hi - lo == 1 ==> u[0] == s@[lo as int]);
        assert(hi - lo == 2 ==> u[1] == s@[lo + 1]);
        None
    }
}

/// The number `s[lo..hi]` shifted left by `k` decimal places, truncated, and
/// capped at `i64::MAX`.
pub fn scale_number(s: &Vec<char>, lo: usize, hi: usize, k: u32) -> (r: i64)
    requires
        lo <= hi <= s@.len(),
        is_number(s@, lo as int, hi as int),
        k <= 9,
    ensures
        r == scaled_value(s@, lo as int, hi as int, k as nat),
{
    let d = first_dot(s, lo, hi);
    let cap: u128 = 0x8000_0000_0000_0000;
    let mut acc: u128 = 0;
    let mut i = lo;
    while i < d
        invariant
            lo <= i <= d <= hi <= s@.len(),
            forall|j: int| lo <= j < d ==> s@[j] != '.',
            is_number(s@, lo as int, hi as int),
            cap == 0x8000_0000_0000_0000,
            acc <= cap,
            acc == if digits_value(s@, lo as int, i as int) < cap {
                digits_value(s@, lo as int, i as int)
            } else {
                cap as nat
            },
        decreases d - i,
    {
        assert(is_digit(s@[i as int]));
        let dv = (s[i] as u32 - '0' as u32) as u128;
        assert(dv <= 9);
        let next = acc * 10 + dv;
        acc = if next > cap { cap } else { next };
        i += 1;
    }
    let mut f: u128 = 0;
    let mut p: u128 = 1;
    let mut j: u32 = 0;
    while j < k
        invariant
            j <= k <= 9,
            lo <= d <= hi <= s@.len(),
            d < hi ==> s@[d as int] == '.',
            is_number(s@, lo as int, hi as int),
            p == pow10(j as nat),
            f == leading_digits(s@, d + 1, hi as int, j as nat),
            f < p,
        decreases k - j,
    {
        proof {
            lemma_pow10_bound(j as nat);
        }
        let dv: u128 = if d < hi && (j as usize) < hi - d - 1 {
            let c = s[d + 1 + j as usize];
            assert(is_digit(c) || c == '.');
            assert(s@[d as int] == '.');
            (c as u32 - '0' as u32) as u128
        } else {
            0
        };
        f = f * 10 + dv;
        p = p * 10;
        j += 1;
    }
    proof {
        lemma_pow10_bound(k as nat);
        assert(acc * p <= cap * 1_000_000_000) by (nonlinear_arith)
            requires
                acc <= cap,
                p <= 1_000_000_000,
        ;
        assert(acc * p >= acc) by (nonlinear_arith)
            requires
                p >= 1,
        ;
        let x = digits_value(s@, lo as int, d as int);
        assert(x * p >= x) by (nonlinear_arith)
            requires
                p >= 1,
        ;
    }
    let total = acc * p + f;
    if total > 0x7fff_ffff_ffff_ffff {
        i64::MAX
    } else {
        total as i64
    }
}

} // verus!
