//! Decimal text for integers and the unit-scaled text form of times.
use vstd::prelude::*;

verus! {

pub open spec fn digit_of(d: nat) -> char {
    if d == 0 {
        '0'
    } else if d == 1 {
        '1'
    } else if d == 2 {
        '2'
    } else if d == 3 {
        '3'
    } else if d == 4 {
        '4'
    } else if d == 5 {
        '5'
    } else if d == 6 {
        '6'
    } else if d == 7 {
        '7'
    } else if d == 8 {
        '8'
    } else {
        '9'
    }
}

/// The decimal digits of `n`, most significant first, without leading zeros.
pub open spec fn decimal(n: nat) -> Seq<char>
    decreases n,
{
    if n < 10 {
        seq![digit_of(n)]
    } else {
        decimal(n / 10).push(digit_of(n % 10))
    }
}

/// `n` in decimal, with a minus sign when it is negative.
pub open spec fn int_text(n: int) -> Seq<char> {
    if n < 0 {
        seq!['-'] + decimal((-n) as nat)
    } else {
        decimal(n as nat)
    }
}

/// `t` padded on the left with zeros to at least three characters.
pub open spec fn pad3(t: Seq<char>) -> Seq<char> {
    if t.len() >= 3 {
        t
    } else {
        Seq::new((3 - t.len()) as nat, |i: int| '0') + t
    }
}

/// Division that truncates toward zero.
pub open spec fn tdiv(n: int, d: int) -> int {
    if n >= 0 {
        n / d
    } else {
        -((-n) / d)
    }
}

/// The remainder that goes with `tdiv`: it has the sign of `n`.
pub open spec fn trem(n: int, d: int) -> int {
    n - tdiv(n, d) * d
}

/// The unit that a time is shown in, by the decimal places it shifts: `s`,
/// `ms`, `us` or `ns`.
pub open spec fn unit_name(shift: nat) -> Seq<char> {
    if shift == 9 {
        seq!['s']
    } else if shift == 6 {
        seq!['m', 's']
    } else if shift == 3 {
        seq!['u', 's']
    } else {
        seq!['n', 's']
    }
}

/// The divisor of the largest unit that `ns` reaches, at least a microsecond;
/// 1 when `ns` is under a microsecond.
pub open spec fn unit_divisor(ns: int) -> int {
    if ns >= 1_000_000_000 {
        1_000_000_000
    } else if ns >= 1_000_000 {
        1_000_000
    } else if ns >= 1_000 {
        1_000
    } else {
        1
    }
}

pub open spec fn unit_shift_of(ns: int) -> nat {
    if ns >= 1_000_000_000 {
        9
    } else if ns >= 1_000_000 {
        6
    } else if ns >= 1_000 {
        3
    } else {
        0
    }
}

/// `n` in the unit whose divisor is `d`: whole units, a dot, and three
/// places, each part truncated toward zero.
pub open spec fn scaled_text(n: int, d: int) -> Seq<char> {
    int_text(tdiv(n, d)) + seq!['.'] + pad3(int_text(tdiv(trem(n, d), d / 1000)))
}

/// `"<units>.<three places> <unit>"` in the largest unit that the time
/// reaches, or `"<n> ns"` under a microsecond.
pub open spec fn timestamp_text(ns: int) -> Seq<char> {
    let d = unit_divisor(ns);
    if d == 1 {
        int_text(ns) + seq![' '] + unit_name(0)
    } else {
        scaled_text(ns, d) + seq![' '] + unit_name(unit_shift_of(ns))
    }
}

/// A time in the unit whose divisor is `d`, or in nanoseconds where `d` is 1.
pub open spec fn end_text(n: int, d: int) -> Seq<char> {
    if d == 1 {
        int_text(n)
    } else {
        scaled_text(n, d)
    }
}

/// `"from <start> to <stop> <unit> (duration: <stop - start>)"`, with both
/// ends in the largest unit that `stop` reaches, and the duration written as
/// a time of its own.
pub open spec fn interval_text(start: int, stop: int) -> Seq<char> {
    let d = unit_divisor(stop);
    "from "@ + end_text(start, d) + " to "@ + end_text(stop, d) + " "@ + unit_name(
        unit_shift_of(stop),
    ) + " (duration: "@ + timestamp_text(stop - start) + ")"@
}

/// Relies on `String::push`: the character is added at the end.
#[verifier::external_body]
pub(crate) fn push_char(s: &mut String, c: char)
    ensures
        final(s)@ == old(s)@.push(c),
{
    s.push(c)
}

fn digit_char(d: u64) -> (c: char)
    requires
        d < 10,
    ensures
        c == digit_of(d as nat),
{
    if d == 0 {
        '0'
    } else if d == 1 {
        '1'
    } else if d == 2 {
        '2'
    } else if d == 3 {
        '3'
    } else if d == 4 {
        '4'
    } else if d == 5 {
        '5'
    } else if d == 6 {
        '6'
    } else if d == 7 {
        '7'
    } else if d == 8 {
        '8'
    } else {
        '9'
    }
}

pub fn push_nat(out: &mut String, n: u64)
    ensures
        final(out)@ == old(out)@ + decimal(n as nat),
    decreases n,
{
    if n >= 10 {
        push_nat(out, n / 10);
    }
    push_char(out, digit_char(n % 10));
    assert(final(out)@ =~= old(out)@ + decimal(n as nat));
}

pub fn push_int(out: &mut String, n: i64)
    ensures
        final(out)@ == old(out)@ + int_text(n as int),
{
    if n < 0 {
        push_char(out, '-');
        let m: u64 = if n == i64::MIN {
            0x8000_0000_0000_0000
        } else {
            (-n) as u64
        };
        push_nat(out, m);
        assert(final(out)@ =~= old(out)@ + int_text(n as int));
    } else {
        push_nat(out, n as u64);
    }
}

proof fn lemma_decimal_len(n: nat)
    requires
        n < 1000,
    ensures
        n < 10 ==> decimal(n).len() == 1,
        10 <= n < 100 ==> decimal(n).len() == 2,
        100 <= n ==> decimal(n).len() == 3,
{
    reveal_with_fuel(decimal, 3);
}

/// Pushes `n` in decimal, padded with zeros to three characters.
pub fn push_padded(out: &mut String, n: i64)
    requires
        -1000 < n < 1000,
    ensures
        final(out)@ == old(out)@ + pad3(int_text(n as int)),
{
    let ghost t = int_text(n as int);
    proof {
        if n < 0 {
            lemma_decimal_len((-n) as nat);
        } else {
            lemma_decimal_len(n as nat);
        }
    }
    let width: u64 = if n >= 100 {
        3
    } else if n >= 10 {
        2
    } else if n >= 0 {
        1
    } else if n > -10 {
        2
    } else if n > -100 {
        3
    } else {
        4
    };
    assert(t.len() == width);
    let zeros: u64 = if width < 3 {
        3 - width
    } else {
        0
    };
    let mut i: u64 = 0;
    while i < zeros
        invariant
            i <= zeros,
            out@ == old(out)@ + Seq::new(i as nat, |j: int| '0'),
        decreases zeros - i,
    {
        push_char(out, '0');
        i += 1;
        assert(out@ =~= old(out)@ + Seq::new(i as nat, |j: int| '0'));
    }
    push_int(out, n);
    assert(final(out)@ =~= old(out)@ + pad3(t));
}

/// Pushes `n` in the unit whose divisor is `d`: whole units, a dot and three
/// places.
pub fn push_scaled(out: &mut String, n: i64, d: u64)
    requires
        d == 1_000 || d == 1_000_000 || d == 1_000_000_000,
    ensures
        final(out)@ == old(out)@ + scaled_text(n as int, d as int),
{
    let m: u64 = if n == i64::MIN {
        0x8000_0000_0000_0000
    } else if n < 0 {
        (-n) as u64
    } else {
        n as u64
    };
    let q = m / d;
    let r = m % d;
    let rq = r / (d / 1000);
    proof {
        vstd::arithmetic::div_mod::lemma_fundamental_div_mod(m as int, d as int);
        assert(q * d <= m) by (nonlinear_arith)
            requires
                m == d * q + r,
                r >= 0,
        ;
        assert(q <= m) by (nonlinear_arith)
            requires
                q * d <= m,
                d >= 1,
        ;
        assert(rq <= r) by (nonlinear_arith)
            requires
                rq == r / (d / 1000),
                d / 1000 >= 1,
        ;
        assert(rq < 1000) by (nonlinear_arith)
            requires
                rq == r / (d / 1000),
                r < d,
                d == (d / 1000) * 1000,
                d / 1000 >= 1,
        ;
    }
    let units: i64 = if n < 0 {
        -(q as i64)
    } else {
        q as i64
    };
    let places: i64 = if n < 0 {
        -(rq as i64)
    } else {
        rq as i64
    };
    assert(units == tdiv(n as int, d as int));
    assert(units * d == if n < 0 { -(q * d) } else { q * d }) by (nonlinear_arith)
        requires
            units == if n < 0 { -q } else { q as int },
    ;
    assert(trem(n as int, d as int) == if n < 0 { -r } else { r as int });
    assert(places == tdiv(trem(n as int, d as int), (d / 1000) as int));
    push_int(out, units);
    push_char(out, '.');
    push_padded(out, places);
    assert(final(out)@ =~= old(out)@ + scaled_text(n as int, d as int));
}

/// The text of a time: see `timestamp_text`.
pub fn timestamp_string(ns: i64) -> (r: String)
    ensures
        r@ == timestamp_text(ns as int),
{
    let mut out = String::new();
    push_end(&mut out, ns, divisor_of(ns));
    push_char(&mut out, ' ');
    push_unit(&mut out, ns);
    assert(out@ =~= timestamp_text(ns as int));
    out
}

fn push_unit(out: &mut String, ns: i64)
    ensures
        final(out)@ == old(out)@ + unit_name(unit_shift_of(ns as int)),
{
    if ns >= 1_000_000_000 {
        push_char(out, 's');
    } else {
        if ns >= 1_000_000 {
            push_char(out, 'm');
        } else if ns >= 1_000 {
            push_char(out, 'u');
        } else {
            push_char(out, 'n');
        }
        push_char(out, 's');
    }
    assert(final(out)@ =~= old(out)@ + unit_name(unit_shift_of(ns as int)));
}

fn divisor_of(ns: i64) -> (d: u64)
    ensures
        d == unit_divisor(ns as int),
{
    if ns >= 1_000_000_000 {
        1_000_000_000
    } else if ns >= 1_000_000 {
        1_000_000
    } else if ns >= 1_000 {
        1_000
    } else {
        1
    }
}

fn push_end(out: &mut String, n: i64, d: u64)
    requires
        d == 1 || d == 1_000 || d == 1_000_000 || d == 1_000_000_000,
    ensures
        final(out)@ == old(out)@ + end_text(n as int, d as int),
{
    if d == 1 {
        push_int(out, n);
    } else {
        push_scaled(out, n, d);
    }
}

/// The text of an interval: see `interval_text`.
pub fn interval_string(start: i64, stop: i64) -> (r: String)
    requires
        i64::MIN <= stop - start <= i64::MAX,
    ensures
        r@ == interval_text(start as int, stop as int),
{
    let d = divisor_of(stop);
    let mut out = String::from_str("from ");
    push_end(&mut out, start, d);
    out.append(" to ");
    push_end(&mut out, stop, d);
    out.append(" ");
    push_unit(&mut out, stop);
    out.append(" (duration: ");
    let duration = timestamp_string(stop - start);
    out.append(duration.as_str());
    out.append(")");
    assert(out@ =~= interval_text(start as int, stop as int));
    out
}

} // verus!
