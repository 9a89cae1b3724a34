use vstd::prelude::*;

use crate::format::{interval_string, interval_text, timestamp_string, timestamp_text};
use crate::parse::{
    after_sign, chars_of, check_float, find_exp, is_digit, is_sign, next_non_ws, parse_spec, scale_number, skip_number, skip_word,
    skip_ws, trim_end_letters, unit_of,
};

verus! {

/// A point in time, as a signed count of nanoseconds since an arbitrary epoch.
#[derive(Debug, Copy, Clone, PartialEq, Eq, Structural, PartialOrd, Ord, Default, Hash)]
pub struct Timestamp(pub i64);

/// The half-open range `[start, stop)`. Nothing forces `start <= stop`.
#[derive(Debug, Copy, Clone, PartialEq, Eq, Structural, PartialOrd, Ord, Default, Hash)]
pub struct Interval {
    pub start: Timestamp,
    pub stop: Timestamp,
}

/// The ways in which a time text can be malformed.
#[derive(Debug, Copy, Clone, PartialEq, Eq, Structural)]
pub enum IntervalParseError {
    NoValue,
    InvalidValue,
    NoUnit,
    InvalidUnit,
    StartAfterStop,
    StartAfterEnd,
    StopBeforeStart,
}

impl Timestamp {
    /// The time in the largest unit it reaches, with three places
    /// (`"1.500 s"`), or in whole nanoseconds under a microsecond (`"12 ns"`).
    pub fn to_string(self) -> (r: String)
        ensures
            r@ == timestamp_text(self.0 as int),
    {
        timestamp_string(self.0)
    }
}

impl IntervalParseError {
    pub open spec fn spec_message(self) -> Seq<char> {
        match self {
            IntervalParseError::NoValue => "no value"@,
            IntervalParseError::InvalidValue => "invalid value"@,
            IntervalParseError::NoUnit => "no unit"@,
            IntervalParseError::InvalidUnit => "invalid unit"@,
            IntervalParseError::StartAfterStop => "start after stop"@,
            IntervalParseError::StartAfterEnd => "start after end"@,
            IntervalParseError::StopBeforeStart => "stop before start"@,
        }
    }

    /// A short description of the error, such as `"no unit"`.
    pub fn to_string(self) -> (r: String)
        ensures
            r@ == self.spec_message(),
    {
        match self {
            IntervalParseError::NoValue => String::from_str("no value"),
            IntervalParseError::InvalidValue => String::from_str("invalid value"),
            IntervalParseError::NoUnit => String::from_str("no unit"),
            IntervalParseError::InvalidUnit => String::from_str("invalid unit"),
            IntervalParseError::StartAfterStop => String::from_str("start after stop"),
            IntervalParseError::StartAfterEnd => String::from_str("start after end"),
            IntervalParseError::StopBeforeStart => String::from_str("stop before start"),
        }
    }
}

pub open spec fn spec_min(a: i64, b: i64) -> i64 {
    if a <= b { a } else { b }
}

pub open spec fn spec_max(a: i64, b: i64) -> i64 {
    if a >= b { a } else { b }
}

impl Interval {
    pub open spec fn spec_duration(self) -> int {
        self.stop.0 - self.start.0
    }

    /// `start <= p < stop`.
    pub open spec fn spec_contains(self, p: Timestamp) -> bool {
        self.start.0 <= p.0 && p.0 < self.stop.0
    }

    /// False exactly when one of the two ends at or before the other begins.
    pub open spec fn spec_overlaps(self, other: Interval) -> bool {
        !(other.stop.0 <= self.start.0 || self.stop.0 <= other.start.0)
    }

    pub open spec fn spec_intersection(self, other: Interval) -> Interval {
        Interval {
            start: Timestamp(spec_max(self.start.0, other.start.0)),
            stop: Timestamp(spec_min(self.stop.0, other.stop.0)),
        }
    }

    pub open spec fn spec_union(self, other: Interval) -> Interval {
        Interval {
            start: Timestamp(spec_min(self.start.0, other.start.0)),
            stop: Timestamp(spec_max(self.stop.0, other.stop.0)),
        }
    }

    pub fn new(start: Timestamp, stop: Timestamp) -> (r: Self)
        ensures
            r.start == start,
            r.stop == stop,
    {
        Interval { start, stop }
    }

    /// `stop - start`, which may be negative.
    pub fn duration_ns(self) -> (r: i64)
        requires
            i64::MIN <= self.spec_duration() <= i64::MAX,
        ensures
            r == self.spec_duration(),
    {
        self.stop.0 - self.start.0
    }

    pub fn contains(self, point: Timestamp) -> (r: bool)
        ensures
            r == self.spec_contains(point),
    {
        point.0 >= self.start.0 && point.0 < self.stop.0
    }

    pub fn overlaps(self, other: Interval) -> (r: bool)
        ensures
            r == self.spec_overlaps(other),
    {
        !(other.stop.0 <= self.start.0 || self.stop.0 <= other.start.0)
    }

    /// Per-field max of the starts and min of the stops; when the two do not
    /// overlap the result has `stop <= start`.
    pub fn intersection(self, other: Interval) -> (r: Self)
        ensures
            r == self.spec_intersection(other),
    {
        let start = if self.start.0 >= other.start.0 { self.start.0 } else { other.start.0 };
        let stop = if self.stop.0 <= other.stop.0 { self.stop.0 } else { other.stop.0 };
        Interval { start: Timestamp(start), stop: Timestamp(stop) }
    }

    /// Per-field min of the starts and max of the stops.
    pub fn union(self, other: Interval) -> (r: Self)
        ensures
            r == self.spec_union(other),
    {
        let start = if self.start.0 <= other.start.0 { self.start.0 } else { other.start.0 };
        let stop = if self.stop.0 >= other.stop.0 { self.stop.0 } else { other.stop.0 };
        Interval { start: Timestamp(start), stop: Timestamp(stop) }
    }

    /// Both ends in the largest unit that `stop` reaches, then the duration:
    /// `"from 1.000 to 2.500 s (duration: 1.500 s)"`.
    pub fn to_string(self) -> (r: String)
        requires
            i64::MIN <= self.spec_duration() <= i64::MAX,
        ensures
            r@ == interval_text(self.start.0 as int, self.stop.0 as int),
    {
        interval_string(self.start.0, self.stop.0)
    }

    /// Reads a time such as `"500.0 ms"` or `"2s"` as nanoseconds, truncated
    /// toward zero and capped at `i64::MAX`.
    pub fn parse_timestamp(s: &str) -> (r: Result<Timestamp, IntervalParseError>)
        ensures
            match parse_spec(s@) {
                Ok(ns) => r == Ok::<Timestamp, IntervalParseError>(Timestamp(ns)),
                Err(e) => r == Err::<Timestamp, IntervalParseError>(e),
            },
    {
        let t = chars_of(s);
        let n = t.len();
        let a = skip_ws(&t, 0);
        if a >= n {
            return Err(IntervalParseError::NoValue);
        }
        let b = skip_word(&t, a);
        let v = trim_end_letters(&t, a, b);
        if v == a {
            return Err(IntervalParseError::NoValue);
        }
        if !check_float(&t, a, v) {
            return Err(IntervalParseError::InvalidValue);
        }
        let u = skip_number(&t, a, b);
        let (c, e) = if u < b {
            (u, b)
        } else {
            let c = skip_ws(&t, b);
            if c >= n {
                return Err(IntervalParseError::NoUnit);
            }
            (c, skip_word(&t, c))
        };
        if skip_ws(&t, e) < n {
            return Err(IntervalParseError::InvalidValue);
        }
        match unit_of(&t, c, e) {
            None => Err(IntervalParseError::InvalidUnit),
            Some(k) => {
                proof {
                    let ghost w = t@.subrange(c as int, e as int);
                    assert(w[0] == t@[c as int]);
                    if is_sign(t@[a as int]) {
                        assert(u == a) by {
                            if u > a {
                                assert(a <= a < u);
                            }
                        }
                        assert(false);
                    }
                    let x = find_exp(t@, a as int, v as int);
                    if x < v {
                        assert(u == x) by {
                            if u > x {
                                assert(a <= x < u);
                            } else if u < x {
                                assert(is_digit(t@[u as int]) || t@[u as int] == '.');
                            }
                        }
                        assert(false);
                    }
                    assert(after_sign(t@, a as int, v as int) == a);
                }
                Ok(Timestamp(scale_number(&t, a, v, k)))
            },
        }
    }
}

/// An interval holds its start and never its stop, whenever `t1 <= t2`; it
/// holds its start only when it is not empty.
pub proof fn lemma_half_open(t1: Timestamp, t2: Timestamp)
    requires
        t1.0 <= t2.0,
    ensures
        !(Interval { start: t1, stop: t2 }).spec_contains(t2),
        t1.0 < t2.0 ==> (Interval { start: t1, stop: t2 }).spec_contains(t1),
{
}

/// Overlap is symmetric.
pub proof fn lemma_overlaps_symmetric(a: Interval, b: Interval)
    ensures
        a.spec_overlaps(b) == b.spec_overlaps(a),
{
}

/// The intersection of two intervals that do not overlap ends before it
/// starts, unless its two ends meet.
pub proof fn lemma_disjoint_intersection_inverted(a: Interval, b: Interval)
    requires
        !a.spec_overlaps(b),
        a.spec_intersection(b).start != a.spec_intersection(b).stop,
    ensures
        a.spec_intersection(b).stop.0 < a.spec_intersection(b).start.0,
{
}

} // verus!
