use prof_tiles::{Interval, IntervalParseError, Timestamp};

#[test]
fn test_ms() {
    assert_eq!(
        Interval::parse_timestamp("500.0 ms").unwrap(),
        Timestamp(500_000_000)
    );
}

#[test]
fn test_us() {
    assert_eq!(
        Interval::parse_timestamp("500.0 us").unwrap(),
        Timestamp(500_000)
    );
}

#[test]
fn test_ns() {
    assert_eq!(
        Interval::parse_timestamp("500.0 ns").unwrap(),
        Timestamp(500)
    );
}

#[test]
fn test_s() {
    assert_eq!(
        Interval::parse_timestamp("500.0 s").unwrap(),
        Timestamp(500_000_000_000)
    );
}

#[test]
fn test_no_unit() {
    assert_eq!(
        Interval::parse_timestamp("500.0").unwrap_err(),
        IntervalParseError::NoUnit
    );
}

#[test]
fn test_no_value() {
    assert_eq!(
        Interval::parse_timestamp("ms").unwrap_err(),
        IntervalParseError::NoValue
    );
}

#[test]
fn test_invalid_unit() {
    assert_eq!(
        Interval::parse_timestamp("500.0 foo").unwrap_err(),
        IntervalParseError::InvalidUnit
    );
}

#[test]
fn test_invalid_value() {
    assert_eq!(
        Interval::parse_timestamp("foo ms").unwrap_err(),
        IntervalParseError::NoValue
    );
}

#[test]
fn test_invalid_value2() {
    assert_eq!(
        Interval::parse_timestamp("500.0.0 ms").unwrap_err(),
        IntervalParseError::InvalidValue
    );
}

#[test]
fn test_invalid_value3() {
    assert_eq!(
        Interval::parse_timestamp("500.0.0").unwrap_err(),
        IntervalParseError::InvalidValue
    );
}

#[test]
fn test_extra() {
    assert_eq!(
        Interval::parse_timestamp("500.0 ms asdfadf").unwrap_err(),
        IntervalParseError::InvalidValue
    );
}

#[test]
fn parse_empty_and_blank() {
    assert_eq!(Interval::parse_timestamp("").unwrap_err(), IntervalParseError::NoValue);
    assert_eq!(Interval::parse_timestamp("   \t ").unwrap_err(), IntervalParseError::NoValue);
}

#[test]
fn parse_fused_unit() {
    assert_eq!(Interval::parse_timestamp("500ms").unwrap(), Timestamp(500_000_000));
    assert_eq!(Interval::parse_timestamp("  2s  ").unwrap(), Timestamp(2_000_000_000));
}

#[test]
fn parse_unit_any_case() {
    assert_eq!(Interval::parse_timestamp("3 MS").unwrap(), Timestamp(3_000_000));
    assert_eq!(Interval::parse_timestamp("3 Us").unwrap(), Timestamp(3_000));
    assert_eq!(Interval::parse_timestamp("3 S").unwrap(), Timestamp(3_000_000_000));
}

#[test]
fn parse_truncates_toward_zero() {
    assert_eq!(Interval::parse_timestamp("1.2345678 us").unwrap(), Timestamp(1_234));
    assert_eq!(Interval::parse_timestamp("0.9 ns").unwrap(), Timestamp(0));
    assert_eq!(Interval::parse_timestamp(".5 s").unwrap(), Timestamp(500_000_000));
    assert_eq!(Interval::parse_timestamp("7. ms").unwrap(), Timestamp(7_000_000));
}

#[test]
fn parse_caps_at_largest_time() {
    assert_eq!(
        Interval::parse_timestamp("99999999999999999999 s").unwrap(),
        Timestamp(i64::MAX)
    );
    assert_eq!(
        Interval::parse_timestamp("9223372036854775807 ns").unwrap(),
        Timestamp(i64::MAX)
    );
}

#[test]
fn parse_other_errors() {
    assert_eq!(Interval::parse_timestamp(".").unwrap_err(), IntervalParseError::InvalidValue);
    assert_eq!(Interval::parse_timestamp("5x3ms").unwrap_err(), IntervalParseError::InvalidValue);
    assert_eq!(Interval::parse_timestamp("5 sec").unwrap_err(), IntervalParseError::InvalidUnit);
    assert_eq!(Interval::parse_timestamp("5msx").unwrap_err(), IntervalParseError::InvalidUnit);
    assert_eq!(Interval::parse_timestamp("5ms 1").unwrap_err(), IntervalParseError::InvalidValue);
}

#[test]
fn interval_basics() {
    let i = Interval::new(Timestamp(10), Timestamp(20));
    assert_eq!(i.start, Timestamp(10));
    assert_eq!(i.stop, Timestamp(20));
    assert_eq!(i.duration_ns(), 10);
    assert_eq!(Interval::new(Timestamp(20), Timestamp(10)).duration_ns(), -10);
}

#[test]
fn interval_half_open() {
    let i = Interval::new(Timestamp(10), Timestamp(20));
    assert!(i.contains(Timestamp(10)));
    assert!(i.contains(Timestamp(19)));
    assert!(!i.contains(Timestamp(20)));
    assert!(!i.contains(Timestamp(9)));
    let empty = Interval::new(Timestamp(5), Timestamp(5));
    assert!(!empty.contains(Timestamp(5)));
}

#[test]
fn interval_overlap_symmetric() {
    let a = Interval::new(Timestamp(5), Timestamp(10));
    let b = Interval::new(Timestamp(0), Timestamp(5));
    let c = Interval::new(Timestamp(8), Timestamp(30));
    assert!(!a.overlaps(b));
    assert!(!b.overlaps(a));
    assert!(a.overlaps(c));
    assert!(c.overlaps(a));
}

#[test]
fn interval_intersection_and_union() {
    let a = Interval::new(Timestamp(0), Timestamp(10));
    let b = Interval::new(Timestamp(5), Timestamp(20));
    assert_eq!(a.intersection(b), Interval::new(Timestamp(5), Timestamp(10)));
    assert_eq!(a.union(b), Interval::new(Timestamp(0), Timestamp(20)));
    let far = Interval::new(Timestamp(30), Timestamp(40));
    assert!(!a.overlaps(far));
    let i = a.intersection(far);
    assert!(i.stop < i.start);
    assert_eq!(i, Interval::new(Timestamp(30), Timestamp(10)));
}

#[test]
fn timestamp_text() {
    assert_eq!(Timestamp(12).to_string(), "12 ns");
    assert_eq!(Timestamp(-5).to_string(), "-5 ns");
    assert_eq!(Timestamp(1_500).to_string(), "1.500 us");
    assert_eq!(Timestamp(1_234_567).to_string(), "1.234 ms");
    assert_eq!(Timestamp(1_500_000_000).to_string(), "1.500 s");
    assert_eq!(Timestamp(62_005_000_000).to_string(), "62.005 s");
}

#[test]
fn interval_text() {
    let i = Interval::new(Timestamp(1_000_000_000), Timestamp(2_500_000_000));
    assert_eq!(i.to_string(), "from 1.000 to 2.500 s (duration: 1.500 s)");
    let j = Interval::new(Timestamp(5), Timestamp(900));
    assert_eq!(j.to_string(), "from 5 to 900 ns (duration: 895 ns)");
    let k = Interval::new(Timestamp(-1_500_000), Timestamp(2_000_000));
    assert_eq!(k.to_string(), "from -1.-500 to 2.000 ms (duration: 3.500 ms)");
    let l = Interval::new(Timestamp(-5_000), Timestamp(1_000));
    assert_eq!(l.to_string(), "from -5.000 to 1.000 us (duration: 6.000 us)");
    let m = Interval::new(Timestamp(-1_005), Timestamp(2_000));
    assert_eq!(m.to_string(), "from -1.0-5 to 2.000 us (duration: 3.005 us)");
}

#[test]
fn error_messages() {
    assert_eq!(IntervalParseError::NoValue.to_string(), "no value");
    assert_eq!(IntervalParseError::InvalidValue.to_string(), "invalid value");
    assert_eq!(IntervalParseError::NoUnit.to_string(), "no unit");
    assert_eq!(IntervalParseError::InvalidUnit.to_string(), "invalid unit");
    assert_eq!(IntervalParseError::StartAfterStop.to_string(), "start after stop");
    assert_eq!(IntervalParseError::StartAfterEnd.to_string(), "start after end");
    assert_eq!(IntervalParseError::StopBeforeStart.to_string(), "stop before start");
}

#[test]
fn parse_unicode_letters_end_the_value() {
    assert_eq!(Interval::parse_timestamp("500\u{b5}s").unwrap_err(), IntervalParseError::InvalidUnit);
    assert_eq!(Interval::parse_timestamp("5\u{216b} ms").unwrap(), Timestamp(5_000_000));
}

#[test]
fn parse_float_syntax_in_the_value() {
    assert_eq!(Interval::parse_timestamp("-5ms").unwrap_err(), IntervalParseError::InvalidUnit);
    assert_eq!(Interval::parse_timestamp("1e3ms").unwrap_err(), IntervalParseError::InvalidUnit);
    assert_eq!(Interval::parse_timestamp("1e3").unwrap_err(), IntervalParseError::InvalidUnit);
    assert_eq!(Interval::parse_timestamp("+5 ms").unwrap_err(), IntervalParseError::InvalidValue);
    assert_eq!(Interval::parse_timestamp("1e ms").unwrap_err(), IntervalParseError::InvalidValue);
    assert_eq!(Interval::parse_timestamp("1e+ ms").unwrap_err(), IntervalParseError::InvalidValue);
}
