//! Timestamps against chrono.

use chrono::{DateTime, Utc};
use session_control::time::{
    FIRST_SECOND, LAST_SECOND, Timestamp, YEAR_0, YEAR_9999, add_minutes, checked_add_minutes,
    parse_ts, seconds_between,
};

#[test]
fn time_math_parses_and_adds() {
    let t = "2026-08-29T10:00:00+00:00";
    assert_eq!(add_minutes(t, 30), "2026-08-29T10:30:00+00:00");
    assert_eq!(
        seconds_between("2026-08-29T10:00:00Z", "2026-08-29T10:01:30Z"),
        Some(90)
    );
    assert_eq!(seconds_between("garbage", t), None);
}

#[test]
fn range_is_that_of_chrono() {
    assert_eq!(DateTime::<Utc>::MIN_UTC.timestamp(), FIRST_SECOND);
    assert_eq!(DateTime::<Utc>::MAX_UTC.timestamp(), LAST_SECOND);
    let first = DateTime::parse_from_rfc3339("0000-01-01T00:00:00Z").unwrap();
    let last = DateTime::parse_from_rfc3339("9999-12-31T23:59:59Z").unwrap();
    assert_eq!(first.timestamp(), YEAR_0);
    assert_eq!(last.timestamp(), YEAR_9999);
}

#[test]
fn texts_are_read_in_utc() {
    let t = parse_ts("2026-08-29T12:30:00.5+02:00").unwrap();
    assert_eq!(t, parse_ts("2026-08-29T10:30:00.5Z").unwrap());
    assert_eq!(t.nanos, 500_000_000);
    assert_eq!(parse_ts("1970-01-01T00:01:00Z"), Some(Timestamp { secs: 60, nanos: 0 }));
    assert_eq!(parse_ts("2026-08-29"), None);
    assert_eq!(parse_ts(""), None);
}

#[test]
fn what_is_no_timestamp_is_left_alone() {
    assert_eq!(add_minutes("garbage", 30), "garbage");
    assert_eq!(checked_add_minutes("garbage", i64::MAX).as_deref(), Some("garbage"));
}

#[test]
fn a_sum_out_of_range_is_nothing() {
    let t = "2026-08-29T10:00:00Z";
    assert_eq!(checked_add_minutes(t, i64::MAX), None);
    assert_eq!(checked_add_minutes(t, i64::MIN), None);
    assert_eq!(checked_add_minutes(t, 200_000_000_000), None);
    // The last minute that can be reached, and the first that cannot.
    let secs = parse_ts(t).unwrap().secs;
    let reach = (LAST_SECOND - secs) / 60;
    assert!(checked_add_minutes(t, reach).is_some());
    assert_eq!(checked_add_minutes(t, reach + 1), None);
    let back = (secs - FIRST_SECOND) / 60;
    assert!(checked_add_minutes(t, -back).is_some());
    assert_eq!(checked_add_minutes(t, -back - 1), None);
}

#[test]
fn as_many_minutes_pass_as_are_added() {
    for m in [-1_000_000, -1, 0, 1, 15, 525_600] {
        let t = "2026-08-29T10:00:00.25Z";
        assert_eq!(seconds_between(t, &add_minutes(t, m)), Some(60 * m));
    }
}

#[test]
fn seconds_are_cut_off_towards_zero() {
    let (a, b) = ("2026-08-29T10:00:00.9Z", "2026-08-29T10:00:02.1Z");
    assert_eq!(seconds_between(a, b), Some(1));
    assert_eq!(seconds_between(b, a), Some(-1));
    assert_eq!(seconds_between(a, a), Some(0));
}

#[test]
fn leap_seconds_count() {
    let leap = "2016-12-31T23:59:60Z";
    let t = parse_ts(leap).unwrap();
    assert_eq!(t.nanos, 1_000_000_000);
    assert_eq!(t.secs % 60, 59);
    assert_eq!(seconds_between(leap, "2017-01-01T00:00:00Z"), Some(0));
    assert_eq!(seconds_between("2016-12-31T23:59:59Z", leap), Some(1));
    assert_eq!(add_minutes(leap, 0), "2016-12-31T23:59:60+00:00");
    assert_eq!(add_minutes(leap, 1), "2017-01-01T00:00:59+00:00");
    assert_eq!(add_minutes(leap, -1), "2016-12-31T23:59:00+00:00");
}

#[test]
fn minutes_and_seconds_agree_with_chrono() {
    let times = [
        "0000-01-01T00:00:00Z",
        "1969-12-31T23:59:59.999Z",
        "2016-12-31T23:59:60.5Z",
        "2024-02-29T12:00:00+05:30",
        "9999-12-31T23:59:59Z",
    ];
    for a in times {
        let x = DateTime::parse_from_rfc3339(a).unwrap().with_timezone(&Utc);
        for m in [-61, -1, 0, 1, 1439] {
            let sum = x + chrono::TimeDelta::minutes(m);
            assert_eq!(add_minutes(a, m), sum.to_rfc3339());
        }
        for b in times {
            let y = DateTime::parse_from_rfc3339(b).unwrap().with_timezone(&Utc);
            assert_eq!(seconds_between(a, b), Some((y - x).num_seconds()));
        }
    }
}
