//! Timestamps: RFC 3339 text, whole minutes added, whole seconds between.

use vstd::prelude::*;

verus! {

/// An instant: seconds since 1970-01-01T00:00:00Z, and nanoseconds within the
/// second. A leap second is the second before it with a nanosecond count from
/// one billion up.
#[derive(Debug, Clone, Copy, PartialEq, Eq, Structural)]
pub struct Timestamp {
    pub secs: i64,
    pub nanos: u32,
}

/// The first second that can be represented (year -262143).
pub const FIRST_SECOND: i64 = -8_334_601_228_800;

/// The last second that can be represented (year 262142).
pub const LAST_SECOND: i64 = 8_210_266_876_799;

/// The first second of the year 0000.
pub const YEAR_0: i64 = -62_167_219_200;

/// The last second of the year 9999.
pub const YEAR_9999: i64 = 253_402_300_799;

impl Timestamp {
    /// The instant can be represented; a leap second follows the last second
    /// of a minute.
    pub open spec fn valid(self) -> bool {
        &&& FIRST_SECOND <= self.secs <= LAST_SECOND
        &&& self.nanos < 1_000_000_000 || (self.nanos < 2_000_000_000 && self.secs as int % 60
            == 59)
    }

    /// The instant, whole minutes later; nothing where that cannot be
    /// represented. A leap second left behind is counted as one second.
    pub open spec fn shifted(self, minutes: int) -> Option<Timestamp> {
        let leap = self.nanos >= 1_000_000_000 && minutes != 0;
        let secs = self.secs + 60 * minutes + (if leap && minutes < 0 {
            1int
        } else {
            0
        });
        let nanos = if leap {
            self.nanos - 1_000_000_000
        } else {
            self.nanos as int
        };
        if FIRST_SECOND <= secs <= LAST_SECOND {
            Some(Timestamp { secs: secs as i64, nanos: nanos as u32 })
        } else {
            None
        }
    }
}

/// The nanoseconds from `earlier` to `later`. A leap second that lies between
/// the two times of day counts.
pub open spec fn elapsed_nanos(later: Timestamp, earlier: Timestamp) -> int {
    let late = later.secs as int % 86_400;
    let early = earlier.secs as int % 86_400;
    let leap: int = if late > early && earlier.nanos >= 1_000_000_000 {
        1
    } else if late < early && later.nanos >= 1_000_000_000 {
        -1
    } else {
        0
    };
    (later.secs - earlier.secs + leap) * 1_000_000_000 + (later.nanos - earlier.nanos)
}

/// The whole seconds from `earlier` to `later`, cut off towards zero.
pub open spec fn elapsed_seconds(later: Timestamp, earlier: Timestamp) -> int {
    let n = elapsed_nanos(later, earlier);
    if n >= 0 {
        n / 1_000_000_000
    } else {
        -((-n) / 1_000_000_000)
    }
}

/// The instant that an RFC 3339 text names.
pub uninterp spec fn instant(text: Seq<char>) -> Option<Timestamp>;

/// The RFC 3339 text of an instant, in UTC.
pub uninterp spec fn rfc3339(t: Timestamp) -> Seq<char>;

/// `chrono::DateTime::parse_from_rfc3339`: the instant that the text names, in
/// UTC, or nothing for any other text. It can be represented.
#[verifier::external_body]
pub fn parse_ts(ts: &str) -> (r: Option<Timestamp>)
    ensures
        r == instant(ts@),
        r matches Some(t) ==> t.valid(),
{
    let dt = chrono::DateTime::parse_from_rfc3339(ts).ok()?;
    Some(Timestamp { secs: dt.timestamp(), nanos: dt.timestamp_subsec_nanos() })
}

/// `chrono::DateTime::checked_add_signed` with `chrono::TimeDelta::try_minutes`:
/// the instant whole minutes later, or nothing where it is out of range.
#[verifier::external_body]
fn plus_minutes(t: Timestamp, minutes: i64) -> (r: Option<Timestamp>)
    requires
        t.valid(),
    ensures
        r == t.shifted(minutes as int),
{
    let delta = chrono::TimeDelta::try_minutes(minutes)?;
    let dt = chrono::DateTime::from_timestamp(t.secs, t.nanos)?.checked_add_signed(delta)?;
    Some(Timestamp { secs: dt.timestamp(), nanos: dt.timestamp_subsec_nanos() })
}

/// `chrono::DateTime::to_rfc3339` in UTC: the text depends on the instant
/// alone, and for the years 0000 to 9999 it names that instant.
#[verifier::external_body]
fn rfc3339_text(t: Timestamp) -> (r: String)
    requires
        t.valid(),
    ensures
        r@ == rfc3339(t),
        YEAR_0 <= t.secs <= YEAR_9999 ==> instant(r@) == Some(t),
{
    chrono::DateTime::from_timestamp(t.secs, t.nanos).unwrap().to_rfc3339()
}

/// `chrono::DateTime::signed_duration_since` and `chrono::TimeDelta::num_seconds`:
/// the whole seconds between two instants.
#[verifier::external_body]
fn seconds_from(earlier: Timestamp, later: Timestamp) -> (r: i64)
    requires
        earlier.valid(),
        later.valid(),
    ensures
        r == elapsed_seconds(later, earlier),
{
    let from = chrono::DateTime::from_timestamp(earlier.secs, earlier.nanos).unwrap();
    let to = chrono::DateTime::from_timestamp(later.secs, later.nanos).unwrap();
    to.signed_duration_since(from).num_seconds()
}

/// Whether `ts` plus `minutes` can be represented; a text that names no
/// instant is left as it is.
pub open spec fn minutes_fit(ts: Seq<char>, minutes: int) -> bool {
    instant(ts) matches Some(t) ==> t.shifted(minutes) is Some
}

/// `ts` plus `minutes`; `ts` itself where it names no instant.
pub open spec fn later_text(ts: Seq<char>, minutes: int) -> Seq<char> {
    match instant(ts) {
        Some(t) => rfc3339(t.shifted(minutes)->0),
        None => ts,
    }
}

/// As many minutes pass as are added, outside leap seconds.
pub proof fn added_minutes_pass(t: Timestamp, minutes: int)
    requires
        t.valid(),
        t.nanos < 1_000_000_000,
        t.shifted(minutes) is Some,
    ensures
        elapsed_seconds(t.shifted(minutes)->0, t) == 60 * minutes,
        t.shifted(minutes)->0.valid(),
{
    let u = t.shifted(minutes)->0;
    assert(u.secs == t.secs + 60 * minutes);
    assert(u.nanos == t.nanos);
    let n = elapsed_nanos(u, t);
    assert(n == 60 * minutes * 1_000_000_000);
}

/// `ts + minutes`, RFC 3339. Falls back to `ts` on parse failure.
pub fn add_minutes(ts: &str, minutes: i64) -> (r: String)
    requires
        minutes_fit(ts@, minutes as int),
    ensures
        r@ == later_text(ts@, minutes as int),
        instant(ts@) matches Some(t) ==> (YEAR_0 <= t.shifted(minutes as int)->0.secs <= YEAR_9999
            ==> instant(r@) == t.shifted(minutes as int) && (t.nanos < 1_000_000_000 ==> seconds(
            ts@,
            r@,
        ) == Some(60 * minutes))),
{
    match parse_ts(ts) {
        None => ts.to_owned(),
        Some(t) => match plus_minutes(t, minutes) {
            Some(later) => {
                proof {
                    let leap = t.nanos >= 1_000_000_000 && minutes != 0;
                    assert(!leap ==> later.secs == t.secs + 60 * minutes);
                    assert((t.secs + 60 * minutes) % 60 == t.secs as int % 60);
                    if t.nanos < 1_000_000_000 {
                        added_minutes_pass(t, minutes as int);
                    }
                }
                rfc3339_text(later)
            },
            None => ts.to_owned(),
        },
    }
}

/// `ts + minutes`, or nothing where the sum cannot be represented.
pub fn checked_add_minutes(ts: &str, minutes: i64) -> (r: Option<String>)
    ensures
        r.deep_view() == (if minutes_fit(ts@, minutes as int) {
            Some(later_text(ts@, minutes as int))
        } else {
            None
        }),
{
    if let Some(t) = parse_ts(ts) {
        if plus_minutes(t, minutes).is_none() {
            return None;
        }
    }
    Some(add_minutes(ts, minutes))
}

/// The whole seconds from one timestamp to another, where both name instants.
pub open spec fn seconds(earlier: Seq<char>, later: Seq<char>) -> Option<int> {
    match (instant(earlier), instant(later)) {
        (Some(e), Some(l)) => Some(elapsed_seconds(l, e)),
        _ => None,
    }
}

/// Whole seconds from `earlier` to `later`; None if either fails to parse.
pub fn seconds_between(earlier: &str, later: &str) -> (r: Option<i64>)
    ensures
        (match r {
            Some(s) => Some(s as int),
            None => None,
        }) == seconds(earlier@, later@),
{
    match (parse_ts(later), parse_ts(earlier)) {
        (Some(l), Some(e)) => Some(seconds_from(e, l)),
        _ => None,
    }
}

} // verus!
