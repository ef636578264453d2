//! Points in time as plain values, and the calls into `chrono` that read, print and compare them.
use vstd::prelude::*;
use chrono::{DateTime, TimeZone, Utc};

verus! {

/// The earliest second that `chrono` can represent: -262143-01-01T00:00:00 UTC.
pub const MIN_UNIX_SECS: i64 = -8334601228800i64;

/// The last second that `chrono` can represent: +262142-12-31T23:59:59 UTC.
pub const MAX_UNIX_SECS: i64 = 8210266876799i64;

/// A point in time in UTC: seconds since the Unix epoch and the nanoseconds within that second
/// (a leap second is written as nanoseconds from 1_000_000_000 on, in the 59th second of a minute).
#[derive(Clone, Copy, Debug, PartialEq, Eq, Structural)]
pub struct Timestamp {
    pub secs: i64,
    pub nanos: u32,
}

impl Timestamp {
    /// The values that `chrono` accepts as a `DateTime<Utc>`.
    pub open spec fn valid(self) -> bool {
        &&& MIN_UNIX_SECS <= self.secs <= MAX_UNIX_SECS
        &&& (self.nanos < 1_000_000_000 || (self.nanos < 2_000_000_000 && self.secs % 60 == 59))
    }

    /// Whether `chrono` accepts these values as a `DateTime<Utc>`.
    pub fn is_valid(&self) -> (res: bool)
        ensures
            res == self.valid(),
    {
        if self.secs < MIN_UNIX_SECS || self.secs > MAX_UNIX_SECS {
            return false;
        }
        let within: i64 = if self.secs >= 0 {
            self.secs % 60
        } else {
            59 - ((-(self.secs + 1)) % 60)
        };
        assert(within == self.secs % 60) by (nonlinear_arith)
            requires
                self.secs >= MIN_UNIX_SECS,
                self.secs >= 0 ==> within as int == (self.secs as int) % 60,
                self.secs < 0 ==> within as int == 59 - ((-(self.secs as int + 1)) % 60),
        ;
        self.nanos < 1_000_000_000 || (self.nanos < 2_000_000_000 && within == 59)
    }
}

/// What `Utc.timestamp_opt(secs, 0).single()` gives: the whole second `secs` when it lies
/// in `chrono`'s range.
pub open spec fn unix_timestamp(secs: int) -> Option<Timestamp> {
    if MIN_UNIX_SECS <= secs <= MAX_UNIX_SECS {
        Some(Timestamp { secs: secs as i64, nanos: 0 })
    } else {
        None
    }
}

/// The RFC 3339 text that `chrono` writes for a UTC time (`DateTime::to_rfc3339`).
pub uninterp spec fn rfc3339(secs: i64, nanos: u32) -> Seq<char>;

/// The text that `chrono` writes for a UTC time in the format `"%Y-%m-%d %H:%M:%S"`.
pub uninterp spec fn datetime_text(secs: i64, nanos: u32) -> Seq<char>;

/// The seconds and nanoseconds (in UTC) of the time that `DateTime::parse_from_rfc3339`
/// reads from a text, or `None` where it refuses the text.
pub uninterp spec fn parsed_rfc3339(text: Seq<char>) -> Option<(i64, u32)>;

/// Whole seconds from the second time to the first, as `chrono` counts them
/// (`signed_duration_since(..).num_seconds()`): the difference in seconds and in nanoseconds,
/// a leap second counted where one time lies within it and the other later (or earlier) in
/// its day, the nanoseconds carried into seconds, and the result truncated toward zero.
pub open spec fn seconds_between(later_secs: i64, later_nanos: u32, earlier_secs: i64, earlier_nanos: u32) -> int {
    let later_day_secs = later_secs % 86400;
    let earlier_day_secs = earlier_secs % 86400;
    let leap = if later_day_secs > earlier_day_secs && earlier_nanos >= 1_000_000_000 {
        1int
    } else if later_day_secs < earlier_day_secs && later_nanos >= 1_000_000_000 {
        -1int
    } else {
        0int
    };
    let frac = later_nanos - earlier_nanos;
    let secs = later_secs - earlier_secs + leap + frac / 1_000_000_000;
    let nanos = frac % 1_000_000_000;
    if secs < 0 && nanos > 0 {
        secs + 1
    } else {
        secs
    }
}

/// The current time (`Utc::now`). Nothing is promised of which time it is; the result is a
/// value that `chrono` built, so it lies in `chrono`'s range.
#[verifier::external_body]
pub(crate) fn now() -> (res: Timestamp)
    ensures
        res.valid(),
{
    let d = Utc::now();
    Timestamp { secs: d.timestamp(), nanos: d.timestamp_subsec_nanos() }
}

/// `Utc.timestamp_opt(secs, 0).single()`: the whole second `secs` since the epoch, when it lies
/// in `chrono`'s range (`DateTime::from_timestamp` refuses the rest).
#[verifier::external_body]
pub(crate) fn parse_unix_timestamp(secs: i64) -> (res: Option<Timestamp>)
    ensures
        res == unix_timestamp(secs as int),
{
    match Utc.timestamp_opt(secs, 0).single() {
        Some(d) => Some(Timestamp { secs: d.timestamp(), nanos: d.timestamp_subsec_nanos() }),
        None => None,
    }
}

/// The first second of the year 0 (0000-01-01T00:00:00 UTC).
pub const RFC3339_MIN_SECS: i64 = -62167219200i64;

/// The last second of the year 9999 (9999-12-31T23:59:59 UTC).
pub const RFC3339_MAX_SECS: i64 = 253402300799i64;

/// A time whose year has four digits: RFC 3339 text of it reads back as the same time.
pub open spec fn four_digit_year(t: Timestamp) -> bool {
    RFC3339_MIN_SECS <= t.secs <= RFC3339_MAX_SECS
}

/// `DateTime::<Utc>::to_rfc3339` of the time; its text is named `rfc3339`. For a year of four
/// digits, `parse_from_rfc3339` reads that text back as the same time: the year is written with
/// four digits, a leap second as second 60, the fraction with as many digits (0, 3, 6 or 9) as
/// hold it exactly, and the offset `+00:00`.
#[verifier::external_body]
pub(crate) fn to_rfc3339(t: &Timestamp) -> (res: String)
    requires
        t.valid(),
    ensures
        res@ == rfc3339(t.secs, t.nanos),
        four_digit_year(*t) ==> parsed_rfc3339(res@) == Some((t.secs, t.nanos)),
{
    DateTime::from_timestamp(t.secs, t.nanos).unwrap().to_rfc3339()
}

/// `format("%Y-%m-%d %H:%M:%S")` of the time; its text is named `datetime_text`.
#[verifier::external_body]
pub(crate) fn format_datetime(t: &Timestamp) -> (res: String)
    requires
        t.valid(),
    ensures
        res@ == datetime_text(t.secs, t.nanos),
{
    DateTime::from_timestamp(t.secs, t.nanos).unwrap().format("%Y-%m-%d %H:%M:%S").to_string()
}

/// `DateTime::parse_from_rfc3339` followed by `with_timezone(&Utc)`, read back as seconds and
/// nanoseconds; the result is named `parsed_rfc3339`. What the parser accepts is not restated;
/// what it gives is a time `chrono` represents (a `DateTime` it built).
#[verifier::external_body]
pub(crate) fn parse_rfc3339(text: &str) -> (res: Option<(i64, u32)>)
    ensures
        res == parsed_rfc3339(text@),
        res matches Some((s, n)) ==> (Timestamp { secs: s, nanos: n }).valid(),
{
    match DateTime::parse_from_rfc3339(text) {
        Ok(d) => {
            let u = d.with_timezone(&Utc);
            Some((u.timestamp(), u.timestamp_subsec_nanos()))
        },
        Err(_) => None,
    }
}

/// `later.signed_duration_since(earlier).num_seconds()`: the count `seconds_between` states.
#[verifier::external_body]
pub(crate) fn seconds_since(later: &Timestamp, earlier: &Timestamp) -> (res: i64)
    requires
        later.valid(),
        earlier.valid(),
    ensures
        res as int == seconds_between(later.secs, later.nanos, earlier.secs, earlier.nanos),
{
    let l = DateTime::from_timestamp(later.secs, later.nanos).unwrap();
    let e = DateTime::from_timestamp(earlier.secs, earlier.nanos).unwrap();
    l.signed_duration_since(e).num_seconds()
}

} // verus!
