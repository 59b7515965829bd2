//! Instants in time, as the workflow stamps them onto reports and signatures.
//!
//! A [`Timestamp`] holds the two numbers an instant is made of — whole seconds
//! since the Unix epoch and the signed sub-second nanoseconds — in the range
//! `jiff` supports. Rendering it as RFC 3339 text and finding the ISO week that
//! contains it are done by `jiff`.

use vstd::prelude::*;

verus! {

/// The earliest representable second (`-009999-01-02T01:59:59Z`).
pub const MIN_SECOND: i64 = -377705023201;

/// The latest representable second (`9999-12-30T22:00:00Z`).
pub const MAX_SECOND: i64 = 253402207200;

/// Whether `(second, nanosecond)` is an instant `jiff::Timestamp` represents
/// with exactly these parts: both in range, the two parts not of opposite sign,
/// and no negative nanoseconds at the earliest second.
pub open spec fn valid_instant(second: int, nanosecond: int) -> bool {
    &&& MIN_SECOND <= second <= MAX_SECOND
    &&& -999_999_999 <= nanosecond <= 999_999_999
    &&& (nanosecond == 0 || second == 0 || (second < 0) == (nanosecond < 0))
    &&& !(second == MIN_SECOND && nanosecond < 0)
}

/// An instant in time.
#[derive(Debug, Clone, Copy, PartialEq, Eq, Structural)]
pub struct Timestamp {
    second: i64,
    nanosecond: i32,
}

impl Timestamp {
    #[verifier::type_invariant]
    spec fn in_range(self) -> bool {
        valid_instant(self.second as int, self.nanosecond as int)
    }

    /// Whole seconds since the Unix epoch.
    pub closed spec fn second(self) -> int {
        self.second as int
    }

    /// The sub-second part, in nanoseconds, with the sign of the instant.
    pub closed spec fn nanosecond(self) -> int {
        self.nanosecond as int
    }

    /// The instant `second` seconds and `nanosecond` nanoseconds after the Unix
    /// epoch, or `None` when the parts are out of range or of opposite sign.
    pub fn new(second: i64, nanosecond: i32) -> (r: Option<Timestamp>)
        ensures
            r is Some <==> valid_instant(second as int, nanosecond as int),
            r matches Some(t) ==> t.second() == second && t.nanosecond() == nanosecond,
    {
        if MIN_SECOND <= second && second <= MAX_SECOND && -999_999_999 <= nanosecond
            && nanosecond <= 999_999_999 && (nanosecond == 0 || second == 0 || (second < 0) == (
        nanosecond < 0)) && !(second == MIN_SECOND && nanosecond < 0) {
            Some(Timestamp { second, nanosecond })
        } else {
            None
        }
    }

    /// Whole seconds since the Unix epoch.
    pub fn as_second(&self) -> (r: i64)
        ensures
            r == self.second(),
            valid_instant(self.second(), self.nanosecond()),
    {
        proof {
            use_type_invariant(self);
        }
        self.second
    }

    /// The sub-second part, in nanoseconds.
    pub fn subsec_nanosecond(&self) -> (r: i32)
        ensures
            r == self.nanosecond(),
            valid_instant(self.second(), self.nanosecond()),
    {
        proof {
            use_type_invariant(self);
        }
        self.nanosecond
    }

    /// The RFC 3339 text of this instant in UTC, e.g. `2026-06-10T12:00:00Z`.
    pub fn to_string(&self) -> (r: String)
        ensures
            r@ == rfc3339_text(self.second(), self.nanosecond()),
    {
        proof {
            use_type_invariant(self);
        }
        render_rfc3339(self.second, self.nanosecond)
    }
}

/// The RFC 3339 text `jiff` renders for the instant `(second, nanosecond)`.
pub uninterp spec fn rfc3339_text(second: int, nanosecond: int) -> Seq<char>;

/// The ISO week-numbering `(year, week)` containing the instant
/// `(second, nanosecond)`, evaluated in UTC, as `jiff` computes it.
pub uninterp spec fn utc_iso_week(second: int, nanosecond: int) -> (int, int);

/// Renders an instant with `jiff::Timestamp`'s `Display` (RFC 3339, UTC).
///
/// Claimed: the text depends on the two parts alone (named `rfc3339_text`).
/// `jiff::Timestamp::new` accepts every in-range pair, so the empty fallback is
/// never taken.
#[verifier::external_body]
fn render_rfc3339(second: i64, nanosecond: i32) -> (r: String)
    requires
        valid_instant(second as int, nanosecond as int),
    ensures
        r@ == rfc3339_text(second as int, nanosecond as int),
{
    match jiff::Timestamp::new(second, nanosecond) {
        Ok(ts) => ts.to_string(),
        Err(_) => String::new(),
    }
}

/// The ISO week containing an instant in UTC, via
/// `jiff::Timestamp::to_zoned(TimeZone::UTC).iso_week_date()`.
///
/// Claimed: the week depends on the two parts alone (named `utc_iso_week`), and
/// it is a real ISO week — `jiff::civil::ISOWeekDate` only ever holds weeks that
/// `ISOWeekDate::new` accepts.
#[verifier::external_body]
pub(crate) fn iso_week_of_instant(second: i64, nanosecond: i32) -> (r: (i16, i8))
    requires
        valid_instant(second as int, nanosecond as int),
    ensures
        r.0 as int == utc_iso_week(second as int, nanosecond as int).0,
        r.1 as int == utc_iso_week(second as int, nanosecond as int).1,
        crate::models::week::iso_week_exists(r.0 as int, r.1 as int),
{
    let ts = jiff::Timestamp::new(second, nanosecond).unwrap_or(jiff::Timestamp::UNIX_EPOCH);
    let week = ts.to_zoned(jiff::tz::TimeZone::UTC).iso_week_date();
    (week.year(), week.week())
}

} // verus!
