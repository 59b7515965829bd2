//! The ISO week a report covers.
//!
//! A report is filed for exactly one ISO 8601 week (Monday–Sunday), and a
//! trainee may hold at most one report per week. [`IsoWeek`] carries that period
//! as an `(ISO year, week number)` pair validated against the real calendar, so
//! an impossible week (e.g. week 53 of a short year) cannot be constructed.
//!
//! Its canonical textual form is `YYYY-Www` (e.g. `2026-W24`, week zero-padded).
//! [`IsoWeek::to_string`] and [`IsoWeek::parse`] are inverses over that form, and
//! both funnel through [`IsoWeek::new`] so the calendar validation has a single
//! home.

use vstd::prelude::*;

use crate::errors::DomainError;
use crate::models::time::{iso_week_of_instant, utc_iso_week, Timestamp};
use crate::textual::{
    bounded_integer_value, debug_quoted, is_ascii_digit, lemma_padded_int_reads_back, padded_int,
    parse_bounded, push_debug_quoted,
};

verus! {

/// The weekday of December 31 of the proleptic Gregorian `year`, counting
/// Sunday as `0` through Saturday as `6`.
pub open spec fn dec31_weekday(year: int) -> int {
    (year + year / 4 - year / 100 + year / 400) % 7
}

/// Whether `year` is a Gregorian leap year.
pub open spec fn is_leap_year(year: int) -> bool {
    year % 4 == 0 && (year % 100 != 0 || year % 400 == 0)
}

/// Whether the ISO week-numbering `year` has 53 weeks: its December 31 is a
/// Thursday, or a Friday in a leap year.
pub open spec fn is_long_iso_year(year: int) -> bool {
    dec31_weekday(year) == 4 || (is_leap_year(year) && dec31_weekday(year) == 5)
}

/// Whether `(year, week)` names a real ISO week in the supported years
/// `-9999..=9999`.
pub open spec fn iso_week_exists(year: int, week: int) -> bool {
    &&& -9999 <= year <= 9999
    &&& 1 <= week <= 53
    &&& week == 53 ==> is_long_iso_year(year)
}

/// The canonical `YYYY-Www` text of a week.
pub open spec fn iso_week_text(year: int, week: int) -> Seq<char> {
    padded_int(year, 4) + seq!['-', 'W'] + padded_int(week, 2)
}

/// Whether `s` has `-W` starting at position `i`.
pub open spec fn dash_w_at(s: Seq<char>, i: int) -> bool {
    0 <= i && i + 1 < s.len() && s[i] == '-' && s[i + 1] == 'W'
}

/// The first position at or after `i` where `s` has `-W`.
pub open spec fn first_dash_w(s: Seq<char>, i: int) -> Option<int>
    decreases s.len() - i,
{
    if i < 0 || i + 1 >= s.len() {
        None
    } else if dash_w_at(s, i) {
        Some(i)
    } else {
        first_dash_w(s, i + 1)
    }
}

/// The `(year, week)` pair read from `YYYY-Www` text: what comes before the
/// first `-W` parsed as an `i16`, what comes after it as an `i8`.
pub open spec fn week_text_value(s: Seq<char>) -> Option<(int, int)> {
    match first_dash_w(s, 0) {
        Some(k) => match (
            bounded_integer_value(s.take(k), -32768, 32767),
            bounded_integer_value(s.skip(k + 2), -128, 127),
        ) {
            (Some(y), Some(w)) => Some((y, w)),
            _ => None,
        },
        None => None,
    }
}

/// The position of the first `-W` in `s`.
fn find_dash_w(s: &str) -> (r: Option<usize>)
    ensures
        match r {
            Some(k) => first_dash_w(s@, 0) == Some(k as int) && k + 2 <= s@.len(),
            None => first_dash_w(s@, 0) is None,
        },
{
    let n = s.unicode_len();
    let mut i: usize = 0;
    while i < n && i + 1 < n
        invariant
            n == s@.len(),
            i <= n,
            first_dash_w(s@, 0) == first_dash_w(s@, i as int),
        decreases n - i,
    {
        if s.get_char(i) == '-' && s.get_char(i + 1) == 'W' {
            return Some(i);
        }
        i = i + 1;
    }
    None
}

/// A run of `-W`-free positions before a `-W` leads the scan to it.
proof fn lemma_scan_finds(s: Seq<char>, i: int, k: int)
    requires
        0 <= i <= k,
        dash_w_at(s, k),
        forall|j: int| i <= j < k ==> !dash_w_at(s, j),
    ensures
        first_dash_w(s, i) == Some(k),
    decreases k - i,
{
    if i < k {
        lemma_scan_finds(s, i + 1, k);
    }
}

/// Rendering a real week as `YYYY-Www` and reading the text back gives the
/// same `(year, week)` pair.
pub proof fn lemma_week_text_round_trip(year: int, week: int)
    requires
        iso_week_exists(year, week),
    ensures
        week_text_value(iso_week_text(year, week)) == Some((year, week)),
{
    let yt = padded_int(year, 4);
    let wt = padded_int(week, 2);
    let s = iso_week_text(year, week);
    let k = yt.len() as int;
    lemma_padded_int_reads_back(year, 4);
    lemma_padded_int_reads_back(week, 2);
    assert(s =~= yt + seq!['-', 'W'] + wt);
    assert(s[k] == '-' && s[k + 1] == 'W');
    assert forall|j: int| 0 <= j < k implies !dash_w_at(s, j) by {
        if j + 1 < k {
            assert(s[j + 1] == yt[j + 1]);
            assert(is_ascii_digit(yt[j + 1]));
        }
    }
    lemma_scan_finds(s, 0, k);
    assert(s.take(k) =~= yt);
    assert(s.skip(k + 2) =~= wt);
}

/// A week is its ISO year and week number: two weeks with the same parts are
/// the same week.
pub proof fn lemma_parts_determine_week(a: IsoWeek, b: IsoWeek)
    requires
        a.year_spec() == b.year_spec(),
        a.week_spec() == b.week_spec(),
    ensures
        a == b,
{
}

/// Reading back the `YYYY-Www` text of a real week gives that very week: the
/// text reads as the week's parts, and any week with those parts is it. With
/// the contracts of [`IsoWeek::to_string`] and [`IsoWeek::parse`] this is
/// `w.to_string().parse() == Ok(w)`.
pub proof fn lemma_week_value_round_trip(w: IsoWeek, back: IsoWeek)
    requires
        iso_week_exists(w.year_spec(), w.week_spec()),
    ensures
        week_text_value(iso_week_text(w.year_spec(), w.week_spec())) == Some(
            (w.year_spec(), w.week_spec()),
        ),
        week_text_value(iso_week_text(w.year_spec(), w.week_spec())) == Some(
            (back.year_spec(), back.week_spec()),
        ) ==> back == w,
{
    lemma_week_text_round_trip(w.year_spec(), w.week_spec());
}

/// An ISO 8601 week, identified by its ISO year and week number.
#[derive(Debug, Clone, Copy, PartialEq, Eq, Structural)]
pub struct IsoWeek {
    year: i16,
    week: i8,
}

impl IsoWeek {
    #[verifier::type_invariant]
    spec fn is_real_week(self) -> bool {
        iso_week_exists(self.year as int, self.week as int)
    }

    /// The ISO year.
    pub closed spec fn year_spec(self) -> int {
        self.year as int
    }

    /// The ISO week number.
    pub closed spec fn week_spec(self) -> int {
        self.week as int
    }

    /// Construct a week, validating that `(year, week)` is a real ISO week.
    ///
    /// Weeks outside `1..=52` (or `1..=53` only in long ISO years) are rejected
    /// with [`DomainError::Invalid`].
    pub fn new(year: i16, week: i8) -> (r: Result<IsoWeek, DomainError>)
        ensures
            r is Ok <==> iso_week_exists(year as int, week as int),
            r matches Ok(w) ==> w.year_spec() == year && w.week_spec() == week,
            r matches Err(e) ==> e is Invalid && e.message() == "not a valid ISO week: "@
                + iso_week_text(year as int, week as int),
    {
        if iso_week_date_exists(year, week) {
            Ok(IsoWeek { year, week })
        } else {
            let mut message = String::from_str("not a valid ISO week: ");
            let ghost start = message@;
            crate::textual::push_padded_int(&mut message, year as i64, 4);
            message.append("-W");
            crate::textual::push_padded_int(&mut message, week as i64, 2);
            proof {
                reveal_strlit("-W");
            }
            assert(message@ =~= start + iso_week_text(year as int, week as int));
            Err(DomainError::Invalid(message))
        }
    }

    /// The ISO week containing `ts`, evaluated in UTC.
    pub fn from_timestamp_utc(ts: Timestamp) -> (r: IsoWeek)
        ensures
            r.year_spec() == utc_iso_week(ts.second(), ts.nanosecond()).0,
            r.week_spec() == utc_iso_week(ts.second(), ts.nanosecond()).1,
    {
        let second = ts.as_second();
        let nanosecond = ts.subsec_nanosecond();
        let (year, week) = iso_week_of_instant(second, nanosecond);
        IsoWeek { year, week }
    }

    /// The ISO year.
    pub fn year(&self) -> (r: i16)
        ensures
            r == self.year_spec(),
            iso_week_exists(self.year_spec(), self.week_spec()),
    {
        proof {
            use_type_invariant(self);
        }
        self.year
    }

    /// The ISO week number (`1..=53`).
    pub fn week(&self) -> (r: i8)
        ensures
            r == self.week_spec(),
            iso_week_exists(self.year_spec(), self.week_spec()),
    {
        proof {
            use_type_invariant(self);
        }
        self.week
    }

    /// Whether `self` falls strictly after `other` in chronological ISO order.
    ///
    /// Both weeks carry an ISO year, so comparing the `(year, week)` pairs is the
    /// true chronological order, including across the December/January boundary.
    pub fn is_after(&self, other: &IsoWeek) -> (r: bool)
        ensures
            r == week_after(*self, *other),
    {
        self.year > other.year || (self.year == other.year && self.week > other.week)
    }

    /// Parse the canonical `YYYY-Www` form: the text before the first `-W`
    /// must read as an `i16`, the text after it as an `i8`, and the pair must be
    /// a real week (see [`IsoWeek::new`]). Anything else is
    /// [`DomainError::Invalid`].
    pub fn parse(s: &str) -> (r: Result<IsoWeek, DomainError>)
        ensures
            r is Ok <==> (week_text_value(s@) matches Some((y, w)) && iso_week_exists(y, w)),
            r matches Ok(wk) ==> week_text_value(s@) == Some((wk.year_spec(), wk.week_spec())),
            r matches Err(e) ==> e is Invalid,
            r matches Err(e) ==> e.message() == match week_text_value(s@) {
                Some((y, w)) => "not a valid ISO week: "@ + iso_week_text(y, w),
                None => "malformed ISO week "@ + debug_quoted(s@) + ", expected YYYY-Www"@,
            },
    {
        let n = s.unicode_len();
        match find_dash_w(s) {
            Some(k) => {
                let year_text = s.substring_char(0, k);
                let week_text = s.substring_char(k + 2, n);
                assert(year_text@ =~= s@.take(k as int));
                assert(week_text@ =~= s@.skip(k as int + 2));
                match (parse_bounded(year_text, -32768, 32767), parse_bounded(week_text, -128, 127)) {
                    (Some(year), Some(week)) => IsoWeek::new(year as i16, week as i8),
                    _ => Err(malformed_week(s)),
                }
            },
            None => Err(malformed_week(s)),
        }
    }

    /// Render as `YYYY-Www`, e.g. `2026-W04` or `2026-W24`.
    pub fn to_string(&self) -> (r: String)
        ensures
            r@ == iso_week_text(self.year_spec(), self.week_spec()),
    {
        proof {
            use_type_invariant(self);
        }
        let mut text = String::new();
        crate::textual::push_padded_int(&mut text, self.year as i64, 4);
        text.append("-W");
        crate::textual::push_padded_int(&mut text, self.week as i64, 2);
        proof {
            reveal_strlit("-W");
        }
        assert(text@ =~= iso_week_text(self.year_spec(), self.week_spec()));
        text
    }
}

/// Whether week `a` falls strictly after week `b`.
pub open spec fn week_after(a: IsoWeek, b: IsoWeek) -> bool {
    a.year_spec() > b.year_spec() || (a.year_spec() == b.year_spec() && a.week_spec()
        > b.week_spec())
}

/// `is_after` is a strict total order on weeks: no week is after itself, of
/// two weeks at most one is after the other and, when they differ, exactly
/// one is, and being after is transitive.
pub proof fn lemma_week_after_is_strict_order(a: IsoWeek, b: IsoWeek, c: IsoWeek)
    ensures
        !week_after(a, a),
        week_after(a, b) ==> !week_after(b, a),
        a != b ==> (week_after(a, b) || week_after(b, a)),
        week_after(a, b) && week_after(b, c) ==> week_after(a, c),
{
}

/// Whether `jiff` accepts `(year, week)` as an ISO week date, asking for its
/// Monday with `jiff::civil::ISOWeekDate::new`.
///
/// Claimed from jiff's source: `new` fails exactly when the year is outside
/// `-9999..=9999`, the week outside `1..=53`, or the week is 53 in a year that is
/// not long (December 31 neither a Thursday nor, in a leap year, a Friday); a
/// Monday is never beyond the maximum date.
#[verifier::external_body]
fn iso_week_date_exists(year: i16, week: i8) -> (r: bool)
    ensures
        r == iso_week_exists(year as int, week as int),
{
    jiff::civil::ISOWeekDate::new(year, week, jiff::civil::Weekday::Monday).is_ok()
}

/// The error for text that is not of the form `YYYY-Www`.
fn malformed_week(s: &str) -> (e: DomainError)
    ensures
        e is Invalid,
        e.message() == "malformed ISO week "@ + debug_quoted(s@) + ", expected YYYY-Www"@,
{
    let mut message = String::from_str("malformed ISO week ");
    push_debug_quoted(&mut message, s);
    message.append(", expected YYYY-Www");
    DomainError::Invalid(message)
}

impl core::str::FromStr for IsoWeek {
    type Err = DomainError;

    fn from_str(s: &str) -> (r: Result<IsoWeek, DomainError>)
        ensures
            r is Ok <==> (week_text_value(s@) matches Some((y, w)) && iso_week_exists(y, w)),
            r matches Ok(wk) ==> week_text_value(s@) == Some((wk.year_spec(), wk.week_spec())),
            r matches Err(e) ==> e is Invalid,
            r matches Err(e) ==> e.message() == match week_text_value(s@) {
                Some((y, w)) => "not a valid ISO week: "@ + iso_week_text(y, w),
                None => "malformed ISO week "@ + debug_quoted(s@) + ", expected YYYY-Www"@,
            },
    {
        IsoWeek::parse(s)
    }
}

} // verus!
