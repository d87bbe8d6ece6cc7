//! Calendar dates for the pipeline: the digest key is a (pet, calendar date)
//! pair, derived from a clip's UTC creation timestamp and carried through the
//! digest queue as `YYYY-MM-DD` text.

use vstd::prelude::*;
use crate::text::{spec_decimal, spec_digit_val, spec_is_digit, u64_to_string};

verus! {

/// A proleptic Gregorian calendar date.
#[derive(Clone, Copy, Debug, PartialEq, Eq, Hash, Structural)]
pub struct Date {
    pub year: i32,
    pub month: u8,
    pub day: u8,
}

/// Whether a year is a leap year in the Gregorian calendar.
pub open spec fn spec_is_leap_year(y: int) -> bool {
    y % 4 == 0 && (y % 100 != 0 || y % 400 == 0)
}

/// The number of days in a month of a given year.
pub open spec fn spec_days_in_month(y: int, m: int) -> int {
    if m == 2 {
        if spec_is_leap_year(y) {
            29
        } else {
            28
        }
    } else if m == 4 || m == 6 || m == 9 || m == 11 {
        30
    } else {
        31
    }
}

impl Date {
    /// A well-formed date names a real day of the calendar.
    pub open spec fn wf(self) -> bool {
        &&& 1 <= self.month <= 12
        &&& 1 <= self.day <= spec_days_in_month(self.year as int, self.month as int)
    }
}

/// The (year, month, day) reached after `z` days from 1970-01-01, for
/// `z >= 0`, following the standard civil-from-days construction over eras
/// of 146097 days.
pub open spec fn spec_civil_from_days(z: int) -> (int, int, int) {
    let shifted = z + 719468;
    let era = shifted / 146097;
    let doe = shifted % 146097;
    let yoe = (doe - doe / 1460 + doe / 36524 - doe / 146096) / 365;
    let y = yoe + era * 400;
    let doy = doe - (365 * yoe + yoe / 4 - yoe / 100);
    let mp = (5 * doy + 2) / 153;
    let d = doy - (153 * mp + 2) / 5 + 1;
    let m = if mp < 10 {
        mp + 3
    } else {
        mp - 9
    };
    (if m <= 2 {
        y + 1
    } else {
        y
    }, m, d)
}

/// The UTC calendar date of a unix timestamp in seconds.
pub open spec fn spec_utc_date_of(ts: int) -> (int, int, int) {
    spec_civil_from_days(ts / 86400)
}

/// Upper bound on timestamps handled here: the first instant of year 10000.
pub const MAX_TIMESTAMP: i64 = 253402300800;

/// Relies on chrono's `DateTime::from_timestamp` and `date_naive`: the
/// proleptic Gregorian calendar date of a UTC unix timestamp, which chrono
/// computes from `ts.div_euclid(86400)` days after the epoch.
#[verifier::external_body]
pub fn utc_date_of_timestamp(ts: i64) -> (d: Date)
    requires
        0 <= ts < MAX_TIMESTAMP,
    ensures
        (d.year as int, d.month as int, d.day as int) == spec_utc_date_of(ts as int),
        d.wf(),
{
    let dt = chrono::DateTime::from_timestamp(ts, 0).expect("timestamp in range");
    let nd = dt.date_naive();
    Date {
        year: chrono::Datelike::year(&nd),
        month: chrono::Datelike::month(&nd) as u8,
        day: chrono::Datelike::day(&nd) as u8,
    }
}

/// A decimal number padded with zeroes to at least two digits.
pub open spec fn spec_pad2(n: nat) -> Seq<char> {
    if n < 10 {
        seq!['0'] + spec_decimal(n)
    } else {
        spec_decimal(n)
    }
}

/// The `YYYY-MM-DD` text of a date (years of exactly four digits).
pub open spec fn spec_date_text(d: Date) -> Seq<char> {
    spec_decimal(d.year as nat) + seq!['-'] + spec_pad2(d.month as nat) + seq!['-']
        + spec_pad2(d.day as nat)
}

fn append_pad2(s: &mut String, n: u8)
    ensures
        final(s)@ == old(s)@ + spec_pad2(n as nat),
{
    if n < 10 {
        s.append("0");
        proof {
            reveal_strlit("0");
        }
    }
    let digits = u64_to_string(n as u64);
    s.append(digits.as_str());
    proof {
        if n < 10 {
            assert((old(s)@ + "0"@) + spec_decimal(n as nat) =~= old(s)@ + spec_pad2(
                n as nat,
            ));
        }
    }
}

/// Formats a date as `YYYY-MM-DD`, the form the digest queue carries.
pub fn format_date(d: Date) -> (s: String)
    requires
        1000 <= d.year <= 9999,
    ensures
        s@ == spec_date_text(d),
{
    let mut s = u64_to_string(d.year as u64);
    s.append("-");
    append_pad2(&mut s, d.month);
    s.append("-");
    append_pad2(&mut s, d.day);
    proof {
        reveal_strlit("-");
        assert(((((spec_decimal(d.year as nat) + "-"@) + spec_pad2(d.month as nat)) + "-"@)
            + spec_pad2(d.day as nat)) =~= spec_date_text(d));
    }
    s
}

/// The `YYYY-MM-DDTHH:MM:SS+00:00` text of a UTC unix timestamp.
pub open spec fn spec_utc_timestamp_text(ts: int) -> Seq<char> {
    let (y, m, d) = spec_utc_date_of(ts);
    let rest = ts % 86400;
    spec_date_text(Date { year: y as i32, month: m as u8, day: d as u8 }) + seq!['T'] + spec_pad2(
        (rest / 3600) as nat,
    ) + seq![':'] + spec_pad2(((rest % 3600) / 60) as nat) + seq![':'] + spec_pad2(
        (rest % 60) as nat,
    ) + "+00:00"@
}

/// Formats a UTC unix timestamp as `YYYY-MM-DDTHH:MM:SS+00:00`.
pub fn format_utc_timestamp(ts: i64) -> (s: String)
    requires
        0 <= ts < MAX_TIMESTAMP,
    ensures
        s@ == spec_utc_timestamp_text(ts as int),
{
    let date = utc_date_of_timestamp(ts);
    proof {
        lemma_civil_year_range(ts as int);
    }
    let mut s = format_date(date);
    let rest: i64 = ts % 86400;
    let hour: u8 = (rest / 3600) as u8;
    let minute: u8 = ((rest % 3600) / 60) as u8;
    let second: u8 = (rest % 60) as u8;
    s.append("T");
    append_pad2(&mut s, hour);
    s.append(":");
    append_pad2(&mut s, minute);
    s.append(":");
    append_pad2(&mut s, second);
    s.append("+00:00");
    proof {
        reveal_strlit("T");
        reveal_strlit(":");
        assert(s@ =~= spec_utc_timestamp_text(ts as int));
    }
    s
}

/// For timestamps from the epoch up to year 10000, the civil year lies
/// between 1970 and 9999.
pub proof fn lemma_civil_year_range(ts: int)
    requires
        0 <= ts < MAX_TIMESTAMP,
    ensures
        1970 <= spec_utc_date_of(ts).0 <= 9999,
{
    let z = ts / 86400;
    assert(0 <= z <= 2932896) by (nonlinear_arith)
        requires
            0 <= ts < 253402300800,
            z == ts / 86400,
    ;
    lemma_civil_from_days_year_range(z);
}

proof fn lemma_civil_from_days_year_range(z: int)
    requires
        0 <= z <= 2932896,
    ensures
        1970 <= spec_civil_from_days(z).0 <= 9999,
{
    let shifted = z + 719468;
    let era = shifted / 146097;
    let doe = shifted % 146097;
    assert(4 <= era <= 24) by (nonlinear_arith)
        requires
            719468 <= shifted <= 3652364,
            era == shifted / 146097,
    ;
    assert(0 <= doe < 146097);
    let yoe = (doe - doe / 1460 + doe / 36524 - doe / 146096) / 365;
    assert(0 <= yoe <= 399) by (nonlinear_arith)
        requires
            0 <= doe < 146097,
            yoe == (doe - doe / 1460 + doe / 36524 - doe / 146096) / 365,
    ;
}

/// Whether a character sequence has the shape `YYYY-MM-DD`.
pub open spec fn spec_date_text_shape(s: Seq<char>) -> bool {
    &&& s.len() == 10
    &&& spec_is_digit(s[0])
    &&& spec_is_digit(s[1])
    &&& spec_is_digit(s[2])
    &&& spec_is_digit(s[3])
    &&& s[4] == '-'
    &&& spec_is_digit(s[5])
    &&& spec_is_digit(s[6])
    &&& s[7] == '-'
    &&& spec_is_digit(s[8])
    &&& spec_is_digit(s[9])
}

/// The date named by a well-shaped `YYYY-MM-DD` sequence.
pub open spec fn spec_date_of_text(s: Seq<char>) -> Date {
    Date {
        year: (spec_digit_val(s[0]) * 1000 + spec_digit_val(s[1]) * 100 + spec_digit_val(s[2]) * 10
            + spec_digit_val(s[3])) as i32,
        month: (spec_digit_val(s[5]) * 10 + spec_digit_val(s[6])) as u8,
        day: (spec_digit_val(s[8]) * 10 + spec_digit_val(s[9])) as u8,
    }
}

fn digit_at(s: &str, i: usize) -> (r: Option<u32>)
    requires
        i < s@.len(),
    ensures
        r is Some <==> spec_is_digit(s@[i as int]),
        r is Some ==> r->0 == spec_digit_val(s@[i as int]),
{
    let c = s.get_char(i);
    let v = c as u32;
    if 48 <= v && v <= 57 {
        Some(v - 48)
    } else {
        None
    }
}

/// Parses strict `YYYY-MM-DD` text into a well-formed calendar date.
/// Returns `None` exactly on text that is not of that shape or that names
/// no real day of the calendar.
pub fn parse_date(s: &str) -> (r: Option<Date>)
    ensures
        r is Some <==> (spec_date_text_shape(s@) && spec_date_of_text(s@).wf()),
        r is Some ==> r->0 == spec_date_of_text(s@),
{
    if s.unicode_len() != 10 {
        return None;
    }
    let d0 = digit_at(s, 0);
    let d1 = digit_at(s, 1);
    let d2 = digit_at(s, 2);
    let d3 = digit_at(s, 3);
    let d5 = digit_at(s, 5);
    let d6 = digit_at(s, 6);
    let d8 = digit_at(s, 8);
    let d9 = digit_at(s, 9);
    if s.get_char(4) != '-' || s.get_char(7) != '-' {
        return None;
    }
    match (d0, d1, d2, d3, d5, d6, d8, d9) {
        (
            Some(y0),
            Some(y1),
            Some(y2),
            Some(y3),
            Some(m0),
            Some(m1),
            Some(dd0),
            Some(dd1),
        ) => {
            let year: i32 = (y0 * 1000 + y1 * 100 + y2 * 10 + y3) as i32;
            let month: u8 = (m0 * 10 + m1) as u8;
            let day: u8 = (dd0 * 10 + dd1) as u8;
            let date = Date { year, month, day };
            if 1 <= month && month <= 12 && 1 <= day && day <= days_in_month(year, month) {
                Some(date)
            } else {
                None
            }
        },
        _ => None,
    }
}

/// The number of days in a month of a given year.
pub fn days_in_month(y: i32, m: u8) -> (r: u8)
    ensures
        r as int == spec_days_in_month(y as int, m as int),
{
    if m == 2 {
        if (y % 4 == 0 && (y % 100 != 0 || y % 400 == 0)) {
            29
        } else {
            28
        }
    } else if m == 4 || m == 6 || m == 9 || m == 11 {
        30
    } else {
        31
    }
}

} // verus!
