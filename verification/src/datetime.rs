//! The compact OFX timestamp grammar and the instant value it produces.
//!
//! The grammar is fixed-width and positional: `YYYYMMDD`, then an optional
//! `HHMMSS` block (present exactly when six more digits follow the date),
//! an optional `.` plus three millisecond digits, and an optional bracketed
//! whole-hour UTC offset with an informational zone name.  Each field is
//! range-checked where it is read; the calendar combination (day against
//! month and leap year, and the boundary value 60 for hour, minute and
//! second, which the grammar admits but the calendar refuses) is validated
//! when the instant is constructed.  Nothing is clamped or defaulted to
//! mask a bad field.
//!
//! The result is one absolute instant with the offset folded in, so
//! comparisons are independent of how the offset was written.

use vstd::prelude::*;

use crate::error::{kind_of, Error, ErrorKind};
use crate::text::{
    all_digits, digit_end, digit_end_spec, digits_val, lemma_digit_end_props, parse_fixed_digits,
    pow10, scan_to, scan_to_spec, skip_ws, skip_ws_spec,
};

verus! {

/// A year divisible by four is a leap year, except that century years must
/// be divisible by four hundred.
pub open spec fn is_leap_year(y: int) -> bool {
    y % 4 == 0 && (y % 100 != 0 || y % 400 == 0)
}

/// Length of a month of the proleptic Gregorian calendar.
pub open spec fn days_in_month(y: int, m: int) -> int {
    if m == 2 {
        if is_leap_year(y) {
            29
        } else {
            28
        }
    } else if m == 4 || m == 6 || m == 9 || m == 11 {
        30
    } else {
        31
    }
}

/// Days in all years before year `y`, counting from year 0.
pub open spec fn days_before_year(y: int) -> int
    decreases y,
{
    if y <= 0 {
        0
    } else {
        days_before_year(y - 1) + if is_leap_year(y - 1) {
            366int
        } else {
            365int
        }
    }
}

/// Days in all months of year `y` before month `m`.
pub open spec fn days_before_month(y: int, m: int) -> int
    decreases m,
{
    if m <= 1 {
        0
    } else {
        days_before_month(y, m - 1) + days_in_month(y, m - 1)
    }
}

/// Days between the start of year 0 and the given calendar day.
pub open spec fn day_number(y: int, m: int, d: int) -> int {
    days_before_year(y) + days_before_month(y, m) + (d - 1)
}

/// The fields of one parsed timestamp, before they are collapsed into an
/// instant.
pub struct DtParts {
    pub year: int,
    pub month: int,
    pub day: int,
    pub hour: int,
    pub minute: int,
    pub second: int,
    pub millisecond: int,
    pub offset_hours: int,
}

/// The field combinations that the calendar can construct.
pub open spec fn valid_dt_parts(p: DtParts) -> bool {
    &&& 0 <= p.year <= 9999
    &&& 1 <= p.month <= 12
    &&& 1 <= p.day <= days_in_month(p.year, p.month)
    &&& 0 <= p.hour <= 23
    &&& 0 <= p.minute <= 59
    &&& 0 <= p.second <= 59
    &&& 0 <= p.millisecond <= 999
    &&& -12 <= p.offset_hours <= 14
}

/// The absolute instant the fields denote, in milliseconds since the start
/// of year 0, with the UTC offset folded in.
pub open spec fn instant_ms_of(p: DtParts) -> int {
    day_number(p.year, p.month, p.day) * 86400000 + p.hour * 3600000 + p.minute * 60000
        + p.second * 1000 + p.millisecond - p.offset_hours * 3600000
}

/// An absolute, offset-aware instant.  Two values compare equal exactly
/// when they denote the same instant, however their offsets were written.
#[derive(Clone, Copy, Debug, PartialEq, Eq, Structural)]
pub struct OfxDateTime {
    /// Milliseconds since the start of year 0 (proleptic Gregorian), UTC.
    pub instant_ms: i64,
}

fn leap_year(y: u16) -> (b: bool)
    ensures
        b == is_leap_year(y as int),
{
    y % 4 == 0 && (y % 100 != 0 || y % 400 == 0)
}

fn month_days(y: u16, m: u8) -> (d: u8)
    requires
        1 <= m <= 12,
    ensures
        d as int == days_in_month(y as int, m as int),
{
    if m == 2 {
        if leap_year(y) {
            29
        } else {
            28
        }
    } else if m == 4 || m == 6 || m == 9 || m == 11 {
        30
    } else {
        31
    }
}

impl OfxDateTime {
    /// Validates the field combination and collapses it into an instant.
    /// Fails cleanly (returns `None`) on impossible combinations such as
    /// day 31 in a 30-day month, hour 24, or the boundary value 60 for
    /// minute or second.
    pub fn from_parts(
        year: u16,
        month: u8,
        day: u8,
        hour: u8,
        minute: u8,
        second: u8,
        millisecond: u16,
        offset_hours: i8,
    ) -> (r: Option<OfxDateTime>)
        ensures
            ({
                let p = DtParts {
                    year: year as int,
                    month: month as int,
                    day: day as int,
                    hour: hour as int,
                    minute: minute as int,
                    second: second as int,
                    millisecond: millisecond as int,
                    offset_hours: offset_hours as int,
                };
                &&& (r is Some) == valid_dt_parts(p)
                &&& (r matches Some(dt) ==> dt.instant_ms == instant_ms_of(p))
            }),
    {
        if year > 9999 || month < 1 || month > 12 {
            return None;
        }
        let dim = month_days(year, month);
        if day < 1 || day > dim {
            return None;
        }
        if hour > 23 || minute > 59 || second > 59 || millisecond > 999 {
            return None;
        }
        if offset_hours < -12 || offset_hours > 14 {
            return None;
        }
        let mut days: i64 = 0;
        let mut y: u16 = 0;
        while y < year
            invariant
                y <= year <= 9999,
                days == days_before_year(y as int),
                0 <= days <= 366 * (y as int),
            decreases year - y,
        {
            if leap_year(y) {
                days = days + 366;
            } else {
                days = days + 365;
            }
            y = y + 1;
        }
        let mut m: u8 = 1;
        while m < month
            invariant
                1 <= m <= month <= 12,
                year <= 9999,
                days == days_before_year(year as int) + days_before_month(year as int, m as int),
                0 <= days <= 366 * (year as int) + 31 * (m as int),
            decreases month - m,
        {
            days = days + month_days(year, m) as i64;
            m = m + 1;
        }
        days = days + (day as i64 - 1);
        let ms: i64 = days * 86400000 + (hour as i64) * 3600000 + (minute as i64) * 60000 + (
        second as i64) * 1000 + (millisecond as i64) - (offset_hours as i64) * 3600000;
        Some(OfxDateTime { instant_ms: ms })
    }
}

/// Two field tuples that denote the same absolute instant decode to equal
/// values: the decoded value carries nothing but the instant, so differing
/// offset notations for one moment cannot be told apart.
pub proof fn lemma_same_instant_decodes_equal(p1: DtParts, p2: DtParts, d1: OfxDateTime, d2: OfxDateTime)
    requires
        valid_dt_parts(p1),
        valid_dt_parts(p2),
        instant_ms_of(p1) == instant_ms_of(p2),
        d1.instant_ms == instant_ms_of(p1),
        d2.instant_ms == instant_ms_of(p2),
    ensures
        d1 == d2,
{
}

/// Outcome of running the timestamp grammar over an input.
pub enum DtParse {
    /// The fields read, and the position of the first unconsumed
    /// character.  The caller decides what the remainder means.
    Value(DtParts, int),
    /// A field failed its range check, or the calendar refused the
    /// combination.
    Malformed,
    /// The input ended inside a required construct.
    Short,
}

/// Calendar construction: the grammar has accepted the fields, the
/// calendar now refuses an hour above 23, a minute or second above 59 (in
/// particular the boundary value 60, which the grammar admits), and a day
/// that the month does not have.
pub open spec fn spec_datetime_finish(
    y: int,
    mo: int,
    d: int,
    h: int,
    mi: int,
    sec: int,
    ms: int,
    off: int,
    rest: int,
) -> DtParse {
    if h > 23 || mi > 59 || sec > 59 {
        DtParse::Malformed
    } else if d > days_in_month(y, mo) {
        DtParse::Malformed
    } else {
        DtParse::Value(
            DtParts {
                year: y,
                month: mo,
                day: d,
                hour: h,
                minute: mi,
                second: sec,
                millisecond: ms,
                offset_hours: off,
            },
            rest,
        )
    }
}

/// The optional bracketed offset: `[`, optional whitespace, a signed
/// whole-hour offset in [-12, 14], an optional `:` plus informational zone
/// name, optional whitespace, `]`.  Absent brackets mean UTC.
pub open spec fn spec_datetime_offset(
    s: Seq<char>,
    y: int,
    mo: int,
    d: int,
    h: int,
    mi: int,
    sec: int,
    ms: int,
    p3: int,
) -> DtParse {
    let pw = skip_ws_spec(s, p3);
    if pw < s.len() && s[pw] == '[' {
        let pn = skip_ws_spec(s, pw + 1);
        if pn >= s.len() {
            DtParse::Short
        } else {
            let sgn = if s[pn] == '-' || s[pn] == '+' {
                1int
            } else {
                0int
            };
            let pd = pn + sgn;
            let de = digit_end_spec(s, pd);
            if de == pd {
                if pd >= s.len() {
                    DtParse::Short
                } else {
                    DtParse::Malformed
                }
            } else if de - pd > 9 {
                DtParse::Malformed
            } else {
                let v = digits_val(s, pd, de - pd);
                let off = if s[pn] == '-' {
                    -v
                } else {
                    v
                };
                if off < -12 || off > 14 {
                    DtParse::Malformed
                } else {
                    let pz = skip_ws_spec(s, de);
                    if pz >= s.len() {
                        DtParse::Short
                    } else if s[pz] == ':' {
                        let be = scan_to_spec(s, pz + 1, ']');
                        if be >= s.len() {
                            DtParse::Short
                        } else {
                            spec_datetime_finish(y, mo, d, h, mi, sec, ms, off, be + 1)
                        }
                    } else if s[pz] == ']' {
                        spec_datetime_finish(y, mo, d, h, mi, sec, ms, off, pz + 1)
                    } else {
                        DtParse::Malformed
                    }
                }
            }
        }
    } else {
        spec_datetime_finish(y, mo, d, h, mi, sec, ms, 0, p3)
    }
}

/// The time block (six digits, each pair range-checked up to the boundary
/// value 60), then the optional milliseconds: a literal `.` followed by
/// exactly three digits, or nothing.
pub open spec fn spec_datetime_time(s: Seq<char>, y: int, mo: int, d: int, p1: int) -> DtParse {
    let h = digits_val(s, p1, 2);
    let mi = digits_val(s, p1 + 2, 2);
    let sec = digits_val(s, p1 + 4, 2);
    if h > 60 || mi > 60 || sec > 60 {
        DtParse::Malformed
    } else {
        let p2 = p1 + 6;
        let ms_there = p2 + 4 <= s.len() && s[p2] == '.' && all_digits(s, p2 + 1, 3);
        let ms = if ms_there {
            digits_val(s, p2 + 1, 3)
        } else {
            0int
        };
        let p3 = if ms_there {
            p2 + 4
        } else {
            p2
        };
        spec_datetime_offset(s, y, mo, d, h, mi, sec, ms, p3)
    }
}

/// The whole timestamp grammar: leading whitespace, the eight date digits
/// with month and day range-checked, then the optional time block, present
/// exactly when six more digits follow the date.
pub open spec fn spec_datetime(s: Seq<char>) -> DtParse {
    let p0 = skip_ws_spec(s, 0);
    if p0 + 4 > s.len() {
        DtParse::Short
    } else if !all_digits(s, p0, 4) {
        DtParse::Malformed
    } else {
        let y = digits_val(s, p0, 4);
        if p0 + 6 > s.len() {
            DtParse::Short
        } else if !all_digits(s, p0 + 4, 2) {
            DtParse::Malformed
        } else {
            let mo = digits_val(s, p0 + 4, 2);
            if mo < 1 || mo > 12 {
                DtParse::Malformed
            } else if p0 + 8 > s.len() {
                DtParse::Short
            } else if !all_digits(s, p0 + 6, 2) {
                DtParse::Malformed
            } else {
                let d = digits_val(s, p0 + 6, 2);
                if d < 1 || d > 31 {
                    DtParse::Malformed
                } else {
                    let p1 = p0 + 8;
                    if p1 + 6 <= s.len() && all_digits(s, p1, 6) {
                        spec_datetime_time(s, y, mo, d, p1)
                    } else {
                        spec_datetime_finish(y, mo, d, 0, 0, 0, 0, 0, p1)
                    }
                }
            }
        }
    }
}

/// Runs the timestamp grammar over `s` and returns the instant together
/// with the position of the first unconsumed character.  Trailing input is
/// reported, not consumed and not treated as an error: the caller decides
/// whether a remainder is acceptable.
#[verifier::rlimit(100)]
pub fn parse_datetime(s: &str) -> (r: Result<(OfxDateTime, usize), Error>)
    ensures
        match spec_datetime(s@) {
            DtParse::Value(p, rest) => r matches Ok((dt, rp)) && dt.instant_ms == instant_ms_of(p)
                && rp == rest && rp <= s@.len() && valid_dt_parts(p),
            DtParse::Malformed => r matches Err(e) && kind_of(e) == ErrorKind::ParseError,
            DtParse::Short => r matches Err(e) && e == Error::ParseIncomplete,
        },
{
    let n = s.unicode_len();
    let p0 = skip_ws(s, 0);
    if n - p0 < 4 {
        return Err(Error::ParseIncomplete);
    }
    let year = match parse_fixed_digits(s, p0, 4) {
        Some(v) => v,
        None => {
            return Err(Error::ParseError(String::from_str("bad year digits")));
        },
    };
    if n - p0 < 6 {
        return Err(Error::ParseIncomplete);
    }
    let month = match parse_fixed_digits(s, p0 + 4, 2) {
        Some(v) => v,
        None => {
            return Err(Error::ParseError(String::from_str("bad month digits")));
        },
    };
    if month < 1 || month > 12 {
        return Err(Error::ParseError(String::from_str("month out of range")));
    }
    if n - p0 < 8 {
        return Err(Error::ParseIncomplete);
    }
    let day = match parse_fixed_digits(s, p0 + 6, 2) {
        Some(v) => v,
        None => {
            return Err(Error::ParseError(String::from_str("bad day digits")));
        },
    };
    if day < 1 || day > 31 {
        return Err(Error::ParseError(String::from_str("day out of range")));
    }
    proof {
        reveal_with_fuel(pow10, 5);
    }
    let p1 = p0 + 8;
    let time_there = n - p1 >= 6 && parse_fixed_digits(s, p1, 6).is_some();
    if !time_there {
        return finish(s, year as u16, month as u8, day as u8, 0, 0, 0, 0, 0, p1);
    }
    let hour = parse_fixed_digits(s, p1, 2).unwrap();
    let minute = parse_fixed_digits(s, p1 + 2, 2).unwrap();
    let second = parse_fixed_digits(s, p1 + 4, 2).unwrap();
    if hour > 60 || minute > 60 || second > 60 {
        return Err(Error::ParseError(String::from_str("time field out of range")));
    }
    let p2 = p1 + 6;
    let ms_digits = if n - p2 >= 4 && s.get_char(p2) == '.' {
        parse_fixed_digits(s, p2 + 1, 3)
    } else {
        None
    };
    let (ms, p3) = match ms_digits {
        Some(v) => (v, p2 + 4),
        None => (0u32, p2),
    };
    let pw = skip_ws(s, p3);
    if !(pw < n && s.get_char(pw) == '[') {
        return finish(
            s,
            year as u16,
            month as u8,
            day as u8,
            hour as u8,
            minute as u8,
            second as u8,
            ms as u16,
            0,
            p3,
        );
    }
    let pn = skip_ws(s, pw + 1);
    if pn >= n {
        return Err(Error::ParseIncomplete);
    }
    let lead = s.get_char(pn);
    let pd = if lead == '-' || lead == '+' {
        pn + 1
    } else {
        pn
    };
    let de = digit_end(s, pd);
    if de == pd {
        if pd >= n {
            return Err(Error::ParseIncomplete);
        }
        return Err(Error::ParseError(String::from_str("offset digits expected")));
    }
    if de - pd > 9 {
        return Err(Error::ParseError(String::from_str("offset too long")));
    }
    proof {
        lemma_digit_end_props(s@, pd as int);
    }
    let v = parse_fixed_digits(s, pd, de - pd).unwrap();
    let off: i32 = if lead == '-' {
        0i32 - (v as i32)
    } else {
        v as i32
    };
    if off < -12 || off > 14 {
        return Err(Error::ParseError(String::from_str("offset out of range")));
    }
    let pz = skip_ws(s, de);
    if pz >= n {
        return Err(Error::ParseIncomplete);
    }
    let at_z = s.get_char(pz);
    if at_z == ':' {
        let be = scan_to(s, pz + 1, ']');
        if be >= n {
            return Err(Error::ParseIncomplete);
        }
        finish(
            s,
            year as u16,
            month as u8,
            day as u8,
            hour as u8,
            minute as u8,
            second as u8,
            ms as u16,
            off as i8,
            be + 1,
        )
    } else if at_z == ']' {
        finish(
            s,
            year as u16,
            month as u8,
            day as u8,
            hour as u8,
            minute as u8,
            second as u8,
            ms as u16,
            off as i8,
            pz + 1,
        )
    } else {
        Err(Error::ParseError(String::from_str("bad offset bracket")))
    }
}

/// Hands the grammar's fields to the calendar and shapes the outcome.
fn finish(
    s: &str,
    year: u16,
    month: u8,
    day: u8,
    hour: u8,
    minute: u8,
    second: u8,
    ms: u16,
    off: i8,
    rest: usize,
) -> (r: Result<(OfxDateTime, usize), Error>)
    requires
        rest <= s@.len(),
        0 <= year <= 9999,
        1 <= month <= 12,
        1 <= day <= 31,
        hour <= 60,
        minute <= 60,
        second <= 60,
        ms <= 999,
        -12 <= off <= 14,
    ensures
        match spec_datetime_finish(
            year as int,
            month as int,
            day as int,
            hour as int,
            minute as int,
            second as int,
            ms as int,
            off as int,
            rest as int,
        ) {
            DtParse::Value(p, sp) => r matches Ok((dt, rp)) && dt.instant_ms == instant_ms_of(p)
                && rp == sp && rp <= s@.len() && valid_dt_parts(p),
            DtParse::Malformed => r matches Err(e) && kind_of(e) == ErrorKind::ParseError,
            DtParse::Short => r matches Err(e) && e == Error::ParseIncomplete,
        },
{
    match OfxDateTime::from_parts(year, month, day, hour, minute, second, ms, off) {
        Some(dt) => Ok((dt, rest)),
        None => Err(Error::ParseError(String::from_str("calendar rejected the fields"))),
    }
}

} // verus!
