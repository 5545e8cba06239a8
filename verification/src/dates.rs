//! Calendar model: the board's timestamps as plain year/month/day fields at
//! the board's fixed UTC+8 offset, leap years, weekday computation, the
//! header date grammar and the reply-date reconstruction with its
//! leap-day rollover.

use vstd::prelude::*;

use crate::chars::{
    digit_run_end, digits_val, is_digit_char, lemma_digit_run_end, space_run_end,
};
use crate::text::{digits_to_u32, skip_digits, skip_spaces};

verus! {

/// A point in the board's local civil time (fixed UTC+8 offset).
#[derive(Clone, Copy, Debug, PartialEq, Eq, Structural)]
pub struct DateTime {
    pub year: u16,
    pub month: u8,
    pub day: u8,
    pub hour: u8,
    pub min: u8,
    pub sec: u8,
}

pub open spec fn is_leap(y: int) -> bool {
    y % 4 == 0 && (y % 100 != 0 || y % 400 == 0)
}

pub fn is_leap_year(year: u16) -> (r: bool)
    ensures
        r == is_leap(year as int),
{
    year % 4 == 0 && (year % 100 != 0 || year % 400 == 0)
}

pub open spec fn spec_days_in_month(y: int, m: int) -> int {
    if m == 2 {
        if is_leap(y) {
            29
        } else {
            28
        }
    } else if m == 4 || m == 6 || m == 9 || m == 11 {
        30
    } else {
        31
    }
}

pub fn days_in_month(year: u16, month: u8) -> (r: u8)
    ensures
        r as int == spec_days_in_month(year as int, month as int),
{
    if month == 2 {
        if is_leap_year(year) {
            29
        } else {
            28
        }
    } else if month == 4 || month == 6 || month == 9 || month == 11 {
        30
    } else {
        31
    }
}

/// Weekday of a date, 0 = Monday .. 6 = Sunday (Zeller's congruence).
pub open spec fn spec_weekday(y: int, m: int, d: int) -> int {
    let yy = if m <= 2 {
        y - 1
    } else {
        y
    };
    let mm = if m <= 2 {
        m + 12
    } else {
        m
    };
    let k = yy % 100;
    let j = yy / 100;
    (d + (13 * (mm + 1)) / 5 + k + k / 4 + j / 4 + 5 * j + 5) % 7
}

pub fn weekday(year: u16, month: u8, day: u8) -> (r: u8)
    requires
        1 <= year <= 12000,
        1 <= month <= 12,
        1 <= day <= 31,
    ensures
        r as int == spec_weekday(year as int, month as int, day as int),
{
    let yy: u32 = if month <= 2 {
        year as u32 - 1
    } else {
        year as u32
    };
    let mm: u32 = if month <= 2 {
        month as u32 + 12
    } else {
        month as u32
    };
    let k: u32 = yy % 100;
    let j: u32 = yy / 100;
    let h: u32 = (day as u32 + (13 * (mm + 1)) / 5 + k + k / 4 + j / 4 + 5 * j + 5) % 7;
    h as u8
}

/// A valid civil timestamp of the model: calendar-consistent fields within
/// the year range the library handles.
pub open spec fn dt_valid(dt: DateTime) -> bool {
    &&& 1 <= dt.year <= 10400
    &&& 1 <= dt.month <= 12
    &&& 1 <= dt.day <= spec_days_in_month(dt.year as int, dt.month as int)
    &&& dt.hour <= 23
    &&& dt.min <= 59
    &&& dt.sec <= 59
}

/// The first leap year at or after `y`, fuel-bounded (a leap year always
/// lies within seven years, see `lemma_leap_within`).
pub open spec fn next_leap_rec(y: int, fuel: nat) -> int
    decreases fuel,
{
    if fuel == 0 || is_leap(y) {
        y
    } else {
        next_leap_rec(y + 1, (fuel - 1) as nat)
    }
}

pub open spec fn next_leap(y: int) -> int {
    next_leap_rec(y, 8)
}

/// Among any eight consecutive years there is a leap year.
pub proof fn lemma_leap_within(y: int)
    ensures
        exists|k: int| 0 <= k <= 7 && #[trigger] is_leap(y + k),
{
    let r = y % 4;
    let m = y + ((4 - r) % 4);
    assert(m % 4 == 0 && y <= m <= y + 3) by (nonlinear_arith)
        requires
            r == y % 4,
            m == y + ((4 - r) % 4),
    ;
    if m % 100 != 0 {
        assert(is_leap(m));
        assert(is_leap(y + (m - y)));
    } else if m % 400 == 0 {
        assert(is_leap(m));
        assert(is_leap(y + (m - y)));
    } else {
        assert((m + 4) % 4 == 0 && (m + 4) % 100 == 4) by (nonlinear_arith)
            requires
                m % 4 == 0,
                m % 100 == 0,
        ;
        assert(is_leap(m + 4));
        assert(is_leap(y + (m + 4 - y)));
    }
}

/// `next_leap(y)` is the least leap year at or after `y`.
pub proof fn lemma_next_leap(y: int)
    ensures
        is_leap(next_leap(y)),
        y <= next_leap(y) <= y + 7,
        forall|z: int| y <= z < next_leap(y) ==> !is_leap(z),
{
    lemma_leap_within(y);
    let k0 = choose|k: int| 0 <= k <= 7 && #[trigger] is_leap(y + k);
    lemma_next_leap_rec(y, 8, k0);
}

proof fn lemma_next_leap_rec(y: int, fuel: nat, k0: int)
    requires
        0 <= k0 < fuel,
        is_leap(y + k0),
    ensures
        is_leap(next_leap_rec(y, fuel)),
        y <= next_leap_rec(y, fuel) <= y + k0,
        forall|z: int| y <= z < next_leap_rec(y, fuel) ==> !is_leap(z),
    decreases fuel,
{
    if !is_leap(y) {
        lemma_next_leap_rec(y + 1, (fuel - 1) as nat, k0 - 1);
    }
}

/// The reply date resolved from the owning article's timestamp and the
/// month/day/hour/minute printed beside the reply. A February 29 stamp is
/// moved forward to the first leap year at or after the article's year (a
/// reply cannot predate its article). An impossible combination resolves
/// to no timestamp at all.
pub open spec fn spec_reply_date(at: DateTime, month: u32, day: u32, hour: u32, min: u32) -> Option<
    DateTime,
> {
    let y = if month == 2 && day == 29 {
        next_leap(at.year as int)
    } else {
        at.year as int
    };
    let dt = DateTime {
        year: y as u16,
        month: month as u8,
        day: day as u8,
        hour: hour as u8,
        min: min as u8,
        sec: 0,
    };
    if 1 <= y <= 10400 && 1 <= month <= 12 && 1 <= day && day as int <= spec_days_in_month(
        y,
        month as int,
    ) && hour <= 23 && min <= 59 {
        Some(dt)
    } else {
        None
    }
}

pub fn resolve_reply_date(at: &DateTime, month: u32, day: u32, hour: u32, min: u32) -> (r: Option<
    DateTime,
>)
    requires
        dt_valid(*at),
    ensures
        r == spec_reply_date(*at, month, day, hour, min),
        r is Some ==> dt_valid(r->Some_0),
{
    let mut year: u16 = at.year;
    if month == 2 && day == 29 {
        proof {
            lemma_next_leap(at.year as int);
        }
        while !is_leap_year(year)
            invariant
                dt_valid(*at),
                at.year as int <= year as int <= next_leap(at.year as int),
                next_leap(at.year as int) <= at.year + 7,
                forall|z: int| at.year as int <= z < year as int ==> !is_leap(z),
            decreases next_leap(at.year as int) - year,
        {
            proof {
                lemma_next_leap(at.year as int);
            }
            year = year + 1;
        }
        assert(year as int == next_leap(at.year as int)) by {
            lemma_next_leap(at.year as int);
        }
    }
    if 1 <= year && year <= 10400 && 1 <= month && month <= 12 && 1 <= day && day <= days_in_month(
        year,
        month as u8,
    ) as u32 && hour <= 23 && min <= 59 {
        Some(
            DateTime {
                year,
                month: month as u8,
                day: day as u8,
                hour: hour as u8,
                min: min as u8,
                sec: 0,
            },
        )
    } else {
        None
    }
}

/// Leap-day rollover: a reply stamped `02/29` on an article dated in any
/// year resolves to the first leap year at or after the article's year —
/// never to an earlier year — and keeps the stamped month, day and time.
pub proof fn lemma_leap_day_rollover(at: DateTime, hour: u32, min: u32)
    requires
        dt_valid(at),
        at.year <= 9999,
        hour <= 23,
        min <= 59,
    ensures
        spec_reply_date(at, 2, 29, hour, min) is Some,
        ({
            let dt = spec_reply_date(at, 2, 29, hour, min)->Some_0;
            &&& dt.year >= at.year
            &&& is_leap(dt.year as int)
            &&& forall|z: int| at.year <= z < dt.year ==> !is_leap(z)
            &&& dt.month == 2 && dt.day == 29 && dt.hour == hour && dt.min == min
        }),
{
    lemma_next_leap(at.year as int);
}

} // verus!
// The header date grammar: `Dow Mon DD HH:MM:SS YYYY` at the board's fixed
// offset. Names are three-letter English abbreviations, compared without
// regard to case; runs of white space separate the parts; the day, hour,
// minute and second are one- or two-digit numbers, the year has up to four
// digits; the weekday must agree with the date; nothing may follow the year.

verus! {

pub open spec fn eq_ci(c: char, lo: char, up: char) -> bool {
    c == lo || c == up
}

/// Weekday index (0 = Monday .. 6 = Sunday) of a three-letter abbreviation.
pub open spec fn spec_weekday_abbrev(c0: char, c1: char, c2: char) -> Option<int> {
    if eq_ci(c0, 'm', 'M') && eq_ci(c1, 'o', 'O') && eq_ci(c2, 'n', 'N') {
        Some(0)
    } else if eq_ci(c0, 't', 'T') && eq_ci(c1, 'u', 'U') && eq_ci(c2, 'e', 'E') {
        Some(1)
    } else if eq_ci(c0, 'w', 'W') && eq_ci(c1, 'e', 'E') && eq_ci(c2, 'd', 'D') {
        Some(2)
    } else if eq_ci(c0, 't', 'T') && eq_ci(c1, 'h', 'H') && eq_ci(c2, 'u', 'U') {
        Some(3)
    } else if eq_ci(c0, 'f', 'F') && eq_ci(c1, 'r', 'R') && eq_ci(c2, 'i', 'I') {
        Some(4)
    } else if eq_ci(c0, 's', 'S') && eq_ci(c1, 'a', 'A') && eq_ci(c2, 't', 'T') {
        Some(5)
    } else if eq_ci(c0, 's', 'S') && eq_ci(c1, 'u', 'U') && eq_ci(c2, 'n', 'N') {
        Some(6)
    } else {
        None
    }
}

/// Month number (1..=12) of a three-letter abbreviation.
pub open spec fn spec_month_abbrev(c0: char, c1: char, c2: char) -> Option<int> {
    if eq_ci(c0, 'j', 'J') && eq_ci(c1, 'a', 'A') && eq_ci(c2, 'n', 'N') {
        Some(1)
    } else if eq_ci(c0, 'f', 'F') && eq_ci(c1, 'e', 'E') && eq_ci(c2, 'b', 'B') {
        Some(2)
    } else if eq_ci(c0, 'm', 'M') && eq_ci(c1, 'a', 'A') && eq_ci(c2, 'r', 'R') {
        Some(3)
    } else if eq_ci(c0, 'a', 'A') && eq_ci(c1, 'p', 'P') && eq_ci(c2, 'r', 'R') {
        Some(4)
    } else if eq_ci(c0, 'm', 'M') && eq_ci(c1, 'a', 'A') && eq_ci(c2, 'y', 'Y') {
        Some(5)
    } else if eq_ci(c0, 'j', 'J') && eq_ci(c1, 'u', 'U') && eq_ci(c2, 'n', 'N') {
        Some(6)
    } else if eq_ci(c0, 'j', 'J') && eq_ci(c1, 'u', 'U') && eq_ci(c2, 'l', 'L') {
        Some(7)
    } else if eq_ci(c0, 'a', 'A') && eq_ci(c1, 'u', 'U') && eq_ci(c2, 'g', 'G') {
        Some(8)
    } else if eq_ci(c0, 's', 'S') && eq_ci(c1, 'e', 'E') && eq_ci(c2, 'p', 'P') {
        Some(9)
    } else if eq_ci(c0, 'o', 'O') && eq_ci(c1, 'c', 'C') && eq_ci(c2, 't', 'T') {
        Some(10)
    } else if eq_ci(c0, 'n', 'N') && eq_ci(c1, 'o', 'O') && eq_ci(c2, 'v', 'V') {
        Some(11)
    } else if eq_ci(c0, 'd', 'D') && eq_ci(c1, 'e', 'E') && eq_ci(c2, 'c', 'C') {
        Some(12)
    } else {
        None
    }
}

/// The header date grammar, as a function of the text alone. `None` is a
/// soft failure: the text does not spell a consistent date in this format.
pub open spec fn spec_parse_header_date(s: Seq<char>) -> Option<DateTime> {
    if s.len() < 3 {
        None
    } else {
        match spec_weekday_abbrev(s[0], s[1], s[2]) {
            None => None,
            Some(wd) => {
                let i2 = space_run_end(s, 3);
                if i2 + 3 > s.len() {
                    None
                } else {
                    match spec_month_abbrev(s[i2], s[i2 + 1], s[i2 + 2]) {
                        None => None,
                        Some(mon) => spec_parse_header_tail(s, wd, mon, i2 + 3),
                    }
                }
            },
        }
    }
}

/// The day, time and year parts of the header date, from index `i`.
pub open spec fn spec_parse_header_tail(s: Seq<char>, wd: int, mon: int, i: int) -> Option<
    DateTime,
> {
    let i4 = space_run_end(s, i);
    let de = digit_run_end(s, i4);
    if de - i4 < 1 || de - i4 > 2 {
        None
    } else {
        let day = digits_val(s.subrange(i4, de));
        let i5 = space_run_end(s, de);
        let he = digit_run_end(s, i5);
        if he - i5 < 1 || he - i5 > 2 || he >= s.len() || s[he] != ':' {
            None
        } else {
            let hour = digits_val(s.subrange(i5, he));
            let me = digit_run_end(s, he + 1);
            if me - (he + 1) < 1 || me - (he + 1) > 2 || me >= s.len() || s[me] != ':' {
                None
            } else {
                let min = digits_val(s.subrange(he + 1, me));
                let se = digit_run_end(s, me + 1);
                if se - (me + 1) < 1 || se - (me + 1) > 2 {
                    None
                } else {
                    let sec = digits_val(s.subrange(me + 1, se));
                    let i6 = space_run_end(s, se);
                    let ye = digit_run_end(s, i6);
                    if ye - i6 < 1 || ye - i6 > 4 || ye != s.len() {
                        None
                    } else {
                        let year = digits_val(s.subrange(i6, ye));
                        if 1 <= year && 1 <= day <= spec_days_in_month(year, mon) && hour <= 23
                            && min <= 59 && sec <= 59 && spec_weekday(year, mon, day) == wd {
                            Some(
                                DateTime {
                                    year: year as u16,
                                    month: mon as u8,
                                    day: day as u8,
                                    hour: hour as u8,
                                    min: min as u8,
                                    sec: sec as u8,
                                },
                            )
                        } else {
                            None
                        }
                    }
                }
            }
        }
    }
}

/// Bounds on the value of a short digit run.
pub proof fn lemma_digits_val_small(s: Seq<char>)
    requires
        forall|j: int| 0 <= j < s.len() ==> is_digit_char(s[j]),
    ensures
        digits_val(s) >= 0,
        s.len() <= 1 ==> digits_val(s) <= 9,
        s.len() <= 2 ==> digits_val(s) <= 99,
        s.len() <= 3 ==> digits_val(s) <= 999,
        s.len() <= 4 ==> digits_val(s) <= 9999,
    decreases s.len(),
{
    if s.len() > 0 {
        let t = s.drop_last();
        assert(forall|j: int| 0 <= j < t.len() ==> is_digit_char(#[trigger] t[j]));
        lemma_digits_val_small(t);
    }
}

fn weekday_abbrev(c0: char, c1: char, c2: char) -> (r: Option<u8>)
    ensures
        match r {
            Some(w) => Some(w as int) == spec_weekday_abbrev(c0, c1, c2) && w <= 6,
            None => spec_weekday_abbrev(c0, c1, c2) is None,
        },
{
    if (c0 == 'm' || c0 == 'M') && (c1 == 'o' || c1 == 'O') && (c2 == 'n' || c2 == 'N') {
        Some(0)
    } else if (c0 == 't' || c0 == 'T') && (c1 == 'u' || c1 == 'U') && (c2 == 'e' || c2 == 'E') {
        Some(1)
    } else if (c0 == 'w' || c0 == 'W') && (c1 == 'e' || c1 == 'E') && (c2 == 'd' || c2 == 'D') {
        Some(2)
    } else if (c0 == 't' || c0 == 'T') && (c1 == 'h' || c1 == 'H') && (c2 == 'u' || c2 == 'U') {
        Some(3)
    } else if (c0 == 'f' || c0 == 'F') && (c1 == 'r' || c1 == 'R') && (c2 == 'i' || c2 == 'I') {
        Some(4)
    } else if (c0 == 's' || c0 == 'S') && (c1 == 'a' || c1 == 'A') && (c2 == 't' || c2 == 'T') {
        Some(5)
    } else if (c0 == 's' || c0 == 'S') && (c1 == 'u' || c1 == 'U') && (c2 == 'n' || c2 == 'N') {
        Some(6)
    } else {
        None
    }
}

fn month_abbrev(c0: char, c1: char, c2: char) -> (r: Option<u8>)
    ensures
        match r {
            Some(m) => Some(m as int) == spec_month_abbrev(c0, c1, c2) && 1 <= m <= 12,
            None => spec_month_abbrev(c0, c1, c2) is None,
        },
{
    if (c0 == 'j' || c0 == 'J') && (c1 == 'a' || c1 == 'A') && (c2 == 'n' || c2 == 'N') {
        Some(1)
    } else if (c0 == 'f' || c0 == 'F') && (c1 == 'e' || c1 == 'E') && (c2 == 'b' || c2 == 'B') {
        Some(2)
    } else if (c0 == 'm' || c0 == 'M') && (c1 == 'a' || c1 == 'A') && (c2 == 'r' || c2 == 'R') {
        Some(3)
    } else if (c0 == 'a' || c0 == 'A') && (c1 == 'p' || c1 == 'P') && (c2 == 'r' || c2 == 'R') {
        Some(4)
    } else if (c0 == 'm' || c0 == 'M') && (c1 == 'a' || c1 == 'A') && (c2 == 'y' || c2 == 'Y') {
        Some(5)
    } else if (c0 == 'j' || c0 == 'J') && (c1 == 'u' || c1 == 'U') && (c2 == 'n' || c2 == 'N') {
        Some(6)
    } else if (c0 == 'j' || c0 == 'J') && (c1 == 'u' || c1 == 'U') && (c2 == 'l' || c2 == 'L') {
        Some(7)
    } else if (c0 == 'a' || c0 == 'A') && (c1 == 'u' || c1 == 'U') && (c2 == 'g' || c2 == 'G') {
        Some(8)
    } else if (c0 == 's' || c0 == 'S') && (c1 == 'e' || c1 == 'E') && (c2 == 'p' || c2 == 'P') {
        Some(9)
    } else if (c0 == 'o' || c0 == 'O') && (c1 == 'c' || c1 == 'C') && (c2 == 't' || c2 == 'T') {
        Some(10)
    } else if (c0 == 'n' || c0 == 'N') && (c1 == 'o' || c1 == 'O') && (c2 == 'v' || c2 == 'V') {
        Some(11)
    } else if (c0 == 'd' || c0 == 'D') && (c1 == 'e' || c1 == 'E') && (c2 == 'c' || c2 == 'C') {
        Some(12)
    } else {
        None
    }
}

/// Parses the header date text. Any mismatch with the grammar, or an
/// inconsistent or impossible date, is a soft failure (`None`).
pub fn parse_header_date(v: &Vec<char>) -> (r: Option<DateTime>)
    ensures
        r == spec_parse_header_date(v@),
        r is Some ==> dt_valid(r->Some_0),
{
    if v.len() < 3 {
        return None;
    }
    let wd = match weekday_abbrev(v[0], v[1], v[2]) {
        Some(w) => w,
        None => {
            return None;
        },
    };
    let i2 = skip_spaces(v, 3);
    if i2 > v.len() - 3 {
        return None;
    }
    let mon = match month_abbrev(v[i2], v[i2 + 1], v[i2 + 2]) {
        Some(m) => m,
        None => {
            return None;
        },
    };
    let i4 = skip_spaces(v, i2 + 3);
    let de = skip_digits(v, i4);
    if de - i4 < 1 || de - i4 > 2 {
        return None;
    }
    proof {
        lemma_digit_run_end(v@, i4 as int);
        lemma_digits_val_small(v@.subrange(i4 as int, de as int));
    }
    let day: u32 = match digits_to_u32(v, i4, de) {
        Some(d) => d,
        None => {
            proof {
                assert(false);
            }
            0
        },
    };
    let i5 = skip_spaces(v, de);
    let he = skip_digits(v, i5);
    if he - i5 < 1 || he - i5 > 2 || he >= v.len() || v[he] != ':' {
        return None;
    }
    proof {
        lemma_digit_run_end(v@, i5 as int);
        lemma_digits_val_small(v@.subrange(i5 as int, he as int));
    }
    let hour: u32 = match digits_to_u32(v, i5, he) {
        Some(d) => d,
        None => {
            proof {
                assert(false);
            }
            0
        },
    };
    let me = skip_digits(v, he + 1);
    if me - (he + 1) < 1 || me - (he + 1) > 2 || me >= v.len() || v[me] != ':' {
        return None;
    }
    proof {
        lemma_digit_run_end(v@, he + 1 as int);
        lemma_digits_val_small(v@.subrange(he + 1 as int, me as int));
    }
    let min: u32 = match digits_to_u32(v, he + 1, me) {
        Some(d) => d,
        None => {
            proof {
                assert(false);
            }
            0
        },
    };
    let se = skip_digits(v, me + 1);
    if se - (me + 1) < 1 || se - (me + 1) > 2 {
        return None;
    }
    proof {
        lemma_digit_run_end(v@, me + 1 as int);
        lemma_digits_val_small(v@.subrange(me + 1 as int, se as int));
    }
    let sec: u32 = match digits_to_u32(v, me + 1, se) {
        Some(d) => d,
        None => {
            proof {
                assert(false);
            }
            0
        },
    };
    let i6 = skip_spaces(v, se);
    let ye = skip_digits(v, i6);
    if ye - i6 < 1 || ye - i6 > 4 || ye != v.len() {
        return None;
    }
    proof {
        lemma_digit_run_end(v@, i6 as int);
        lemma_digits_val_small(v@.subrange(i6 as int, ye as int));
    }
    let year: u32 = match digits_to_u32(v, i6, ye) {
        Some(d) => d,
        None => {
            proof {
                assert(false);
            }
            0
        },
    };
    if 1 <= year && 1 <= day && day <= days_in_month(year as u16, mon) as u32 && hour <= 23 && min
        <= 59 && sec <= 59 && weekday(year as u16, mon, day as u8) == wd {
        Some(
            DateTime {
                year: year as u16,
                month: mon,
                day: day as u8,
                hour: hour as u8,
                min: min as u8,
                sec: sec as u8,
            },
        )
    } else {
        None
    }
}

} // verus!
// What an impossible stamp resolves to.

verus! {

/// An out-of-range day yields an absent timestamp for that reply alone:
/// never a default value, never a failure of the reply.
pub proof fn lemma_invalid_day_absent(at: DateTime, month: u32, day: u32, hour: u32, min: u32)
    requires
        day >= 32,
    ensures
        spec_reply_date(at, month, day, hour, min) is None,
{
}

} // verus!
