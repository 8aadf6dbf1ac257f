use vstd::prelude::*;
use vstd::string::StrSliceExecFns;
use vstd::string::StringExecFns;
use crate::error::{DiaryError, ErrorKind};
use crate::text::{digit_char, padded, push_padded};

verus! {

/// A day of the proleptic Gregorian calendar, year 0 to 9999.
#[derive(Clone, Copy, Debug, PartialEq, Eq, Structural)]
pub struct CalendarDate {
    pub year: u32,
    pub month: u32,
    pub day: u32,
}

pub open spec fn is_leap(y: int) -> bool {
    (y % 4 == 0 && y % 100 != 0) || y % 400 == 0
}

pub open spec fn days_in_month(y: int, m: int) -> int {
    if m == 2 {
        if is_leap(y) { 29 } else { 28 }
    } else if m == 4 || m == 6 || m == 9 || m == 11 {
        30
    } else {
        31
    }
}

/// Whether year, month and day name a day of the calendar.
pub open spec fn is_valid_ymd(y: int, m: int, d: int) -> bool {
    1 <= m <= 12 && 1 <= d <= days_in_month(y, m)
}

impl CalendarDate {
    /// The date names a day of the calendar within the four-digit years.
    pub open spec fn wf(self) -> bool {
        self.year <= 9999 && is_valid_ymd(self.year as int, self.month as int, self.day as int)
    }
}

pub open spec fn is_digit(c: char) -> bool {
    '0' <= c <= '9'
}

pub open spec fn digit_value(c: char) -> int {
    c as int - '0' as int
}

/// Value of the decimal digits of `s` from `lo` up to `hi`.
pub open spec fn digits_value(s: Seq<char>, lo: int, hi: int) -> int
    decreases hi - lo,
{
    if hi <= lo {
        0
    } else {
        digits_value(s, lo, hi - 1) * 10 + digit_value(s[hi - 1])
    }
}

/// The text has the shape `YYYY-MM-DD`, each letter a decimal digit.
pub open spec fn has_date_shape(s: Seq<char>) -> bool {
    &&& s.len() == 10
    &&& s[4] == '-'
    &&& s[7] == '-'
    &&& forall|i: int| 0 <= i < 10 && i != 4 && i != 7 ==> is_digit(#[trigger] s[i])
}

pub open spec fn year_of(s: Seq<char>) -> int {
    digits_value(s, 0, 4)
}

pub open spec fn month_of(s: Seq<char>) -> int {
    digits_value(s, 5, 7)
}

pub open spec fn day_of(s: Seq<char>) -> int {
    digits_value(s, 8, 10)
}

/// The text is a `YYYY-MM-DD` date that exists in the calendar.
pub open spec fn is_date_text(s: Seq<char>) -> bool {
    has_date_shape(s) && is_valid_ymd(year_of(s), month_of(s), day_of(s))
}

/// The `YYYY-MM-DD` text of a date.
pub open spec fn date_text(d: CalendarDate) -> Seq<char> {
    padded(d.year as nat, 4) + seq!['-'] + padded(d.month as nat, 2) + seq!['-'] + padded(
        d.day as nat,
        2,
    )
}

/// The day before `d`.
pub open spec fn day_before(d: CalendarDate) -> CalendarDate {
    if d.day > 1 {
        CalendarDate { day: (d.day - 1) as u32, ..d }
    } else if d.month > 1 {
        CalendarDate {
            year: d.year,
            month: (d.month - 1) as u32,
            day: days_in_month(d.year as int, d.month - 1) as u32,
        }
    } else {
        CalendarDate { year: (d.year - 1) as u32, month: 12, day: 31 }
    }
}

/// Relies on chrono::NaiveDate::from_ymd_opt, which gives a date exactly when
/// month and day name a day of the proleptic Gregorian calendar (years
/// 0 to 9999 lie inside chrono's range).
#[verifier::external_body]
fn calendar_day_exists(year: u32, month: u32, day: u32) -> (r: bool)
    requires
        year <= 9999,
    ensures
        r == is_valid_ymd(year as int, month as int, day as int),
{
    chrono::NaiveDate::from_ymd_opt(year as i32, month, day).is_some()
}

pub open spec fn pow10(n: nat) -> int
    decreases n,
{
    if n == 0 { 1 } else { 10 * pow10((n - 1) as nat) }
}

proof fn lemma_digits_bound(s: Seq<char>, lo: int, hi: int)
    requires
        0 <= lo <= hi <= s.len(),
        forall|i: int| lo <= i < hi ==> is_digit(#[trigger] s[i]),
    ensures
        0 <= digits_value(s, lo, hi) < pow10((hi - lo) as nat),
        hi - lo <= 4 ==> digits_value(s, lo, hi) <= 9999,
        hi - lo <= 2 ==> digits_value(s, lo, hi) <= 99,
    decreases hi - lo,
{
    reveal_with_fuel(pow10, 5);
    if lo < hi {
        lemma_digits_bound(s, lo, hi - 1);
        let v = digits_value(s, lo, hi - 1);
        let p = pow10((hi - 1 - lo) as nat);
        let d = digit_value(s[hi - 1]);
        assert(is_digit(s[hi - 1]));
        assert(v * 10 + d < p * 10) by (nonlinear_arith)
            requires
                v < p,
                0 <= d <= 9,
        ;
        assert(0 <= v * 10 + d) by (nonlinear_arith)
            requires
                0 <= v,
                0 <= d,
        ;
    }
}

proof fn lemma_padded_digits(s: Seq<char>, lo: int, hi: int)
    requires
        0 <= lo <= hi <= s.len(),
        forall|i: int| lo <= i < hi ==> is_digit(#[trigger] s[i]),
    ensures
        padded(digits_value(s, lo, hi) as nat, (hi - lo) as nat) == s.subrange(lo, hi),
    decreases hi - lo,
{
    if lo < hi {
        lemma_padded_digits(s, lo, hi - 1);
        lemma_digits_bound(s, lo, hi - 1);
        let v = digits_value(s, lo, hi - 1);
        let c = s[hi - 1];
        assert(is_digit(c));
        let d = digit_value(c);
        assert((v * 10 + d) / 10 == v && (v * 10 + d) % 10 == d) by (nonlinear_arith)
            requires
                0 <= v,
                0 <= d <= 9,
        ;
        assert(digit_char(d as nat) == c);
        assert(s.subrange(lo, hi) =~= s.subrange(lo, hi - 1).push(c));
    }
}

/// Reading a date and writing it again gives back the same text.
pub proof fn lemma_date_text_round_trip(s: Seq<char>)
    requires
        is_date_text(s),
    ensures
        date_text(
            CalendarDate { year: year_of(s) as u32, month: month_of(s) as u32, day: day_of(s) as u32 },
        ) == s,
{
    lemma_digits_bound(s, 0, 4);
    lemma_digits_bound(s, 5, 7);
    lemma_digits_bound(s, 8, 10);
    lemma_padded_digits(s, 0, 4);
    lemma_padded_digits(s, 5, 7);
    lemma_padded_digits(s, 8, 10);
    assert(date_text(
        CalendarDate { year: year_of(s) as u32, month: month_of(s) as u32, day: day_of(s) as u32 },
    ) =~= s);
}

fn read_digits(s: &str, lo: usize, hi: usize) -> (r: u32)
    requires
        lo <= hi <= s@.len(),
        hi - lo <= 4,
        forall|i: int| lo <= i < hi ==> is_digit(#[trigger] s@[i]),
    ensures
        r == digits_value(s@, lo as int, hi as int),
{
    let mut v: u32 = 0;
    let mut i: usize = lo;
    while i < hi
        invariant
            lo <= i <= hi,
            hi <= s@.len(),
            hi - lo <= 4,
            forall|k: int| lo <= k < hi ==> is_digit(#[trigger] s@[k]),
            v == digits_value(s@, lo as int, i as int),
        decreases hi - i,
    {
        proof {
            lemma_digits_bound(s@, lo as int, i as int);
        }
        let c = s.get_char(i);
        assert(is_digit(s@[i as int]));
        v = v * 10 + (c as u32 - '0' as u32);
        i = i + 1;
    }
    v
}

/// Reads a strict `YYYY-MM-DD` date. Anything else, including a date that
/// does not exist in the calendar, is an invalid date.
pub fn parse_date(s: &str) -> (r: Result<CalendarDate, DiaryError>)
    ensures
        is_date_text(s@) <==> r is Ok,
        r matches Ok(d) ==> {
            &&& d.wf()
            &&& d.year == year_of(s@)
            &&& d.month == month_of(s@)
            &&& d.day == day_of(s@)
        },
        r matches Err(e) ==> e.kind == ErrorKind::InvalidDate,
{
    if s.unicode_len() != 10 {
        return Err(DiaryError::invalid_date());
    }
    let mut i: usize = 0;
    while i < 10
        invariant
            s@.len() == 10,
            0 <= i <= 10,
            forall|k: int| 0 <= k < i && k != 4 && k != 7 ==> is_digit(#[trigger] s@[k]),
        decreases 10 - i,
    {
        if i != 4 && i != 7 {
            let c = s.get_char(i);
            if !('0' <= c && c <= '9') {
                return Err(DiaryError::invalid_date());
            }
        }
        i = i + 1;
    }
    if s.get_char(4) != '-' || s.get_char(7) != '-' {
        return Err(DiaryError::invalid_date());
    }
    let year = read_digits(s, 0, 4);
    let month = read_digits(s, 5, 7);
    let day = read_digits(s, 8, 10);
    proof {
        lemma_digits_bound(s@, 0, 4);
    }
    if !calendar_day_exists(year, month, day) {
        return Err(DiaryError::invalid_date());
    }
    Ok(CalendarDate { year, month, day })
}

/// The `YYYY-MM-DD` text of a date.
pub fn format_date(d: &CalendarDate) -> (r: String)
    ensures
        r@ == date_text(*d),
{
    let mut out = String::new();
    push_padded(&mut out, d.year as u64, 4);
    out.append("-");
    push_padded(&mut out, d.month as u64, 2);
    out.append("-");
    push_padded(&mut out, d.day as u64, 2);
    proof {
        reveal_strlit("-");
    }
    assert(out@ =~= date_text(*d));
    out
}

/// The day before `d`; the first day of year 0 has none.
pub fn previous_day(d: &CalendarDate) -> (r: CalendarDate)
    requires
        d.wf(),
        !(d.year == 0 && d.month == 1 && d.day == 1),
    ensures
        r == day_before(*d),
        r.wf(),
{
    if d.day > 1 {
        CalendarDate { day: d.day - 1, ..*d }
    } else if d.month > 1 {
        let m = d.month - 1;
        let last: u32 = if m == 2 {
            if (d.year % 4 == 0 && d.year % 100 != 0) || d.year % 400 == 0 {
                29
            } else {
                28
            }
        } else if m == 4 || m == 6 || m == 9 || m == 11 {
            30
        } else {
            31
        };
        CalendarDate { year: d.year, month: m, day: last }
    } else {
        CalendarDate { year: d.year - 1, month: 12, day: 31 }
    }
}

} // verus!
