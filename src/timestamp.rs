use vstd::prelude::*;
use vstd::string::StringExecFns;
use crate::error::{DiaryError, ErrorKind};
use crate::text::{padded, push_padded};
use chrono::Timelike;

verus! {

/// Hour, minute and second of a time of day.
#[derive(Clone, Copy, Debug, PartialEq, Eq, Structural)]
pub struct Clock {
    pub hour: u32,
    pub minute: u32,
    pub second: u32,
}

impl Clock {
    pub open spec fn wf(self) -> bool {
        self.hour < 24 && self.minute < 60 && self.second < 60
    }
}

/// Hour, minute and second (in the text's own offset) of an RFC 3339
/// date-time text, if it is one.
pub uninterp spec fn rfc3339_clock(s: Seq<char>) -> Option<(u32, u32, u32)>;

/// Hour, minute and second of a `%Y-%m-%d %H:%M:%S` date-time text without
/// offset, if it is one.
pub uninterp spec fn naive_clock(s: Seq<char>) -> Option<(u32, u32, u32)>;

/// Relies on chrono::DateTime::parse_from_rfc3339 and chrono's `Timelike`
/// accessors: the time of day of the parsed value, hour below 24, minute and
/// second below 60.
#[verifier::external_body]
fn parse_rfc3339_clock(s: &str) -> (r: Option<(u32, u32, u32)>)
    ensures
        r == rfc3339_clock(s@),
        r matches Some(c) ==> c.0 < 24 && c.1 < 60 && c.2 < 60,
{
    match chrono::DateTime::parse_from_rfc3339(s) {
        Ok(t) => Some((t.hour(), t.minute(), t.second())),
        Err(_) => None,
    }
}

/// Relies on chrono::NaiveDateTime::parse_from_str with the format
/// `%Y-%m-%d %H:%M:%S` and chrono's `Timelike` accessors: the time of day of
/// the parsed value, hour below 24, minute and second below 60.
#[verifier::external_body]
fn parse_naive_clock(s: &str) -> (r: Option<(u32, u32, u32)>)
    ensures
        r == naive_clock(s@),
        r matches Some(c) ==> c.0 < 24 && c.1 < 60 && c.2 < 60,
{
    match chrono::NaiveDateTime::parse_from_str(s, "%Y-%m-%d %H:%M:%S") {
        Ok(t) => Some((t.hour(), t.minute(), t.second())),
        Err(_) => None,
    }
}

/// The time of day a stored start time denotes: read as RFC 3339 first, as
/// a naive `%Y-%m-%d %H:%M:%S` text second.
pub open spec fn start_clock(s: Seq<char>) -> Option<(u32, u32, u32)> {
    if rfc3339_clock(s) is Some {
        rfc3339_clock(s)
    } else {
        naive_clock(s)
    }
}

pub open spec fn clock_of(t: (u32, u32, u32)) -> Clock {
    Clock { hour: t.0, minute: t.1, second: t.2 }
}

/// Reads the time of day of a stored start time; a text in neither accepted
/// format is a query error.
pub fn parse_start_time(s: &str) -> (r: Result<Clock, DiaryError>)
    ensures
        start_clock(s@) is Some <==> r is Ok,
        r matches Ok(c) ==> c == clock_of(start_clock(s@)->0) && c.wf(),
        r matches Err(e) ==> e.kind == ErrorKind::QueryError,
{
    match parse_rfc3339_clock(s) {
        Some(t) => Ok(Clock { hour: t.0, minute: t.1, second: t.2 }),
        None => match parse_naive_clock(s) {
            Some(t) => Ok(Clock { hour: t.0, minute: t.1, second: t.2 }),
            None => {
                let mut detail = "unreadable start time: ".to_owned();
                detail.append(s);
                Err(DiaryError::with_detail(ErrorKind::QueryError, "DateTime parse error", detail))
            },
        },
    }
}

/// The `HH:MM:SS` text of a time of day.
pub open spec fn clock_text(c: Clock) -> Seq<char> {
    padded(c.hour as nat, 2) + seq![':'] + padded(c.minute as nat, 2) + seq![':'] + padded(
        c.second as nat,
        2,
    )
}

/// Appends the `HH:MM:SS` text of a time of day.
pub fn push_clock(out: &mut String, c: &Clock)
    ensures
        final(out)@ == old(out)@ + clock_text(*c),
{
    push_padded(out, c.hour as u64, 2);
    out.append(":");
    push_padded(out, c.minute as u64, 2);
    out.append(":");
    push_padded(out, c.second as u64, 2);
    proof {
        reveal_strlit(":");
    }
    assert(final(out)@ =~= old(out)@ + clock_text(*c));
}

} // verus!
