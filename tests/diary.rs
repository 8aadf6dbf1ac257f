use diary_server::assembly::{build_entry, build_report, SessionRecord};
use diary_server::date::{format_date, parse_date, previous_day, CalendarDate};
use diary_server::error::{DiaryError, ErrorKind};
use diary_server::model::{group_by_category, Accomplishment, Session};
use diary_server::report::{push_duration, render, SessionEntry};
use diary_server::timestamp::{parse_start_time, Clock};

fn acc(id: i64, session_id: i64, category: &str, description: &str, duration_ms: Option<i64>) -> Accomplishment {
    Accomplishment {
        id,
        session_id,
        category: category.to_string(),
        description: description.to_string(),
        duration_ms,
    }
}

fn session(id: i64, start: &str, total: i64) -> Session {
    Session { id, start_time: start.to_string(), end_time: None, total_duration_ms: total }
}

fn day(year: u32, month: u32, day: u32) -> CalendarDate {
    CalendarDate { year, month, day }
}

fn kind_of(r: Result<CalendarDate, DiaryError>) -> Option<ErrorKind> {
    r.err().map(|e| e.kind)
}

fn duration_text(ms: i64) -> String {
    let mut s = String::new();
    push_duration(&mut s, ms);
    s
}

#[test]
fn render_is_deterministic() {
    let d = day(2024, 3, 5);
    let make = || {
        vec![SessionEntry {
            start: Clock { hour: 9, minute: 5, second: 7 },
            total_duration_ms: 125_000,
            groups: group_by_category(&vec![acc(1, 1, "code", "wrote", Some(5))]),
        }]
    };
    assert_eq!(render(&d, &make()), render(&d, &make()));
}

#[test]
fn empty_sessions_give_single_line() {
    let out = render(&day(2024, 3, 5), &vec![]);
    assert_eq!(out, "No diary entries found for 2024-03-05");
    assert_eq!(out.lines().count(), 1);
}

#[test]
fn duration_suffix_only_when_present() {
    let entries = vec![SessionEntry {
        start: Clock { hour: 10, minute: 0, second: 0 },
        total_duration_ms: 0,
        groups: group_by_category(&vec![
            acc(1, 1, "c", "plain", None),
            acc(2, 1, "c", "timed", Some(1500)),
            acc(3, 1, "c", "negative", Some(-42)),
        ]),
    }];
    let out = render(&day(2024, 1, 1), &entries);
    assert!(out.contains("- **plain**\n"));
    assert!(out.contains("- **timed** _(1500ms)_\n"));
    assert!(out.contains("- **negative** _(-42ms)_\n"));
}

#[test]
fn duration_minutes_truncate() {
    assert_eq!(duration_text(59_999), "< 1 minute");
    assert_eq!(duration_text(60_000), "~1 minutes");
    assert_eq!(duration_text(0), "< 1 minute");
    assert_eq!(duration_text(179_999), "~2 minutes");
    assert_eq!(duration_text(-120_000), "< 1 minute");
}

#[test]
fn grouping_keeps_first_seen_order() {
    let accs = vec![acc(1, 1, "catB", "x", None), acc(2, 1, "catA", "y", None), acc(3, 1, "catB", "z", None)];
    let groups = group_by_category(&accs);
    assert_eq!(groups.len(), 2);
    assert_eq!(groups[0].category, "catB");
    let b: Vec<&str> = groups[0].items.iter().map(|a| a.description.as_str()).collect();
    assert_eq!(b, vec!["x", "z"]);
    assert_eq!(groups[1].category, "catA");
    let a: Vec<&str> = groups[1].items.iter().map(|a| a.description.as_str()).collect();
    assert_eq!(a, vec!["y"]);
}

#[test]
fn grouping_of_nothing_is_empty() {
    assert!(group_by_category(&vec![]).is_empty());
}

#[test]
fn invalid_dates_are_rejected() {
    assert_eq!(kind_of(parse_date("2024-02-30")), Some(ErrorKind::InvalidDate));
    assert_eq!(kind_of(parse_date("2024/02/01")), Some(ErrorKind::InvalidDate));
    assert_eq!(kind_of(parse_date("Feb 1 2024")), Some(ErrorKind::InvalidDate));
    assert_eq!(kind_of(parse_date("2024-13-01")), Some(ErrorKind::InvalidDate));
    assert_eq!(kind_of(parse_date("2023-02-29")), Some(ErrorKind::InvalidDate));
    assert_eq!(kind_of(parse_date("2024-2-01")), Some(ErrorKind::InvalidDate));
    assert_eq!(kind_of(parse_date("")), Some(ErrorKind::InvalidDate));
    assert_eq!(kind_of(parse_date("2024-00-10")), Some(ErrorKind::InvalidDate));
}

#[test]
fn invalid_date_error_payload() {
    let e = parse_date("nope").unwrap_err();
    assert_eq!(e.code(), -32602);
    assert_eq!(e.message, "Invalid date format");
    assert_eq!(e.detail.as_deref(), Some("Date must be in YYYY-MM-DD format"));
}

#[test]
fn valid_dates_are_read() {
    let d = parse_date("2024-02-29").unwrap();
    assert_eq!(d, day(2024, 2, 29));
    assert_eq!(parse_date("0000-01-01").unwrap(), day(0, 1, 1));
    assert_eq!(parse_date("2000-02-29").unwrap(), day(2000, 2, 29));
    assert_eq!(format_date(&parse_date("1999-12-31").unwrap()), "1999-12-31");
}

#[test]
fn previous_day_crosses_boundaries() {
    assert_eq!(previous_day(&day(2024, 3, 1)), day(2024, 2, 29));
    assert_eq!(previous_day(&day(2023, 3, 1)), day(2023, 2, 28));
    assert_eq!(previous_day(&day(2024, 1, 1)), day(2023, 12, 31));
    assert_eq!(previous_day(&day(2024, 5, 1)), day(2024, 4, 30));
    assert_eq!(previous_day(&day(2024, 5, 17)), day(2024, 5, 16));
    assert_eq!(format_date(&day(7, 4, 9)), "0007-04-09");
}

#[test]
fn start_time_formats() {
    assert_eq!(parse_start_time("2024-03-05T14:07:09+02:00").unwrap(), Clock { hour: 14, minute: 7, second: 9 });
    assert_eq!(parse_start_time("2024-03-05T23:59:58Z").unwrap(), Clock { hour: 23, minute: 59, second: 58 });
    assert_eq!(parse_start_time("2024-03-05 08:00:01").unwrap(), Clock { hour: 8, minute: 0, second: 1 });
    let e = parse_start_time("yesterday noon").unwrap_err();
    assert_eq!(e.kind, ErrorKind::QueryError);
    assert_eq!(e.code(), -32603);
}

#[test]
fn orphaned_accomplishment_is_a_query_error() {
    let rec = SessionRecord {
        session: session(1, "2024-03-05 08:00:00", 0),
        accomplishments: vec![acc(7, 2, "c", "d", None)],
    };
    let e = build_entry(&rec).unwrap_err();
    assert_eq!(e.kind, ErrorKind::QueryError);
}

#[test]
fn bad_start_time_fails_the_report() {
    let recs = vec![
        SessionRecord { session: session(1, "2024-03-05 08:00:00", 0), accomplishments: vec![] },
        SessionRecord { session: session(2, "garbage", 0), accomplishments: vec![] },
    ];
    let e = build_report(&day(2024, 3, 5), &recs).unwrap_err();
    assert_eq!(e.kind, ErrorKind::QueryError);
}

#[test]
fn end_to_end_two_sessions() {
    let recs = vec![
        SessionRecord {
            session: session(2, "2024-03-05T15:30:00+00:00", 600_000),
            accomplishments: vec![
                acc(1, 2, "Coding", "Wrote parser", Some(1200)),
                acc(2, 2, "Docs", "Updated readme", None),
                acc(3, 2, "Coding", "Fixed bug", None),
            ],
        },
        SessionRecord { session: session(1, "2024-03-05 09:00:05", 30_000), accomplishments: vec![] },
    ];
    let out = build_report(&day(2024, 3, 5), &recs).unwrap();
    let expected = "# Diary Entries for 2024-03-05\n\n\
## Session 15:30:00 - ~10 minutes\n\n\
### ✅ **Accomplishments**\n\n\
#### **Coding**\n\
- **Wrote parser** _(1200ms)_\n\
- **Fixed bug**\n\
\n\
#### **Docs**\n\
- **Updated readme**\n\
\n\
---\n\n\
## Session 09:00:05 - < 1 minute\n\n\
---\n\n";
    assert_eq!(out, expected);
    assert_eq!(out.matches("## Session ").count(), 2);
    assert_eq!(out.matches("#### **").count(), 2);
    assert_eq!(out.matches("---\n\n").count(), 2);
    assert_eq!(out.matches("Accomplishments").count(), 1);
}

#[test]
fn end_to_end_no_sessions() {
    let out = build_report(&day(2024, 3, 5), &vec![]).unwrap();
    assert_eq!(out, "No diary entries found for 2024-03-05");
}
