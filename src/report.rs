use vstd::prelude::*;
use vstd::string::StringExecFns;
use crate::date::{CalendarDate, date_text, format_date};
use crate::model::{Accomplishment, CategoryGroup};
use crate::text::{dec_int, dec_nat, push_int, push_nat};
use crate::timestamp::{Clock, clock_text, push_clock};

verus! {

/// A session ready to be rendered: its start time of day, its total duration
/// and its accomplishments grouped by category.
#[derive(Debug)]
pub struct SessionEntry {
    pub start: Clock,
    pub total_duration_ms: i64,
    pub groups: Vec<CategoryGroup>,
}

/// `~N minutes` for a duration of at least one whole minute, else
/// `< 1 minute`; minutes are truncated, never rounded.
pub open spec fn duration_phrase(ms: int) -> Seq<char> {
    if ms >= 60000 {
        "~"@ + dec_nat((ms / 60000) as nat) + " minutes"@
    } else {
        "< 1 minute"@
    }
}

/// The duration suffix of an accomplishment line: nothing, or ` _(Nms)_`.
pub open spec fn duration_suffix(d: Option<i64>) -> Seq<char> {
    match d {
        None => Seq::empty(),
        Some(v) => " _("@ + dec_int(v as int) + "ms)_"@,
    }
}

pub open spec fn item_text(a: Accomplishment) -> Seq<char> {
    "- **"@ + a.description@ + "**"@ + duration_suffix(a.duration_ms) + "\n"@
}

pub open spec fn items_text(s: Seq<Accomplishment>) -> Seq<char>
    decreases s.len(),
{
    if s.len() == 0 {
        Seq::empty()
    } else {
        items_text(s.drop_last()) + item_text(s.last())
    }
}

pub open spec fn group_text(category: Seq<char>, items: Seq<Accomplishment>) -> Seq<char> {
    "#### **"@ + category + "**\n"@ + items_text(items) + "\n"@
}

pub open spec fn groups_text(g: Seq<CategoryGroup>) -> Seq<char>
    decreases g.len(),
{
    if g.len() == 0 {
        Seq::empty()
    } else {
        groups_text(g.drop_last()) + group_text(g.last().category@, g.last().items@)
    }
}

pub open spec fn session_header(start: Clock, total_ms: int) -> Seq<char> {
    "## Session "@ + clock_text(start) + " - "@ + duration_phrase(total_ms) + "\n\n"@
}

pub open spec fn accomplishments_marker() -> Seq<char> {
    "### ✅ **Accomplishments**\n\n"@
}

pub open spec fn separator() -> Seq<char> {
    "---\n\n"@
}

/// One session's section: header, the accomplishments subsection when there
/// are any, and the separator line.
pub open spec fn session_text(e: SessionEntry) -> Seq<char> {
    session_header(e.start, e.total_duration_ms as int) + (if e.groups@.len() == 0 {
        Seq::empty()
    } else {
        accomplishments_marker() + groups_text(e.groups@)
    }) + separator()
}

pub open spec fn sessions_text(s: Seq<SessionEntry>) -> Seq<char>
    decreases s.len(),
{
    if s.len() == 0 {
        Seq::empty()
    } else {
        sessions_text(s.drop_last()) + session_text(s.last())
    }
}

pub open spec fn empty_report(d: CalendarDate) -> Seq<char> {
    "No diary entries found for "@ + date_text(d)
}

pub open spec fn report_title(d: CalendarDate) -> Seq<char> {
    "# Diary Entries for "@ + date_text(d) + "\n\n"@
}

/// The report of a day: one fixed line when there are no sessions, else a
/// title and each session's section in the order given.
pub open spec fn report_text(d: CalendarDate, s: Seq<SessionEntry>) -> Seq<char> {
    if s.len() == 0 {
        empty_report(d)
    } else {
        report_title(d) + sessions_text(s)
    }
}

/// Appends the human duration phrase of a session.
pub fn push_duration(out: &mut String, ms: i64)
    ensures
        final(out)@ == old(out)@ + duration_phrase(ms as int),
{
    if ms >= 60000 {
        out.append("~");
        push_nat(out, (ms / 60000) as u64);
        out.append(" minutes");
    } else {
        out.append("< 1 minute");
    }
    assert(final(out)@ =~= old(out)@ + duration_phrase(ms as int));
}

fn push_item(out: &mut String, a: &Accomplishment)
    ensures
        final(out)@ == old(out)@ + item_text(*a),
{
    out.append("- **");
    out.append(a.description.as_str());
    out.append("**");
    match a.duration_ms {
        Some(v) => {
            out.append(" _(");
            push_int(out, v);
            out.append("ms)_");
        },
        None => {},
    }
    out.append("\n");
    assert(final(out)@ =~= old(out)@ + item_text(*a));
}

fn push_group(out: &mut String, g: &CategoryGroup)
    ensures
        final(out)@ == old(out)@ + group_text(g.category@, g.items@),
{
    out.append("#### **");
    out.append(g.category.as_str());
    out.append("**\n");
    let ghost start = out@;
    let mut i: usize = 0;
    while i < g.items.len()
        invariant
            i <= g.items@.len(),
            out@ == start + items_text(g.items@.take(i as int)),
        decreases g.items@.len() - i,
    {
        assert(g.items@.take(i + 1).drop_last() =~= g.items@.take(i as int));
        push_item(out, &g.items[i]);
        assert(out@ =~= start + items_text(g.items@.take(i + 1)));
        i = i + 1;
    }
    assert(g.items@.take(g.items@.len() as int) =~= g.items@);
    out.append("\n");
    assert(final(out)@ =~= old(out)@ + group_text(g.category@, g.items@));
}

fn push_session(out: &mut String, e: &SessionEntry)
    ensures
        final(out)@ == old(out)@ + session_text(*e),
{
    out.append("## Session ");
    push_clock(out, &e.start);
    out.append(" - ");
    push_duration(out, e.total_duration_ms);
    out.append("\n\n");
    assert(out@ =~= old(out)@ + session_header(e.start, e.total_duration_ms as int));
    let ghost mid = out@;
    if e.groups.len() > 0 {
        out.append("### ✅ **Accomplishments**\n\n");
        let ghost start = out@;
        let mut j: usize = 0;
        while j < e.groups.len()
            invariant
                j <= e.groups@.len(),
                out@ == start + groups_text(e.groups@.take(j as int)),
            decreases e.groups@.len() - j,
        {
            assert(e.groups@.take(j + 1).drop_last() =~= e.groups@.take(j as int));
            push_group(out, &e.groups[j]);
            assert(out@ =~= start + groups_text(e.groups@.take(j + 1)));
            j = j + 1;
        }
        assert(e.groups@.take(e.groups@.len() as int) =~= e.groups@);
    }
    out.append("---\n\n");
    assert(final(out)@ =~= old(out)@ + session_text(*e));
}

/// Renders the report of a day from its sessions, in the order given.
pub fn render(date: &CalendarDate, entries: &Vec<SessionEntry>) -> (r: String)
    ensures
        r@ == report_text(*date, entries@),
{
    let day = format_date(date);
    if entries.len() == 0 {
        let mut out = "No diary entries found for ".to_owned();
        out.append(day.as_str());
        return out;
    }
    let mut out = "# Diary Entries for ".to_owned();
    out.append(day.as_str());
    out.append("\n\n");
    let ghost start = out@;
    let mut i: usize = 0;
    while i < entries.len()
        invariant
            i <= entries@.len(),
            out@ == start + sessions_text(entries@.take(i as int)),
        decreases entries@.len() - i,
    {
        assert(entries@.take(i + 1).drop_last() =~= entries@.take(i as int));
        push_session(&mut out, &entries[i]);
        assert(out@ =~= start + sessions_text(entries@.take(i + 1)));
        i = i + 1;
    }
    assert(entries@.take(entries@.len() as int) =~= entries@);
    assert(out@ =~= report_text(*date, entries@));
    out
}

} // verus!
