use vstd::prelude::*;
use vstd::string::StringExecFns;
use crate::date::CalendarDate;
use crate::error::{DiaryError, ErrorKind};
use crate::model::{
    Accomplishment, CategoryGroup, Session, first_seen, group_by_category, is_grouping_of,
    members,
};
use crate::report::{
    SessionEntry, accomplishments_marker, empty_report, group_text, groups_text, render,
    report_title, separator, session_header, session_text, sessions_text,
};
use crate::text::push_int;
use crate::timestamp::{clock_of, parse_start_time, start_clock};

verus! {

/// A stored session together with the accomplishments stored for it.
#[derive(Debug)]
pub struct SessionRecord {
    pub session: Session,
    pub accomplishments: Vec<Accomplishment>,
}

/// Every accomplishment of `s` names the session `id`.
pub open spec fn all_belong(s: Seq<Accomplishment>, id: i64) -> bool {
    forall|k: int| 0 <= k < s.len() ==> (#[trigger] s[k]).session_id == id
}

/// A record can be rendered: its start time is readable and none of its
/// accomplishments names another session.
pub open spec fn record_ok(r: SessionRecord) -> bool {
    start_clock(r.session.start_time@) is Some && all_belong(r.accomplishments@, r.session.id)
}

pub open spec fn all_records_ok(s: Seq<SessionRecord>) -> bool {
    forall|k: int| 0 <= k < s.len() ==> record_ok(#[trigger] s[k])
}

/// The category groups of `s`, one per category of `cats`, as text.
pub open spec fn categories_text(cats: Seq<Seq<char>>, s: Seq<Accomplishment>) -> Seq<char>
    decreases cats.len(),
{
    if cats.len() == 0 {
        Seq::empty()
    } else {
        categories_text(cats.drop_last(), s) + group_text(cats.last(), members(s, cats.last()))
    }
}

/// One session's section, stated on the stored record.
pub open spec fn record_text(r: SessionRecord) -> Seq<char> {
    let accs = r.accomplishments@;
    session_header(clock_of(start_clock(r.session.start_time@)->0), r.session.total_duration_ms as int)
        + (if accs.len() == 0 {
        Seq::empty()
    } else {
        accomplishments_marker() + categories_text(first_seen(accs), accs)
    }) + separator()
}

pub open spec fn records_text(s: Seq<SessionRecord>) -> Seq<char>
    decreases s.len(),
{
    if s.len() == 0 {
        Seq::empty()
    } else {
        records_text(s.drop_last()) + record_text(s.last())
    }
}

/// The report of a day, stated on the stored records.
pub open spec fn records_report(d: CalendarDate, s: Seq<SessionRecord>) -> Seq<char> {
    if s.len() == 0 {
        empty_report(d)
    } else {
        report_title(d) + records_text(s)
    }
}

/// `e` is what record `r` renders from.
pub open spec fn entry_of(e: SessionEntry, r: SessionRecord) -> bool {
    &&& e.start == clock_of(start_clock(r.session.start_time@)->0)
    &&& e.total_duration_ms == r.session.total_duration_ms
    &&& is_grouping_of(e.groups@, r.accomplishments@)
}

proof fn lemma_first_seen_empty(s: Seq<Accomplishment>)
    ensures
        first_seen(s).len() == 0 <==> s.len() == 0,
{
    if s.len() > 0 {
        let prev = first_seen(s.drop_last());
        if prev.contains(s.last().category@) {
            assert(prev.len() > 0);
        }
    }
}

proof fn lemma_groups_text(g: Seq<CategoryGroup>, cats: Seq<Seq<char>>, s: Seq<Accomplishment>)
    requires
        g.len() == cats.len(),
        forall|j: int|
            0 <= j < g.len() ==> {
                &&& (#[trigger] g[j]).category@ == cats[j]
                &&& g[j].items@ == members(s, cats[j])
            },
    ensures
        groups_text(g) == categories_text(cats, s),
    decreases g.len(),
{
    if g.len() > 0 {
        let gl = g.drop_last();
        let cl = cats.drop_last();
        assert forall|j: int| 0 <= j < gl.len() implies {
            &&& (#[trigger] gl[j]).category@ == cl[j]
            &&& gl[j].items@ == members(s, cl[j])
        } by {
            assert(g[j] == gl[j]);
        }
        lemma_groups_text(gl, cl, s);
        assert(g[g.len() - 1] == g.last());
    }
}

proof fn lemma_session_text(e: SessionEntry, r: SessionRecord)
    requires
        entry_of(e, r),
    ensures
        session_text(e) == record_text(r),
{
    lemma_first_seen_empty(r.accomplishments@);
    lemma_groups_text(e.groups@, first_seen(r.accomplishments@), r.accomplishments@);
}

proof fn lemma_sessions_text(es: Seq<SessionEntry>, rs: Seq<SessionRecord>)
    requires
        es.len() == rs.len(),
        forall|k: int| 0 <= k < es.len() ==> entry_of(#[trigger] es[k], rs[k]),
    ensures
        sessions_text(es) == records_text(rs),
    decreases es.len(),
{
    if es.len() > 0 {
        let el = es.drop_last();
        let rl = rs.drop_last();
        assert forall|k: int| 0 <= k < el.len() implies entry_of(#[trigger] el[k], rl[k]) by {
            assert(es[k] == el[k]);
        }
        lemma_sessions_text(el, rl);
        assert(entry_of(es[es.len() - 1], rs[rs.len() - 1]));
        lemma_session_text(es.last(), rs.last());
    }
}

/// Prepares one record for rendering. A start time in neither accepted
/// format, or an accomplishment that names another session, is a query error.
pub fn build_entry(rec: &SessionRecord) -> (r: Result<SessionEntry, DiaryError>)
    ensures
        record_ok(*rec) <==> r is Ok,
        r matches Ok(e) ==> entry_of(e, *rec),
        r matches Err(e) ==> e.kind == ErrorKind::QueryError,
{
    let accs = &rec.accomplishments;
    let mut i: usize = 0;
    while i < accs.len()
        invariant
            i <= accs@.len(),
            accs@ == rec.accomplishments@,
            all_belong(accs@.take(i as int), rec.session.id),
        decreases accs@.len() - i,
    {
        if accs[i].session_id != rec.session.id {
            let mut detail = "accomplishment ".to_owned();
            push_int(&mut detail, accs[i].id);
            detail.append(" does not belong to session ");
            push_int(&mut detail, rec.session.id);
            assert(rec.accomplishments@[i as int].session_id != rec.session.id);
            assert(!record_ok(*rec));
            return Err(DiaryError::with_detail(ErrorKind::QueryError, "Orphaned accomplishment", detail));
        }
        assert(accs@.take(i + 1)[i as int] == accs@[i as int]);
        i = i + 1;
    }
    assert(accs@.take(accs@.len() as int) =~= accs@);
    let start = match parse_start_time(rec.session.start_time.as_str()) {
        Ok(c) => c,
        Err(e) => {
            return Err(e);
        },
    };
    let groups = group_by_category(accs);
    Ok(SessionEntry { start, total_duration_ms: rec.session.total_duration_ms, groups })
}

/// Builds the report of a day from its stored sessions, in the order given.
/// It fails with a query error exactly when some record cannot be rendered.
pub fn build_report(date: &CalendarDate, records: &Vec<SessionRecord>) -> (r: Result<String, DiaryError>)
    ensures
        all_records_ok(records@) <==> r is Ok,
        r matches Ok(t) ==> t@ == records_report(*date, records@),
        r matches Err(e) ==> e.kind == ErrorKind::QueryError,
{
    let mut entries: Vec<SessionEntry> = Vec::new();
    let mut i: usize = 0;
    while i < records.len()
        invariant
            i <= records@.len(),
            entries@.len() == i,
            forall|k: int| 0 <= k < i ==> record_ok(#[trigger] records@[k]),
            forall|k: int| 0 <= k < i ==> entry_of(#[trigger] entries@[k], records@[k]),
        decreases records@.len() - i,
    {
        match build_entry(&records[i]) {
            Ok(e) => {
                entries.push(e);
            },
            Err(e) => {
                return Err(e);
            },
        }
        i = i + 1;
    }
    let text = render(date, &entries);
    proof {
        lemma_sessions_text(entries@, records@);
    }
    Ok(text)
}

} // verus!
