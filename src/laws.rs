use vstd::prelude::*;
use crate::date::{CalendarDate, date_text};
use crate::model::Accomplishment;
use crate::report::{SessionEntry, duration_phrase, item_text, report_text};
use crate::text::{dec_int, dec_nat, digit_char, padded};

verus! {

/// Rendering is deterministic: two renderings of the same date and sessions
/// are the same text.
pub proof fn lemma_render_deterministic(
    d: CalendarDate,
    s: Seq<SessionEntry>,
    first: Seq<char>,
    second: Seq<char>,
)
    requires
        first == report_text(d, s),
        second == report_text(d, s),
    ensures
        first == second,
{
}

proof fn lemma_padded_no_newline(n: nat, w: nat)
    ensures
        forall|i: int| 0 <= i < padded(n, w).len() ==> padded(n, w)[i] != '\n',
        padded(n, w).len() == w,
    decreases w,
{
    if w > 0 {
        lemma_padded_no_newline(n / 10, (w - 1) as nat);
        assert(digit_char(n % 10) != '\n');
    }
}

/// With no sessions the report is the single line
/// `No diary entries found for YYYY-MM-DD`, without any line break.
pub proof fn lemma_empty_report(d: CalendarDate)
    ensures
        report_text(d, Seq::empty()) == "No diary entries found for "@ + date_text(d),
        forall|i: int|
            0 <= i < report_text(d, Seq::empty()).len() ==> report_text(d, Seq::empty())[i]
                != '\n',
{
    reveal_strlit("No diary entries found for ");
    reveal_strlit("-");
    lemma_padded_no_newline(d.year as nat, 4);
    lemma_padded_no_newline(d.month as nat, 2);
    lemma_padded_no_newline(d.day as nat, 2);
    let t = report_text(d, Seq::empty());
    assert forall|i: int| 0 <= i < t.len() implies t[i] != '\n' by {
        let p = "No diary entries found for "@;
        if i >= p.len() + 4 + 1 + 2 + 1 {
            assert(t[i] == padded(d.day as nat, 2)[i - p.len() - 8]);
        } else if i >= p.len() + 4 + 1 + 2 {
            assert(t[i] == '-');
        } else if i >= p.len() + 4 + 1 {
            assert(t[i] == padded(d.month as nat, 2)[i - p.len() - 5]);
        } else if i >= p.len() + 4 {
            assert(t[i] == '-');
        } else if i >= p.len() {
            assert(t[i] == padded(d.year as nat, 4)[i - p.len()]);
        } else {
            assert(t[i] == p[i]);
        }
    }
}

/// An accomplishment line carries a duration suffix exactly when a duration
/// is recorded, and the suffix is ` _(Nms)_`.
pub proof fn lemma_item_duration_suffix(a: Accomplishment)
    ensures
        a.duration_ms is None ==> item_text(a) == "- **"@ + a.description@ + "**"@ + "\n"@,
        a.duration_ms matches Some(v) ==> item_text(a) == "- **"@ + a.description@ + "**"@
            + " _("@ + dec_int(v as int) + "ms)_"@ + "\n"@,
{
    assert(a.duration_ms is None ==> "- **"@ + a.description@ + "**"@ + Seq::<char>::empty()
        =~= "- **"@ + a.description@ + "**"@);
}

/// A session's duration counts whole minutes, truncated: below one minute
/// the phrase is `< 1 minute`, else `~N minutes` with N the truncated count.
pub proof fn lemma_duration_truncates(ms: int)
    requires
        ms >= 0,
    ensures
        ms / 60000 == 0 ==> duration_phrase(ms) == "< 1 minute"@,
        ms / 60000 > 0 ==> duration_phrase(ms) == "~"@ + dec_nat((ms / 60000) as nat)
            + " minutes"@,
{
}

} // verus!
