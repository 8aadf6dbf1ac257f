use vstd::prelude::*;

verus! {

/// One recorded interval of activity.
#[derive(Debug)]
pub struct Session {
    pub id: i64,
    pub start_time: String,
    pub end_time: Option<String>,
    pub total_duration_ms: i64,
}

/// One recorded unit of work within a session, tagged with a category.
#[derive(Debug)]
pub struct Accomplishment {
    pub id: i64,
    pub session_id: i64,
    pub category: String,
    pub description: String,
    pub duration_ms: Option<i64>,
}

/// The accomplishments of one category, in their recorded order.
#[derive(Debug)]
pub struct CategoryGroup {
    pub category: String,
    pub items: Vec<Accomplishment>,
}

impl Accomplishment {
    /// A field-by-field copy.
    pub fn duplicate(&self) -> (r: Accomplishment)
        ensures
            r == *self,
    {
        Accomplishment {
            id: self.id,
            session_id: self.session_id,
            category: self.category.clone(),
            description: self.description.clone(),
            duration_ms: self.duration_ms,
        }
    }
}

/// The distinct categories of `s`, in the order of their first appearance.
pub open spec fn first_seen(s: Seq<Accomplishment>) -> Seq<Seq<char>>
    decreases s.len(),
{
    if s.len() == 0 {
        Seq::empty()
    } else {
        let prev = first_seen(s.drop_last());
        let c = s.last().category@;
        if prev.contains(c) {
            prev
        } else {
            prev.push(c)
        }
    }
}

/// The accomplishments of `s` whose category is `c`, in order.
pub open spec fn members(s: Seq<Accomplishment>, c: Seq<char>) -> Seq<Accomplishment>
    decreases s.len(),
{
    if s.len() == 0 {
        Seq::empty()
    } else {
        let prev = members(s.drop_last(), c);
        if s.last().category@ == c {
            prev.push(s.last())
        } else {
            prev
        }
    }
}

/// `g` is the grouping of `s` by category: one group per distinct category in
/// first-seen order, each holding that category's accomplishments in order.
pub open spec fn is_grouping_of(g: Seq<CategoryGroup>, s: Seq<Accomplishment>) -> bool {
    &&& g.len() == first_seen(s).len()
    &&& forall|j: int|
        0 <= j < g.len() ==> {
            &&& (#[trigger] g[j]).category@ == first_seen(s)[j]
            &&& g[j].items@ == members(s, first_seen(s)[j])
        }
}

/// The distinct categories of `accs` in first-seen order.
fn distinct_categories(accs: &Vec<Accomplishment>) -> (r: Vec<String>)
    ensures
        r@.len() == first_seen(accs@).len(),
        forall|j: int| 0 <= j < r@.len() ==> (#[trigger] r@[j])@ == first_seen(accs@)[j],
{
    let mut cats: Vec<String> = Vec::new();
    let mut i: usize = 0;
    while i < accs.len()
        invariant
            i <= accs@.len(),
            cats@.len() == first_seen(accs@.take(i as int)).len(),
            forall|j: int|
                0 <= j < cats@.len() ==> (#[trigger] cats@[j])@ == first_seen(
                    accs@.take(i as int),
                )[j],
        decreases accs@.len() - i,
    {
        let ghost prev = first_seen(accs@.take(i as int));
        assert(accs@.take(i + 1).drop_last() =~= accs@.take(i as int));
        let c = &accs[i].category;
        let mut found = false;
        let mut k: usize = 0;
        while k < cats.len()
            invariant
                k <= cats@.len(),
                cats@.len() == prev.len(),
                forall|j: int| 0 <= j < cats@.len() ==> (#[trigger] cats@[j])@ == prev[j],
                found <==> exists|j: int| 0 <= j < k && prev[j] == c@,
            decreases cats@.len() - k,
        {
            if cats[k] == *c {
                found = true;
            }
            k = k + 1;
        }
        assert(found <==> prev.contains(c@));
        if !found {
            cats.push(c.clone());
        }
        i = i + 1;
    }
    assert(accs@.take(accs@.len() as int) =~= accs@);
    cats
}

/// The accomplishments of `accs` whose category is `c`, in order.
fn members_of(accs: &Vec<Accomplishment>, c: &String) -> (r: Vec<Accomplishment>)
    ensures
        r@ == members(accs@, c@),
{
    let mut out: Vec<Accomplishment> = Vec::new();
    let mut i: usize = 0;
    while i < accs.len()
        invariant
            i <= accs@.len(),
            out@ == members(accs@.take(i as int), c@),
        decreases accs@.len() - i,
    {
        assert(accs@.take(i + 1).drop_last() =~= accs@.take(i as int));
        if accs[i].category == *c {
            out.push(accs[i].duplicate());
        }
        i = i + 1;
    }
    assert(accs@.take(accs@.len() as int) =~= accs@);
    out
}

/// Groups accomplishments by category: categories in the order of their
/// first appearance, each group's accomplishments in their original order.
pub fn group_by_category(accs: &Vec<Accomplishment>) -> (r: Vec<CategoryGroup>)
    ensures
        is_grouping_of(r@, accs@),
{
    let cats = distinct_categories(accs);
    let mut groups: Vec<CategoryGroup> = Vec::new();
    let mut j: usize = 0;
    while j < cats.len()
        invariant
            j <= cats@.len(),
            cats@.len() == first_seen(accs@).len(),
            forall|k: int| 0 <= k < cats@.len() ==> (#[trigger] cats@[k])@ == first_seen(accs@)[k],
            groups@.len() == j,
            forall|k: int|
                0 <= k < j ==> {
                    &&& (#[trigger] groups@[k]).category@ == first_seen(accs@)[k]
                    &&& groups@[k].items@ == members(accs@, first_seen(accs@)[k])
                },
        decreases cats@.len() - j,
    {
        let items = members_of(accs, &cats[j]);
        groups.push(CategoryGroup { category: cats[j].clone(), items });
        j = j + 1;
    }
    groups
}

} // verus!
