//! Scoring of catalog entries: category and editorial queries, popularity
//! ranking, and the nine-tier free-text relevance ranking with its packed
//! weight.

use crate::app_info::{AppInfo, AppInfoV, DOWNLOADS_LIMIT};
use crate::ids::id_matches;
use crate::ids::match_id;
use crate::matcher::{byte_len, ci_find, QueryMatcher};
use vstd::prelude::*;

verus! {

/// Relevance tier contributed by one text field, from the position of the
/// first match in it: 0 when the match covers the whole field, 1 when it
/// starts the field, 2 when it lies inside it, `None` when the field does not
/// contain the query.
pub open spec fn field_tier(m: Option<(int, int)>, text_bytes: int) -> Option<int> {
    match m {
        Some(p) => Some(
            if p.0 == 0 {
                if p.1 == text_bytes {
                    0int
                } else {
                    1int
                }
            } else {
                2int
            },
        ),
        None => None,
    }
}

/// The nine-tier relevance rank of an entry for the query `q`: tiers 0 to 2
/// come from the name, 3 to 5 from the summary, 6 to 8 from the description,
/// each field offering exact, prefix and inner matches in that order. The
/// first field that contains the query decides; `None` when no field does.
pub open spec fn search_tier(
    q: Seq<char>,
    name: Seq<char>,
    summary: Seq<char>,
    description: Seq<char>,
) -> Option<int> {
    match field_tier(ci_find(q, name), byte_len(name)) {
        Some(t) => Some(t),
        None => match field_tier(ci_find(q, summary), byte_len(summary)) {
            Some(t) => Some(t + 3),
            None => match field_tier(ci_find(q, description), byte_len(description)) {
                Some(t) => Some(t + 6),
                None => None,
            },
        },
    }
}

/// The tier packed with the popularity metric: popularity breaks ties inside
/// a tier and can never cross a tier boundary while the metric stays below
/// `DOWNLOADS_LIMIT`.
pub open spec fn packed_weight(tier: int, downloads: u64) -> int {
    tier * (DOWNLOADS_LIMIT as int) - downloads
}

/// The rank weight of an entry for a free-text query, lower is better.
pub open spec fn search_score(q: Seq<char>, info: AppInfoV) -> Option<int> {
    match search_tier(q, info.name, info.summary, info.description) {
        Some(t) => Some(packed_weight(t, info.monthly_downloads)),
        None => None,
    }
}

/// One ranking request against the merged catalogs: popularity within a
/// category, position in a fixed editorial list, plain popularity, an
/// unscored page that stays empty, or a free-text query.
pub enum Query {
    Category(String),
    Editorial(Vec<String>),
    Popularity,
    Nothing,
    Text(QueryMatcher),
}

/// Mathematical image of a `Query`.
pub ghost enum QueryV {
    Category(Seq<char>),
    Editorial(Seq<Seq<char>>),
    Popularity,
    Nothing,
    Text(Seq<char>),
}

impl View for Query {
    type V = QueryV;

    open spec fn view(&self) -> QueryV {
        match self {
            Query::Category(c) => QueryV::Category(c@),
            Query::Editorial(list) => QueryV::Editorial(crate::app_info::seq_views(list@)),
            Query::Popularity => QueryV::Popularity,
            Query::Nothing => QueryV::Nothing,
            Query::Text(m) => QueryV::Text(m@),
        }
    }
}

/// Does the tag set contain the category `c`?
pub open spec fn has_category(cats: Seq<Seq<char>>, c: Seq<char>) -> bool {
    exists|i: int| 0 <= i < cats.len() && cats[i] == c
}

/// Position of the first entry of the editorial list that names the same
/// application as `id`, or `None` when none does.
pub open spec fn editorial_pos(list: Seq<Seq<char>>, id: Seq<char>) -> Option<int>
    decreases list.len(),
{
    if list.len() == 0 {
        None
    } else if id_matches(list[0], id) {
        Some(0int)
    } else {
        match editorial_pos(list.drop_first(), id) {
            Some(p) => Some(p + 1),
            None => None,
        }
    }
}

/// The rank weight a query gives one catalog entry, lower is better, `None`
/// when the entry is no hit for the query.
pub open spec fn score_of(q: QueryV, id: Seq<char>, info: AppInfoV) -> Option<int> {
    match q {
        QueryV::Category(c) => if has_category(info.categories, c) {
            Some(-(info.monthly_downloads as int))
        } else {
            None
        },
        QueryV::Editorial(list) => editorial_pos(list, id),
        QueryV::Popularity => Some(-(info.monthly_downloads as int)),
        QueryV::Nothing => None,
        QueryV::Text(qs) => search_score(qs, info),
    }
}

/// Skipping a prefix of the editorial list in which no entry matches shifts
/// the matched position by the length of that prefix.
proof fn lemma_editorial_pos_skip(list: Seq<Seq<char>>, id: Seq<char>, i: int)
    requires
        0 <= i <= list.len(),
        forall|j: int| 0 <= j < i ==> !id_matches(list[j], id),
    ensures
        editorial_pos(list, id) == match editorial_pos(list.skip(i), id) {
            Some(p) => Some(p + i),
            None => None::<int>,
        },
    decreases i,
{
    if i == 0 {
        assert(list.skip(0) =~= list);
    } else {
        lemma_editorial_pos_skip(list, id, i - 1);
        assert(list.skip(i - 1).drop_first() =~= list.skip(i));
        assert(list.skip(i - 1)[0] == list[i - 1]);
    }
}

/// The rank weight `q` gives the catalog entry `(id, info)`, or `None` when
/// the entry is no hit.
#[verifier::loop_isolation(false)]
pub fn score(q: &Query, id: &str, info: &AppInfo) -> (r: Option<i64>)
    requires
        info@.wf(),
        q matches Query::Editorial(list) ==> list@.len() < 0x8000_0000_0000_0000,
    ensures
        r matches Some(w) ==> score_of(q@, id@, info@) == Some(w as int),
        r is None ==> score_of(q@, id@, info@) is None,
{
    match q {
        Query::Category(c) => {
            let n = info.categories.len();
            let mut i: usize = 0;
            while i < n
                invariant
                    n == info.categories.len(),
                    0 <= i <= n,
                    info@.wf(),
                    forall|j: int| 0 <= j < i ==> info@.categories[j] != c@,
                decreases n - i,
            {
                if info.categories[i] == *c {
                    proof {
                        assert(info@.categories[i as int] == c@);
                    }
                    return Some(-(info.monthly_downloads as i64));
                }
                i += 1;
            }
            proof {
                assert(!has_category(info@.categories, c@));
            }
            None
        },
        Query::Editorial(list) => {
            let n = list.len();
            let mut i: usize = 0;
            while i < n
                invariant
                    n == list@.len(),
                    n < 0x8000_0000_0000_0000,
                    0 <= i <= n,
                    forall|j: int| 0 <= j < i ==> !id_matches(
                        crate::app_info::seq_views(list@)[j],
                        id@,
                    ),
                decreases n - i,
            {
                if match_id(list[i].as_str(), id) {
                    proof {
                        let views = crate::app_info::seq_views(list@);
                        lemma_editorial_pos_skip(views, id@, i as int);
                        assert(views.skip(i as int)[0] == views[i as int]);
                        assert(views[i as int] == list@[i as int]@);
                        assert(editorial_pos(views.skip(i as int), id@) == Some(0int));
                    }
                    return Some(i as i64);
                }
                i += 1;
            }
            proof {
                let views = crate::app_info::seq_views(list@);
                lemma_editorial_pos_skip(views, id@, n as int);
                assert(views.skip(n as int).len() == 0);
            }
            None
        },
        Query::Popularity => Some(-(info.monthly_downloads as i64)),
        Query::Nothing => None,
        Query::Text(m) => search_entry_score(m, info),
    }
}

/// Compile a free-text query: a matcher is owed exactly when the regex
/// engine accepts the escaped query. `None` — an input that cannot be
/// compiled — is a no-op for the caller, which keeps its previous result
/// set.
pub fn search_query(input: &str) -> (r: Option<Query>)
    ensures
        r matches Some(q) ==> q@ == QueryV::Text(input@),
        r is Some <==> crate::matcher::query_compiles(input@),
{
    match QueryMatcher::compile(input) {
        Some(m) => Some(Query::Text(m)),
        None => None,
    }
}

/// The first field of an entry that contains the query decides its tier: a
/// name match puts the entry in tiers 0 to 2 whatever the other fields hold,
/// a summary match in tiers 3 to 5 when the name has none, a description
/// match in tiers 6 to 8 when neither name nor summary has one, so a result
/// is always ranked by its best (lowest-tier) match.
pub proof fn lemma_tier_of_first_match(
    q: Seq<char>,
    name: Seq<char>,
    summary: Seq<char>,
    description: Seq<char>,
)
    ensures
        ci_find(q, name) is Some ==> search_tier(q, name, summary, description) == field_tier(
            ci_find(q, name),
            byte_len(name),
        ),
        ci_find(q, name) is Some ==> {
            let t = search_tier(q, name, summary, description)->Some_0;
            0 <= t <= 2
        },
        ci_find(q, name) is None && ci_find(q, summary) is Some ==> {
            let t = search_tier(q, name, summary, description)->Some_0;
            &&& search_tier(q, name, summary, description) == Some(
                field_tier(ci_find(q, summary), byte_len(summary))->Some_0 + 3,
            )
            &&& 3 <= t <= 5
        },
        ci_find(q, name) is None && ci_find(q, summary) is None && ci_find(q, description)
            is Some ==> {
            let t = search_tier(q, name, summary, description)->Some_0;
            &&& search_tier(q, name, summary, description) == Some(
                field_tier(ci_find(q, description), byte_len(description))->Some_0 + 6,
            )
            &&& 6 <= t <= 8
        },
        ci_find(q, name) is None && ci_find(q, summary) is None && ci_find(q, description)
            is None ==> search_tier(q, name, summary, description) is None,
{
}

/// Packed-weight ordering never lets a result of a lower (better) tier rank
/// after a result of a higher tier, however popular the latter is, for any
/// popularity metric below `DOWNLOADS_LIMIT`.
pub proof fn lemma_packed_weight_respects_tiers(t1: int, t2: int, d1: u64, d2: u64)
    requires
        0 <= t1 < t2,
        d1 < DOWNLOADS_LIMIT,
        d2 < DOWNLOADS_LIMIT,
    ensures
        packed_weight(t1, d1) < packed_weight(t2, d2),
{
    assert((t2 - t1) * (DOWNLOADS_LIMIT as int) >= 1 * (DOWNLOADS_LIMIT as int)) by (nonlinear_arith)
        requires
            t2 - t1 >= 1,
    ;
}

/// Relevance tier of one field of an entry, computed from the compiled
/// matcher's first match in it.
fn field_tier_exec(m: &QueryMatcher, text: &str) -> (r: Option<u8>)
    ensures
        r matches Some(t) ==> field_tier(ci_find(m@, text@), byte_len(text@)) == Some(t as int),
        r is None ==> field_tier(ci_find(m@, text@), byte_len(text@)) is None,
{
    match m.find(text) {
        Some((start, end)) => {
            if start == 0 {
                if end == text.as_bytes().len() {
                    Some(0)
                } else {
                    Some(1)
                }
            } else {
                Some(2)
            }
        },
        None => None,
    }
}

/// The packed rank weight of one entry for a free-text query, or `None` when
/// neither name nor summary nor description contains the query.
pub fn search_entry_score(m: &QueryMatcher, info: &AppInfo) -> (r: Option<i64>)
    requires
        info@.wf(),
    ensures
        r matches Some(w) ==> search_score(m@, info@) == Some(w as int),
        r is None ==> search_score(m@, info@) is None,
{
    let tier: u8 = match field_tier_exec(m, info.name.as_str()) {
        Some(t) => t,
        None => match field_tier_exec(m, info.summary.as_str()) {
            Some(t) => t + 3,
            None => match field_tier_exec(m, info.description.as_str()) {
                Some(t) => t + 6,
                None => {
                    return None;
                },
            },
        },
    };
    Some((tier as i64) * (DOWNLOADS_LIMIT as i64) - (info.monthly_downloads as i64))
}

} // verus!
