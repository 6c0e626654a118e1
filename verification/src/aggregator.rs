//! The single scan primitive of the store: run a query over every catalog of
//! every backend, keep the hits, and merge them into one ranked result
//! sequence ordered by (weight, natural name order, natural backend order).

use crate::app_info::{AppInfo, AppInfoV};
use crate::natural::{natural_cmp, natural_compare};
use crate::search::{score, score_of, Query, QueryV};
use vstd::prelude::*;
use vstd::seq_lib::*;

verus! {

/// One ranked hit of a query: the backend that offers the application, the
/// application identifier within that backend's catalog, a snapshot of its
/// metadata, and the rank weight (lower sorts first).
pub struct SearchResult {
    pub backend_name: String,
    pub id: String,
    pub info: AppInfo,
    pub weight: i64,
}

/// Mathematical image of a `SearchResult`.
pub ghost struct SearchResultV {
    pub backend_name: Seq<char>,
    pub id: Seq<char>,
    pub info: AppInfoV,
    pub weight: int,
}

impl View for SearchResult {
    type V = SearchResultV;

    open spec fn view(&self) -> SearchResultV {
        SearchResultV {
            backend_name: self.backend_name@,
            id: self.id@,
            info: self.info@,
            weight: self.weight as int,
        }
    }
}

/// The views of a sequence of results.
pub open spec fn result_views(s: Seq<SearchResult>) -> Seq<SearchResultV> {
    s.map_values(|x: SearchResult| x@)
}

/// Does `a` rank strictly after `b`? Results are ordered by ascending
/// weight, ties broken by the natural order of the application names, then by
/// the natural order of the backend names.
pub open spec fn rank_gt(a: SearchResultV, b: SearchResultV) -> bool {
    ||| a.weight > b.weight
    ||| (a.weight == b.weight && natural_cmp(a.info.name, b.info.name) > 0)
    ||| (a.weight == b.weight && natural_cmp(a.info.name, b.info.name) == 0 && natural_cmp(
        a.backend_name,
        b.backend_name,
    ) > 0)
}

/// A result sequence is ranked when no element ranks strictly after its
/// successor: it is sorted by (weight, natural name, natural backend) in
/// non-decreasing order.
pub open spec fn ranked(s: Seq<SearchResultV>) -> bool {
    forall|i: int| 0 <= i < s.len() - 1 ==> !rank_gt(#[trigger] s[i], s[i + 1])
}

/// Does `a` rank strictly after `b`? Beside the answer, the comparison also
/// shows that the order is asymmetric for this pair.
fn ranks_after(a: &SearchResult, b: &SearchResult) -> (r: bool)
    ensures
        r == rank_gt(a@, b@),
        rank_gt(a@, b@) ==> !rank_gt(b@, a@),
{
    if a.weight > b.weight {
        true
    } else if a.weight < b.weight {
        false
    } else {
        let names = natural_compare(a.info.name.as_str(), b.info.name.as_str());
        if names > 0 {
            true
        } else if names < 0 {
            false
        } else {
            let backends = natural_compare(a.backend_name.as_str(), b.backend_name.as_str());
            backends > 0
        }
    }
}

/// One application catalog of one backend: an index from application
/// identifier (unique within the catalog) to its metadata, together with the
/// name of the backend that owns it.
pub struct Catalog {
    pub backend_name: String,
    pub entries: Vec<(String, AppInfo)>,
}

/// Mathematical image of a `Catalog`.
pub ghost struct CatalogV {
    pub backend_name: Seq<char>,
    pub entries: Seq<(Seq<char>, AppInfoV)>,
}

impl View for Catalog {
    type V = CatalogV;

    open spec fn view(&self) -> CatalogV {
        CatalogV {
            backend_name: self.backend_name@,
            entries: self.entries@.map_values(|e: (String, AppInfo)| (e.0@, e.1@)),
        }
    }
}

impl CatalogV {
    /// Every entry of the catalog keeps its popularity metric below the
    /// packing headroom.
    pub open spec fn wf(self) -> bool {
        forall|i: int| 0 <= i < self.entries.len() ==> (#[trigger] self.entries[i]).1.wf()
    }
}

/// The views of a sequence of catalogs.
pub open spec fn catalog_views(s: Seq<Catalog>) -> Seq<CatalogV> {
    s.map_values(|c: Catalog| c@)
}

/// The hit one catalog entry contributes to a query, if any.
pub open spec fn entry_hit(
    backend: Seq<char>,
    id: Seq<char>,
    info: AppInfoV,
    q: QueryV,
) -> Option<SearchResultV> {
    match score_of(q, id, info) {
        Some(w) => Some(SearchResultV { backend_name: backend, id: id, info: info, weight: w }),
        None => None,
    }
}

/// The hits of one catalog for a query, in catalog order.
pub open spec fn entries_hits(
    backend: Seq<char>,
    entries: Seq<(Seq<char>, AppInfoV)>,
    q: QueryV,
) -> Seq<SearchResultV>
    decreases entries.len(),
{
    if entries.len() == 0 {
        Seq::empty()
    } else {
        entries_hits(backend, entries.drop_last(), q) + match entry_hit(
            backend,
            entries.last().0,
            entries.last().1,
            q,
        ) {
            Some(r) => seq![r],
            None => Seq::empty(),
        }
    }
}

/// The hits of a sequence of catalogs for a query, catalog by catalog.
pub open spec fn catalogs_hits(cats: Seq<CatalogV>, q: QueryV) -> Seq<SearchResultV>
    decreases cats.len(),
{
    if cats.len() == 0 {
        Seq::empty()
    } else {
        catalogs_hits(cats.drop_last(), q) + entries_hits(
            cats.last().backend_name,
            cats.last().entries,
            q,
        )
    }
}

/// Visit every catalog of every backend, keep the entries the query scores,
/// and merge them into one sequence ranked by (weight, natural name, natural
/// backend): exactly the hits of the catalogs, in ranked order.
#[verifier::loop_isolation(false)]
pub fn scan(catalogs: &Vec<Catalog>, q: &Query) -> (r: Vec<SearchResult>)
    requires
        forall|i: int| 0 <= i < catalogs@.len() ==> (#[trigger] catalogs@[i])@.wf(),
        q matches Query::Editorial(list) ==> list@.len() < 0x8000_0000_0000_0000,
    ensures
        ranked(result_views(r@)),
        result_views(r@).to_multiset() == catalogs_hits(catalog_views(catalogs@), q@).to_multiset(),
{
    let mut results: Vec<SearchResult> = Vec::new();
    let catalog_count = catalogs.len();
    let mut k: usize = 0;
    while k < catalog_count
        invariant
            0 <= k <= catalog_count,
            result_views(results@) == catalogs_hits(catalog_views(catalogs@).take(k as int), q@),
        decreases catalog_count - k,
    {
        let catalog = &catalogs[k];
        let entry_count = catalog.entries.len();
        let mut i: usize = 0;
        while i < entry_count
            invariant
                0 <= i <= entry_count,
                entry_count == catalog.entries.len(),
                result_views(results@) == catalogs_hits(
                    catalog_views(catalogs@).take(k as int),
                    q@,
                ) + entries_hits(catalog@.backend_name, catalog@.entries.take(i as int), q@),
            decreases entry_count - i,
        {
            let entry = &catalog.entries[i];
            let ghost pre = result_views(results@);
            match score(q, entry.0.as_str(), &entry.1) {
                Some(w) => {
                    results.push(
                        SearchResult {
                            backend_name: catalog.backend_name.clone(),
                            id: entry.0.clone(),
                            info: entry.1.clone(),
                            weight: w,
                        },
                    );
                    proof {
                        assert(result_views(results@) =~= pre + seq![
                            SearchResultV {
                                backend_name: catalog@.backend_name,
                                id: catalog@.entries[i as int].0,
                                info: catalog@.entries[i as int].1,
                                weight: w as int,
                            },
                        ]);
                    }
                },
                None => {},
            }
            proof {
                assert(catalog@.entries.take(i + 1).drop_last() =~= catalog@.entries.take(i as int));
                assert(catalog@.entries.take(i + 1).last() == catalog@.entries[i as int]);
                assert(result_views(results@) =~= catalogs_hits(
                    catalog_views(catalogs@).take(k as int),
                    q@,
                ) + entries_hits(catalog@.backend_name, catalog@.entries.take(i + 1), q@));
            }
            i += 1;
        }
        proof {
            assert(catalog_views(catalogs@).take(k + 1).drop_last() =~= catalog_views(
                catalogs@,
            ).take(k as int));
            assert(catalog_views(catalogs@).take(k + 1).last() == catalog@);
            assert(catalog@.entries.take(i as int) =~= catalog@.entries);
        }
        k += 1;
    }
    proof {
        assert(catalog_views(catalogs@).take(catalog_count as int) =~= catalog_views(catalogs@));
    }
    sort_results(&mut results);
    results
}

/// Position at which the element at `i` is to be inserted so that the first
/// `i + 1` elements become ranked: the scan walks left over every element
/// that ranks after the one at `i`.
#[verifier::loop_isolation(false)]
fn insertion_point(v: &Vec<SearchResult>, i: usize) -> (p: usize)
    requires
        i < v.len(),
    ensures
        p <= i,
        p > 0 ==> !rank_gt(result_views(v@)[p - 1], result_views(v@)[i as int]),
        forall|k: int| p <= k < i ==> rank_gt(
            #[trigger] result_views(v@)[k],
            result_views(v@)[i as int],
        ) && !rank_gt(result_views(v@)[i as int], result_views(v@)[k]),
{
    let mut p: usize = i;
    while p > 0 && ranks_after(&v[p - 1], &v[i])
        invariant
            0 <= p <= i,
            forall|k: int| p <= k < i ==> rank_gt(
                #[trigger] result_views(v@)[k],
                result_views(v@)[i as int],
            ) && !rank_gt(result_views(v@)[i as int], result_views(v@)[k]),
        decreases p,
    {
        p -= 1;
    }
    p
}

/// Sort the hits of one query by (weight, natural name, natural backend),
/// keeping exactly the same collection of results.
#[verifier::loop_isolation(false)]
fn sort_results(v: &mut Vec<SearchResult>)
    ensures
        ranked(result_views(final(v)@)),
        result_views(final(v)@).to_multiset() == result_views(old(v)@).to_multiset(),
{
    broadcast use to_multiset_remove, to_multiset_insert, to_multiset_contains;

    let n = v.len();
    if n <= 1 {
        return ;
    }
    let mut i: usize = 1;
    while i < n
        invariant
            n == v.len(),
            1 <= i <= n,
            ranked(result_views(v@).take(i as int)),
            result_views(v@).to_multiset() == result_views(old(v)@).to_multiset(),
        decreases n - i,
    {
        let p: usize = insertion_point(v, i);
        let ghost ov = result_views(v@);
        let x = v.remove(i);
        v.insert(p, x);
        proof {
            let nv = result_views(v@);
            assert(nv =~= ov.remove(i as int).insert(p as int, ov[i as int]));
            assert(ov.contains(ov[i as int]));
            assert(nv.to_multiset() =~= ov.to_multiset());
            assert forall|k: int| 0 <= k < i implies !rank_gt(#[trigger] nv[k], nv[k + 1]) by {
                if k + 1 < p {
                    assert(nv[k] == ov[k]);
                    assert(nv[k + 1] == ov[k + 1]);
                    assert(!rank_gt(ov.take(i as int)[k], ov.take(i as int)[k + 1]));
                } else if k + 1 == p {
                    assert(nv[k] == ov[k]);
                    assert(nv[k + 1] == ov[i as int]);
                } else if k == p {
                    assert(nv[k] == ov[i as int]);
                    assert(nv[k + 1] == ov[k]);
                } else {
                    assert(nv[k] == ov[k - 1]);
                    assert(nv[k + 1] == ov[k]);
                    assert(!rank_gt(ov.take(i as int)[k - 1], ov.take(i as int)[k]));
                }
            }
            assert(ranked(nv.take(i + 1)));
        }
        i += 1;
    }
    proof {
        assert(result_views(v@).take(n as int) =~= result_views(v@));
    }
}

} // verus!
