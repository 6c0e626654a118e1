//! Concrete installed-or-available package instances, and the ordering of
//! the installed and updates listings: the system entry first, then natural
//! name order.

use crate::app_info::{AppInfo, AppInfoV};
use crate::ids::{id_matches, match_id};
use crate::natural::{natural_cmp, natural_compare};
use vstd::prelude::*;
use vstd::seq_lib::*;
use vstd::string::StringExecFns;

verus! {

/// The reserved identifier of the entry that stands for the base system.
pub open spec fn is_system_id(id: Seq<char>) -> bool {
    id == "__SYSTEM__"@
}

/// Does `id` name the reserved base-system entry?
pub fn system_id(id: &String) -> (r: bool)
    ensures
        r == is_system_id(id@),
{
    *id == String::from_str("__SYSTEM__")
}

/// One installed or available instance of an application: the backend that
/// owns it, its backend-specific package identifier, its version, and a
/// shared snapshot of its metadata. Produced fresh by each enumeration.
pub struct Package {
    pub backend_name: String,
    pub id: String,
    pub version: String,
    pub info: AppInfo,
}

/// Mathematical image of a `Package`.
pub ghost struct PackageV {
    pub backend_name: Seq<char>,
    pub id: Seq<char>,
    pub version: Seq<char>,
    pub info: AppInfoV,
}

impl View for Package {
    type V = PackageV;

    open spec fn view(&self) -> PackageV {
        PackageV {
            backend_name: self.backend_name@,
            id: self.id@,
            version: self.version@,
            info: self.info@,
        }
    }
}

impl Clone for Package {
    fn clone(&self) -> (r: Self)
        ensures
            r@ == self@,
    {
        Package {
            backend_name: self.backend_name.clone(),
            id: self.id.clone(),
            version: self.version.clone(),
            info: self.info.clone(),
        }
    }
}

/// The views of a sequence of packages.
pub open spec fn package_views(s: Seq<Package>) -> Seq<PackageV> {
    s.map_values(|p: Package| p@)
}

/// Does `a` list strictly after `b` in the installed and updates listings?
/// The base-system entry lists first; all other packages follow in the
/// natural order of their application names.
pub open spec fn pkg_gt(a: PackageV, b: PackageV) -> bool {
    if is_system_id(a.id) {
        false
    } else if is_system_id(b.id) {
        true
    } else {
        natural_cmp(a.info.name, b.info.name) > 0
    }
}

/// A package sequence is listed when no element lists strictly after its
/// successor.
pub open spec fn listed(s: Seq<PackageV>) -> bool {
    forall|i: int| 0 <= i < s.len() - 1 ==> !pkg_gt(#[trigger] s[i], s[i + 1])
}

/// Does `a` list strictly after `b`? Beside the answer, the comparison also
/// shows that the order is asymmetric for this pair.
fn pkg_ranks_after(a: &Package, b: &Package) -> (r: bool)
    ensures
        r == pkg_gt(a@, b@),
        pkg_gt(a@, b@) ==> !pkg_gt(b@, a@),
{
    if system_id(&a.id) {
        false
    } else if system_id(&b.id) {
        true
    } else {
        natural_compare(a.info.name.as_str(), b.info.name.as_str()) > 0
    }
}

/// Position at which the element at `i` is to be inserted so that the first
/// `i + 1` elements become listed.
#[verifier::loop_isolation(false)]
fn pkg_insertion_point(v: &Vec<Package>, i: usize) -> (p: usize)
    requires
        i < v.len(),
    ensures
        p <= i,
        p > 0 ==> !pkg_gt(package_views(v@)[p - 1], package_views(v@)[i as int]),
        forall|k: int| p <= k < i ==> pkg_gt(
            #[trigger] package_views(v@)[k],
            package_views(v@)[i as int],
        ) && !pkg_gt(package_views(v@)[i as int], package_views(v@)[k]),
{
    let mut p: usize = i;
    while p > 0 && pkg_ranks_after(&v[p - 1], &v[i])
        invariant
            0 <= p <= i,
            forall|k: int| p <= k < i ==> pkg_gt(
                #[trigger] package_views(v@)[k],
                package_views(v@)[i as int],
            ) && !pkg_gt(package_views(v@)[i as int], package_views(v@)[k]),
        decreases p,
    {
        p -= 1;
    }
    p
}

/// Sort an enumeration of packages for display: the base-system entry first,
/// then natural name order, keeping exactly the same collection of packages.
#[verifier::loop_isolation(false)]
pub fn sort_packages(v: &mut Vec<Package>)
    ensures
        listed(package_views(final(v)@)),
        package_views(final(v)@).to_multiset() == package_views(old(v)@).to_multiset(),
{
    broadcast use to_multiset_remove, to_multiset_insert, to_multiset_contains;

    let n = v.len();
    if n <= 1 {
        return ;
    }
    let mut i: usize = 1;
    while i < n
        invariant
            n == v.len(),
            1 <= i <= n,
            listed(package_views(v@).take(i as int)),
            package_views(v@).to_multiset() == package_views(old(v)@).to_multiset(),
        decreases n - i,
    {
        let p: usize = pkg_insertion_point(v, i);
        let ghost ov = package_views(v@);
        let x = v.remove(i);
        v.insert(p, x);
        proof {
            let nv = package_views(v@);
            assert(nv =~= ov.remove(i as int).insert(p as int, ov[i as int]));
            assert(ov.contains(ov[i as int]));
            assert(nv.to_multiset() =~= ov.to_multiset());
            assert forall|k: int| 0 <= k < i implies !pkg_gt(#[trigger] nv[k], nv[k + 1]) by {
                if k + 1 < p {
                    assert(nv[k] == ov[k]);
                    assert(nv[k + 1] == ov[k + 1]);
                    assert(!pkg_gt(ov.take(i as int)[k], ov.take(i as int)[k + 1]));
                } else if k + 1 == p {
                    assert(nv[k] == ov[k]);
                    assert(nv[k + 1] == ov[i as int]);
                } else if k == p {
                    assert(nv[k] == ov[i as int]);
                    assert(nv[k + 1] == ov[k]);
                } else {
                    assert(nv[k] == ov[k - 1]);
                    assert(nv[k + 1] == ov[k]);
                    assert(!pkg_gt(ov.take(i as int)[k - 1], ov.take(i as int)[k]));
                }
            }
            assert(listed(nv.take(i + 1)));
        }
        i += 1;
    }
    proof {
        assert(package_views(v@).take(n as int) =~= package_views(v@));
    }
}

/// The packages the per-backend enumerations contributed, in backend order:
/// a backend whose enumeration succeeded contributes its packages in order,
/// one whose enumeration failed contributes nothing.
pub open spec fn contributed(results: Seq<Option<Vec<Package>>>) -> Seq<Package>
    decreases results.len(),
{
    if results.len() == 0 {
        Seq::empty()
    } else {
        contributed(results.drop_last()) + match results.last() {
            Some(v) => v@,
            None => Seq::empty(),
        }
    }
}

/// Merge the outcomes of the per-backend enumerations into one display
/// listing: a backend whose enumeration failed contributes nothing and never
/// blocks the others, and the merged packages are ordered for display.
#[verifier::loop_isolation(false)]
pub fn merge_enumerations(results: Vec<Option<Vec<Package>>>) -> (r: Vec<Package>)
    ensures
        listed(package_views(r@)),
        package_views(r@).to_multiset() == package_views(contributed(results@)).to_multiset(),
{
    let mut merged: Vec<Package> = Vec::new();
    let mut rest = results;
    let ghost all = rest@;
    let count = rest.len();
    let mut k: usize = 0;
    while k < count
        invariant
            k <= count,
            count == all.len(),
            rest@ == all.skip(k as int),
            merged@ == contributed(all.take(k as int)),
        decreases count - k,
    {
        let opt = rest.remove(0);
        proof {
            assert(opt == all[k as int]);
            assert(rest@ =~= all.skip(k + 1));
        }
        match opt {
            Some(mut v) => {
                merged.append(&mut v);
            },
            None => {},
        }
        proof {
            assert(all.take(k + 1).drop_last() =~= all.take(k as int));
            assert(all.take(k + 1).last() == all[k as int]);
        }
        k += 1;
    }
    proof {
        assert(all.take(count as int) =~= all);
    }
    sort_packages(&mut merged);
    merged
}

/// Does the package carry the given backend name and metadata source, and a
/// package identifier that names the same application as `id`?
pub open spec fn pkg_key_matches(
    p: PackageV,
    backend: Seq<char>,
    source: Seq<char>,
    id: Seq<char>,
) -> bool {
    p.backend_name == backend && p.info.source_id == source && id_matches(p.id, id)
}

/// The first package of the list that carries the given backend name and
/// metadata source and whose identifier names the same application as `id`.
#[verifier::loop_isolation(false)]
pub fn find_package(
    list: &Vec<Package>,
    backend: &String,
    source: &String,
    id: &String,
) -> (r: Option<usize>)
    ensures
        r matches Some(i) ==> i < list@.len() && pkg_key_matches(
            package_views(list@)[i as int],
            backend@,
            source@,
            id@,
        ) && forall|j: int| 0 <= j < i ==> !pkg_key_matches(
            #[trigger] package_views(list@)[j],
            backend@,
            source@,
            id@,
        ),
        r is None ==> forall|j: int| 0 <= j < list@.len() ==> !pkg_key_matches(
            #[trigger] package_views(list@)[j],
            backend@,
            source@,
            id@,
        ),
{
    let n = list.len();
    let mut i: usize = 0;
    while i < n
        invariant
            0 <= i <= n,
            forall|j: int| 0 <= j < i ==> !pkg_key_matches(
                #[trigger] package_views(list@)[j],
                backend@,
                source@,
                id@,
            ),
        decreases n - i,
    {
        let p = &list[i];
        if p.backend_name == *backend && p.info.source_id == *source && match_id(
            p.id.as_str(),
            id.as_str(),
        ) {
            return Some(i);
        }
        i += 1;
    }
    None
}

} // verus!
