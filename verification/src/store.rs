//! The control state of the store and its reaction to inbound events: result
//! sets for the open pages, the live-search state with stale-result
//! detection, and the bridge from user requests to the orchestrator.

use crate::aggregator::SearchResult;
use crate::app_info::AppInfo;
use crate::orchestrator::{
    pending_views, Operation, OperationKind, OperationV, Orchestrator, PendingEntry, PendingEntryV,
};
use crate::package::{package_views, Package, PackageV};
use crate::pages::{Category, ExplorePage, NavPage};
use vstd::prelude::*;

verus! {

/// The store's control state. The backend catalogs themselves are shared
/// read-only data owned by the caller; the store keeps what the events of
/// one session mutate.
pub struct Store {
    /// Identifier allocation and the operation tables.
    pub orchestrator: Orchestrator,
    /// Is the search field open?
    pub search_active: bool,
    /// The query string currently in the search field.
    pub search_input: String,
    /// The last installed enumeration, once one arrived.
    pub installed: Option<Vec<Package>>,
    /// The last updates enumeration, once one arrived.
    pub updates: Option<Vec<Package>>,
    /// The result set of the open category page, with its category.
    pub category_results: Option<(Category, Vec<SearchResult>)>,
    /// The result set of the editors' choice section.
    pub editors_choice_results: Option<Vec<SearchResult>>,
    /// The result set of the popular-apps section.
    pub popular_results: Option<Vec<SearchResult>>,
    /// The result set of the new-apps section.
    pub new_results: Option<Vec<SearchResult>>,
    /// The result set of the recently-updated section.
    pub recently_updated_results: Option<Vec<SearchResult>>,
    /// The current search result set, with the query string it answers.
    pub search_results: Option<(String, Vec<SearchResult>)>,
}

impl Store {
    /// The explore result slot of one section.
    pub open spec fn explore_slot(self, page: ExplorePage) -> Option<Vec<SearchResult>> {
        match page {
            ExplorePage::EditorsChoice => self.editors_choice_results,
            ExplorePage::PopularApps => self.popular_results,
            ExplorePage::NewApps => self.new_results,
            ExplorePage::RecentlyUpdated => self.recently_updated_results,
        }
    }

    /// A fresh store: no results, search closed, orchestrator empty.
    pub fn new() -> (r: Store)
        ensures
            r.orchestrator.wf(),
            r.orchestrator.next_id == 0,
            r.orchestrator.pending@.len() == 0,
            r.orchestrator.failed@.len() == 0,
            r.orchestrator.waiting_installed@.len() == 0,
            r.orchestrator.waiting_updates@.len() == 0,
            r.orchestrator.dialogs@.len() == 0,
            !r.search_active,
            r.search_input@.len() == 0,
            r.installed is None,
            r.updates is None,
            r.category_results is None,
            r.editors_choice_results is None,
            r.popular_results is None,
            r.new_results is None,
            r.recently_updated_results is None,
            r.search_results is None,
    {
        Store {
            orchestrator: Orchestrator::new(),
            search_active: false,
            search_input: String::new(),
            installed: None,
            updates: None,
            category_results: None,
            editors_choice_results: None,
            popular_results: None,
            new_results: None,
            recently_updated_results: None,
            search_results: None,
        }
    }

    /// Open the search field.
    pub fn on_search_activate(&mut self)
        ensures
            *final(self) == (Store { search_active: true, ..*old(self) }),
    {
        self.search_active = true;
    }

    /// Close the search field and drop the query and its results.
    pub fn on_search_clear(&mut self)
        ensures
            final(self).search_active == false,
            final(self).search_input@.len() == 0,
            final(self).search_results is None,
            final(self).orchestrator == old(self).orchestrator,
            final(self).installed == old(self).installed,
            final(self).updates == old(self).updates,
            final(self).category_results == old(self).category_results,
            final(self).editors_choice_results == old(self).editors_choice_results,
            final(self).popular_results == old(self).popular_results,
            final(self).new_results == old(self).new_results,
            final(self).recently_updated_results == old(self).recently_updated_results,
    {
        self.search_active = false;
        self.search_input = String::new();
        self.search_results = None;
    }

    /// Close the open search, keeping the query string, as the escape key
    /// does; when no search is open nothing changes.
    pub fn on_escape(&mut self)
        ensures
            old(self).search_active ==> *final(self) == (Store {
                search_active: false,
                search_results: None,
                ..*old(self)
            }),
            !old(self).search_active ==> *final(self) == *old(self),
    {
        if self.search_active {
            self.search_active = false;
            self.search_results = None;
        }
    }

    /// Take a new value of the search field. A changed non-empty query asks
    /// the caller to run a live search; an unchanged or emptied query runs
    /// none.
    pub fn on_search_input(&mut self, input: String) -> (run: bool)
        ensures
            old(self).search_input@ == input@ ==> *final(self) == *old(self) && !run,
            old(self).search_input@ != input@ ==> *final(self) == (Store {
                search_input: input,
                ..*old(self)
            }) && run == (input@.len() > 0),
    {
        if input == self.search_input {
            false
        } else {
            let run = !input.as_str().is_empty();
            self.search_input = input;
            run
        }
    }

    /// A submitted search runs whenever the query string is non-empty.
    pub fn on_search_submit(&self) -> (run: bool)
        ensures
            run == (self.search_input@.len() > 0),
    {
        !self.search_input.as_str().is_empty()
    }

    /// Take a finished search result set. The set is kept only when it
    /// echoes the query string still in the search field; a stale set —
    /// answering a query the user has since changed — is discarded.
    pub fn on_search_results(&mut self, input: String, results: Vec<SearchResult>) -> (accepted:
        bool)
        ensures
            accepted == (input@ == old(self).search_input@),
            accepted ==> *final(self) == (Store {
                search_results: Some((input, results)),
                ..*old(self)
            }),
            !accepted ==> *final(self) == *old(self),
    {
        if input == self.search_input {
            self.search_results = Some((input, results));
            true
        } else {
            false
        }
    }

    /// Take a finished category result set.
    pub fn on_category_results(&mut self, category: Category, results: Vec<SearchResult>)
        ensures
            *final(self) == (Store { category_results: Some((category, results)), ..*old(self) }),
    {
        self.category_results = Some((category, results));
    }

    /// Take a finished explore result set for one section.
    pub fn on_explore_results(&mut self, page: ExplorePage, results: Vec<SearchResult>)
        ensures
            final(self).explore_slot(page) == Some(results),
            forall|p: ExplorePage| p != page ==> final(self).explore_slot(p) == old(
                self,
            ).explore_slot(p),
            final(self).orchestrator == old(self).orchestrator,
            final(self).search_active == old(self).search_active,
            final(self).search_input == old(self).search_input,
            final(self).installed == old(self).installed,
            final(self).updates == old(self).updates,
            final(self).category_results == old(self).category_results,
            final(self).search_results == old(self).search_results,
    {
        match page {
            ExplorePage::EditorsChoice => {
                self.editors_choice_results = Some(results);
            },
            ExplorePage::PopularApps => {
                self.popular_results = Some(results);
            },
            ExplorePage::NewApps => {
                self.new_results = Some(results);
            },
            ExplorePage::RecentlyUpdated => {
                self.recently_updated_results = Some(results);
            },
        }
    }

    /// Take a fresh installed enumeration: it replaces the previous listing
    /// and clears the installed awaiting-refresh list.
    pub fn on_installed(&mut self, installed: Vec<Package>)
        requires
            old(self).orchestrator.wf(),
        ensures
            final(self).orchestrator.wf(),
            final(self).installed == Some(installed),
            final(self).orchestrator.waiting_installed@.len() == 0,
            final(self).orchestrator.pending == old(self).orchestrator.pending,
            final(self).orchestrator.failed == old(self).orchestrator.failed,
            final(self).orchestrator.dialogs == old(self).orchestrator.dialogs,
            final(self).orchestrator.next_id == old(self).orchestrator.next_id,
            final(self).orchestrator.waiting_updates == old(self).orchestrator.waiting_updates,
            final(self).updates == old(self).updates,
            final(self).search_active == old(self).search_active,
            final(self).search_input == old(self).search_input,
            final(self).category_results == old(self).category_results,
            final(self).search_results == old(self).search_results,
    {
        self.installed = Some(installed);
        self.orchestrator.installed_refreshed();
    }

    /// Take a fresh updates enumeration: it replaces the previous listing
    /// and clears the updates awaiting-refresh list.
    pub fn on_updates(&mut self, updates: Vec<Package>)
        requires
            old(self).orchestrator.wf(),
        ensures
            final(self).orchestrator.wf(),
            final(self).updates == Some(updates),
            final(self).orchestrator.waiting_updates@.len() == 0,
            final(self).orchestrator.pending == old(self).orchestrator.pending,
            final(self).orchestrator.failed == old(self).orchestrator.failed,
            final(self).orchestrator.dialogs == old(self).orchestrator.dialogs,
            final(self).orchestrator.next_id == old(self).orchestrator.next_id,
            final(self).orchestrator.waiting_installed == old(
                self,
            ).orchestrator.waiting_installed,
            final(self).installed == old(self).installed,
            final(self).search_active == old(self).search_active,
            final(self).search_input == old(self).search_input,
            final(self).category_results == old(self).category_results,
            final(self).search_results == old(self).search_results,
    {
        self.updates = Some(updates);
        self.orchestrator.updates_refreshed();
    }

    /// Move to a navigation page: the open category, search and selection
    /// state is dropped, and the category the page browses, if any, is
    /// returned for the caller to scan.
    pub fn on_nav_select(&mut self, page: NavPage) -> (r: Option<Category>)
        ensures
            r == page.category_view(),
            *final(self) == (Store {
                category_results: None,
                search_active: false,
                search_results: None,
                ..*old(self)
            }),
    {
        self.category_results = None;
        self.search_active = false;
        self.search_results = None;
        page.category()
    }

    /// Request an action on a package: the operation enters the pending
    /// table under a fresh identifier with progress zero. Duplicate requests
    /// on the same package each get their own entry.
    pub fn request_operation(
        &mut self,
        kind: OperationKind,
        backend_name: String,
        package_id: String,
        info: AppInfo,
    ) -> (id: u64)
        requires
            old(self).orchestrator.wf(),
            old(self).orchestrator.next_id < u64::MAX,
        ensures
            final(self).orchestrator.wf(),
            id == old(self).orchestrator.next_id,
            final(self).orchestrator.next_id == old(self).orchestrator.next_id + 1,
            final(self).orchestrator.pending@ == old(self).orchestrator.pending@.push(
                PendingEntry {
                    id,
                    operation: Operation { kind, backend_name, package_id, info },
                    progress: 0,
                },
            ),
            final(self).orchestrator.failed == old(self).orchestrator.failed,
            final(self).orchestrator.waiting_installed == old(
                self,
            ).orchestrator.waiting_installed,
            final(self).orchestrator.waiting_updates == old(self).orchestrator.waiting_updates,
            final(self).orchestrator.dialogs == old(self).orchestrator.dialogs,
            final(self).search_active == old(self).search_active,
            final(self).search_input == old(self).search_input,
            final(self).installed == old(self).installed,
            final(self).updates == old(self).updates,
            final(self).category_results == old(self).category_results,
            final(self).search_results == old(self).search_results,
    {
        self.orchestrator.request(Operation { kind, backend_name, package_id, info })
    }

    /// The pending entries that requesting an update for each listed
    /// package appends: one per package, under consecutive identifiers.
    pub open spec fn update_entries(pkgs: Seq<PackageV>, first_id: u64) -> Seq<PendingEntryV> {
        Seq::new(
            pkgs.len(),
            |i: int|
                PendingEntryV {
                    id: (first_id + i) as u64,
                    operation: OperationV {
                        kind: OperationKind::Update,
                        backend_name: pkgs[i].backend_name,
                        package_id: pkgs[i].id,
                        info: pkgs[i].info,
                    },
                    progress: 0,
                },
        )
    }

    /// Request an update for every package of the updates listing, in
    /// listing order; without a listing nothing happens.
    #[verifier::loop_isolation(false)]
    pub fn update_all(&mut self)
        requires
            old(self).orchestrator.wf(),
            old(self).updates matches Some(u) ==> old(self).orchestrator.next_id + u@.len()
                <= u64::MAX,
        ensures
            final(self).orchestrator.wf(),
            old(self).updates matches Some(u) ==> {
                &&& pending_views(final(self).orchestrator.pending@) == pending_views(
                    old(self).orchestrator.pending@,
                ) + Self::update_entries(package_views(u@), old(self).orchestrator.next_id)
                &&& final(self).orchestrator.next_id == old(self).orchestrator.next_id + u@.len()
            },
            old(self).updates is None ==> *final(self) == *old(self),
            final(self).orchestrator.failed == old(self).orchestrator.failed,
            final(self).orchestrator.waiting_installed == old(
                self,
            ).orchestrator.waiting_installed,
            final(self).orchestrator.waiting_updates == old(self).orchestrator.waiting_updates,
            final(self).orchestrator.dialogs == old(self).orchestrator.dialogs,
            final(self).installed == old(self).installed,
            final(self).updates == old(self).updates,
            final(self).search_active == old(self).search_active,
            final(self).search_input == old(self).search_input,
            final(self).category_results == old(self).category_results,
            final(self).search_results == old(self).search_results,
    {
        let mut ops: Vec<Operation> = Vec::new();
        match &self.updates {
            Some(updates) => {
                let n = updates.len();
                let mut i: usize = 0;
                while i < n
                    invariant
                        0 <= i <= n,
                        n == updates@.len(),
                        ops@.len() == i,
                        forall|j: int| 0 <= j < i ==> (#[trigger] ops@[j])@ == (OperationV {
                            kind: OperationKind::Update,
                            backend_name: updates@[j]@.backend_name,
                            package_id: updates@[j]@.id,
                            info: updates@[j]@.info,
                        }),
                    decreases n - i,
                {
                    let p = &updates[i];
                    ops.push(
                        Operation {
                            kind: OperationKind::Update,
                            backend_name: p.backend_name.clone(),
                            package_id: p.id.clone(),
                            info: p.info.clone(),
                        },
                    );
                    i += 1;
                }
            },
            None => {
                return ;
            },
        }
        let ghost u = package_views(self.updates->Some_0@);
        let ghost first_id = self.orchestrator.next_id;
        let ghost all_ops = ops@;
        let count = ops.len();
        let mut k: usize = 0;
        while k < count
            invariant
                0 <= k <= count,
                count == all_ops.len(),
                ops@ == all_ops.skip(k as int),
                count == u.len(),
                self.orchestrator.wf(),
                self.orchestrator.next_id == first_id + k,
                first_id + count <= u64::MAX,
                forall|j: int| 0 <= j < count ==> (#[trigger] all_ops[j])@ == (OperationV {
                    kind: OperationKind::Update,
                    backend_name: u[j].backend_name,
                    package_id: u[j].id,
                    info: u[j].info,
                }),
                pending_views(self.orchestrator.pending@) == pending_views(
                    old(self).orchestrator.pending@,
                ) + Self::update_entries(u, first_id).take(k as int),
                self.orchestrator.failed == old(self).orchestrator.failed,
                self.orchestrator.waiting_installed == old(self).orchestrator.waiting_installed,
                self.orchestrator.waiting_updates == old(self).orchestrator.waiting_updates,
                self.orchestrator.dialogs == old(self).orchestrator.dialogs,
                self.installed == old(self).installed,
                self.updates == old(self).updates,
                self.search_active == old(self).search_active,
                self.search_input == old(self).search_input,
                self.category_results == old(self).category_results,
                self.search_results == old(self).search_results,
            decreases count - k,
        {
            let op = ops.remove(0);
            proof {
                assert(op == all_ops[k as int]);
                assert(ops@ =~= all_ops.skip(k + 1));
            }
            let ghost prev_pending = self.orchestrator.pending@;
            let ghost entry = PendingEntry { id: self.orchestrator.next_id, operation: op, progress: 0u32 };
            self.orchestrator.request(op);
            proof {
                assert(self.orchestrator.pending@ == prev_pending.push(entry));
                assert(pending_views(prev_pending.push(entry)) =~= pending_views(
                    prev_pending,
                ).push(entry@));
                assert(entry@ == Self::update_entries(u, first_id)[k as int]);
                assert(Self::update_entries(u, first_id).take(k + 1) =~= Self::update_entries(
                    u,
                    first_id,
                ).take(k as int).push(Self::update_entries(u, first_id)[k as int]));
                assert(pending_views(self.orchestrator.pending@) =~= pending_views(
                    old(self).orchestrator.pending@,
                ) + Self::update_entries(u, first_id).take(k + 1));
            }
            k += 1;
        }
        proof {
            assert(Self::update_entries(u, first_id).take(count as int) =~= Self::update_entries(
                u,
                first_id,
            ));
        }
    }

}

} // verus!
