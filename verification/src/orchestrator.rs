//! The operation orchestrator: it allocates unique identifiers for
//! user-requested actions, tracks each one from pending to completed or
//! failed, records which packages await a fresh enumeration, and queues one
//! failure dialog per failed operation.

use crate::app_info::{AppInfo, AppInfoV};
use crate::ids::{id_matches, match_id};
use vstd::prelude::*;
use vstd::string::StringExecFns;

verus! {

/// The kind of action requested against a backend.
#[derive(Clone, Copy, PartialEq, Eq, Structural, Debug)]
pub enum OperationKind {
    Install,
    Uninstall,
    Update,
}

/// A requested action: its kind, the backend that owns the target package,
/// the target's backend-specific identifier, and a snapshot of the
/// application metadata taken at request time.
pub struct Operation {
    pub kind: OperationKind,
    pub backend_name: String,
    pub package_id: String,
    pub info: AppInfo,
}

/// Mathematical image of an `Operation`.
pub ghost struct OperationV {
    pub kind: OperationKind,
    pub backend_name: Seq<char>,
    pub package_id: Seq<char>,
    pub info: AppInfoV,
}

impl View for Operation {
    type V = OperationV;

    open spec fn view(&self) -> OperationV {
        OperationV {
            kind: self.kind,
            backend_name: self.backend_name@,
            package_id: self.package_id@,
            info: self.info@,
        }
    }
}

impl Clone for Operation {
    fn clone(&self) -> (r: Self)
        ensures
            r@ == self@,
    {
        Operation {
            kind: self.kind,
            backend_name: self.backend_name.clone(),
            package_id: self.package_id.clone(),
            info: self.info.clone(),
        }
    }
}

/// One entry of the pending table: a live operation and the progress last
/// reported for it, in millionths of the whole.
pub struct PendingEntry {
    pub id: u64,
    pub operation: Operation,
    pub progress: u32,
}

/// Mathematical image of a `PendingEntry`.
pub ghost struct PendingEntryV {
    pub id: u64,
    pub operation: OperationV,
    pub progress: u32,
}

impl View for PendingEntry {
    type V = PendingEntryV;

    open spec fn view(&self) -> PendingEntryV {
        PendingEntryV { id: self.id, operation: self.operation@, progress: self.progress }
    }
}

/// The views of a pending table.
pub open spec fn pending_views(s: Seq<PendingEntry>) -> Seq<PendingEntryV> {
    s.map_values(|e: PendingEntry| e@)
}

/// One entry of the failed table: a terminated operation and the backend's
/// error message, kept verbatim.
pub struct FailedEntry {
    pub id: u64,
    pub operation: Operation,
    pub message: String,
}

/// The key under which a package awaits a fresh enumeration after a
/// successful operation on it.
pub struct WaitingKey {
    pub backend_name: String,
    pub source_id: String,
    pub package_id: String,
}

/// Is some pending entry registered under `id`?
pub open spec fn has_pending(s: Seq<PendingEntry>, id: u64) -> bool {
    exists|i: int| 0 <= i < s.len() && (#[trigger] s[i]).id == id
}

/// The index of the pending entry registered under `id`.
pub open spec fn pending_index(s: Seq<PendingEntry>, id: u64) -> int {
    choose|i: int| 0 <= i < s.len() && (#[trigger] s[i]).id == id
}

/// Is some failed entry recorded under `id`?
pub open spec fn has_failed(s: Seq<FailedEntry>, id: u64) -> bool {
    exists|i: int| 0 <= i < s.len() && (#[trigger] s[i]).id == id
}

/// The index of the failed entry recorded under `id`.
pub open spec fn failed_index(s: Seq<FailedEntry>, id: u64) -> int {
    choose|i: int| 0 <= i < s.len() && (#[trigger] s[i]).id == id
}

/// The awaiting-refresh key of an operation: the owning backend, the
/// metadata source of the snapshot, and the target package identifier.
pub open spec fn waiting_key_of(op: Operation) -> WaitingKey {
    WaitingKey {
        backend_name: op.backend_name,
        source_id: op.info.source_id,
        package_id: op.package_id,
    }
}

/// Does the waiting key name the package with the given backend, metadata
/// source and identifier?
pub open spec fn waiting_key_matches(
    k: WaitingKey,
    backend: Seq<char>,
    source: Seq<char>,
    id: Seq<char>,
) -> bool {
    k.backend_name@ == backend && k.source_id@ == source && id_matches(k.package_id@, id)
}

/// Does some key of the list name the package?
pub open spec fn any_waiting(
    s: Seq<WaitingKey>,
    backend: Seq<char>,
    source: Seq<char>,
    id: Seq<char>,
) -> bool {
    exists|i: int| 0 <= i < s.len() && waiting_key_matches(#[trigger] s[i], backend, source, id)
}

/// Does the pending entry's operation target the package with the given
/// backend, metadata source and identifier?
pub open spec fn entry_targets(
    e: PendingEntry,
    backend: Seq<char>,
    source: Seq<char>,
    id: Seq<char>,
) -> bool {
    e.operation.backend_name@ == backend && e.operation.info.source_id@ == source && id_matches(
        e.operation.package_id@,
        id,
    )
}

/// The operation orchestrator. All tables are owned by it alone and mutated
/// only through its methods, in response to one event at a time.
pub struct Orchestrator {
    /// The next identifier to hand out; a single ever-incrementing counter.
    pub next_id: u64,
    /// Live operations, in ascending identifier order.
    pub pending: Vec<PendingEntry>,
    /// Failed operations; never evicted automatically.
    pub failed: Vec<FailedEntry>,
    /// Packages whose installed listing awaits a fresh enumeration.
    pub waiting_installed: Vec<WaitingKey>,
    /// Packages whose updates listing awaits a fresh enumeration.
    pub waiting_updates: Vec<WaitingKey>,
    /// Failure dialogs not yet dismissed, in first-in-first-out order.
    pub dialogs: Vec<u64>,
}

impl Orchestrator {
    /// The tables are well formed: pending identifiers ascend strictly and
    /// stay below the counter, failed identifiers are pairwise distinct and
    /// below the counter, no identifier is in both tables at once, and every
    /// queued dialog names a failed entry.
    pub open spec fn wf(self) -> bool {
        &&& forall|i: int, j: int|
            0 <= i < j < self.pending@.len() ==> (#[trigger] self.pending@[i]).id < (
            #[trigger] self.pending@[j]).id
        &&& forall|i: int|
            0 <= i < self.pending@.len() ==> (#[trigger] self.pending@[i]).id < self.next_id
        &&& forall|i: int, j: int|
            0 <= i < j < self.failed@.len() ==> (#[trigger] self.failed@[i]).id != (
            #[trigger] self.failed@[j]).id
        &&& forall|i: int|
            0 <= i < self.failed@.len() ==> (#[trigger] self.failed@[i]).id < self.next_id
        &&& forall|i: int, j: int|
            0 <= i < self.pending@.len() && 0 <= j < self.failed@.len() ==> (
            #[trigger] self.pending@[i]).id != (#[trigger] self.failed@[j]).id
        &&& forall|i: int|
            0 <= i < self.dialogs@.len() ==> has_failed(self.failed@, #[trigger] self.dialogs@[i])
    }

    /// A fresh orchestrator with empty tables and the identifier counter at
    /// zero.
    pub fn new() -> (r: Orchestrator)
        ensures
            r.wf(),
            r.next_id == 0,
            r.pending@ == Seq::<PendingEntry>::empty(),
            r.failed@ == Seq::<FailedEntry>::empty(),
            r.waiting_installed@ == Seq::<WaitingKey>::empty(),
            r.waiting_updates@ == Seq::<WaitingKey>::empty(),
            r.dialogs@ == Seq::<u64>::empty(),
    {
        Orchestrator {
            next_id: 0,
            pending: Vec::new(),
            failed: Vec::new(),
            waiting_installed: Vec::new(),
            waiting_updates: Vec::new(),
            dialogs: Vec::new(),
        }
    }

    /// Enqueue a requested operation: allocate the next identifier and
    /// insert the operation into the pending table with progress zero.
    /// Duplicate concurrent requests on the same package are deliberately
    /// not merged or rejected: each gets its own entry and identifier.
    pub fn request(&mut self, operation: Operation) -> (id: u64)
        requires
            old(self).wf(),
            old(self).next_id < u64::MAX,
        ensures
            final(self).wf(),
            id == old(self).next_id,
            final(self).next_id == old(self).next_id + 1,
            final(self).pending@ == old(self).pending@.push(
                PendingEntry { id, operation, progress: 0 },
            ),
            final(self).failed == old(self).failed,
            final(self).waiting_installed == old(self).waiting_installed,
            final(self).waiting_updates == old(self).waiting_updates,
            final(self).dialogs == old(self).dialogs,
    {
        let id = self.next_id;
        self.next_id = self.next_id + 1;
        self.pending.push(PendingEntry { id, operation, progress: 0 });
        id
    }

    /// The pending table after a progress report for `id`: the entry
    /// registered under `id`, if any, carries the new progress; stale
    /// reports for identifiers no longer in the table change nothing.
    pub open spec fn with_progress(s: Seq<PendingEntry>, id: u64, progress: u32) -> Seq<
        PendingEntry,
    > {
        Seq::new(
            s.len(),
            |k: int|
                if s[k].id == id {
                    PendingEntry { id: s[k].id, operation: s[k].operation, progress }
                } else {
                    s[k]
                },
        )
    }

    /// Record a progress report for `id`; a report for an identifier that is
    /// no longer pending is silently ignored.
    #[verifier::loop_isolation(false)]
    pub fn progress(&mut self, id: u64, progress: u32) -> (found: bool)
        requires
            old(self).wf(),
        ensures
            final(self).wf(),
            found == has_pending(old(self).pending@, id),
            final(self).pending@ == Self::with_progress(old(self).pending@, id, progress),
            final(self).next_id == old(self).next_id,
            final(self).failed == old(self).failed,
            final(self).waiting_installed == old(self).waiting_installed,
            final(self).waiting_updates == old(self).waiting_updates,
            final(self).dialogs == old(self).dialogs,
    {
        let n = self.pending.len();
        let mut i: usize = 0;
        while i < n
            invariant
                0 <= i <= n,
                n == self.pending@.len(),
                *self == *old(self),
                forall|j: int| 0 <= j < i ==> (#[trigger] self.pending@[j]).id != id,
            decreases n - i,
        {
            if self.pending[i].id == id {
                let mut e = self.pending.remove(i);
                e.progress = progress;
                self.pending.insert(i, e);
                proof {
                    assert(self.pending@ =~= Self::with_progress(old(self).pending@, id, progress));
                }
                return true;
            }
            i += 1;
        }
        proof {
            assert(self.pending@ =~= Self::with_progress(old(self).pending@, id, progress));
        }
        false
    }
    /// Record that the operation registered under `id` settled successfully:
    /// its entry leaves the pending table and its package is put on both
    /// awaiting-refresh lists, so the listings suppress stale action buttons
    /// until the next enumeration completes. A stale identifier changes
    /// nothing; either way the caller re-runs both enumerations.
    #[verifier::loop_isolation(false)]
    pub fn complete(&mut self, id: u64) -> (found: bool)
        requires
            old(self).wf(),
        ensures
            final(self).wf(),
            found == has_pending(old(self).pending@, id),
            found ==> {
                let i = pending_index(old(self).pending@, id);
                &&& final(self).pending@ == old(self).pending@.remove(i)
                &&& final(self).waiting_installed@ == old(self).waiting_installed@.push(
                    waiting_key_of(old(self).pending@[i].operation),
                )
                &&& final(self).waiting_updates@ == old(self).waiting_updates@.push(
                    waiting_key_of(old(self).pending@[i].operation),
                )
            },
            !found ==> final(self).pending@ == old(self).pending@ && final(self).waiting_installed
                == old(self).waiting_installed && final(self).waiting_updates == old(
                self,
            ).waiting_updates,
            final(self).next_id == old(self).next_id,
            final(self).failed == old(self).failed,
            final(self).dialogs == old(self).dialogs,
    {
        let n = self.pending.len();
        let mut i: usize = 0;
        while i < n
            invariant
                0 <= i <= n,
                n == self.pending@.len(),
                *self == *old(self),
                forall|j: int| 0 <= j < i ==> (#[trigger] self.pending@[j]).id != id,
            decreases n - i,
        {
            if self.pending[i].id == id {
                proof {
                    let s = old(self).pending@;
                    assert(has_pending(s, id));
                    let j = pending_index(s, id);
                    if j < (i as int) {
                        assert(s[j].id != id);
                    }
                    if (i as int) < j {
                        assert(s[i as int].id < s[j].id);
                    }
                    assert(j == i as int);
                }
                let e = self.pending.remove(i);
                let op = e.operation;
                self.waiting_installed.push(
                    WaitingKey {
                        backend_name: op.backend_name.clone(),
                        source_id: op.info.source_id.clone(),
                        package_id: op.package_id.clone(),
                    },
                );
                self.waiting_updates.push(
                    WaitingKey {
                        backend_name: op.backend_name,
                        source_id: op.info.source_id,
                        package_id: op.package_id,
                    },
                );
                proof {
                    let s = old(self).pending@;
                    Self::lemma_remove_keeps_wf(s, i as int);
                    assert forall|a: int, b: int|
                        0 <= a < self.pending@.len() && 0 <= b < self.failed@.len() implies (
                    #[trigger] self.pending@[a]).id != (#[trigger] self.failed@[b]).id by {
                        let a0 = if a < i as int {
                            a
                        } else {
                            a + 1
                        };
                        assert(self.pending@[a] == s[a0]);
                        assert(s[a0].id != old(self).failed@[b].id);
                    }
                }
                return true;
            }
            i += 1;
        }
        false
    }

    /// Removing one entry keeps the pending table strictly ascending.
    proof fn lemma_remove_keeps_wf(s: Seq<PendingEntry>, i: int)
        requires
            0 <= i < s.len(),
            forall|a: int, b: int| 0 <= a < b < s.len() ==> (#[trigger] s[a]).id < (
            #[trigger] s[b]).id,
        ensures
            forall|a: int, b: int|
                0 <= a < b < s.remove(i).len() ==> (#[trigger] s.remove(i)[a]).id < (
                #[trigger] s.remove(i)[b]).id,
    {
        assert forall|a: int, b: int| 0 <= a < b < s.remove(i).len() implies (
        #[trigger] s.remove(i)[a]).id < (#[trigger] s.remove(i)[b]).id by {
            let a0 = if a < i {
                a
            } else {
                a + 1
            };
            let b0 = if b < i {
                b
            } else {
                b + 1
            };
            assert(s.remove(i)[a] == s[a0]);
            assert(s.remove(i)[b] == s[b0]);
            assert(s[a0].id < s[b0].id);
        }
    }

    /// Record that the operation registered under `id` failed with the
    /// backend's error message: its entry moves from the pending table to
    /// the failed table and exactly one failure dialog is enqueued. The
    /// awaiting-refresh lists stay as they are and no enumeration is
    /// re-triggered. A stale identifier changes nothing.
    #[verifier::loop_isolation(false)]
    pub fn fail(&mut self, id: u64, message: String) -> (found: bool)
        requires
            old(self).wf(),
        ensures
            final(self).wf(),
            found == has_pending(old(self).pending@, id),
            found ==> {
                let i = pending_index(old(self).pending@, id);
                &&& final(self).pending@ == old(self).pending@.remove(i)
                &&& final(self).failed@ == old(self).failed@.push(
                    FailedEntry { id, operation: old(self).pending@[i].operation, message },
                )
                &&& final(self).dialogs@ == old(self).dialogs@.push(id)
            },
            !found ==> final(self).pending@ == old(self).pending@ && final(self).failed == old(
                self,
            ).failed && final(self).dialogs == old(self).dialogs,
            final(self).next_id == old(self).next_id,
            final(self).waiting_installed == old(self).waiting_installed,
            final(self).waiting_updates == old(self).waiting_updates,
    {
        let n = self.pending.len();
        let mut i: usize = 0;
        while i < n
            invariant
                0 <= i <= n,
                n == self.pending@.len(),
                *self == *old(self),
                forall|j: int| 0 <= j < i ==> (#[trigger] self.pending@[j]).id != id,
            decreases n - i,
        {
            if self.pending[i].id == id {
                proof {
                    let s = old(self).pending@;
                    assert(has_pending(s, id));
                    let j = pending_index(s, id);
                    if j < (i as int) {
                        assert(s[j].id != id);
                    }
                    if (i as int) < j {
                        assert(s[i as int].id < s[j].id);
                    }
                    assert(j == i as int);
                }
                let e = self.pending.remove(i);
                self.failed.push(FailedEntry { id, operation: e.operation, message });
                self.dialogs.push(id);
                proof {
                    let s = old(self).pending@;
                    let f = old(self).failed@;
                    Self::lemma_remove_keeps_wf(s, i as int);
                    assert forall|b: int| 0 <= b < f.len() implies (#[trigger] f[b]).id != id by {
                        assert(s[i as int].id != f[b].id);
                    }
                    assert forall|a: int, b: int|
                        0 <= a < self.pending@.len() && 0 <= b < self.failed@.len() implies (
                    #[trigger] self.pending@[a]).id != (#[trigger] self.failed@[b]).id by {
                        let a0 = if a < i as int {
                            a
                        } else {
                            a + 1
                        };
                        assert(self.pending@[a] == s[a0]);
                        if b < f.len() {
                            assert(s[a0].id != f[b].id);
                        } else {
                            if a0 < i as int {
                                assert(s[a0].id < s[i as int].id);
                            } else {
                                assert(s[i as int].id < s[a0].id);
                            }
                        }
                    }
                    assert forall|k: int| 0 <= k < self.dialogs@.len() implies has_failed(
                        self.failed@,
                        #[trigger] self.dialogs@[k],
                    ) by {
                        if k < old(self).dialogs@.len() {
                            assert(has_failed(f, old(self).dialogs@[k]));
                            let w = failed_index(f, old(self).dialogs@[k]);
                            assert(self.failed@[w].id == self.dialogs@[k]);
                        } else {
                            assert(self.failed@[f.len() as int].id == id);
                        }
                    }
                }
                return true;
            }
            i += 1;
        }
        false
    }

    /// Dismiss the front failure dialog, if any; the failed-table entry it
    /// names is left in place.
    pub fn dismiss_dialog(&mut self)
        requires
            old(self).wf(),
        ensures
            final(self).wf(),
            old(self).dialogs@.len() > 0 ==> final(self).dialogs@ == old(self).dialogs@.drop_first(),
            old(self).dialogs@.len() == 0 ==> final(self).dialogs@ == old(self).dialogs@,
            final(self).next_id == old(self).next_id,
            final(self).pending == old(self).pending,
            final(self).failed == old(self).failed,
            final(self).waiting_installed == old(self).waiting_installed,
            final(self).waiting_updates == old(self).waiting_updates,
    {
        if self.dialogs.len() > 0 {
            self.dialogs.remove(0);
            proof {
                assert(self.dialogs@ =~= old(self).dialogs@.drop_first());
            }
        }
    }

    /// The identifier named by the front failure dialog, if any dialog is
    /// queued.
    pub fn front_dialog(&self) -> (r: Option<u64>)
        ensures
            r matches Some(d) ==> self.dialogs@.len() > 0 && d == self.dialogs@[0],
            r is None <==> self.dialogs@.len() == 0,
    {
        if self.dialogs.len() > 0 {
            Some(self.dialogs[0])
        } else {
            None
        }
    }

    /// The failed-table entry recorded under `id`, if any.
    #[verifier::loop_isolation(false)]
    pub fn failed_entry(&self, id: u64) -> (r: Option<&FailedEntry>)
        requires
            self.wf(),
        ensures
            r matches Some(e) ==> has_failed(self.failed@, id) && *e == self.failed@[failed_index(
                self.failed@,
                id,
            )] && e.id == id,
            r is None ==> !has_failed(self.failed@, id),
    {
        let n = self.failed.len();
        let mut i: usize = 0;
        while i < n
            invariant
                0 <= i <= n,
                n == self.failed@.len(),
                forall|j: int| 0 <= j < i ==> (#[trigger] self.failed@[j]).id != id,
            decreases n - i,
        {
            if self.failed[i].id == id {
                proof {
                    let f = self.failed@;
                    assert(has_failed(f, id));
                    let j = failed_index(f, id);
                    if j < (i as int) {
                        assert(f[j].id != id);
                    }
                    if (i as int) < j {
                        assert(f[i as int].id != f[j].id);
                    }
                    assert(j == i as int);
                }
                return Some(&self.failed[i]);
            }
            i += 1;
        }
        None
    }

    /// The failed operation behind the front failure dialog: the entry the
    /// dialog queue shows first, or `None` when no dialog is queued. Every
    /// queued dialog names a failed entry, so a queued dialog always
    /// resolves.
    pub fn front_failure(&self) -> (r: Option<&FailedEntry>)
        requires
            self.wf(),
        ensures
            r matches Some(e) ==> self.dialogs@.len() > 0 && e.id == self.dialogs@[0] && *e
                == self.failed@[failed_index(self.failed@, self.dialogs@[0])],
            r is None <==> self.dialogs@.len() == 0,
    {
        match self.front_dialog() {
            Some(id) => {
                let r = self.failed_entry(id);
                proof {
                    assert(has_failed(self.failed@, self.dialogs@[0]));
                }
                r
            },
            None => None,
        }
    }

    /// Record that a fresh installed enumeration arrived: the installed
    /// awaiting-refresh list is cleared.
    pub fn installed_refreshed(&mut self)
        requires
            old(self).wf(),
        ensures
            final(self).wf(),
            final(self).waiting_installed@ == Seq::<WaitingKey>::empty(),
            final(self).next_id == old(self).next_id,
            final(self).pending == old(self).pending,
            final(self).failed == old(self).failed,
            final(self).waiting_updates == old(self).waiting_updates,
            final(self).dialogs == old(self).dialogs,
    {
        self.waiting_installed = Vec::new();
    }

    /// Record that a fresh updates enumeration arrived: the updates
    /// awaiting-refresh list is cleared.
    pub fn updates_refreshed(&mut self)
        requires
            old(self).wf(),
        ensures
            final(self).wf(),
            final(self).waiting_updates@ == Seq::<WaitingKey>::empty(),
            final(self).next_id == old(self).next_id,
            final(self).pending == old(self).pending,
            final(self).failed == old(self).failed,
            final(self).waiting_installed == old(self).waiting_installed,
            final(self).dialogs == old(self).dialogs,
    {
        self.waiting_updates = Vec::new();
    }

    /// Does the package with the given backend, metadata source and
    /// identifier await a fresh enumeration on either list? While it does,
    /// the listings show no action buttons for it.
    #[verifier::loop_isolation(false)]
    pub fn waiting_refresh(&self, backend: &String, source: &String, id: &String) -> (r: bool)
        ensures
            r == (any_waiting(self.waiting_installed@, backend@, source@, id@) || any_waiting(
                self.waiting_updates@,
                backend@,
                source@,
                id@,
            )),
    {
        let mut found = Self::list_has_key(&self.waiting_installed, backend, source, id);
        if !found {
            found = Self::list_has_key(&self.waiting_updates, backend, source, id);
        }
        found
    }

    /// Does some key of one awaiting-refresh list name the package?
    #[verifier::loop_isolation(false)]
    fn list_has_key(list: &Vec<WaitingKey>, backend: &String, source: &String, id: &String) -> (r:
        bool)
        ensures
            r == any_waiting(list@, backend@, source@, id@),
    {
        let n = list.len();
        let mut i: usize = 0;
        while i < n
            invariant
                0 <= i <= n,
                n == list@.len(),
                forall|j: int| 0 <= j < i ==> !waiting_key_matches(
                    #[trigger] list@[j],
                    backend@,
                    source@,
                    id@,
                ),
            decreases n - i,
        {
            let k = &list[i];
            if k.backend_name == *backend && k.source_id == *source && match_id(
                k.package_id.as_str(),
                id.as_str(),
            ) {
                return true;
            }
            i += 1;
        }
        false
    }

    /// The progress of the first pending operation that targets the package
    /// with the given backend, metadata source and identifier, if any.
    #[verifier::loop_isolation(false)]
    pub fn progress_for(&self, backend: &String, source: &String, id: &String) -> (r: Option<u32>)
        ensures
            r matches Some(p) ==> exists|i: int|
                0 <= i < self.pending@.len() && entry_targets(
                    #[trigger] self.pending@[i],
                    backend@,
                    source@,
                    id@,
                ) && self.pending@[i].progress == p && forall|j: int|
                    0 <= j < i ==> !entry_targets(
                        #[trigger] self.pending@[j],
                        backend@,
                        source@,
                        id@,
                    ),
            r is None ==> forall|i: int|
                0 <= i < self.pending@.len() ==> !entry_targets(
                    #[trigger] self.pending@[i],
                    backend@,
                    source@,
                    id@,
                ),
    {
        let n = self.pending.len();
        let mut i: usize = 0;
        while i < n
            invariant
                0 <= i <= n,
                n == self.pending@.len(),
                forall|j: int| 0 <= j < i ==> !entry_targets(
                    #[trigger] self.pending@[j],
                    backend@,
                    source@,
                    id@,
                ),
            decreases n - i,
        {
            let e = &self.pending[i];
            if e.operation.backend_name == *backend && e.operation.info.source_id == *source
                && match_id(e.operation.package_id.as_str(), id.as_str()) {
                return Some(e.progress);
            }
            i += 1;
        }
        None
    }
}

/// The error message recorded when a requested operation names a backend
/// that the backend set does not contain; the operation then fails with it.
pub fn backend_missing_message(backend_name: &str) -> (r: String)
    ensures
        r@ == "backend \""@ + backend_name@ + "\" not found"@,
{
    let mut r = String::from_str("backend \"");
    r.append(backend_name);
    r.append("\" not found");
    proof {
        assert(r@ =~= "backend \""@ + backend_name@ + "\" not found"@);
    }
    r
}

/// Operation identifiers are unique and strictly increasing across the
/// lifetime of one orchestrator: the pending table ascends strictly, failed
/// identifiers are pairwise distinct, no identifier is in both tables at
/// once, and every identifier ever handed out lies below the counter — so
/// the next allocation differs from them all and no identifier is reused.
pub proof fn lemma_operation_ids_unique(o: Orchestrator)
    requires
        o.wf(),
    ensures
        forall|i: int, j: int|
            0 <= i < j < o.pending@.len() ==> (#[trigger] o.pending@[i]).id < (
            #[trigger] o.pending@[j]).id,
        forall|i: int, j: int|
            0 <= i < j < o.failed@.len() ==> (#[trigger] o.failed@[i]).id != (
            #[trigger] o.failed@[j]).id,
        forall|i: int, j: int|
            0 <= i < o.pending@.len() && 0 <= j < o.failed@.len() ==> (#[trigger] o.pending@[i]).id
                != (#[trigger] o.failed@[j]).id,
        forall|i: int| 0 <= i < o.pending@.len() ==> (#[trigger] o.pending@[i]).id < o.next_id,
        forall|i: int| 0 <= i < o.failed@.len() ==> (#[trigger] o.failed@[i]).id < o.next_id,
{
}

/// After a successful operation, the completed operation's package is on
/// both awaiting-refresh lists: the keys pushed by the terminal transition
/// name exactly that package, so `waiting_refresh` reports it until an
/// enumeration clears the lists.
pub proof fn lemma_completed_package_awaits_refresh(o: Orchestrator, op: Operation)
    requires
        o.waiting_installed@.len() > 0,
        o.waiting_installed@.last() == waiting_key_of(op),
        o.waiting_updates@.len() > 0,
        o.waiting_updates@.last() == waiting_key_of(op),
    ensures
        any_waiting(o.waiting_installed@, op.backend_name@, op.info.source_id@, op.package_id@),
        any_waiting(o.waiting_updates@, op.backend_name@, op.info.source_id@, op.package_id@),
{
    assert(waiting_key_matches(
        o.waiting_installed@[o.waiting_installed@.len() - 1],
        op.backend_name@,
        op.info.source_id@,
        op.package_id@,
    ));
    assert(waiting_key_matches(
        o.waiting_updates@[o.waiting_updates@.len() - 1],
        op.backend_name@,
        op.info.source_id@,
        op.package_id@,
    ));
}

} // verus!
