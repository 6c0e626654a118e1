use store_core::app_info::AppInfo;
use store_core::orchestrator::{backend_missing_message, Operation, OperationKind, Orchestrator};
use store_core::package::{find_package, merge_enumerations, sort_packages, Package};
use store_core::pages::{Category, ExplorePage, NavPage};
use store_core::store::Store;

fn info_with_source(name: &str, source_id: &str, downloads: u64) -> AppInfo {
    AppInfo {
        name: name.to_string(),
        summary: "summary".to_string(),
        description: "description".to_string(),
        source_id: source_id.to_string(),
        source_name: "Main".to_string(),
        categories: Vec::new(),
        desktop_ids: Vec::new(),
        monthly_downloads: downloads,
        screenshots: Vec::new(),
    }
}

fn operation(kind: OperationKind, backend: &str, package_id: &str) -> Operation {
    Operation {
        kind,
        backend_name: backend.to_string(),
        package_id: package_id.to_string(),
        info: info_with_source("App", "main", 1),
    }
}

fn package(backend: &str, id: &str, name: &str) -> Package {
    Package {
        backend_name: backend.to_string(),
        id: id.to_string(),
        version: "1.0".to_string(),
        info: info_with_source(name, "main", 1),
    }
}

#[test]
fn duplicate_requests_get_independent_entries() {
    // Requesting Install on "foo" while it is already pending Install
    // produces two pending entries under two distinct identifiers.
    let mut store = Store::new();
    let op = operation(OperationKind::Install, "pkg", "foo");
    let first = store.request_operation(
        op.kind,
        op.backend_name.clone(),
        op.package_id.clone(),
        op.info.clone(),
    );
    let second = store.request_operation(op.kind, op.backend_name, op.package_id, op.info);
    assert_ne!(first, second);
    assert_eq!(store.orchestrator.pending.len(), 2);
    assert_eq!(store.orchestrator.pending[0].id, first);
    assert_eq!(store.orchestrator.pending[1].id, second);
    assert_eq!(store.orchestrator.pending[0].progress, 0);
}

#[test]
fn identifiers_increase_and_are_never_reused() {
    let mut orch = Orchestrator::new();
    let a = orch.request(operation(OperationKind::Install, "pkg", "one"));
    let b = orch.request(operation(OperationKind::Update, "pkg", "two"));
    assert!(orch.complete(a));
    let c = orch.request(operation(OperationKind::Uninstall, "pkg", "three"));
    assert!(orch.fail(b, "broken".to_string()));
    let d = orch.request(operation(OperationKind::Install, "pkg", "four"));
    assert!(a < b && b < c && c < d);
    // A stale event for a removed identifier is ignored, never re-bound.
    assert!(!orch.progress(a, 5));
    assert!(!orch.complete(a));
}

#[test]
fn failed_operation_enqueues_one_dialog() {
    // An operation that errors moves to the failed table and enqueues
    // exactly one dialog with the backend's message; dismissing the dialog
    // leaves the failed entry in place.
    let mut orch = Orchestrator::new();
    let id = orch.request(operation(OperationKind::Install, "pkg", "foo"));
    assert!(orch.fail(id, "permission denied".to_string()));
    assert_eq!(orch.pending.len(), 0);
    assert_eq!(orch.failed.len(), 1);
    assert_eq!(orch.dialogs.len(), 1);
    let front = orch.front_failure().expect("a dialog is queued");
    assert_eq!(front.id, id);
    assert_eq!(front.message, "permission denied");
    orch.dismiss_dialog();
    assert!(orch.front_failure().is_none());
    assert_eq!(orch.failed.len(), 1);
    assert_eq!(orch.failed[0].message, "permission denied");
}

#[test]
fn completed_package_awaits_refresh_until_enumerations_arrive() {
    let mut store = Store::new();
    let id = store.request_operation(
        OperationKind::Install,
        "pkg".to_string(),
        "org.app".to_string(),
        info_with_source("App", "main", 1),
    );
    let backend = "pkg".to_string();
    let source = "main".to_string();
    let target = "org.app.desktop".to_string();
    assert!(!store.orchestrator.waiting_refresh(&backend, &source, &target));
    assert!(store.orchestrator.complete(id));
    assert_eq!(store.orchestrator.pending.len(), 0);
    assert_eq!(store.orchestrator.failed.len(), 0);
    // The identifier-matching is up to the .desktop extension.
    assert!(store.orchestrator.waiting_refresh(&backend, &source, &target));
    // A fresh installed enumeration clears only its own list.
    store.on_installed(Vec::new());
    assert!(store.orchestrator.waiting_refresh(&backend, &source, &target));
    store.on_updates(Vec::new());
    assert!(!store.orchestrator.waiting_refresh(&backend, &source, &target));
}

#[test]
fn progress_reports_update_the_pending_entry() {
    let mut orch = Orchestrator::new();
    let id = orch.request(operation(OperationKind::Update, "pkg", "org.app"));
    assert!(orch.progress(id, 250_000));
    assert_eq!(orch.pending[0].progress, 250_000);
    let p = orch.progress_for(
        &"pkg".to_string(),
        &"main".to_string(),
        &"org.app".to_string(),
    );
    assert_eq!(p, Some(250_000));
    assert!(!orch.progress(id + 1, 1));
    let none = orch.progress_for(
        &"other".to_string(),
        &"main".to_string(),
        &"org.app".to_string(),
    );
    assert_eq!(none, None);
}

#[test]
fn update_all_enqueues_one_update_per_listed_package() {
    let mut store = Store::new();
    store.on_updates(vec![package("pkg", "one", "One"), package("flat", "two", "Two")]);
    store.update_all();
    assert_eq!(store.orchestrator.pending.len(), 2);
    assert_eq!(store.orchestrator.pending[0].id, 0);
    assert_eq!(store.orchestrator.pending[1].id, 1);
    assert!(matches!(
        store.orchestrator.pending[0].operation.kind,
        OperationKind::Update
    ));
    assert_eq!(store.orchestrator.pending[0].operation.package_id, "one");
    assert_eq!(store.orchestrator.pending[1].operation.backend_name, "flat");
}

#[test]
fn update_all_without_a_listing_does_nothing() {
    let mut store = Store::new();
    store.update_all();
    assert_eq!(store.orchestrator.pending.len(), 0);
}

#[test]
fn installed_listing_sorts_system_first_then_natural_names() {
    let mut list = vec![
        package("pkg", "z", "app10"),
        package("pkg", "__SYSTEM__", "Base system"),
        package("pkg", "a", "app2"),
    ];
    sort_packages(&mut list);
    assert_eq!(list[0].id, "__SYSTEM__");
    assert_eq!(list[1].info.name, "app2");
    assert_eq!(list[2].info.name, "app10");
}

#[test]
fn erring_backend_contributes_nothing_to_the_merge() {
    // One backend enumerates two packages, one fails, one enumerates one
    // more; the failed enumeration is skipped and the merge is ordered for
    // display, system entry first.
    let merged = merge_enumerations(vec![
        Some(vec![package("pkg", "z", "zsh"), package("pkg", "a", "app10")]),
        None,
        Some(vec![package("flat", "__SYSTEM__", "Base system"), package("flat", "b", "app2")]),
    ]);
    assert_eq!(merged.len(), 4);
    assert_eq!(merged[0].id, "__SYSTEM__");
    assert_eq!(merged[1].info.name, "app2");
    assert_eq!(merged[2].info.name, "app10");
    assert_eq!(merged[3].info.name, "zsh");
}

#[test]
fn merge_of_failures_alone_is_empty() {
    let merged = merge_enumerations(vec![None, None]);
    assert_eq!(merged.len(), 0);
}

#[test]
fn missing_backend_message_names_the_backend() {
    assert_eq!(backend_missing_message("flatpak"), "backend \"flatpak\" not found");
}

#[test]
fn find_package_matches_up_to_desktop_extension() {
    let list = vec![
        package("pkg", "org.other", "Other"),
        package("pkg", "org.app.desktop", "App"),
    ];
    let found = find_package(
        &list,
        &"pkg".to_string(),
        &"main".to_string(),
        &"org.app".to_string(),
    );
    assert_eq!(found, Some(1));
    let missing = find_package(
        &list,
        &"flat".to_string(),
        &"main".to_string(),
        &"org.app".to_string(),
    );
    assert_eq!(missing, None);
}

#[test]
fn stale_search_results_are_discarded() {
    let mut store = Store::new();
    assert!(store.on_search_input("co".to_string()));
    // A result set echoing an outdated query is dropped...
    assert!(!store.on_search_results("c".to_string(), Vec::new()));
    assert!(store.search_results.is_none());
    // ...while one echoing the live query is kept.
    assert!(store.on_search_results("co".to_string(), Vec::new()));
    let (echoed, results) = store.search_results.as_ref().expect("results kept");
    assert_eq!(echoed, "co");
    assert_eq!(results.len(), 0);
    // Re-entering the same input runs no new search.
    assert!(!store.on_search_input("co".to_string()));
    // Emptying the field runs no search either.
    assert!(!store.on_search_input(String::new()));
}

#[test]
fn search_session_lifecycle() {
    let mut store = Store::new();
    store.on_search_activate();
    assert!(store.search_active);
    assert!(store.on_search_input("meld".to_string()));
    assert!(store.on_search_submit());
    assert!(store.on_search_results("meld".to_string(), Vec::new()));
    store.on_escape();
    assert!(!store.search_active);
    assert!(store.search_results.is_none());
    assert!(!store.on_search_submit() || !store.search_input.is_empty());
    store.on_search_clear();
    assert_eq!(store.search_input, "");
}

#[test]
fn explore_results_land_in_their_section() {
    let mut store = Store::new();
    store.on_explore_results(ExplorePage::PopularApps, Vec::new());
    assert!(store.popular_results.is_some());
    assert!(store.editors_choice_results.is_none());
    assert!(store.new_results.is_none());
    store.on_explore_results(ExplorePage::EditorsChoice, Vec::new());
    assert!(store.editors_choice_results.is_some());
}

#[test]
fn nav_select_clears_transient_state_and_names_the_category() {
    let mut store = Store::new();
    store.on_search_activate();
    store.on_category_results(Category::Game, Vec::new());
    let c = store.on_nav_select(NavPage::Develop);
    assert_eq!(c, Some(Category::Development));
    assert!(store.category_results.is_none());
    assert!(!store.search_active);
    assert_eq!(store.on_nav_select(NavPage::Updates), None);
}
