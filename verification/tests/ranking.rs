use store_core::aggregator::{scan, Catalog, SearchResult};
use store_core::app_info::AppInfo;
use store_core::ids::{desktop_file_name, match_id, trim_desktop};
use store_core::pages::{editors_choice, Category, ExplorePage, NavPage};
use store_core::search::search_query;

const TIER: i64 = 0x100_0000_0000_0000;

fn info(name: &str, summary: &str, description: &str, downloads: u64) -> AppInfo {
    AppInfo {
        name: name.to_string(),
        summary: summary.to_string(),
        description: description.to_string(),
        source_id: "main".to_string(),
        source_name: "Main".to_string(),
        categories: Vec::new(),
        desktop_ids: Vec::new(),
        monthly_downloads: downloads,
        screenshots: Vec::new(),
    }
}

fn catalog(backend: &str, entries: Vec<(&str, AppInfo)>) -> Catalog {
    Catalog {
        backend_name: backend.to_string(),
        entries: entries.into_iter().map(|(id, i)| (id.to_string(), i)).collect(),
    }
}

fn search(catalogs: &Vec<Catalog>, input: &str) -> Vec<SearchResult> {
    let q = search_query(input).expect("query compiles");
    scan(catalogs, &q)
}

#[test]
fn exact_name_match_ranked_by_popularity() {
    // Two backends both expose an app named "Editor"; the more popular one
    // lists first within the exact-name tier.
    let catalogs = vec![
        catalog("alpha", vec![("ed.small", info("Editor", "small", "d", 10))]),
        catalog("beta", vec![("ed.big", info("Editor", "big", "d", 500_000))]),
    ];
    let results = search(&catalogs, "Editor");
    assert_eq!(results.len(), 2);
    assert_eq!(results[0].info.monthly_downloads, 500_000);
    assert_eq!(results[0].weight, -500_000);
    assert_eq!(results[1].info.monthly_downloads, 10);
    assert_eq!(results[1].weight, -10);
}

#[test]
fn name_prefix_beats_name_contains_regardless_of_popularity() {
    // "code" is a prefix of "Code::Blocks" but only contained in
    // "Visual Studio Code"; the prefix tier wins although the other entry is
    // far more popular.
    let catalogs = vec![catalog(
        "main",
        vec![
            ("vsc", info("Visual Studio Code", "editor", "d", 1_000_000)),
            ("cb", info("Code::Blocks", "ide", "d", 5)),
        ],
    )];
    let results = search(&catalogs, "code");
    assert_eq!(results.len(), 2);
    assert_eq!(results[0].info.name, "Code::Blocks");
    assert_eq!(results[0].weight, TIER - 5);
    assert_eq!(results[1].info.name, "Visual Studio Code");
    assert_eq!(results[1].weight, 2 * TIER - 1_000_000);
}

#[test]
fn matching_is_case_insensitive() {
    let catalogs = vec![catalog("main", vec![("cb", info("Code::Blocks", "s", "d", 1))])];
    let results = search(&catalogs, "CODE");
    assert_eq!(results.len(), 1);
    // Still the name-prefix tier: the fold changes case, not position.
    assert_eq!(results[0].weight, TIER - 1);
}

#[test]
fn exact_name_beats_name_prefix() {
    let catalogs = vec![catalog(
        "main",
        vec![
            ("cb", info("Code::Blocks", "s", "d", 900)),
            ("c", info("Code", "s", "d", 3)),
        ],
    )];
    let results = search(&catalogs, "code");
    assert_eq!(results[0].info.name, "Code");
    assert_eq!(results[0].weight, -3);
    assert_eq!(results[1].weight, TIER - 900);
}

#[test]
fn summary_and_description_tiers() {
    let catalogs = vec![catalog(
        "main",
        vec![
            // No name match; the summary is exactly the query: tier 3.
            ("s", info("Paint", "draw", "d", 7)),
            // Only the description contains the query inside: tier 8.
            ("d", info("Chalk", "sketch", "you can draw here", 9)),
        ],
    )];
    let results = search(&catalogs, "draw");
    assert_eq!(results.len(), 2);
    assert_eq!(results[0].info.name, "Paint");
    assert_eq!(results[0].weight, 3 * TIER - 7);
    assert_eq!(results[1].info.name, "Chalk");
    assert_eq!(results[1].weight, 8 * TIER - 9);
}

#[test]
fn all_nine_tiers_order_strictly() {
    // One entry per tier, equally popular; the ranked output walks the
    // tiers in order whatever the catalog order was.
    let catalogs = vec![catalog(
        "main",
        vec![
            ("t7", info("G", "g", "draw it", 1)),
            ("t4", info("D", "drawing", "x", 1)),
            ("t0", info("draw", "s", "x", 1)),
            ("t8", info("H", "h", "to draw", 1)),
            ("t2", info("redraw", "s", "x", 1)),
            ("t5", info("E", "to draw", "x", 1)),
            ("t1", info("drawkit", "s", "x", 1)),
            ("t6", info("F", "f", "draw", 1)),
            ("t3", info("C", "draw", "x", 1)),
        ],
    )];
    let results = search(&catalogs, "draw");
    assert_eq!(results.len(), 9);
    for (tier, r) in results.iter().enumerate() {
        assert_eq!(r.weight, (tier as i64) * TIER - 1);
    }
    // Tier 6 is an exact description match, judged against the description's
    // own length.
    assert_eq!(results[6].info.name, "F");
}

#[test]
fn no_field_match_excludes_the_entry() {
    let catalogs = vec![catalog(
        "main",
        vec![
            ("a", info("Alpha", "first", "nothing here", 1)),
            ("b", info("Beta", "second", "also nothing", 2)),
        ],
    )];
    let results = search(&catalogs, "gamma");
    assert_eq!(results.len(), 0);
}

#[test]
fn name_ties_break_in_natural_order() {
    // Equal weights: "app2" sorts before "app10" because embedded numbers
    // compare by value, not character by character.
    let catalogs = vec![catalog(
        "main",
        vec![
            ("x10", info("app10 tool", "s", "d", 4)),
            ("x2", info("app2 tool", "s", "d", 4)),
        ],
    )];
    let results = search(&catalogs, "tool");
    assert_eq!(results[0].info.name, "app2 tool");
    assert_eq!(results[1].info.name, "app10 tool");
}

#[test]
fn name_ties_ignore_case() {
    // Natural lexical order folds case: "ant" before "Bee", although byte
    // order would put the capital first.
    let catalogs = vec![catalog(
        "main",
        vec![
            ("b", info("Bee tool", "s", "d", 4)),
            ("a", info("ant tool", "s", "d", 4)),
        ],
    )];
    let results = search(&catalogs, "tool");
    assert_eq!(results[0].info.name, "ant tool");
    assert_eq!(results[1].info.name, "Bee tool");
}

#[test]
fn very_long_digit_runs_compare_totally() {
    // Digit runs far beyond any machine word compare by run length, then
    // digit by digit: the comparison is total, with no accumulator to
    // overflow. 9...9 (26 nines) numerically precedes 1 followed by 26
    // zeroes, and equal-length runs order by their first differing digit.
    let huge_a = "pkg 99999999999999999999999999";
    let huge_b = "pkg 100000000000000000000000000";
    let huge_c = "pkg 99999999999999999999999998";
    let catalogs = vec![catalog(
        "main",
        vec![
            ("a", info(huge_a, "s", "d", 4)),
            ("b", info(huge_b, "s", "d", 4)),
            ("c", info(huge_c, "s", "d", 4)),
        ],
    )];
    let results = search(&catalogs, "pkg");
    assert_eq!(results.len(), 3);
    assert_eq!(results[0].info.name, huge_c);
    assert_eq!(results[1].info.name, huge_a);
    assert_eq!(results[2].info.name, huge_b);
}

#[test]
fn backend_name_breaks_remaining_ties() {
    let catalogs = vec![
        catalog("backend10", vec![("t", info("Tool", "s", "d", 4))]),
        catalog("backend2", vec![("t", info("Tool", "s", "d", 4))]),
    ];
    let results = search(&catalogs, "Tool");
    assert_eq!(results[0].backend_name, "backend2");
    assert_eq!(results[1].backend_name, "backend10");
}

#[test]
fn category_query_filters_and_ranks_by_popularity() {
    let mut dev_popular = info("Forge", "s", "d", 800);
    dev_popular.categories = vec!["Development".to_string()];
    let mut dev_rare = info("Chisel", "s", "d", 12);
    dev_rare.categories = vec!["Development".to_string(), "Utility".to_string()];
    let office = info("Sheets", "s", "d", 9_000);

    let catalogs = vec![catalog(
        "main",
        vec![("forge", dev_popular), ("chisel", dev_rare), ("sheets", office)],
    )];
    let q = Category::Development.query();
    let results = scan(&catalogs, &q);
    assert_eq!(results.len(), 2);
    assert_eq!(results[0].info.name, "Forge");
    assert_eq!(results[0].weight, -800);
    assert_eq!(results[1].info.name, "Chisel");
    assert_eq!(results[1].weight, -12);
}

#[test]
fn editorial_query_ranks_by_list_position() {
    // "org.gnome.meld" is the third editorial pick, "com.visualstudio.code"
    // the seventh; a trailing .desktop extension still matches.
    let catalogs = vec![catalog(
        "main",
        vec![
            ("com.visualstudio.code.desktop", info("Code", "s", "d", 1_000)),
            ("org.gnome.meld", info("Meld", "s", "d", 2)),
        ],
    )];
    let q = ExplorePage::EditorsChoice.query();
    let results = scan(&catalogs, &q);
    assert_eq!(results.len(), 2);
    assert_eq!(results[0].info.name, "Meld");
    assert_eq!(results[0].weight, 2);
    assert_eq!(results[1].info.name, "Code");
    assert_eq!(results[1].weight, 6);
}

#[test]
fn popular_page_ranks_everything_by_downloads() {
    let catalogs = vec![catalog(
        "main",
        vec![("a", info("A", "s", "d", 10)), ("b", info("B", "s", "d", 30))],
    )];
    let q = ExplorePage::PopularApps.query();
    let results = scan(&catalogs, &q);
    assert_eq!(results.len(), 2);
    assert_eq!(results[0].info.name, "B");
    assert_eq!(results[1].info.name, "A");
}

#[test]
fn unscored_explore_pages_stay_empty() {
    let catalogs = vec![catalog("main", vec![("a", info("A", "s", "d", 10))])];
    let q = ExplorePage::NewApps.query();
    assert_eq!(scan(&catalogs, &q).len(), 0);
    let q = ExplorePage::RecentlyUpdated.query();
    assert_eq!(scan(&catalogs, &q).len(), 0);
}

#[test]
fn identifiers_match_up_to_desktop_extension() {
    assert!(match_id("a", "a"));
    assert!(match_id("a.desktop", "a"));
    assert!(match_id("a", "a.desktop"));
    assert!(match_id("a.desktop.desktop", "a"));
    assert!(!match_id("ab", "a"));
    assert!(!match_id("a.desktopx", "a"));
    assert_eq!(trim_desktop("a.desktop.desktop"), "a");
    assert_eq!(trim_desktop("plain"), "plain");
}

#[test]
fn desktop_file_names() {
    assert_eq!(desktop_file_name("org.app"), "org.app.desktop");
    assert_eq!(desktop_file_name("org.app.desktop"), "org.app.desktop");
}

#[test]
fn navigation_pages_and_categories() {
    let pages = NavPage::all();
    assert_eq!(pages.len(), 11);
    assert_eq!(pages[0], NavPage::Explore);
    assert_eq!(NavPage::Develop.category(), Some(Category::Development));
    assert_eq!(NavPage::Relax.category(), Some(Category::AudioVideo));
    assert_eq!(NavPage::Explore.category(), None);
    assert_eq!(NavPage::Installed.category(), None);
    assert_eq!(Category::AudioVideo.id(), "AudioVideo");
    assert_eq!(Category::Utility.title(), "Utility");
}

#[test]
fn editorial_list_content() {
    let picks = editors_choice();
    assert_eq!(picks.len(), 11);
    assert_eq!(picks[0], "com.slack.Slack");
    assert_eq!(picks[10], "org.chromium.Chromium");
    assert_eq!(ExplorePage::all().len(), 4);
}
