//! The fixed navigation structure of the store: category identifiers from
//! the desktop menu specification, the navigation pages that select them,
//! the curated explore pages, and the editorial list of picks.

use crate::app_info::seq_views;
use crate::search::{Query, QueryV};
use vstd::prelude::*;
use vstd::string::StringExecFns;

verus! {

/// A category of the freedesktop menu specification.
#[derive(Clone, Copy, PartialEq, Eq, Structural, Debug)]
pub enum Category {
    AudioVideo,
    Development,
    Education,
    Game,
    Graphics,
    Network,
    Office,
    Science,
    Settings,
    System,
    Utility,
}

impl Category {
    /// The category tag as it appears in catalog metadata.
    pub open spec fn id_view(self) -> Seq<char> {
        match self {
            Category::AudioVideo => "AudioVideo"@,
            Category::Development => "Development"@,
            Category::Education => "Education"@,
            Category::Game => "Game"@,
            Category::Graphics => "Graphics"@,
            Category::Network => "Network"@,
            Category::Office => "Office"@,
            Category::Science => "Science"@,
            Category::Settings => "Settings"@,
            Category::System => "System"@,
            Category::Utility => "Utility"@,
        }
    }

    /// The category tag as it appears in catalog metadata.
    pub fn id(&self) -> (r: &'static str)
        ensures
            r@ == self.id_view(),
    {
        match self {
            Category::AudioVideo => "AudioVideo",
            Category::Development => "Development",
            Category::Education => "Education",
            Category::Game => "Game",
            Category::Graphics => "Graphics",
            Category::Network => "Network",
            Category::Office => "Office",
            Category::Science => "Science",
            Category::Settings => "Settings",
            Category::System => "System",
            Category::Utility => "Utility",
        }
    }

    /// The display title of a category page.
    pub fn title(&self) -> (r: String)
        ensures
            r@ == self.id_view(),
    {
        String::from_str(self.id())
    }

    /// The query of the category page: entries tagged with the category,
    /// ranked purely by popularity.
    pub fn query(&self) -> (r: Query)
        ensures
            r@ == QueryV::Category(self.id_view()),
    {
        Query::Category(String::from_str(self.id()))
    }
}

/// One page of the navigation bar.
#[derive(Clone, Copy, PartialEq, Eq, Structural, Debug)]
pub enum NavPage {
    Explore,
    Create,
    Work,
    Develop,
    Learn,
    Game,
    Relax,
    Socialize,
    Utilities,
    Installed,
    Updates,
}

impl Default for NavPage {
    /// The page the store opens on.
    fn default() -> (r: Self)
        ensures
            r == NavPage::Explore,
    {
        NavPage::Explore
    }
}

impl NavPage {
    /// Every navigation page, in display order.
    pub fn all() -> (r: Vec<NavPage>)
        ensures
            r@ == seq![
                NavPage::Explore,
                NavPage::Create,
                NavPage::Work,
                NavPage::Develop,
                NavPage::Learn,
                NavPage::Game,
                NavPage::Relax,
                NavPage::Socialize,
                NavPage::Utilities,
                NavPage::Installed,
                NavPage::Updates,
            ],
    {
        let mut r: Vec<NavPage> = Vec::new();
        r.push(NavPage::Explore);
        r.push(NavPage::Create);
        r.push(NavPage::Work);
        r.push(NavPage::Develop);
        r.push(NavPage::Learn);
        r.push(NavPage::Game);
        r.push(NavPage::Relax);
        r.push(NavPage::Socialize);
        r.push(NavPage::Utilities);
        r.push(NavPage::Installed);
        r.push(NavPage::Updates);
        proof {
            assert(r@ =~= seq![
                NavPage::Explore,
                NavPage::Create,
                NavPage::Work,
                NavPage::Develop,
                NavPage::Learn,
                NavPage::Game,
                NavPage::Relax,
                NavPage::Socialize,
                NavPage::Utilities,
                NavPage::Installed,
                NavPage::Updates,
            ]);
        }
        r
    }

    /// The category a navigation page browses, from the freedesktop menu
    /// specification; `None` for the pages that are no category listing.
    pub open spec fn category_view(self) -> Option<Category> {
        match self {
            NavPage::Create => Some(Category::Graphics),
            NavPage::Work => Some(Category::Office),
            NavPage::Develop => Some(Category::Development),
            NavPage::Learn => Some(Category::Education),
            NavPage::Game => Some(Category::Game),
            NavPage::Relax => Some(Category::AudioVideo),
            NavPage::Socialize => Some(Category::Network),
            NavPage::Utilities => Some(Category::Utility),
            _ => None,
        }
    }

    /// The category a navigation page browses, if any.
    pub fn category(&self) -> (r: Option<Category>)
        ensures
            r == self.category_view(),
    {
        match self {
            NavPage::Create => Some(Category::Graphics),
            NavPage::Work => Some(Category::Office),
            NavPage::Develop => Some(Category::Development),
            NavPage::Learn => Some(Category::Education),
            NavPage::Game => Some(Category::Game),
            NavPage::Relax => Some(Category::AudioVideo),
            NavPage::Socialize => Some(Category::Network),
            NavPage::Utilities => Some(Category::Utility),
            _ => None,
        }
    }
}

/// One curated section of the explore page.
#[derive(Clone, Copy, PartialEq, Eq, Structural, Debug)]
pub enum ExplorePage {
    EditorsChoice,
    PopularApps,
    NewApps,
    RecentlyUpdated,
}

/// The fixed editorial list of picks, best first.
pub open spec fn editors_choice_ids() -> Seq<Seq<char>> {
    seq![
        "com.slack.Slack"@,
        "org.telegram.desktop"@,
        "org.gnome.meld"@,
        "com.valvesoftware.Steam"@,
        "net.lutris.Lutris"@,
        "com.mattermost.Desktop"@,
        "com.visualstudio.code"@,
        "com.spotify.Client"@,
        "virt-manager"@,
        "org.signal.Signal"@,
        "org.chromium.Chromium"@,
    ]
}

/// The fixed editorial list of picks, best first.
pub fn editors_choice() -> (r: Vec<String>)
    ensures
        seq_views(r@) == editors_choice_ids(),
{
    let mut r: Vec<String> = Vec::new();
    r.push(String::from_str("com.slack.Slack"));
    r.push(String::from_str("org.telegram.desktop"));
    r.push(String::from_str("org.gnome.meld"));
    r.push(String::from_str("com.valvesoftware.Steam"));
    r.push(String::from_str("net.lutris.Lutris"));
    r.push(String::from_str("com.mattermost.Desktop"));
    r.push(String::from_str("com.visualstudio.code"));
    r.push(String::from_str("com.spotify.Client"));
    r.push(String::from_str("virt-manager"));
    r.push(String::from_str("org.signal.Signal"));
    r.push(String::from_str("org.chromium.Chromium"));
    proof {
        assert(seq_views(r@) =~= editors_choice_ids());
    }
    r
}

impl ExplorePage {
    /// Every explore section, in display order.
    pub fn all() -> (r: Vec<ExplorePage>)
        ensures
            r@ == seq![
                ExplorePage::EditorsChoice,
                ExplorePage::PopularApps,
                ExplorePage::NewApps,
                ExplorePage::RecentlyUpdated,
            ],
    {
        let mut r: Vec<ExplorePage> = Vec::new();
        r.push(ExplorePage::EditorsChoice);
        r.push(ExplorePage::PopularApps);
        r.push(ExplorePage::NewApps);
        r.push(ExplorePage::RecentlyUpdated);
        proof {
            assert(r@ =~= seq![
                ExplorePage::EditorsChoice,
                ExplorePage::PopularApps,
                ExplorePage::NewApps,
                ExplorePage::RecentlyUpdated,
            ]);
        }
        r
    }

    /// The query of an explore section: the editorial list ranks the
    /// editors' choice page, popularity ranks the popular page, and the
    /// remaining sections are not yet scored, so their result sets stay
    /// empty.
    pub open spec fn query_view(self) -> QueryV {
        match self {
            ExplorePage::EditorsChoice => QueryV::Editorial(editors_choice_ids()),
            ExplorePage::PopularApps => QueryV::Popularity,
            _ => QueryV::Nothing,
        }
    }

    /// The query of an explore section.
    pub fn query(&self) -> (r: Query)
        ensures
            r@ == self.query_view(),
    {
        match self {
            ExplorePage::EditorsChoice => Query::Editorial(editors_choice()),
            ExplorePage::PopularApps => Query::Popularity,
            _ => Query::Nothing,
        }
    }
}

} // verus!
