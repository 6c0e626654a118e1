//! Immutable application metadata shared by packages, search results and
//! operations.

use vstd::prelude::*;

verus! {

/// Monthly-download counts are kept below `1 << 56` so that the packed search
/// weight `(tier << 56) - downloads` can never move a result across a tier
/// boundary.
pub const DOWNLOADS_LIMIT: u64 = 0x100_0000_0000_0000;

/// One screenshot descriptor: where to fetch the image and its caption.
pub struct Screenshot {
    pub url: String,
    pub caption: String,
}

/// Mathematical image of a `Screenshot`.
pub ghost struct ScreenshotV {
    pub url: Seq<char>,
    pub caption: Seq<char>,
}

impl View for Screenshot {
    type V = ScreenshotV;

    open spec fn view(&self) -> ScreenshotV {
        ScreenshotV { url: self.url@, caption: self.caption@ }
    }
}

impl Clone for Screenshot {
    fn clone(&self) -> (r: Self)
        ensures
            r == *self,
    {
        Screenshot { url: self.url.clone(), caption: self.caption.clone() }
    }
}

/// Descriptive metadata for one application, never mutated after creation.
pub struct AppInfo {
    /// Display name.
    pub name: String,
    /// One-line summary.
    pub summary: String,
    /// Long description.
    pub description: String,
    /// Provenance identifier of the source the metadata was loaded from.
    pub source_id: String,
    /// Human-readable name of that source.
    pub source_name: String,
    /// Category tags.
    pub categories: Vec<String>,
    /// Desktop-launch identifiers.
    pub desktop_ids: Vec<String>,
    /// Unsigned popularity metric.
    pub monthly_downloads: u64,
    /// Ordered screenshot descriptors.
    pub screenshots: Vec<Screenshot>,
}

/// Mathematical image of an `AppInfo`.
pub ghost struct AppInfoV {
    pub name: Seq<char>,
    pub summary: Seq<char>,
    pub description: Seq<char>,
    pub source_id: Seq<char>,
    pub source_name: Seq<char>,
    pub categories: Seq<Seq<char>>,
    pub desktop_ids: Seq<Seq<char>>,
    pub monthly_downloads: u64,
    pub screenshots: Seq<ScreenshotV>,
}

/// The views of a sequence of strings.
pub open spec fn seq_views(s: Seq<String>) -> Seq<Seq<char>> {
    s.map_values(|x: String| x@)
}

impl View for AppInfo {
    type V = AppInfoV;

    open spec fn view(&self) -> AppInfoV {
        AppInfoV {
            name: self.name@,
            summary: self.summary@,
            description: self.description@,
            source_id: self.source_id@,
            source_name: self.source_name@,
            categories: seq_views(self.categories@),
            desktop_ids: seq_views(self.desktop_ids@),
            monthly_downloads: self.monthly_downloads,
            screenshots: self.screenshots@.map_values(|s: Screenshot| s@),
        }
    }
}

impl AppInfoV {
    /// Every catalog entry the ranking engine accepts keeps its popularity
    /// metric below the packing headroom.
    pub open spec fn wf(self) -> bool {
        self.monthly_downloads < DOWNLOADS_LIMIT
    }
}

impl Clone for AppInfo {
    fn clone(&self) -> (r: Self)
        ensures
            r@ == self@,
    {
        let r = AppInfo {
            name: self.name.clone(),
            summary: self.summary.clone(),
            description: self.description.clone(),
            source_id: self.source_id.clone(),
            source_name: self.source_name.clone(),
            categories: self.categories.clone(),
            desktop_ids: self.desktop_ids.clone(),
            monthly_downloads: self.monthly_downloads,
            screenshots: self.screenshots.clone(),
        };
        proof {
            assert(r.categories@ =~= self.categories@);
            assert(r.desktop_ids@ =~= self.desktop_ids@);
            assert(r.screenshots@ =~= self.screenshots@);
            assert(r@ =~~= self@);
        }
        r
    }
}

} // verus!
