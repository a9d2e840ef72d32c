//! The mod snapshots the service hands back: a short summary or the
//! full detail with the release history.
use crate::release::{clone_opt_release, clone_releases, rel_eq, rels_eq, FModRelease};
use vstd::prelude::*;

verus! {

/// The tags that categorize a mod.
#[derive(Debug, PartialEq, Eq, Structural, Clone, Copy)]
pub enum FModTag {
    Transportation,
    Logistics,
    Trains,
    Combat,
    Armor,
    Enemies,
    Environment,
    Mining,
    Fluids,
    LogisticNetwork,
    CircuitNetwork,
    Manufacturing,
    Power,
    Storage,
    Blueprints,
    Cheats,
}

/// The single category describing a mod's purpose and scope.
#[derive(Debug, PartialEq, Eq, Structural, Clone, Copy)]
pub enum FModCategory {
    NoCategory,
    Content,
    Overhaul,
    Tweaks,
    Utilities,
    Scenarios,
    ModPacks,
    Localizations,
    Internal,
}

impl Default for FModCategory {
    fn default() -> (r: Self)
        ensures
            r == FModCategory::NoCategory,
    {
        FModCategory::NoCategory
    }
}

/// The license that applies to a mod.
#[derive(Debug, PartialEq, Eq)]
pub struct License {
    /// A short description of the license.
    pub description: String,
    /// The unique id of the license.
    pub id: String,
    /// The internal name of the license.
    pub name: String,
    /// The human-readable title of the license.
    pub title: String,
    /// Usually the address of the full license text.
    pub url: Option<String>,
}

impl Clone for License {
    fn clone(&self) -> (r: Self)
        ensures
            r == *self,
    {
        License {
            description: self.description.clone(),
            id: self.id.clone(),
            name: self.name.clone(),
            title: self.title.clone(),
            url: match &self.url {
                Some(u) => Some(u.clone()),
                None => None,
            },
        }
    }
}

/// A short snapshot of a mod: identity and, depending on how it was
/// fetched, the newest release or the release list.
#[derive(Debug, PartialEq, Eq)]
pub struct FModShort {
    /// The newest release, when the service supplied it.
    pub latest_release: Option<FModRelease>,
    /// The total number of downloads.
    pub downloads_count: usize,
    /// The machine-readable ID string of the mod.
    pub name: String,
    /// The username of the mod's author.
    pub owner: String,
    /// The releases, when the service supplied them.
    pub releases: Vec<FModRelease>,
    /// A shorter description of the mod.
    pub summary: String,
    /// The human-readable name of the mod.
    pub title: String,
    /// The single category describing the mod.
    pub category: String,
    /// The relative path of the mod's thumbnail.
    pub thumbnail: Option<String>,
}

/// Equality of short snapshots, releases compared by their contents.
pub open spec fn short_eq(a: FModShort, b: FModShort) -> bool {
    &&& match (a.latest_release, b.latest_release) {
        (Some(x), Some(y)) => rel_eq(x, y),
        (None, None) => true,
        _ => false,
    }
    &&& a.downloads_count == b.downloads_count
    &&& a.name == b.name
    &&& a.owner == b.owner
    &&& rels_eq(a.releases@, b.releases@)
    &&& a.summary == b.summary
    &&& a.title == b.title
    &&& a.category == b.category
    &&& a.thumbnail == b.thumbnail
}

impl Clone for FModShort {
    fn clone(&self) -> (r: Self)
        ensures
            short_eq(r, *self),
    {
        FModShort {
            latest_release: clone_opt_release(&self.latest_release),
            downloads_count: self.downloads_count,
            name: self.name.clone(),
            owner: self.owner.clone(),
            releases: clone_releases(&self.releases),
            summary: self.summary.clone(),
            title: self.title.clone(),
            category: self.category.clone(),
            thumbnail: match &self.thumbnail {
                Some(t) => Some(t.clone()),
                None => None,
            },
        }
    }
}

/// The full detail of a mod, release history included.
#[derive(Debug, PartialEq, Eq)]
pub struct FModFull {
    /// The total number of downloads.
    pub downloads_count: usize,
    /// The machine-readable ID string of the mod.
    pub name: String,
    /// The username of the mod's author.
    pub owner: String,
    /// The releases of the mod.
    pub releases: Vec<FModRelease>,
    /// A shorter description of the mod.
    pub summary: String,
    /// The human-readable name of the mod.
    pub title: String,
    /// The single category describing the mod.
    pub category: String,
    /// The relative path of the mod's thumbnail.
    pub thumbnail: Option<String>,
    /// The recent changes to the mod.
    pub changelog: String,
    /// When the mod was created, as seconds since the Unix epoch.
    pub created_at: i64,
    /// A longer, text-only description.
    pub description: Option<String>,
    /// The address of the mod's source code.
    pub source_url: Option<String>,
    /// The mod's project page path; superseded by `source_url`.
    pub github_path: String,
    /// Usually the address of the mod's main project page.
    pub homepage: Option<String>,
    /// The tags that categorize the mod.
    pub tags: Vec<FModTag>,
    /// The license that applies to the mod.
    pub license: License,
    /// Whether the owner marked the mod deprecated; absent when false.
    pub deprecated: Option<bool>,
}

/// Equality of full details, releases compared by their contents.
pub open spec fn full_eq(a: FModFull, b: FModFull) -> bool {
    &&& a.downloads_count == b.downloads_count
    &&& a.name == b.name
    &&& a.owner == b.owner
    &&& rels_eq(a.releases@, b.releases@)
    &&& a.summary == b.summary
    &&& a.title == b.title
    &&& a.category == b.category
    &&& a.thumbnail == b.thumbnail
    &&& a.changelog == b.changelog
    &&& a.created_at == b.created_at
    &&& a.description == b.description
    &&& a.source_url == b.source_url
    &&& a.github_path == b.github_path
    &&& a.homepage == b.homepage
    &&& a.tags@ == b.tags@
    &&& a.license == b.license
    &&& a.deprecated == b.deprecated
}

impl Clone for FModFull {
    fn clone(&self) -> (r: Self)
        ensures
            full_eq(r, *self),
    {
        let mut tags: Vec<FModTag> = Vec::new();
        let mut i: usize = 0;
        while i < self.tags.len()
            invariant
                i <= self.tags@.len(),
                tags@ =~= self.tags@.take(i as int),
            decreases self.tags@.len() - i,
        {
            tags.push(self.tags[i]);
            i = i + 1;
        }
        proof {
            assert(self.tags@.take(self.tags@.len() as int) =~= self.tags@);
        }
        FModFull {
            downloads_count: self.downloads_count,
            name: self.name.clone(),
            owner: self.owner.clone(),
            releases: clone_releases(&self.releases),
            summary: self.summary.clone(),
            title: self.title.clone(),
            category: self.category.clone(),
            thumbnail: match &self.thumbnail {
                Some(t) => Some(t.clone()),
                None => None,
            },
            changelog: self.changelog.clone(),
            created_at: self.created_at,
            description: match &self.description {
                Some(t) => Some(t.clone()),
                None => None,
            },
            source_url: match &self.source_url {
                Some(t) => Some(t.clone()),
                None => None,
            },
            github_path: self.github_path.clone(),
            homepage: match &self.homepage {
                Some(t) => Some(t.clone()),
                None => None,
            },
            tags,
            license: self.license.clone(),
            deprecated: self.deprecated,
        }
    }
}

/// A mod as the library holds it: a short snapshot or the full detail.
#[derive(Debug, PartialEq, Eq)]
pub enum FMod {
    Short(FModShort),
    Full(FModFull),
}

/// The name of a mod, whichever form it is in.
pub open spec fn spec_fmod_name(m: FMod) -> Seq<char> {
    match m {
        FMod::Short(s) => s.name@,
        FMod::Full(f) => f.name@,
    }
}

impl FMod {
    /// The name of the mod.
    pub fn name(&self) -> (r: &str)
        ensures
            r@ == spec_fmod_name(*self),
    {
        match self {
            FMod::Short(m) => m.name.as_str(),
            FMod::Full(m) => m.name.as_str(),
        }
    }

    /// The short snapshot of the mod: itself when short, and the full
    /// detail cut down otherwise, its first release standing as the
    /// latest.
    pub fn short(&self) -> (r: FModShort)
        ensures
            match self {
                FMod::Short(m) => short_eq(r, *m),
                FMod::Full(m) => {
                    &&& match r.latest_release {
                        Some(x) => m.releases@.len() > 0 && rel_eq(x, m.releases@[0]),
                        None => m.releases@.len() == 0,
                    }
                    &&& r.downloads_count == m.downloads_count
                    &&& r.name == m.name
                    &&& r.owner == m.owner
                    &&& rels_eq(r.releases@, m.releases@)
                    &&& r.summary == m.summary
                    &&& r.title == m.title
                    &&& r.category == m.category
                    &&& r.thumbnail == m.thumbnail
                },
            },
    {
        match self {
            FMod::Short(m) => m.clone(),
            FMod::Full(m) => FModShort {
                latest_release: if m.releases.len() > 0 {
                    Some(m.releases[0].clone())
                } else {
                    None
                },
                downloads_count: m.downloads_count,
                name: m.name.clone(),
                owner: m.owner.clone(),
                releases: clone_releases(&m.releases),
                summary: m.summary.clone(),
                title: m.title.clone(),
                category: m.category.clone(),
                thumbnail: match &m.thumbnail {
                    Some(t) => Some(t.clone()),
                    None => None,
                },
            },
        }
    }
}

} // verus!
