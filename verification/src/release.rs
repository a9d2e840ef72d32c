//! One downloadable release of a mod: its file identity, version token,
//! declared checksum and metadata.
use crate::dependency::FModDependecies;
use crate::error::Error;
use crate::hash::{sha1_digest_hex, sha1_hex};
use crate::text::{lemma_lower_id, lower, spec_lower, str_eq};
use crate::versions::{spec_matches, VersionEncapsulate, VersionRange};
use vstd::prelude::*;

verus! {

/// The release timestamp a defaulted record carries: the first moment
/// of 2023, as seconds since the Unix epoch.
pub const DEFAULT_RELEASED_AT: i64 = 1672531200;

/// The metadata a release's archive declares about itself.
#[derive(Debug, PartialEq, Eq)]
pub struct InfoJSON {
    /// The name of the mod.
    pub name: Option<String>,
    /// The version of the mod.
    pub version: Option<VersionEncapsulate>,
    /// The human-readable title of the mod.
    pub title: Option<String>,
    /// The author of the mod.
    pub author: Option<String>,
    /// The Factorio version the mod is compatible with.
    pub factorio_version: Option<String>,
    /// The dependencies the mod declares.
    pub dependencies: Vec<FModDependecies>,
}

impl Default for InfoJSON {
    fn default() -> (r: Self)
        ensures
            r.name is None,
            r.version is None,
            r.title is None,
            r.author is None,
            r.factorio_version is None,
            r.dependencies@.len() == 0,
    {
        InfoJSON {
            name: None,
            version: None,
            title: None,
            author: None,
            factorio_version: None,
            dependencies: Vec::new(),
        }
    }
}

/// Equality of release metadata, the dependency vector compared by its
/// contents.
pub open spec fn info_eq(a: InfoJSON, b: InfoJSON) -> bool {
    a.name == b.name && a.version == b.version && a.title == b.title && a.author == b.author
        && a.factorio_version == b.factorio_version && a.dependencies@ == b.dependencies@
}

/// Equality of releases, metadata compared by [`info_eq`].
pub open spec fn rel_eq(a: FModRelease, b: FModRelease) -> bool {
    a.download_url == b.download_url && a.file_name == b.file_name && info_eq(
        a.info_json,
        b.info_json,
    ) && a.released_at == b.released_at && a.version == b.version && a.sha1 == b.sha1
}

impl Clone for InfoJSON {
    fn clone(&self) -> (r: Self)
        ensures
            info_eq(r, *self),
    {
        let mut deps: Vec<FModDependecies> = Vec::new();
        let mut i: usize = 0;
        while i < self.dependencies.len()
            invariant
                i <= self.dependencies@.len(),
                deps@ =~= self.dependencies@.take(i as int),
            decreases self.dependencies@.len() - i,
        {
            deps.push(self.dependencies[i].clone());
            i = i + 1;
        }
        proof {
            assert(self.dependencies@.take(self.dependencies@.len() as int) =~= self.dependencies@);
        }
        let r = InfoJSON {
            name: clone_opt_string(&self.name),
            version: match &self.version {
                Some(v) => Some(v.clone()),
                None => None,
            },
            title: clone_opt_string(&self.title),
            author: clone_opt_string(&self.author),
            factorio_version: clone_opt_string(&self.factorio_version),
            dependencies: deps,
        };
        r
    }
}

/// Clones an optional string, keeping its content.
fn clone_opt_string(s: &Option<String>) -> (r: Option<String>)
    ensures
        r == *s,
{
    match s {
        Some(t) => Some(t.clone()),
        None => None,
    }
}

/// One release of a mod.
#[derive(Debug, PartialEq, Eq)]
pub struct FModRelease {
    /// The path of the release's download, relative to the mod portal.
    pub download_url: String,
    /// The file name of the release's archive.
    pub file_name: String,
    /// The metadata the archive declares.
    pub info_json: InfoJSON,
    /// When the release was published, as seconds since the Unix epoch.
    pub released_at: i64,
    /// The version of the release.
    pub version: VersionEncapsulate,
    /// The declared SHA-1 checksum of the archive, 40 hexadecimal
    /// characters of either case.
    pub sha1: String,
}

impl Clone for FModRelease {
    fn clone(&self) -> (r: Self)
        ensures
            rel_eq(r, *self),
    {
        FModRelease {
            download_url: self.download_url.clone(),
            file_name: self.file_name.clone(),
            info_json: self.info_json.clone(),
            released_at: self.released_at,
            version: self.version.clone(),
            sha1: self.sha1.clone(),
        }
    }
}

impl Default for FModRelease {
    fn default() -> (r: Self)
        ensures
            r.download_url@.len() == 0,
            r.file_name@.len() == 0,
            r.released_at == DEFAULT_RELEASED_AT,
            (r.version matches VersionEncapsulate::Version { major, minor, patch, pre, build }
                && major == 0 && minor == 0 && patch == 0 && pre@.len() == 0 && build@.len() == 0),
            r.sha1@.len() == 0,
    {
        FModRelease {
            download_url: String::new(),
            file_name: String::new(),
            info_json: InfoJSON::default(),
            released_at: DEFAULT_RELEASED_AT,
            version: VersionEncapsulate::Version {
                major: 0,
                minor: 0,
                patch: 0,
                pre: String::new(),
                build: String::new(),
            },
            sha1: String::new(),
        }
    }
}

/// Equality of release sequences, element by element under [`rel_eq`].
pub open spec fn rels_eq(a: Seq<FModRelease>, b: Seq<FModRelease>) -> bool {
    a.len() == b.len() && forall|i: int| 0 <= i < a.len() ==> rel_eq(a[i], b[i])
}

/// Clones a release vector, keeping its contents.
pub fn clone_releases(v: &Vec<FModRelease>) -> (r: Vec<FModRelease>)
    ensures
        rels_eq(r@, v@),
{
    let mut r: Vec<FModRelease> = Vec::new();
    let mut i: usize = 0;
    while i < v.len()
        invariant
            i <= v@.len(),
            r@.len() == i,
            forall|k: int| 0 <= k < i ==> rel_eq(r@[k], v@[k]),
        decreases v@.len() - i,
    {
        r.push(v[i].clone());
        i = i + 1;
    }
    r
}

/// Clones an optional release, keeping its content.
pub fn clone_opt_release(v: &Option<FModRelease>) -> (r: Option<FModRelease>)
    ensures
        match (r, v) {
            (Some(a), Some(b)) => rel_eq(a, *b),
            (None, None) => true,
            _ => false,
        },
{
    match v {
        Some(x) => Some(x.clone()),
        None => None,
    }
}

impl FModRelease {
    /// Whether the downloaded bytes carry this release's declared
    /// checksum: the SHA-1 digest of the bytes, in lowercase hex, must
    /// equal the declared checksum after case normalization. Bytes whose
    /// digest is declared verbatim always pass.
    pub fn validate(&self, data: &Vec<u8>) -> (r: bool)
        ensures
            r == (spec_lower(self.sha1@) == sha1_hex(data@)),
            self.sha1@ == sha1_hex(data@) ==> r,
    {
        let digest = sha1_digest_hex(data);
        let declared = lower(self.sha1.as_str());
        let r = str_eq(declared.as_str(), digest.as_str());
        proof {
            if self.sha1@ == sha1_hex(data@) {
                lemma_lower_id(self.sha1@);
            }
        }
        r
    }

    /// Whether this release's version satisfies the requested range; a
    /// raw version token the legacy rewrite cannot reconcile is a hard
    /// error.
    pub fn match_version(&self, range: &VersionRange) -> (r: Result<bool, Error>)
        ensures
            match r {
                Ok(b) => spec_matches(range.op@, range.ver@, self.version) == Some(b),
                Err(e) => spec_matches(range.op@, range.ver@, self.version) is None && (
                e matches Error::VersionError(_)),
            },
    {
        range.matches(&self.version)
    }
}

} // verus!
