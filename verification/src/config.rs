//! The local configuration: metadata and the configured mods, each with
//! the version range it is wanted at.
use crate::error::Error;
use crate::release::FModRelease;
use crate::selector::{pick_release, rng_view, select_post};
use crate::versions::{VersionEncapsulate, VersionRange};
use vstd::prelude::*;

verus! {

/// The configuration's own metadata.
#[derive(Debug, PartialEq, Eq)]
pub struct Metadata {
    /// The version of the configuration schema.
    pub version: VersionEncapsulate,
    /// The Factorio version the configuration targets, when set.
    pub factorio_version: Option<VersionEncapsulate>,
    /// The mod folder the configuration installs into, when known.
    pub factorio_mod_folder: Option<String>,
}

impl Default for Metadata {
    fn default() -> (r: Self)
        ensures
            (r.version matches VersionEncapsulate::Version { major, minor, patch, pre, build }
                && major == 0 && minor == 1 && patch == 0 && pre@.len() == 0 && build@.len() == 0),
            r.factorio_version is None,
            r.factorio_mod_folder is None,
    {
        Metadata {
            version: VersionEncapsulate::Version {
                major: 0,
                minor: 1,
                patch: 0,
                pre: String::new(),
                build: String::new(),
            },
            factorio_version: None,
            factorio_mod_folder: None,
        }
    }
}

impl Clone for Metadata {
    fn clone(&self) -> (r: Self)
        ensures
            r == *self,
    {
        Metadata {
            version: self.version.clone(),
            factorio_version: match &self.factorio_version {
                Some(v) => Some(v.clone()),
                None => None,
            },
            factorio_mod_folder: match &self.factorio_mod_folder {
                Some(f) => Some(f.clone()),
                None => None,
            },
        }
    }
}

/// One configured mod: its name, the version range it is wanted at, and
/// whether it is enabled.
#[derive(Debug, PartialEq, Eq)]
pub struct ConfigModEntry {
    pub name: String,
    pub version: VersionRange,
    pub enabled: bool,
}

impl Clone for ConfigModEntry {
    fn clone(&self) -> (r: Self)
        ensures
            r == *self,
    {
        ConfigModEntry {
            name: self.name.clone(),
            version: self.version.clone(),
            enabled: self.enabled,
        }
    }
}

impl ConfigModEntry {
    /// Builds a configured mod entry.
    pub fn new(name: String, version: VersionRange, enabled: bool) -> (r: Self)
        ensures
            r.name == name,
            r.version == version,
            r.enabled == enabled,
    {
        ConfigModEntry { name, version, enabled }
    }

    /// The resolution step of finding this entry's release: the release
    /// the service marked latest when it supplied one, otherwise the
    /// best of the given releases under this entry's range. A caller
    /// fetches the snapshots and hands them in.
    pub fn find_release(
        &self,
        latest: &Option<FModRelease>,
        releases: &Vec<FModRelease>,
    ) -> (r: Result<Option<FModRelease>, Error>)
        ensures
            match latest {
                Some(l) => (r matches Ok(o) && o matches Some(x) && crate::release::rel_eq(
                    x,
                    *l,
                )),
                None => select_post(
                    releases@,
                    Some((self.version.op@, self.version.ver@)),
                    r,
                ),
            },
    {
        pick_release(latest, releases, Some(&self.version))
    }
}

/// The whole local configuration.
#[derive(Debug, PartialEq, Eq)]
pub struct FurrConfig {
    /// The configuration's own metadata.
    pub metadata: Metadata,
    /// The configured mods.
    pub mods: Vec<ConfigModEntry>,
}

} // verus!
