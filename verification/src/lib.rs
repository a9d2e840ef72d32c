//! A client library for the Factorio mod portal, centred on its
//! dependency and release engine: parsing textual dependency
//! declarations, matching semantic-version constraints with the
//! ecosystem's legacy pre-1.0 encoding quirk, selecting the best
//! release from a candidate set, and verifying downloaded archives
//! against their declared SHA-1 checksum. The data model of mods,
//! releases, mod-lists and the local configuration lives here too;
//! the HTTP transport around it stays with the caller.

pub mod config;
pub mod constants;
pub mod context;
pub mod dependency;
pub mod error;
pub mod fmod;
pub mod hash;
pub mod modlist;
pub mod pagination;
pub mod release;
pub mod selector;
pub mod text;
pub mod versions;
