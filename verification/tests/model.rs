use furrctorio::config::Metadata;
use furrctorio::constants::FactorioVersions;
use furrctorio::context::Context;
use furrctorio::error::{APIError, Error};
use furrctorio::fmod::{FMod, FModFull, License};
use furrctorio::modlist::{ModEntry, ModList};
use furrctorio::release::{FModRelease, InfoJSON};
use furrctorio::versions::VersionEncapsulate;

#[test]
fn factorio_versions_render() {
    assert_eq!(FactorioVersions::V0_13.text(), "0.13");
    assert_eq!(FactorioVersions::V0_14.text(), "0.14");
    assert_eq!(FactorioVersions::V0_15.text(), "0.15");
    assert_eq!(FactorioVersions::V0_16.text(), "0.16");
    assert_eq!(FactorioVersions::V0_17.text(), "0.17");
    assert_eq!(FactorioVersions::V0_18.text(), "0.18");
    assert_eq!(FactorioVersions::V1_0.text(), "1.0");
    assert_eq!(FactorioVersions::V1_1.text(), "1.1");
    assert_eq!(FactorioVersions::Other("2.0".to_string()).text(), "2.0");
}

#[test]
fn api_error_text() {
    let e = APIError { message: "no such mod".to_string() };
    assert_eq!(e.text(), "no such mod");
    let wrapped = Error::APIError(e);
    assert!(matches!(wrapped, Error::APIError(_)));
}

#[test]
fn release_default_values() {
    let rel = FModRelease::default();
    assert_eq!(rel.download_url, "");
    assert_eq!(rel.file_name, "");
    assert_eq!(rel.released_at, furrctorio::release::DEFAULT_RELEASED_AT);
    assert_eq!(rel.sha1, "");
    match rel.version {
        VersionEncapsulate::Version { major, minor, patch, .. } => {
            assert_eq!((major, minor, patch), (0, 0, 0));
        }
        other => panic!("expected a parsed default version, got {:?}", other),
    }
    let info = InfoJSON::default();
    assert!(info.name.is_none());
    assert!(info.dependencies.is_empty());
}

#[test]
fn metadata_default_values() {
    let m = Metadata::default();
    match m.version {
        VersionEncapsulate::Version { major, minor, patch, .. } => {
            assert_eq!((major, minor, patch), (0, 1, 0));
        }
        other => panic!("expected a parsed schema version, got {:?}", other),
    }
    assert!(m.factorio_version.is_none());
    assert!(m.factorio_mod_folder.is_none());
}

fn sample_full(name: &str) -> FModFull {
    FModFull {
        downloads_count: 15,
        name: name.to_string(),
        owner: "marshkip".to_string(),
        releases: vec![
            FModRelease {
                download_url: "/download/x/1".to_string(),
                file_name: "x_0.1.0.zip".to_string(),
                info_json: InfoJSON::default(),
                released_at: 100,
                version: VersionEncapsulate::of_text("0.1.0"),
                sha1: String::new(),
            },
            FModRelease {
                download_url: "/download/x/2".to_string(),
                file_name: "x_0.2.0.zip".to_string(),
                info_json: InfoJSON::default(),
                released_at: 200,
                version: VersionEncapsulate::of_text("0.2.0"),
                sha1: String::new(),
            },
        ],
        summary: "a mod".to_string(),
        title: "X".to_string(),
        category: "content".to_string(),
        thumbnail: None,
        changelog: String::new(),
        created_at: 0,
        description: None,
        source_url: None,
        github_path: String::new(),
        homepage: None,
        tags: Vec::new(),
        license: License {
            description: String::new(),
            id: String::new(),
            name: String::new(),
            title: String::new(),
            url: None,
        },
        deprecated: None,
    }
}

#[test]
fn fmod_name_and_short() {
    let full = sample_full("015_like_infinite_research");
    let m = FMod::Full(full);
    assert_eq!(m.name(), "015_like_infinite_research");
    let short = m.short();
    assert_eq!(short.name, "015_like_infinite_research");
    assert_eq!(short.owner, "marshkip");
    assert_eq!(short.downloads_count, 15);
    assert_eq!(short.releases.len(), 2);
    let latest = short.latest_release.clone().expect("first release stands as latest");
    assert_eq!(latest.file_name, "x_0.1.0.zip");

    let again = FMod::Short(short.clone());
    assert_eq!(again.name(), "015_like_infinite_research");
    assert_eq!(again.short(), short);
}

#[test]
fn short_without_releases_has_no_latest() {
    let mut full = sample_full("empty_mod");
    full.releases = Vec::new();
    let short = FMod::Full(full).short();
    assert!(short.latest_release.is_none());
    assert!(short.releases.is_empty());
}

#[test]
fn modlist_names_in_order() {
    let mlist = ModList {
        mods: vec![
            ModEntry { name: "fcpu".to_string(), enabled: true },
            ModEntry { name: "flib".to_string(), enabled: false },
            ModEntry { name: "helmod".to_string(), enabled: true },
        ],
    };
    assert_eq!(mlist.names(), vec!["fcpu", "flib", "helmod"]);
}

#[test]
fn context_carries_credentials() {
    let ctx = Context::new("user".to_string(), "token".to_string());
    assert_eq!(ctx.username, "user");
    assert_eq!(ctx.token, "token");
    let c2 = ctx.clone();
    assert_eq!(c2, ctx);
}
