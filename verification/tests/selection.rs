use furrctorio::config::ConfigModEntry;
use furrctorio::dependency::{FModDependecies, FModPreffix};
use furrctorio::error::Error;
use furrctorio::release::{FModRelease, InfoJSON};
use furrctorio::selector::select_best;
use furrctorio::versions::{VersionEncapsulate, VersionRange};

fn release(version: &str, released_at: i64, file_name: &str) -> FModRelease {
    FModRelease {
        download_url: String::new(),
        file_name: file_name.to_string(),
        info_json: InfoJSON::default(),
        released_at,
        version: VersionEncapsulate::of_text(version),
        sha1: String::new(),
    }
}

fn range(op: &str, ver: &str) -> VersionRange {
    VersionRange::new(op.to_string(), ver.to_string()).unwrap()
}

#[test]
fn selection_is_monotonic() {
    let releases = vec![
        release("1.0.0", 1, "a"),
        release("1.2.0", 2, "b"),
        release("2.0.0", 3, "c"),
    ];
    let rng = range("<", "2.0.0");
    let best = select_best(&releases, Some(&rng)).unwrap().unwrap();
    assert_eq!(best.file_name, "b");

    let best = select_best(&releases, None).unwrap().unwrap();
    assert_eq!(best.file_name, "c");
}

#[test]
fn selection_order_does_not_matter_for_the_version() {
    let releases = vec![
        release("2.0.0", 3, "c"),
        release("1.0.0", 1, "a"),
        release("1.2.0", 2, "b"),
    ];
    let best = select_best(&releases, None).unwrap().unwrap();
    assert_eq!(best.file_name, "c");
}

#[test]
fn empty_filter_is_not_an_error() {
    let releases = vec![release("1.0.0", 1, "a")];
    let rng = range(">=", "2.0.0");
    assert_eq!(select_best(&releases, Some(&rng)).unwrap(), None);
    assert_eq!(select_best(&Vec::new(), None).unwrap(), None);
}

#[test]
fn equal_versions_take_the_later_release() {
    let releases = vec![release("1.0.0", 5, "early"), release("1.0.0", 9, "late")];
    let best = select_best(&releases, None).unwrap().unwrap();
    assert_eq!(best.file_name, "late");
}

#[test]
fn full_ties_keep_the_first_seen() {
    let releases = vec![release("1.0.0", 5, "first"), release("1.0.0", 5, "second")];
    let best = select_best(&releases, None).unwrap().unwrap();
    assert_eq!(best.file_name, "first");
}

#[test]
fn pre_release_ranks_below_the_untagged_version() {
    let releases = vec![release("1.0.0-alpha", 9, "tagged"), release("1.0.0", 1, "plain")];
    let best = select_best(&releases, None).unwrap().unwrap();
    assert_eq!(best.file_name, "plain");

    let releases = vec![release("1.0.0-alpha", 1, "a"), release("1.0.0-beta", 1, "b")];
    let best = select_best(&releases, None).unwrap().unwrap();
    assert_eq!(best.file_name, "b");
}

#[test]
fn raw_versions_order_through_the_rewrite() {
    let releases = vec![
        release("0.0.2", 1, "low"),
        {
            let mut r = release("1.0.0", 2, "rawhigh");
            r.version = VersionEncapsulate::Raw("0.0.9".to_string());
            r
        },
    ];
    let best = select_best(&releases, None).unwrap().unwrap();
    assert_eq!(best.file_name, "rawhigh");
}

#[test]
fn unorderable_raw_version_is_a_hard_error() {
    let mut bad = release("1.0.0", 1, "bad");
    bad.version = VersionEncapsulate::Raw("banana".to_string());
    let releases = vec![bad];
    assert!(matches!(select_best(&releases, None), Err(Error::VersionError(_))));
}

#[test]
fn end_to_end_dependency_resolution() {
    let dep = FModDependecies::from_str("? helper_mod >= 0.5.0").unwrap();
    assert_eq!(dep.name, "helper_mod");
    assert_eq!(dep.preffix, FModPreffix::Optional);
    let rng = dep.required_version.unwrap();
    assert_eq!(rng.op, ">=");
    assert_eq!(rng.ver, "0.5.0");

    let releases = vec![
        release("0.4.0", 1, "a"),
        release("0.6.0", 2, "b"),
        release("0.9.0", 3, "c"),
    ];
    let best = select_best(&releases, Some(&rng)).unwrap().unwrap();
    assert_eq!(best.file_name, "c");
}

#[test]
fn find_release_prefers_the_marked_latest() {
    let entry = ConfigModEntry::new("stdlib".to_string(), range(">=", "1.0.0"), true);
    let latest = Some(release("0.1.0", 1, "marked"));
    let releases = vec![release("9.9.9", 9, "big")];
    let got = entry.find_release(&latest, &releases).unwrap().unwrap();
    assert_eq!(got.file_name, "marked");

    let got = entry.find_release(&None, &releases).unwrap().unwrap();
    assert_eq!(got.file_name, "big");

    let empty: Vec<FModRelease> = Vec::new();
    assert_eq!(entry.find_release(&None, &empty).unwrap(), None);
}

#[test]
fn match_version_on_a_release() {
    let rel = release("1.2.0", 1, "a");
    assert_eq!(rel.match_version(&range(">=", "1.0.0")).unwrap(), true);
    assert_eq!(rel.match_version(&range("<", "1.0.0")).unwrap(), false);
}
