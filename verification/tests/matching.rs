use furrctorio::error::Error;
use furrctorio::versions::{rewrite_legacy, VersionEncapsulate, VersionRange};

fn range(op: &str, ver: &str) -> VersionRange {
    VersionRange::new(op.to_string(), ver.to_string()).unwrap()
}

#[test]
fn matching_is_consistent() {
    let rng = range(">=", "1.0.0");
    let hit = VersionEncapsulate::of_text("1.0.0");
    let miss = VersionEncapsulate::of_text("0.9.9");
    assert_eq!(rng.matches(&hit).unwrap(), true);
    assert_eq!(rng.matches(&miss).unwrap(), false);
}

#[test]
fn legacy_quirk_is_equivalent() {
    let low = range(">=", "0.0.5").matches(&VersionEncapsulate::of_text("0.0.7")).unwrap();
    let high = range(">=", "0.1.5").matches(&VersionEncapsulate::of_text("0.1.7")).unwrap();
    assert_eq!(low, high);
    assert!(low);
}

#[test]
fn raw_token_goes_through_the_rewrite() {
    let rng = range(">=", "0.0.5");
    let raw = VersionEncapsulate::Raw("0.0.7".to_string());
    assert_eq!(rng.matches(&raw).unwrap(), true);

    let rng = range(">=", "0.0.9");
    assert_eq!(rng.matches(&raw).unwrap(), false);
}

#[test]
fn unreconcilable_raw_token_is_a_hard_error() {
    let rng = range(">=", "1.0.0");
    let raw = VersionEncapsulate::Raw("banana".to_string());
    assert!(matches!(rng.matches(&raw), Err(Error::VersionError(_))));
}

#[test]
fn rewrite_applies_to_the_leading_prefix_only() {
    assert_eq!(rewrite_legacy("0.0.5").unwrap(), "0.1.5");
    assert_eq!(rewrite_legacy("0.0.0.0").unwrap(), "0.1.0.0");
    assert!(rewrite_legacy("1.0.0").is_none());
    assert!(rewrite_legacy("0.1.5").is_none());
    assert!(rewrite_legacy("0.0").is_none());
}

#[test]
fn of_text_reads_strict_semver() {
    match VersionEncapsulate::of_text("1.2.3") {
        VersionEncapsulate::Version { major, minor, patch, pre, build } => {
            assert_eq!((major, minor, patch), (1, 2, 3));
            assert_eq!(pre, "");
            assert_eq!(build, "");
        }
        other => panic!("expected a parsed version, got {:?}", other),
    }
    match VersionEncapsulate::of_text("1.2.3-alpha.1+b5") {
        VersionEncapsulate::Version { pre, build, .. } => {
            assert_eq!(pre, "alpha.1");
            assert_eq!(build, "b5");
        }
        other => panic!("expected a parsed version, got {:?}", other),
    }
    match VersionEncapsulate::of_text("0.18") {
        VersionEncapsulate::Raw(s) => assert_eq!(s, "0.18"),
        other => panic!("expected a raw token, got {:?}", other),
    }
}

#[test]
fn canonical_rendering() {
    assert_eq!(furrctorio::versions::canon_version(1, 2, 3, "", ""), "1.2.3");
    assert_eq!(furrctorio::versions::canon_version(0, 18, 27, "", ""), "0.18.27");
    assert_eq!(
        furrctorio::versions::canon_version(10, 0, 250, "alpha.1", "b5"),
        "10.0.250-alpha.1+b5"
    );
}

#[test]
fn decimal_rendering() {
    assert_eq!(furrctorio::text::u64_to_dec(0), "0");
    assert_eq!(furrctorio::text::u64_to_dec(7), "7");
    assert_eq!(furrctorio::text::u64_to_dec(18446744073709551615), "18446744073709551615");
}

#[test]
fn lowercasing() {
    assert_eq!(furrctorio::text::lower("AbC19f"), "abc19f");
    assert_eq!(furrctorio::text::lower(""), "");
}
