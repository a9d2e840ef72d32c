use furrctorio::dependency::{FModDependecies, FModPreffix};
use furrctorio::error::Error;
use furrctorio::versions::VersionRange;

fn range(op: &str, ver: &str) -> VersionRange {
    VersionRange { op: op.to_string(), ver: ver.to_string() }
}

#[test]
fn test_fmod_dependencies_from_str() {
    let dep = FModDependecies::from_str("base >= 0.18.27").unwrap();
    assert_eq!(dep.name, "base");
    assert_eq!(dep.required_version, Some(range(">=", "0.18.27")));
    assert_eq!(dep.preffix, FModPreffix::Required);

    let dep = FModDependecies::from_str("! other_mod").unwrap();
    assert_eq!(dep.name, "other_mod");
    assert_eq!(dep.preffix, FModPreffix::Incompatible);

    let dep = FModDependecies::from_str("? optional_mod").unwrap();
    assert_eq!(dep.name, "optional_mod");
    assert_eq!(dep.preffix, FModPreffix::Optional);

    let dep = FModDependecies::from_str("(?) hidden_optional_mod < 8.1").unwrap();
    assert_eq!(dep.name, "hidden_optional_mod");
    assert_eq!(dep.preffix, FModPreffix::HiddenOptional);

    let dep = FModDependecies::from_str("~ non_changing_mod").unwrap();
    assert_eq!(dep.name, "non_changing_mod");
    assert_eq!(dep.preffix, FModPreffix::NonChanging);

    assert!(FModDependecies::from_str("invalid_format coco uwu").is_err());
}

#[test]
fn test_fmod_preffix_from_str() {
    assert_eq!(FModPreffix::from_str("!").unwrap(), FModPreffix::Incompatible);
    assert_eq!(FModPreffix::from_str("?").unwrap(), FModPreffix::Optional);
    assert_eq!(FModPreffix::from_str("(?)").unwrap(), FModPreffix::HiddenOptional);
    assert_eq!(FModPreffix::from_str("~").unwrap(), FModPreffix::NonChanging);
    assert_eq!(FModPreffix::from_str("").unwrap(), FModPreffix::Required);
    assert!(FModPreffix::from_str("invalid").is_err());
}

#[test]
fn four_token_line_parses_whole() {
    let dep = FModDependecies::from_str("? helper_mod >= 0.5.0").unwrap();
    assert_eq!(dep.name, "helper_mod");
    assert_eq!(dep.preffix, FModPreffix::Optional);
    assert_eq!(dep.required_version, Some(range(">=", "0.5.0")));
}

#[test]
fn malformed_lines_are_rejected() {
    assert!(matches!(
        FModDependecies::from_str("base"),
        Err(Error::ParcingError(_))
    ));
    assert!(matches!(FModDependecies::from_str(""), Err(Error::ParcingError(_))));
    assert!(matches!(
        FModDependecies::from_str("a b c d e"),
        Err(Error::ParcingError(_))
    ));
    assert!(matches!(
        FModDependecies::from_str("base >= not_a_version"),
        Err(Error::ParcingError(_))
    ));
    assert!(matches!(
        FModDependecies::from_str("% odd_marker"),
        Err(Error::InvalidPreffix(_))
    ));
    assert!(matches!(
        FModDependecies::from_str("% odd_marker >= 1.0.0"),
        Err(Error::InvalidPreffix(_))
    ));
}

#[test]
fn serialize_round_trips() {
    for line in [
        "base >= 0.18.27",
        "! other_mod",
        "? optional_mod",
        "(?) hidden_optional_mod < 8.1",
        "~ non_changing_mod",
        "? helper_mod >= 0.5.0",
    ] {
        let dep = FModDependecies::from_str(line).unwrap();
        let out = dep.serialize();
        assert_eq!(out, line);
        let back = FModDependecies::from_str(&out).unwrap();
        assert_eq!(back, dep);
    }
}

#[test]
fn serialize_forms() {
    let dep = FModDependecies {
        name: "base".to_string(),
        required_version: Some(range(">=", "0.18.27")),
        preffix: FModPreffix::Required,
    };
    assert_eq!(dep.serialize(), "base >= 0.18.27");

    let dep = FModDependecies {
        name: "other_mod".to_string(),
        required_version: None,
        preffix: FModPreffix::Incompatible,
    };
    assert_eq!(dep.serialize(), "! other_mod");

    let dep = FModDependecies {
        name: "m".to_string(),
        required_version: Some(range("<", "8.1")),
        preffix: FModPreffix::HiddenOptional,
    };
    assert_eq!(dep.serialize(), "(?) m < 8.1");
}

#[test]
fn markers_render() {
    assert_eq!(FModPreffix::Required.marker(), "");
    assert_eq!(FModPreffix::Incompatible.marker(), "!");
    assert_eq!(FModPreffix::Optional.marker(), "?");
    assert_eq!(FModPreffix::HiddenOptional.marker(), "(?)");
    assert_eq!(FModPreffix::NonChanging.marker(), "~");
}

#[test]
fn tokenize_splits_on_whitespace() {
    assert_eq!(furrctorio::text::tokenize("a  b\tc"), vec!["a", "b", "c"]);
    assert_eq!(furrctorio::text::tokenize("  lead and trail  "), vec!["lead", "and", "trail"]);
    assert_eq!(furrctorio::text::tokenize(""), Vec::<String>::new());
    assert_eq!(furrctorio::text::tokenize(" \t "), Vec::<String>::new());
    assert_eq!(furrctorio::text::tokenize("one\r\ntwo"), vec!["one", "two"]);
}

#[test]
fn version_range_validates_on_construction() {
    assert!(VersionRange::new(">=".to_string(), "0.18.27".to_string()).is_ok());
    assert!(VersionRange::new("xx".to_string(), "yy".to_string()).is_err());
}
