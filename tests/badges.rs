use db_dump::badges::{decode_badge, BadgeType, MaintenanceStatus, Row};
use db_dump::crates::CrateId;
use db_dump::error::Error;

fn strings(v: &[&str]) -> Vec<String> {
    v.iter().map(|s| s.to_string()).collect()
}

fn pairs(v: &[(&str, &str)]) -> Vec<(String, String)> {
    v.iter().map(|(a, b)| (a.to_string(), b.to_string())).collect()
}

fn appveyor_fields(b: &BadgeType) -> (String, Option<String>, Option<String>, Option<String>, Option<String>) {
    match b {
        BadgeType::Appveyor { repository, project_name, branch, service, id, .. } => (
            repository.clone(),
            project_name.clone(),
            branch.clone(),
            service.clone(),
            id.clone(),
        ),
        other => panic!("expected an appveyor badge, got {:?}", other),
    }
}

fn other_fields(b: &BadgeType) -> (String, Vec<(String, String)>) {
    match b {
        BadgeType::Other { badge_type, attributes } => (badge_type.clone(), attributes.clone()),
        other => panic!("expected an other badge, got {:?}", other),
    }
}

#[test]
fn maintenance_as_is() {
    let b = decode_badge("maintenance", r#"{"status":"as-is"}"#).unwrap();
    assert!(matches!(b, BadgeType::Maintenance { status: MaintenanceStatus::AsIs, .. }));
}

#[test]
fn maintenance_every_token() {
    let cases = [
        ("actively-developed", MaintenanceStatus::ActivelyDeveloped),
        ("as-is", MaintenanceStatus::AsIs),
        ("deprecated", MaintenanceStatus::Deprecated),
        ("experimental", MaintenanceStatus::Experimental),
        ("looking-for-maintainer", MaintenanceStatus::LookingForMaintainer),
        ("none", MaintenanceStatus::Unspecified),
        ("passively-maintained", MaintenanceStatus::PassivelyMaintained),
    ];
    for (token, expected) in cases {
        let blob = format!(r#"{{"status":"{}"}}"#, token);
        match decode_badge("maintenance", &blob).unwrap() {
            BadgeType::Maintenance { status, .. } => assert_eq!(status, expected),
            other => panic!("unexpected {:?}", other),
        }
    }
}

#[test]
fn maintenance_unknown_status_falls_back() {
    let b = decode_badge("maintenance", r#"{"status":"abandoned"}"#).unwrap();
    assert_eq!(other_fields(&b), ("maintenance".to_string(), pairs(&[("status", "abandoned")])));
}

#[test]
fn circle_ci_without_branch() {
    match decode_badge("circle-ci", r#"{"repository":"rust-lang/rust"}"#).unwrap() {
        BadgeType::CircleCi { repository, branch, .. } => {
            assert_eq!(repository, "rust-lang/rust");
            assert_eq!(branch, None);
        }
        other => panic!("unexpected {:?}", other),
    }
}

#[test]
fn circle_ci_null_branch_is_absent() {
    match decode_badge("circle-ci", r#"{"repository":"a/b","branch":null}"#).unwrap() {
        BadgeType::CircleCi { repository, branch, .. } => {
            assert_eq!(repository, "a/b");
            assert_eq!(branch, None);
        }
        other => panic!("unexpected {:?}", other),
    }
}

#[test]
fn circle_ci_extra_field_falls_back() {
    let b = decode_badge("circle-ci", r#"{"repository":"rust-lang/rust","bogus":"x"}"#).unwrap();
    assert_eq!(
        other_fields(&b),
        ("circle-ci".to_string(), pairs(&[("bogus", "x"), ("repository", "rust-lang/rust")]))
    );
}

#[test]
fn missing_required_field_falls_back() {
    let b = decode_badge("bitbucket-pipelines", r#"{"repository":"a/b"}"#).unwrap();
    assert_eq!(other_fields(&b), ("bitbucket-pipelines".to_string(), pairs(&[("repository", "a/b")])));
}

#[test]
fn null_required_field_is_an_error() {
    assert_eq!(decode_badge("gitlab", r#"{"repository":null}"#).unwrap_err(), Error::Attributes);
}

#[test]
fn unknown_tag_keeps_attributes() {
    let b = decode_badge("my-custom-badge", r#"{"foo":"bar"}"#).unwrap();
    assert_eq!(other_fields(&b), ("my-custom-badge".to_string(), pairs(&[("foo", "bar")])));
}

#[test]
fn tags_match_exactly() {
    let b = decode_badge("Circle-CI", r#"{"repository":"a/b"}"#).unwrap();
    assert_eq!(other_fields(&b), ("Circle-CI".to_string(), pairs(&[("repository", "a/b")])));
}

#[test]
fn unknown_tag_empty_object() {
    let b = decode_badge("x", "{}").unwrap();
    assert_eq!(other_fields(&b), ("x".to_string(), Vec::new()));
}

#[test]
fn bare_string_blob_is_an_error() {
    assert_eq!(decode_badge("gitlab", r#""not a mapping at all""#).unwrap_err(), Error::Attributes);
    assert_eq!(decode_badge("gitlab", "not a mapping at all").unwrap_err(), Error::Attributes);
    assert_eq!(decode_badge("my-custom-badge", "[1, 2]").unwrap_err(), Error::Attributes);
}

#[test]
fn number_value_is_an_error() {
    assert_eq!(decode_badge("circle-ci", r#"{"repository":7}"#).unwrap_err(), Error::Attributes);
}

#[test]
fn appveyor_alias_spellings_agree() {
    let a = decode_badge("appveyor", r#"{"repository":"r","project_name":"p"}"#).unwrap();
    let b = decode_badge("appveyor", r#"{"repository":"r","project-name":"p"}"#).unwrap();
    let expected = ("r".to_string(), Some("p".to_string()), None, None, None);
    assert_eq!(appveyor_fields(&a), expected);
    assert_eq!(appveyor_fields(&b), expected);
}

#[test]
fn appveyor_both_spellings_fall_back() {
    let b = decode_badge("appveyor", r#"{"repository":"r","project_name":"p","project-name":"q"}"#)
        .unwrap();
    assert_eq!(
        other_fields(&b),
        ("appveyor".to_string(), pairs(&[("project-name", "q"), ("project_name", "p"), ("repository", "r")]))
    );
}

#[test]
fn travis_all_fields() {
    let blob = r#"{"repository":"r","branch":"b","service":"s","master":"m","tld":"t"}"#;
    match decode_badge("travis-ci", blob).unwrap() {
        BadgeType::TravisCi { repository, branch, service, master, tld, .. } => {
            assert_eq!(repository, "r");
            assert_eq!(branch.as_deref(), Some("b"));
            assert_eq!(service.as_deref(), Some("s"));
            assert_eq!(master.as_deref(), Some("m"));
            assert_eq!(tld.as_deref(), Some("t"));
        }
        other => panic!("unexpected {:?}", other),
    }
}

#[test]
fn azure_devops_fields() {
    match decode_badge("azure-devops", r#"{"project":"p","pipeline":"q"}"#).unwrap() {
        BadgeType::AzureDevops { project, pipeline, build, .. } => {
            assert_eq!(project, "p");
            assert_eq!(pipeline, "q");
            assert_eq!(build, None);
        }
        other => panic!("unexpected {:?}", other),
    }
}

#[test]
fn decoding_twice_gives_equal_rows() {
    let headers = strings(&["crate_id", "badge_type", "attributes"]);
    let record = strings(&["12", "codecov", r#"{"repository":"a/b","service":"github"}"#]);
    let first = Row::from_record(&record, &headers).unwrap();
    let second = Row::from_record(&record, &headers).unwrap();
    assert_eq!(first.crate_id, second.crate_id);
    assert_eq!(format!("{:?}", first.badge_type), format!("{:?}", second.badge_type));
}

#[test]
fn row_from_record() {
    let headers = strings(&["attributes", "badge_type", "crate_id"]);
    let record = strings(&[r#"{"repository":"a/b"}"#, "gitlab", "42"]);
    let row = Row::from_record(&record, &headers).unwrap();
    assert_eq!(row.crate_id, CrateId(42));
    match row.badge_type {
        BadgeType::Gitlab { repository, branch, tag, .. } => {
            assert_eq!(repository, "a/b");
            assert_eq!(branch, None);
            assert_eq!(tag, None);
        }
        other => panic!("unexpected {:?}", other),
    }
}

#[test]
fn record_missing_attributes() {
    let headers = strings(&["crate_id", "badge_type"]);
    let record = strings(&["1", "gitlab"]);
    assert_eq!(Row::from_record(&record, &headers).unwrap_err(), Error::Record);
}

#[test]
fn record_with_extra_column() {
    let headers = strings(&["crate_id", "badge_type", "attributes", "extra"]);
    let record = strings(&["1", "gitlab", "{}", "x"]);
    assert_eq!(Row::from_record(&record, &headers).unwrap_err(), Error::Record);
}

#[test]
fn record_with_repeated_column() {
    let headers = strings(&["crate_id", "crate_id", "attributes"]);
    let record = strings(&["1", "2", "{}"]);
    assert_eq!(Row::from_record(&record, &headers).unwrap_err(), Error::Record);
}

#[test]
fn record_with_bad_owner() {
    let headers = strings(&["crate_id", "badge_type", "attributes"]);
    let record = strings(&["twelve", "gitlab", r#"{"repository":"a/b"}"#]);
    assert_eq!(Row::from_record(&record, &headers).unwrap_err(), Error::CrateId);
}

#[test]
fn record_with_bad_attributes() {
    let headers = strings(&["crate_id", "badge_type", "attributes"]);
    let record = strings(&["3", "gitlab", "nope"]);
    assert_eq!(Row::from_record(&record, &headers).unwrap_err(), Error::Attributes);
}
