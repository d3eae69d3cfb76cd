use baker::constants::DEFAULT_GENERATED_FILE_NAME;
use baker::generated::{resolve_file_name, rfc3339_timestamp, sources_are_identical, BakerGenerated, TemplateSourceInfo};
use baker::json::{JsonMap, JsonValue};

#[test]
fn resolve_file_name_priority() {
    assert_eq!(resolve_file_name(Some("cli.yaml"), Some("config.yaml")), "cli.yaml");
    assert_eq!(resolve_file_name(None, Some("config.yaml")), "config.yaml");
    assert_eq!(resolve_file_name(None, None), DEFAULT_GENERATED_FILE_NAME);
}

#[test]
fn generated_record_has_version_one_and_timestamp() {
    let record = BakerGenerated::new(
        TemplateSourceInfo::Filesystem { path: "/tmp/t".to_string(), hash: "abc".to_string() },
        JsonValue::Object(JsonMap::new()),
    );
    assert_eq!(record.version, "1");
    assert!(record.generated_at.contains('T'));
}

#[test]
fn git_and_directory_sources_never_match() {
    let git = TemplateSourceInfo::Git { url: "u".to_string(), commit: "x".to_string(), tag: None };
    let dir = TemplateSourceInfo::Filesystem { path: "u".to_string(), hash: "x".to_string() };
    assert!(!sources_are_identical(&git, &dir));
    assert!(!sources_are_identical(&dir, &git));
    assert!(sources_are_identical(&dir, &dir));
}

#[test]
fn rfc3339_timestamp_uses_the_shortest_exact_fraction() {
    assert_eq!(rfc3339_timestamp(0, 0), "1970-01-01T00:00:00+00:00");
    assert_eq!(rfc3339_timestamp(1700000000, 0), "2023-11-14T22:13:20+00:00");
    assert_eq!(rfc3339_timestamp(1700000000, 123000000), "2023-11-14T22:13:20.123+00:00");
    assert_eq!(rfc3339_timestamp(1700000000, 123456000), "2023-11-14T22:13:20.123456+00:00");
    assert_eq!(rfc3339_timestamp(1700000000, 1), "2023-11-14T22:13:20.000000001+00:00");
    assert_eq!(rfc3339_timestamp(951782400, 500000000), "2000-02-29T00:00:00.500+00:00");
}

#[test]
fn generated_record_is_stamped_in_rfc3339() {
    let record = BakerGenerated::new(
        TemplateSourceInfo::Filesystem { path: "/t".to_string(), hash: "h".to_string() },
        JsonValue::Object(JsonMap::new()),
    );
    assert!(record.generated_at.ends_with("+00:00"));
    assert_eq!(&record.generated_at[4..5], "-");
    assert_eq!(&record.generated_at[10..11], "T");
}
