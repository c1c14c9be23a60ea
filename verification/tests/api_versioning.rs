use anchorkit::api_versioning::{ApiVersion, FieldDescriptor, SchemaSnapshot, VersionPolicy};

fn schema(version: ApiVersion, names: &[&str]) -> SchemaSnapshot {
    SchemaSnapshot {
        version,
        endpoint: "/quotes".to_string(),
        fields: names.iter().map(|n| FieldDescriptor { name: n.to_string(), required: false }).collect(),
    }
}

#[test]
fn paths_name_their_version() {
    assert_eq!(ApiVersion::from_path_prefix("/v1/quotes"), Some(ApiVersion::V1));
    assert_eq!(ApiVersion::from_path_prefix("/v1"), Some(ApiVersion::V1));
    assert_eq!(ApiVersion::from_path_prefix("/v2/quotes"), Some(ApiVersion::V2));
    for other in ["", "/", "/v3/x", "/v10/x", "v1/x", "/v"] {
        assert_eq!(ApiVersion::from_path_prefix(other), None);
    }
}

#[test]
fn only_supported_versions_resolve() {
    let policy = VersionPolicy::default();
    assert_eq!(policy.resolve("/v1/quotes"), Some(ApiVersion::V1));
    let narrow = VersionPolicy { current: ApiVersion::V2, supported: vec![ApiVersion::V2] };
    assert_eq!(narrow.resolve("/v1/quotes"), None);
    assert_eq!(narrow.resolve("/v2/quotes"), Some(ApiVersion::V2));
}

#[test]
fn deprecated_versions_say_so() {
    let policy = VersionPolicy::default();
    let old = policy.wrap(ApiVersion::V1, 7u32);
    assert_eq!((old.version.as_str(), old.data), ("v1", 7));
    let meta = old.deprecation.unwrap();
    assert_eq!((meta.version.as_str(), meta.sunset.as_str()), ("v1", "2026-12-01"));
    assert_eq!(
        meta.migration_notice,
        "This endpoint version (v1) is deprecated. Migrate to /v2/."
    );
    let new = policy.wrap(ApiVersion::V2, 7u32);
    assert!(new.deprecation.is_none());
    assert_eq!(ApiVersion::V2.sunset_date(), None);
}

#[test]
fn removed_fields_are_breaking() {
    let baseline = schema(ApiVersion::V1, &["id", "rate", "fee"]);
    let current = schema(ApiVersion::V2, &["rate", "extra"]);
    assert_eq!(SchemaSnapshot::breaking_removals(&baseline, &current), vec!["id", "fee"]);
    assert!(SchemaSnapshot::breaking_removals(&current, &current).is_empty());
}
