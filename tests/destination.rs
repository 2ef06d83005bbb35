use instagrap::destination::{
    default_object_name, object_reference, parse_destination, upload_target, upload_target_with,
    DestinationError,
};

#[test]
fn parses_bucket_and_object() {
    let d = parse_destination("gs://bucket/dir/state.json").unwrap();
    assert_eq!(d.bucket, "bucket");
    assert_eq!(d.object.as_deref(), Some("dir/state.json"));
}

#[test]
fn parses_bucket_alone() {
    let d = parse_destination("gs://bucket").unwrap();
    assert_eq!(d.bucket, "bucket");
    assert_eq!(d.object, None);
    let d = parse_destination("gs://bucket/").unwrap();
    assert_eq!(d.bucket, "bucket");
    assert_eq!(d.object, None);
}

#[test]
fn refuses_other_schemes() {
    assert_eq!(parse_destination("s3://bucket/x").unwrap_err(), DestinationError::MissingScheme);
    assert_eq!(parse_destination("").unwrap_err(), DestinationError::MissingScheme);
    assert_eq!(DestinationError::MissingScheme.message(), "Invalid GCS URL: must start with gs://");
}

#[test]
fn default_name_and_reference() {
    assert_eq!(default_object_name("20240102T030405Z"), "insta_state_20240102T030405Z.json");
    assert_eq!(object_reference("b", "o.json"), "gs://b/o.json");
}

#[test]
fn upload_target_uses_stamp_when_object_missing() {
    let t = upload_target_with("gs://b", "S").unwrap();
    assert_eq!(t.bucket, "b");
    assert_eq!(t.object, "insta_state_S.json");
    assert_eq!(t.reference(), "gs://b/insta_state_S.json");
    let t = upload_target_with("gs://b/given.json", "S").unwrap();
    assert_eq!(t.object, "given.json");
    assert!(upload_target_with("http://b", "S").is_err());
}

#[test]
fn upload_target_with_clock() {
    let t = upload_target("gs://b/").unwrap();
    assert_eq!(t.bucket, "b");
    assert!(t.object.starts_with("insta_state_"));
    assert!(t.object.ends_with("Z.json"));
    assert_eq!(t.object.len(), "insta_state_20240102T030405Z.json".len());
}
