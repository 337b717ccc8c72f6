use icelake::version::{
    latest_table_metadata_path, list_table_metadata_paths, read_version_hint, resolve_from_hint,
    resolve_from_listing, resolve_from_path, version_of_capture,
};
use icelake::ErrorKind;

fn strings(items: &[&str]) -> Vec<String> {
    items.iter().map(|s| s.to_string()).collect()
}

#[test]
fn test_table_version_hint() {
    let version_hint = read_version_hint(b"2").unwrap();
    assert_eq!(version_hint, 2);
}

#[test]
fn version_hint_must_be_a_whole_number() {
    for content in [&b""[..], b"two", b"2\n", b"-1", b"2147483648", &[0xff, 0xfe]] {
        let e = read_version_hint(content).unwrap_err();
        assert_eq!(e.kind(), ErrorKind::IcebergDataInvalid);
        assert_eq!(e.message(), "parse version hint failed");
    }
}

#[test]
fn hint_names_the_metadata_object_of_its_version() {
    let found = resolve_from_hint(b"2").unwrap();
    assert_eq!(found.file_version, 2);
    assert_eq!(found.path, "metadata/v2.metadata.json");
    assert!(!found.legacy_name);
    let found = resolve_from_hint(b"0").unwrap();
    assert_eq!(found.path, "metadata/v0.metadata.json");
    let found = resolve_from_hint(b"+0012").unwrap();
    assert_eq!(found.file_version, 12);
    assert_eq!(found.path, "metadata/v12.metadata.json");
    assert_eq!(resolve_from_hint(b"x").unwrap_err().kind(), ErrorKind::IcebergDataInvalid);
}

#[test]
fn listing_keeps_metadata_files_sorted_by_name() {
    let entries = strings(&[
        "metadata/v3.metadata.json",
        "metadata/version-hint.text",
        "metadata/v1.metadata.json",
        "metadata/",
        "metadata/snap-1.avro",
        "metadata/v2.metadata.json",
        "metadata/v1.metadata.json",
        "metadata/v2.metadata.json.tmp",
    ]);
    assert_eq!(
        list_table_metadata_paths(&entries),
        strings(&[
            "metadata/v1.metadata.json",
            "metadata/v1.metadata.json",
            "metadata/v2.metadata.json",
            "metadata/v3.metadata.json",
        ])
    );
    assert_eq!(list_table_metadata_paths(&Vec::new()), Vec::<String>::new());
}

#[test]
fn listing_sorts_as_the_standard_sort_does() {
    let entries = strings(&[
        "metadata/v9.metadata.json",
        "metadata/b.metadata.json",
        "metadata/v10.metadata.json",
        "metadata/é.metadata.json",
        "metadata/A.metadata.json",
        "metadata/v1.metadata.json",
        ".metadata.json",
        "metadata/00000-aa.metadata.json",
    ]);
    let mut expected = entries.clone();
    expected.sort();
    assert_eq!(list_table_metadata_paths(&entries), expected);
}

#[test]
fn latest_is_the_last_by_name() {
    let entries = strings(&["metadata/v2.metadata.json", "metadata/v1.metadata.json", "metadata/zzz"]);
    assert_eq!(latest_table_metadata_path(&entries), Some("metadata/v2.metadata.json".to_string()));
    assert_eq!(latest_table_metadata_path(&strings(&["metadata/zzz"])), None);
    assert_eq!(latest_table_metadata_path(&Vec::new()), None);
}

#[test]
fn latest_by_name_is_not_latest_by_number_across_digit_counts() {
    let entries = strings(&["metadata/v9.metadata.json", "metadata/v10.metadata.json"]);
    let found = resolve_from_listing(&entries).unwrap();
    assert_eq!(found.path, "metadata/v9.metadata.json");
    assert_eq!(found.file_version, 9);
}

#[test]
fn listing_with_two_versions_selects_the_second() {
    let entries = strings(&["metadata/v1.metadata.json", "metadata/v2.metadata.json"]);
    let found = resolve_from_listing(&entries).unwrap();
    assert_eq!(found.file_version, 2);
    assert_eq!(found.path, "metadata/v2.metadata.json");
    assert!(!found.legacy_name);
}

#[test]
fn listing_without_metadata_files_fails() {
    for entries in [Vec::new(), strings(&["metadata/version-hint.text", "data/a.parquet"])] {
        let e = resolve_from_listing(&entries).unwrap_err();
        assert_eq!(e.kind(), ErrorKind::IcebergDataInvalid);
        assert_eq!(e.message(), "no table metadata found");
    }
}

#[test]
fn version_is_read_from_the_file_name() {
    let found = resolve_from_path("metadata/v12.metadata.json".to_string()).unwrap();
    assert_eq!(found.file_version, 12);
    assert_eq!(found.path, "metadata/v12.metadata.json");
    assert!(!found.legacy_name);
    let found = resolve_from_path("v0.metadata.json".to_string()).unwrap();
    assert_eq!(found.file_version, 0);
    assert!(!found.legacy_name);
    let found = resolve_from_path("metadata/v007.metadata.json".to_string()).unwrap();
    assert_eq!(found.file_version, 7);
}

#[test]
fn a_name_outside_the_pattern_is_a_legacy_name() {
    for path in [
        "metadata/00001-f9b4ee01-4a6e-4b6b-a3d5-6a5c0f6b2a0e.metadata.json",
        "metadata/v.metadata.json",
        "metadata/vx1.metadata.json",
        "metadata/1.metadata.json",
    ] {
        let found = resolve_from_path(path.to_string()).unwrap();
        assert_eq!(found.file_version, 0);
        assert_eq!(found.path, path);
        assert!(found.legacy_name);
    }
}

#[test]
fn a_version_in_a_name_must_fit() {
    let e = resolve_from_path("metadata/v2147483648.metadata.json".to_string()).unwrap_err();
    assert_eq!(e.kind(), ErrorKind::IcebergDataInvalid);
    assert_eq!(e.message(), "Failed to parse int");
    let found = resolve_from_path("metadata/v2147483647.metadata.json".to_string()).unwrap();
    assert_eq!(found.file_version, i32::MAX);
}

#[test]
fn the_pattern_takes_the_first_match() {
    let found = resolve_from_path("v3.metadata.json/v4.metadata.json".to_string()).unwrap();
    assert_eq!(found.file_version, 3);
    let found = resolve_from_path("metadata/v5xmetadata-json".to_string()).unwrap();
    assert_eq!(found.file_version, 5);
}

#[test]
fn capture_decides_the_version() {
    let found = version_of_capture(None, "a".to_string()).unwrap();
    assert_eq!((found.file_version, found.legacy_name), (0, true));
    let found = version_of_capture(Some(Some(b"41".to_vec())), "a".to_string()).unwrap();
    assert_eq!((found.file_version, found.legacy_name), (41, false));
    assert_eq!(found.path, "a");
    let e = version_of_capture(Some(None), "a".to_string()).unwrap_err();
    assert_eq!(e.kind(), ErrorKind::IcebergDataInvalid);
    assert_eq!(e.message(), "Invalid metadata file name: a");
    let e = version_of_capture(Some(Some(b"4x".to_vec())), "a".to_string()).unwrap_err();
    assert_eq!(e.kind(), ErrorKind::IcebergDataInvalid);
    let e = version_of_capture(Some(Some(Vec::new())), "a".to_string()).unwrap_err();
    assert_eq!(e.kind(), ErrorKind::IcebergDataInvalid);
}
