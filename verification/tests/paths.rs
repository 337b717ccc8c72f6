use icelake::location::UrlParts;
use icelake::naming::{metadata_prefix, temp_metadata_path, temp_version_hint_path, version_hint_path};
use icelake::table::Table;
use icelake::{ErrorKind, StorageInfo, TableFormatVersion, TableMetadata};

fn storage(scheme: &str, name: &str, root: &str) -> StorageInfo {
    StorageInfo {
        scheme: scheme.to_string(),
        name: name.to_string(),
        root: root.to_string(),
        can_rename: true,
    }
}

#[test]
fn metadata_objects_live_under_the_metadata_root() {
    assert_eq!(Table::metadata_path("version-hint.text"), "metadata/version-hint.text");
    assert_eq!(Table::metadata_path(""), "metadata/");
    assert_eq!(Table::metadata_file_path(1), "metadata/v1.metadata.json");
    assert_eq!(Table::metadata_file_path(0), "metadata/v0.metadata.json");
    assert_eq!(Table::metadata_file_path(120), "metadata/v120.metadata.json");
    assert_eq!(Table::metadata_file_path(-3), "metadata/v-3.metadata.json");
    assert_eq!(version_hint_path(), "metadata/version-hint.text");
    assert_eq!(metadata_prefix(), "metadata/");
    assert_eq!(temp_metadata_path("abc"), "metadata/abc.metadata.json");
    assert_eq!(temp_version_hint_path("abc"), "metadata/abc-version-hint.temp");
}

#[test]
fn absolute_path_joins_scheme_name_root_and_path() {
    let info = storage("s3", "testbucket", "iceberg_data");
    assert_eq!(
        Table::absolution_path(&info, "metadata/v1.metadata.json"),
        "s3://testbucket/iceberg_data/metadata/v1.metadata.json"
    );
    let info = storage("fs", "", "/tmp/table");
    assert_eq!(Table::absolution_path(&info, "data/a.parquet"), "fs:////tmp/table/data/a.parquet");
    assert_eq!(Table::absolution_path(&storage("memory", "m", ""), ""), "memory://m//");
}

#[test]
fn rel_path_recovers_what_absolute_path_was_given() {
    let info = storage("s3", "testbucket", "iceberg_data/db/tbl");
    let mut table = Table::new();
    table
        .install(
            1,
            TableMetadata {
                format_version: TableFormatVersion::V2,
                location: Table::absolution_path(&info, ""),
                last_updated_ms: 5,
                current_snapshot_id: None,
                snapshots: None,
            },
        )
        .unwrap();
    let absolute = Table::absolution_path(&info, "metadata/v1.metadata.json");
    assert_eq!(table.rel_path(&absolute).unwrap(), "metadata/v1.metadata.json");
}

#[test]
fn relative_path_strips_the_storage_root() {
    let info = storage("s3", "testbucket", "/iceberg_data");
    assert_eq!(
        Table::relative_path(&info, "s3://testbucket/iceberg_data/db/tbl/metadata/v1.metadata.json")
            .unwrap(),
        "/db/tbl/metadata/v1.metadata.json"
    );
    assert_eq!(Table::relative_path(&info, "s3://testbucket/iceberg_data").unwrap(), "");
    assert_eq!(
        Table::relative_path(&info, "s3://testbucket/iceberg_data/a?versionId=3#frag").unwrap(),
        "/a"
    );
}

#[test]
fn relative_path_refuses_another_host() {
    let info = storage("s3", "testbucket", "/iceberg_data");
    let e = Table::relative_path(&info, "s3://otherbucket/iceberg_data/a").unwrap_err();
    assert_eq!(e.kind(), ErrorKind::Unexpected);
    let e = Table::relative_path(&info, "data:text/plain,Stuff").unwrap_err();
    assert_eq!(e.kind(), ErrorKind::Unexpected);
}

#[test]
fn relative_path_refuses_a_path_outside_the_root() {
    let info = storage("s3", "testbucket", "/iceberg_data");
    let e = Table::relative_path(&info, "s3://testbucket/other/a").unwrap_err();
    assert_eq!(e.kind(), ErrorKind::IcebergDataInvalid);
}

#[test]
fn relative_path_refuses_what_is_no_url() {
    let info = storage("s3", "testbucket", "/iceberg_data");
    for text in ["", "/iceberg_data/a", "testbucket/iceberg_data/a", "s3://[bad/a"] {
        let e = Table::relative_path(&info, text).unwrap_err();
        assert_eq!(e.kind(), ErrorKind::IcebergDataInvalid);
        assert_eq!(e.message(), "Failed to parse url");
    }
}

#[test]
fn relative_path_checks_the_host_before_the_path() {
    let info = storage("s3", "testbucket", "/iceberg_data");
    let parts = UrlParts { host: Some("otherbucket".to_string()), path: "/nowhere".to_string() };
    assert_eq!(Table::relative_path_of(&info, &parts).unwrap_err().kind(), ErrorKind::Unexpected);
    let parts = UrlParts { host: None, path: "/iceberg_data/a".to_string() };
    assert_eq!(Table::relative_path_of(&info, &parts).unwrap_err().kind(), ErrorKind::Unexpected);
    let parts = UrlParts { host: Some("testbucket".to_string()), path: "/nowhere".to_string() };
    assert_eq!(
        Table::relative_path_of(&info, &parts).unwrap_err().kind(),
        ErrorKind::IcebergDataInvalid
    );
    let parts = UrlParts { host: Some("testbucket".to_string()), path: "/iceberg_data/a".to_string() };
    assert_eq!(Table::relative_path_of(&info, &parts).unwrap(), "/a");
}
