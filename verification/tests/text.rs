use icelake::text::{char_count, ends_with, precedes, starts_with, strip_prefix};

#[test]
fn starts_with_tests_initial_segments() {
    assert!(starts_with("metadata/v1.metadata.json", "metadata/"));
    assert!(starts_with("metadata", "metadata"));
    assert!(starts_with("anything", ""));
    assert!(starts_with("", ""));
    assert!(!starts_with("metadata", "metadata/"));
    assert!(!starts_with("metadata/v1", "metadatb"));
    assert!(!starts_with("", "a"));
}

#[test]
fn strip_prefix_removes_exactly_the_prefix() {
    assert_eq!(strip_prefix("s3://bucket/table/data/a.parquet", "s3://bucket/table"),
        Some("/data/a.parquet".to_string()));
    assert_eq!(strip_prefix("abc", "abc"), Some(String::new()));
    assert_eq!(strip_prefix("abc", ""), Some("abc".to_string()));
    assert_eq!(strip_prefix("abc", "abd"), None);
    assert_eq!(strip_prefix("ab", "abc"), None);
}

#[test]
fn strip_prefix_counts_characters_not_bytes() {
    assert_eq!(strip_prefix("việt nam/data", "việt nam"), Some("/data".to_string()));
    assert_eq!(strip_prefix("日本語/x", "日本"), Some("語/x".to_string()));
    assert_eq!(char_count("việt"), 4);
    assert_eq!(char_count(""), 0);
}

#[test]
fn ends_with_tests_final_segments() {
    assert!(ends_with("metadata/v1.metadata.json", ".metadata.json"));
    assert!(ends_with(".metadata.json", ".metadata.json"));
    assert!(ends_with("x", ""));
    assert!(!ends_with("metadata.json", ".metadata.json"));
    assert!(!ends_with("metadata/v1.metadata.json.bak", ".metadata.json"));
    assert!(!ends_with("metadata/version-hint.text", ".metadata.json"));
}

#[test]
fn precedes_is_the_order_of_strings() {
    let samples = ["", "a", "ab", "b", "metadata/v1.metadata.json", "metadata/v10.metadata.json",
        "metadata/v2.metadata.json", "metadata/v9.metadata.json", "Z", "z", "é", "日本", "0", "00"];
    for a in samples {
        for b in samples {
            assert_eq!(precedes(a, b), a <= b, "{:?} against {:?}", a, b);
        }
    }
}
