use icelake::load::{LoadReply, LoadStep};
use icelake::storage::StorageOp;
use icelake::table::Table;
use icelake::{TableFormatVersion, TableMetadata};
use std::collections::BTreeMap;

fn metadata(last_updated_ms: i64) -> TableMetadata {
    TableMetadata {
        format_version: TableFormatVersion::V2,
        location: "s3://bucket/table".to_string(),
        last_updated_ms,
        current_snapshot_id: None,
        snapshots: None,
    }
}

fn table_at(file_version: i32) -> Table {
    let mut table = Table::new();
    table.install(file_version, metadata(100)).unwrap();
    table
}

fn perform(objects: &mut BTreeMap<String, Vec<u8>>, ops: &[StorageOp]) {
    for op in ops {
        match op {
            StorageOp::Write { path, content } => {
                objects.insert(path.clone(), content.clone());
            }
            StorageOp::Rename { from, to } => {
                let content = objects.remove(from).expect("rename needs its source");
                objects.insert(to.clone(), content);
            }
            StorageOp::Copy { from, to } => {
                let content = objects.get(from).expect("copy needs its source").clone();
                objects.insert(to.clone(), content);
            }
            StorageOp::Delete { path } => {
                objects.remove(path);
            }
        }
    }
}

/// Plays the driver of a load against the objects; the metadata objects hold
/// their last-updated time in decimal.
fn load_from(table: &mut Table, objects: &BTreeMap<String, Vec<u8>>) {
    load_steps(table, objects, Table::load())
}

fn load_steps(table: &mut Table, objects: &BTreeMap<String, Vec<u8>>, first: LoadStep) {
    let mut step = first;
    loop {
        let reply = match &step {
            LoadStep::ProbeHint { path } => LoadReply::HintExists(objects.contains_key(path)),
            LoadStep::ReadHint { path } => LoadReply::HintContent(objects[path].clone()),
            LoadStep::ListMetadata { prefix } => LoadReply::Listing(
                objects.keys().filter(|k| k.starts_with(prefix.as_str())).cloned().collect(),
            ),
            LoadStep::ReadMetadata { found } => {
                let text = String::from_utf8(objects[&found.path].clone()).unwrap();
                LoadReply::Metadata(metadata(text.parse().unwrap()))
            }
            LoadStep::Done => return,
        };
        step = table.load_next(step, reply).unwrap();
    }
}

#[test]
fn rename_moves_in_one_step_where_the_backend_can() {
    assert_eq!(
        Table::rename(true, "a", "b"),
        vec![StorageOp::Rename { from: "a".to_string(), to: "b".to_string() }]
    );
}

#[test]
fn rename_copies_and_deletes_where_the_backend_cannot() {
    assert_eq!(
        Table::rename(false, "a", "b"),
        vec![
            StorageOp::Copy { from: "a".to_string(), to: "b".to_string() },
            StorageOp::Delete { path: "a".to_string() },
        ]
    );
}

#[test]
fn pointer_is_written_deleted_and_moved() {
    assert_eq!(
        Table::write_metadata_version_hint(3, "tok", true),
        vec![
            StorageOp::Write {
                path: "metadata/tok-version-hint.temp".to_string(),
                content: b"3".to_vec()
            },
            StorageOp::Delete { path: "metadata/version-hint.text".to_string() },
            StorageOp::Rename {
                from: "metadata/tok-version-hint.temp".to_string(),
                to: "metadata/version-hint.text".to_string()
            },
        ]
    );
}

#[test]
fn commit_plan_takes_the_next_file_version() {
    let table = table_at(2);
    let ops = table.plan_commit(b"{}".to_vec(), "first", "second", false);
    assert_eq!(
        ops,
        vec![
            StorageOp::Write {
                path: "metadata/first.metadata.json".to_string(),
                content: b"{}".to_vec()
            },
            StorageOp::Copy {
                from: "metadata/first.metadata.json".to_string(),
                to: "metadata/v3.metadata.json".to_string()
            },
            StorageOp::Delete { path: "metadata/first.metadata.json".to_string() },
            StorageOp::Write {
                path: "metadata/second-version-hint.temp".to_string(),
                content: b"3".to_vec()
            },
            StorageOp::Delete { path: "metadata/version-hint.text".to_string() },
            StorageOp::Copy {
                from: "metadata/second-version-hint.temp".to_string(),
                to: "metadata/version-hint.text".to_string()
            },
            StorageOp::Delete { path: "metadata/second-version-hint.temp".to_string() },
        ]
    );
}

#[test]
fn first_commit_of_a_new_table_is_version_one() {
    let table = Table::new();
    let ops = table.plan_commit(Vec::new(), "a", "b", true);
    assert_eq!(
        ops[1],
        StorageOp::Rename {
            from: "metadata/a.metadata.json".to_string(),
            to: "metadata/v1.metadata.json".to_string()
        }
    );
    assert_eq!(ops.len(), 5);
}

#[test]
fn commit_names_its_temporary_objects_freshly() {
    let table = table_at(7);
    let plan = table.commit(b"next".to_vec(), true);
    assert_eq!(plan.reload, Table::load());
    let ops = plan.changes;
    assert_eq!(ops.len(), 5);
    let (metadata_temp, hint_temp) = match (&ops[0], &ops[2]) {
        (StorageOp::Write { path: a, content }, StorageOp::Write { path: b, content: hint }) => {
            assert_eq!(content, b"next");
            assert_eq!(hint, b"8");
            (a.clone(), b.clone())
        }
        other => panic!("unexpected plan {:?}", other),
    };
    let token = metadata_temp
        .strip_prefix("metadata/")
        .and_then(|rest| rest.strip_suffix(".metadata.json"))
        .expect("a temporary metadata object");
    let hint_token = hint_temp
        .strip_prefix("metadata/")
        .and_then(|rest| rest.strip_suffix("-version-hint.temp"))
        .expect("a temporary pointer object");
    assert_eq!(token.chars().count(), 36);
    assert_eq!(hint_token.chars().count(), 36);
    assert_ne!(token, hint_token);
    assert!(token.chars().all(|c| c == '-' || c.is_ascii_hexdigit()));
    let again = table.commit(b"next".to_vec(), true).changes;
    assert_ne!(again[0], ops[0]);
    assert_eq!(again[1..2].len(), 1);
    match &again[1] {
        StorageOp::Rename { to, .. } => assert_eq!(to, "metadata/v8.metadata.json"),
        other => panic!("unexpected change {:?}", other),
    }
}

#[test]
fn commit_then_load_advances_the_file_version() {
    for can_rename in [true, false] {
        let mut objects: BTreeMap<String, Vec<u8>> = BTreeMap::new();
        objects.insert("metadata/v1.metadata.json".to_string(), b"100".to_vec());
        objects.insert("metadata/version-hint.text".to_string(), b"1".to_vec());
        let mut table = Table::new();
        load_from(&mut table, &objects);
        assert_eq!(table.current_table_version(), 1);

        let previous = table.current_table_version();
        let plan = table.commit(b"200".to_vec(), can_rename);
        perform(&mut objects, &plan.changes);
        assert_eq!(objects["metadata/v2.metadata.json"], b"200".to_vec());
        assert_eq!(objects["metadata/version-hint.text"], b"2".to_vec());
        assert_eq!(objects["metadata/v1.metadata.json"], b"100".to_vec());
        assert_eq!(objects.len(), 3);

        load_steps(&mut table, &objects, plan.reload);
        assert_eq!(table.current_table_version(), previous + 1);
        assert_eq!(table.current_version(), 200);
    }
}

#[test]
fn commit_without_pointer_creates_one() {
    let mut objects: BTreeMap<String, Vec<u8>> = BTreeMap::new();
    objects.insert("metadata/v1.metadata.json".to_string(), b"100".to_vec());
    let mut table = Table::new();
    load_from(&mut table, &objects);
    assert_eq!(table.current_table_version(), 1);
    let plan = table.commit(b"300".to_vec(), false);
    perform(&mut objects, &plan.changes);
    assert_eq!(objects["metadata/version-hint.text"], b"2".to_vec());
    load_from(&mut table, &objects);
    assert_eq!(table.current_table_version(), 2);
    assert_eq!(table.current_version(), 300);
}

#[test]
fn a_table_unchanged_until_the_reload() {
    let table = table_at(4);
    let _ = table.commit(b"x".to_vec(), true);
    assert_eq!(table.current_table_version(), 4);
    assert_eq!(table.current_version(), 100);
}
