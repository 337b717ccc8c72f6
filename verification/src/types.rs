//! The parts of the stored table state that the core reads.

use vstd::prelude::*;

verus! {

/// The format version tag of a metadata object.
#[derive(Debug, Clone, Copy, PartialEq, Eq, Structural)]
pub enum TableFormatVersion {
    V1,
    V2,
}

/// A point-in-time view of the table's data.
#[derive(Debug, Clone, PartialEq, Eq)]
pub struct Snapshot {
    /// Unique among the snapshots of one metadata object.
    pub snapshot_id: i64,
    /// Absolute path of the snapshot's manifest list.
    pub manifest_list: String,
}

/// One committed state of the table.
#[derive(Debug, Clone, PartialEq, Eq)]
pub struct TableMetadata {
    pub format_version: TableFormatVersion,
    /// Absolute base location of the table.
    pub location: String,
    /// When this state was committed; also the key under which it is cached.
    /// Zero means "never set" and is not a valid value.
    pub last_updated_ms: i64,
    pub current_snapshot_id: Option<i64>,
    pub snapshots: Option<Vec<Snapshot>>,
}

/// One entry of a manifest list.
#[derive(Debug, Clone, PartialEq, Eq)]
pub struct ManifestListEntry {
    /// Absolute path of a manifest file.
    pub manifest_path: String,
}

/// The manifest files of one snapshot, in order.
#[derive(Debug, Clone, PartialEq, Eq)]
pub struct ManifestList {
    pub entries: Vec<ManifestListEntry>,
}

/// A physical file holding part of the table's data.
#[derive(Debug, Clone, PartialEq, Eq)]
pub struct DataFile {
    pub file_path: String,
}

/// One entry of a manifest file.
#[derive(Debug, Clone, PartialEq, Eq)]
pub struct ManifestEntry {
    pub data_file: DataFile,
}

/// The data files that one manifest file lists, in order.
#[derive(Debug, Clone, PartialEq, Eq)]
pub struct ManifestFile {
    pub entries: Vec<ManifestEntry>,
}

/// What a storage backend reports about itself.
#[derive(Debug, Clone, PartialEq, Eq)]
pub struct StorageInfo {
    pub scheme: String,
    pub name: String,
    pub root: String,
    /// Whether the backend can move an object in one step.
    pub can_rename: bool,
}

} // verus!
