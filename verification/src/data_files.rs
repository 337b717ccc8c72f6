//! Finding the data files of the current snapshot: from the snapshot to its
//! manifest list, from the list to the manifest files, and from those to the
//! data files, in the order in which they are listed.
//!
//! As with a load, the table decides and the driver reads: it performs the
//! step that `Table::current_data_files` gives and answers each step through
//! `Table::current_data_files_next`, until the step is `Done`. A failure
//! anywhere ends the scan: no part of the result is handed out.

use crate::decimal::{ascii_text, decimal, decimal_string};
use crate::error::{fails_as, fails_with, ErrorKind, TableError};
use crate::table::{Table, TableState};
use crate::types::{
    DataFile, ManifestEntry, ManifestFile, ManifestList, ManifestListEntry, Snapshot,
};
use vstd::prelude::*;
use vstd::string::*;

verus! {

/// What the driver is to do next.
#[derive(Debug, Clone, PartialEq, Eq)]
pub enum ScanStep {
    /// Read the object at `path` and parse it as a manifest list.
    ReadManifestList { path: String },
    /// Read the object at `path` and parse it as a manifest file. It is the
    /// manifest of `entries[index]`; `data_files` are those of the manifests
    /// before it.
    ReadManifest {
        path: String,
        entries: Vec<ManifestListEntry>,
        index: usize,
        data_files: Vec<DataFile>,
    },
    /// Nothing: these are the data files.
    Done { data_files: Vec<DataFile> },
}

/// What the driver read.
#[derive(Debug, Clone, PartialEq, Eq)]
pub enum ScanReply {
    ManifestList(ManifestList),
    Manifest(ManifestFile),
}

/// A step, over sequences.
pub enum ScanStepView {
    ReadManifestList { path: Seq<char> },
    ReadManifest {
        path: Seq<char>,
        entries: Seq<ManifestListEntry>,
        index: usize,
        data_files: Seq<DataFile>,
    },
    Done { data_files: Seq<DataFile> },
}

impl View for ScanStep {
    type V = ScanStepView;

    open spec fn view(&self) -> ScanStepView {
        match *self {
            ScanStep::ReadManifestList { path } => ScanStepView::ReadManifestList { path: path@ },
            ScanStep::ReadManifest { path, entries, index, data_files } => {
                ScanStepView::ReadManifest {
                    path: path@,
                    entries: entries@,
                    index,
                    data_files: data_files@,
                }
            },
            ScanStep::Done { data_files } => ScanStepView::Done { data_files: data_files@ },
        }
    }
}

/// The first snapshot with the given id.
pub open spec fn find_snapshot(snapshots: Seq<Snapshot>, id: i64) -> Option<Snapshot>
    decreases snapshots.len(),
{
    if snapshots.len() == 0 {
        None
    } else if snapshots[0].snapshot_id == id {
        Some(snapshots[0])
    } else {
        find_snapshot(snapshots.drop_first(), id)
    }
}

/// The current snapshot of `table`, which is loaded, or why it has none.
pub open spec fn spec_current_snapshot(table: TableState) -> Option<Snapshot> {
    let metadata = table.cache[table.current_version];
    match (metadata.current_snapshot_id, metadata.snapshots) {
        (Some(id), Some(snapshots)) => find_snapshot(snapshots@, id),
        _ => None,
    }
}

/// The first step of a scan of `table`, which is loaded: read the manifest
/// list of the current snapshot, at its path relative to the table's
/// location. `IcebergDataInvalid` where there is no current snapshot or its
/// manifest list is not under the location.
pub open spec fn spec_current_data_files(table: TableState) -> Result<ScanStepView, ErrorKind> {
    match spec_current_snapshot(table) {
        Some(snapshot) => match table.rel_path(snapshot.manifest_list@) {
            Some(path) => Ok(ScanStepView::ReadManifestList { path }),
            None => Err(ErrorKind::IcebergDataInvalid),
        },
        None => Err(ErrorKind::IcebergDataInvalid),
    }
}

/// The data files that a manifest file lists, in its order.
pub open spec fn files_of(manifest: ManifestFile) -> Seq<DataFile> {
    manifest.entries@.map_values(|entry: ManifestEntry| entry.data_file)
}

/// The step for the manifest of `entries[index]`, or the end of the scan
/// where there is no such entry. `IcebergDataInvalid` where the manifest is
/// not under the table's location.
pub open spec fn spec_scan_from(
    table: TableState,
    entries: Seq<ManifestListEntry>,
    index: int,
    data_files: Seq<DataFile>,
) -> Result<ScanStepView, ErrorKind> {
    if 0 <= index < entries.len() {
        match table.rel_path(entries[index].manifest_path@) {
            Some(path) => Ok(
                ScanStepView::ReadManifest { path, entries, index: index as usize, data_files },
            ),
            None => Err(ErrorKind::IcebergDataInvalid),
        }
    } else {
        Ok(ScanStepView::Done { data_files })
    }
}

/// What follows when the driver answers the step `pending` with `reply`: a
/// manifest list starts the walk over its entries; a manifest file adds its
/// data files to those collected and moves the walk to the next entry. An
/// answer that does not fit the step is `Unexpected`.
pub open spec fn spec_scan_next(
    table: TableState,
    pending: ScanStepView,
    reply: ScanReply,
) -> Result<ScanStepView, ErrorKind> {
    match (pending, reply) {
        (ScanStepView::ReadManifestList { .. }, ScanReply::ManifestList(list)) => spec_scan_from(
            table,
            list.entries@,
            0,
            Seq::empty(),
        ),
        (
            ScanStepView::ReadManifest { entries, index, data_files, .. },
            ScanReply::Manifest(manifest),
        ) => if index < entries.len() {
            spec_scan_from(table, entries, index + 1, data_files + files_of(manifest))
        } else {
            Err(ErrorKind::Unexpected)
        },
        _ => Err(ErrorKind::Unexpected),
    }
}

/// `r` is the step that `expected` gives, or a failure of the kind it gives.
pub open spec fn scans_to(
    r: Result<ScanStep, TableError>,
    expected: Result<ScanStepView, ErrorKind>,
) -> bool {
    match expected {
        Ok(step) => r matches Ok(found) && found@ == step,
        Err(kind) => fails_as(r, kind),
    }
}

/// The first snapshot of `snapshots` with the given id.
fn snapshot_with_id(snapshots: &Vec<Snapshot>, id: i64) -> (r: Option<&Snapshot>)
    ensures
        match find_snapshot(snapshots@, id) {
            Some(snapshot) => r matches Some(found) && *found == snapshot,
            None => r is None,
        },
{
    let mut i: usize = 0;
    assert(snapshots@.skip(0) =~= snapshots@);
    while i < snapshots.len()
        invariant
            0 <= i <= snapshots.len(),
            find_snapshot(snapshots@, id) == find_snapshot(snapshots@.skip(i as int), id),
        decreases snapshots.len() - i,
    {
        if snapshots[i].snapshot_id == id {
            return Some(&snapshots[i]);
        }
        assert(snapshots@.skip(i as int).drop_first() =~= snapshots@.skip(i + 1));
        i = i + 1;
    }
    None
}

/// Moves the data files of `manifest` to the end of `data_files`.
fn collect(data_files: &mut Vec<DataFile>, manifest: ManifestFile)
    ensures
        final(data_files)@ == old(data_files)@ + files_of(manifest),
{
    let ghost wanted = files_of(manifest);
    let ghost all = manifest.entries@;
    let ghost start = data_files@;
    for entry in it: manifest.entries.into_iter()
        invariant
            it.seq() == all,
            wanted == all.map_values(|entry: ManifestEntry| entry.data_file),
            data_files@ == start + wanted.take(it.index() as int),
    {
        proof {
            assert(wanted.take(it.index() + 1) =~= wanted.take(it.index() as int).push(
                wanted[it.index() as int],
            ));
        }
        data_files.push(entry.data_file);
    }
    assert(wanted.take(all.len() as int) =~= wanted);
}

impl Table {
    /// Goes on with the walk at `entries[index]`.
    fn scan_from(
        &self,
        entries: Vec<ManifestListEntry>,
        index: usize,
        data_files: Vec<DataFile>,
    ) -> (r: Result<ScanStep, TableError>)
        ensures
            scans_to(r, spec_scan_from(self@, entries@, index as int, data_files@)),
    {
        if index < entries.len() {
            match self.rel_path(entries[index].manifest_path.as_str()) {
                Ok(path) => Ok(ScanStep::ReadManifest { path, entries, index, data_files }),
                Err(e) => Err(e),
            }
        } else {
            Ok(ScanStep::Done { data_files })
        }
    }

    /// The first step of finding the data files of the current snapshot:
    /// which manifest list to read. The table must be loaded. Fails with
    /// `IcebergDataInvalid` where the current metadata names no current
    /// snapshot, holds no snapshot of that id, or the snapshot's manifest
    /// list is not under the table's location.
    pub fn current_data_files(&self) -> (r: Result<ScanStep, TableError>)
        requires
            self@.wf(),
            self@.is_loaded(),
        ensures
            scans_to(r, spec_current_data_files(self@)),
            self@.cache[self@.current_version].current_snapshot_id is None ==> fails_with(
                r,
                ErrorKind::IcebergDataInvalid,
                "current snapshot id is empty"@,
            ),
            self@.cache[self@.current_version].current_snapshot_id is Some
                && self@.cache[self@.current_version].snapshots is None ==> fails_with(
                r,
                ErrorKind::IcebergDataInvalid,
                "snapshots is empty"@,
            ),
            self@.cache[self@.current_version].current_snapshot_id is Some
                && self@.cache[self@.current_version].snapshots is Some && spec_current_snapshot(
                self@,
            ) is None ==> fails_with(
                r,
                ErrorKind::IcebergDataInvalid,
                "snapshot with id "@ + ascii_text(
                    decimal(self@.cache[self@.current_version].current_snapshot_id->Some_0 as int),
                ) + " is not found"@,
            ),
    {
        let metadata = self.current_table_metadata();
        let current_snapshot_id = match metadata.current_snapshot_id {
            Some(id) => id,
            None => {
                return Err(
                    TableError::new(ErrorKind::IcebergDataInvalid, "current snapshot id is empty"),
                );
            },
        };
        let snapshots = match &metadata.snapshots {
            Some(snapshots) => snapshots,
            None => {
                return Err(TableError::new(ErrorKind::IcebergDataInvalid, "snapshots is empty"));
            },
        };
        match snapshot_with_id(snapshots, current_snapshot_id) {
            Some(snapshot) => match self.rel_path(snapshot.manifest_list.as_str()) {
                Ok(path) => Ok(ScanStep::ReadManifestList { path }),
                Err(e) => Err(e),
            },
            None => {
                let mut message = String::from_str("snapshot with id ");
                message.append(decimal_string(current_snapshot_id).as_str());
                message.append(" is not found");
                Err(TableError::new(ErrorKind::IcebergDataInvalid, message.as_str()))
            },
        }
    }

    /// Takes what the driver read for the step `pending` and gives the next
    /// step: the next manifest to read, or, after the last, the data files of
    /// all manifests, in the order of the manifest list and, within one
    /// manifest, in its order. Fails with `IcebergDataInvalid` where the next
    /// manifest is not under the table's location.
    pub fn current_data_files_next(&self, pending: ScanStep, reply: ScanReply) -> (r: Result<
        ScanStep,
        TableError,
    >)
        ensures
            scans_to(r, spec_scan_next(self@, pending@, reply)),
    {
        match (pending, reply) {
            (ScanStep::ReadManifestList { .. }, ScanReply::ManifestList(list)) => self.scan_from(
                list.entries,
                0,
                Vec::new(),
            ),
            (
                ScanStep::ReadManifest { entries, index, data_files, .. },
                ScanReply::Manifest(manifest),
            ) => {
                if index < entries.len() {
                    let mut data_files = data_files;
                    collect(&mut data_files, manifest);
                    self.scan_from(entries, index + 1, data_files)
                } else {
                    Err(
                        TableError::new(
                            ErrorKind::Unexpected,
                            "the answer does not fit the pending step",
                        ),
                    )
                }
            },
            _ => Err(
                TableError::new(ErrorKind::Unexpected, "the answer does not fit the pending step"),
            ),
        }
    }
}

/// The step that is pending after the driver has given `replies`, in
/// order, starting from the step `pending`. `None` where one of the answers
/// ends the scan in failure.
pub open spec fn spec_scan_run(
    table: TableState,
    pending: ScanStepView,
    replies: Seq<ScanReply>,
) -> Option<ScanStepView>
    decreases replies.len(),
{
    if replies.len() == 0 {
        Some(pending)
    } else {
        match spec_scan_next(table, pending, replies[0]) {
            Ok(step) => spec_scan_run(table, step, replies.drop_first()),
            Err(_) => None,
        }
    }
}

/// The answers that hand over `manifests`, one by one.
pub open spec fn manifest_replies(manifests: Seq<ManifestFile>) -> Seq<ScanReply> {
    manifests.map_values(|manifest: ManifestFile| ScanReply::Manifest(manifest))
}

/// The data files of `manifests`: those of the first manifest in its order,
/// then those of the second, and so on.
pub open spec fn all_files(manifests: Seq<ManifestFile>) -> Seq<DataFile> {
    manifests.map_values(|manifest: ManifestFile| files_of(manifest)).flatten()
}

/// How many data files `manifests` list, all together.
pub open spec fn count_files(manifests: Seq<ManifestFile>) -> nat
    decreases manifests.len(),
{
    if manifests.len() == 0 {
        0
    } else {
        manifests[0].entries@.len() + count_files(manifests.drop_first())
    }
}

/// The data files of some manifests are those of the first and then those
/// of the others, and there are as many as the manifests list.
pub proof fn all_files_unfold(manifests: Seq<ManifestFile>)
    ensures
        manifests.len() == 0 ==> all_files(manifests) == Seq::<DataFile>::empty(),
        manifests.len() > 0 ==> all_files(manifests) == files_of(manifests[0]) + all_files(
            manifests.drop_first(),
        ),
        all_files(manifests).len() == count_files(manifests),
    decreases manifests.len(),
{
    let lists = manifests.map_values(|manifest: ManifestFile| files_of(manifest));
    if manifests.len() > 0 {
        assert(lists.drop_first() =~= manifests.drop_first().map_values(
            |manifest: ManifestFile| files_of(manifest),
        ));
        all_files_unfold(manifests.drop_first());
    }
}

/// From the manifest of `entries[index]` on, a scan that is given the
/// remaining manifests ends with their data files after those it had.
proof fn scan_walks_the_rest(
    table: TableState,
    path: Seq<char>,
    entries: Seq<ManifestListEntry>,
    index: int,
    data_files: Seq<DataFile>,
    manifests: Seq<ManifestFile>,
)
    requires
        0 <= index < entries.len() <= usize::MAX,
        manifests.len() == entries.len() - index,
        forall|i: int|
            0 <= i < entries.len() ==> table.rel_path(#[trigger] entries[i].manifest_path@) is Some,
    ensures
        spec_scan_run(
            table,
            ScanStepView::ReadManifest { path, entries, index: index as usize, data_files },
            manifest_replies(manifests),
        ) == Some(ScanStepView::Done { data_files: data_files + all_files(manifests) }),
    decreases manifests.len(),
{
    let replies = manifest_replies(manifests);
    let rest = manifests.drop_first();
    let collected = data_files + files_of(manifests[0]);
    all_files_unfold(manifests);
    all_files_unfold(rest);
    assert(replies.drop_first() =~= manifest_replies(rest));
    assert(data_files + all_files(manifests) =~= collected + all_files(rest));
    reveal_with_fuel(spec_scan_run, 2);
    if index + 1 < entries.len() {
        let next = table.rel_path(entries[index + 1].manifest_path@)->Some_0;
        scan_walks_the_rest(table, next, entries, index + 1, collected, rest);
    } else {
        assert(collected + all_files(rest) =~= collected);
    }
}

/// A scan returns every data file, in order: where the manifests of a
/// manifest list are all under the table's location, a scan that is given
/// the list and then its manifests ends with the data files of the first
/// manifest in its order, then those of the second, and so on; there are as
/// many as the manifests list all together.
pub proof fn scan_collects_every_data_file(
    table: TableState,
    path: Seq<char>,
    list: ManifestList,
    manifests: Seq<ManifestFile>,
)
    requires
        manifests.len() == list.entries@.len(),
        forall|i: int|
            0 <= i < list.entries@.len() ==> table.rel_path(
                #[trigger] list.entries@[i].manifest_path@,
            ) is Some,
    ensures
        spec_scan_run(
            table,
            ScanStepView::ReadManifestList { path },
            seq![ScanReply::ManifestList(list)] + manifest_replies(manifests),
        ) == Some(ScanStepView::Done { data_files: all_files(manifests) }),
        all_files(manifests).len() == count_files(manifests),
{
    let replies = seq![ScanReply::ManifestList(list)] + manifest_replies(manifests);
    let entries = list.entries@;
    all_files_unfold(manifests);
    assert(replies.drop_first() =~= manifest_replies(manifests));
    assert(entries.len() <= usize::MAX) by {
        assert(list.entries.len() == entries.len());
    }
    reveal_with_fuel(spec_scan_run, 2);
    if entries.len() > 0 {
        let first = table.rel_path(entries[0].manifest_path@)->Some_0;
        scan_walks_the_rest(table, first, entries, 0, Seq::empty(), manifests);
        assert(Seq::<DataFile>::empty() + all_files(manifests) =~= all_files(manifests));
    }
}

} // verus!
