//! Loading a table: find the current file version, read the metadata object
//! of that version, and make it current.
//!
//! The table decides and the driver acts. A load starts with the step that
//! `Table::load` gives; the driver performs each step on the storage backend
//! and answers it through `Table::load_next`, until the step is `Done`.

use crate::decimal::{decimal, version_round_trip};
use crate::error::{fails_as, ErrorKind, TableError};
use crate::naming::{
    metadata_prefix, spec_metadata_file_path, spec_metadata_prefix, spec_version_hint_path,
    version_hint_path,
};
use crate::table::{Table, TableState};
use crate::types::TableMetadata;
use crate::version::{
    latest_metadata_path, resolve_from_hint, resolve_from_listing, spec_resolve_from_hint,
    spec_resolve_from_listing, Resolved,
};
use vstd::prelude::*;
use vstd::string::*;

verus! {

/// What the driver is to do next.
#[derive(Debug, Clone, PartialEq, Eq)]
pub enum LoadStep {
    /// Find out whether the pointer object at `path` exists.
    ProbeHint { path: String },
    /// Read the pointer object at `path`.
    ReadHint { path: String },
    /// List the paths of all objects under `prefix`.
    ListMetadata { prefix: String },
    /// Read the object at `found.path` and parse it as table metadata.
    ReadMetadata { found: Resolved },
    /// Nothing: the table is loaded.
    Done,
}

/// What the driver found.
#[derive(Debug, Clone, PartialEq, Eq)]
pub enum LoadReply {
    /// Whether the pointer object exists.
    HintExists(bool),
    /// The backend could not tell whether the pointer object exists.
    HintProbeFailed(String),
    /// The content of the pointer object.
    HintContent(Vec<u8>),
    /// The paths of the objects under the prefix, in the backend's order.
    Listing(Vec<String>),
    /// The backend could not start the listing.
    ListFailed(String),
    /// The backend failed in the middle of the listing.
    ListEntryFailed(String),
    /// The parsed metadata object.
    Metadata(TableMetadata),
}

/// A step, over character sequences.
pub enum LoadStepView {
    ProbeHint { path: Seq<char> },
    ReadHint { path: Seq<char> },
    ListMetadata { prefix: Seq<char> },
    ReadMetadata { file_version: i32, path: Seq<char>, legacy_name: bool },
    Done,
}

impl View for LoadStep {
    type V = LoadStepView;

    open spec fn view(&self) -> LoadStepView {
        match *self {
            LoadStep::ProbeHint { path } => LoadStepView::ProbeHint { path: path@ },
            LoadStep::ReadHint { path } => LoadStepView::ReadHint { path: path@ },
            LoadStep::ListMetadata { prefix } => LoadStepView::ListMetadata { prefix: prefix@ },
            LoadStep::ReadMetadata { found } => LoadStepView::ReadMetadata {
                file_version: found.file_version,
                path: found.path@,
                legacy_name: found.legacy_name,
            },
            LoadStep::Done => LoadStepView::Done,
        }
    }
}

/// Where a load stands after an answer: the next step or the kind of
/// failure, and the table's state.
pub struct LoadOutcome {
    pub next: Result<LoadStepView, ErrorKind>,
    pub state: TableState,
}

/// The step that reads the metadata object which version discovery settled
/// on, or its failure.
pub open spec fn read_resolved(found: Result<(i32, Seq<char>, bool), ErrorKind>) -> Result<
    LoadStepView,
    ErrorKind,
> {
    match found {
        Ok((file_version, path, legacy_name)) => Ok(
            LoadStepView::ReadMetadata { file_version, path, legacy_name },
        ),
        Err(kind) => Err(kind),
    }
}

/// The first step of a load.
pub open spec fn spec_load() -> LoadStepView {
    LoadStepView::ProbeHint { path: spec_version_hint_path() }
}

/// What follows when the driver answers the step `pending` with `reply`.
/// Only the answer to `ReadMetadata` changes the table, and only where the
/// metadata is valid; an answer that does not fit the step is `Unexpected`.
pub open spec fn spec_load_next(
    table: TableState,
    pending: LoadStepView,
    reply: LoadReply,
) -> LoadOutcome {
    match (pending, reply) {
        (LoadStepView::ProbeHint { path }, LoadReply::HintExists(exists)) => LoadOutcome {
            next: if exists {
                Ok(LoadStepView::ReadHint { path })
            } else {
                Ok(LoadStepView::ListMetadata { prefix: spec_metadata_prefix() })
            },
            state: table,
        },
        (LoadStepView::ProbeHint { .. }, LoadReply::HintProbeFailed(_)) => LoadOutcome {
            next: Err(ErrorKind::IcebergDataInvalid),
            state: table,
        },
        (LoadStepView::ReadHint { .. }, LoadReply::HintContent(content)) => LoadOutcome {
            next: match spec_resolve_from_hint(content@) {
                Some((file_version, path)) => Ok(
                    LoadStepView::ReadMetadata { file_version, path, legacy_name: false },
                ),
                None => Err(ErrorKind::IcebergDataInvalid),
            },
            state: table,
        },
        (LoadStepView::ListMetadata { .. }, LoadReply::Listing(entries)) => LoadOutcome {
            next: read_resolved(spec_resolve_from_listing(entries@)),
            state: table,
        },
        (LoadStepView::ListMetadata { .. }, LoadReply::ListFailed(_)) => LoadOutcome {
            next: Err(ErrorKind::Unexpected),
            state: table,
        },
        (LoadStepView::ListMetadata { .. }, LoadReply::ListEntryFailed(_)) => LoadOutcome {
            next: Err(ErrorKind::Unexpected),
            state: table,
        },
        (LoadStepView::ReadMetadata { file_version, .. }, LoadReply::Metadata(metadata)) => {
            if metadata.last_updated_ms == 0 {
                LoadOutcome { next: Err(ErrorKind::IcebergDataInvalid), state: table }
            } else {
                LoadOutcome {
                    next: Ok(LoadStepView::Done),
                    state: table.install(file_version, metadata),
                }
            }
        },
        _ => LoadOutcome { next: Err(ErrorKind::Unexpected), state: table },
    }
}

/// The message of the failure, where the answer `reply` to the step
/// `pending` is one of these: the backend's own failure, a pointer that holds
/// no version number, a listing without metadata objects, metadata that was
/// never given a last-updated time, or an answer that does not fit the step.
pub open spec fn spec_load_message(pending: LoadStepView, reply: LoadReply) -> Option<Seq<char>> {
    match (pending, reply) {
        (LoadStepView::ProbeHint { .. }, LoadReply::HintExists(_)) => None,
        (LoadStepView::ProbeHint { .. }, LoadReply::HintProbeFailed(cause)) => Some(
            "check if version hint exist failed"@ + ": "@ + cause@,
        ),
        (LoadStepView::ReadHint { .. }, LoadReply::HintContent(content)) => {
            if spec_resolve_from_hint(content@) is None {
                Some("parse version hint failed"@)
            } else {
                None
            }
        },
        (LoadStepView::ListMetadata { .. }, LoadReply::Listing(entries)) => {
            if latest_metadata_path(entries@) is None {
                Some("no table metadata found"@)
            } else {
                None
            }
        },
        (LoadStepView::ListMetadata { .. }, LoadReply::ListFailed(cause)) => Some(
            "list metadata failed"@ + ": "@ + cause@,
        ),
        (LoadStepView::ListMetadata { .. }, LoadReply::ListEntryFailed(cause)) => Some(
            "list metadata entry failed"@ + ": "@ + cause@,
        ),
        (LoadStepView::ReadMetadata { .. }, LoadReply::Metadata(metadata)) => {
            if metadata.last_updated_ms == 0 {
                Some("Timestamp when the table was last updated is invalid"@)
            } else {
                None
            }
        },
        _ => Some("the answer does not fit the pending step"@),
    }
}

/// `r` is the step that `expected` gives, or a failure of the kind it gives.
pub open spec fn steps_to(
    r: Result<LoadStep, TableError>,
    expected: Result<LoadStepView, ErrorKind>,
) -> bool {
    match expected {
        Ok(step) => r matches Ok(found) && found@ == step,
        Err(kind) => fails_as(r, kind),
    }
}

impl Table {
    /// The first step of a load: probe the pointer object.
    pub fn load() -> (step: LoadStep)
        ensures
            step@ == spec_load(),
    {
        LoadStep::ProbeHint { path: version_hint_path() }
    }

    /// Takes the driver's answer to the step `pending` and gives the next
    /// step. The table changes only when the answer is valid metadata for a
    /// `ReadMetadata` step: it becomes the current metadata. Metadata whose
    /// last-updated time is zero is refused with `IcebergDataInvalid`.
    pub fn load_next(&mut self, pending: LoadStep, reply: LoadReply) -> (r: Result<
        LoadStep,
        TableError,
    >)
        requires
            old(self)@.wf(),
        ensures
            final(self)@.wf(),
            final(self)@ == spec_load_next(old(self)@, pending@, reply).state,
            steps_to(r, spec_load_next(old(self)@, pending@, reply).next),
            spec_load_message(pending@, reply) matches Some(message) ==> r matches Err(e)
                && e.message@ == message,
    {
        match (pending, reply) {
            (LoadStep::ProbeHint { path }, LoadReply::HintExists(exists)) => {
                if exists {
                    Ok(LoadStep::ReadHint { path })
                } else {
                    Ok(LoadStep::ListMetadata { prefix: metadata_prefix() })
                }
            },
            (LoadStep::ProbeHint { .. }, LoadReply::HintProbeFailed(cause)) => Err(
                TableError::with_cause(
                    ErrorKind::IcebergDataInvalid,
                    "check if version hint exist failed",
                    cause.as_str(),
                ),
            ),
            (LoadStep::ReadHint { .. }, LoadReply::HintContent(content)) => {
                match resolve_from_hint(content.as_slice()) {
                    Ok(found) => Ok(LoadStep::ReadMetadata { found }),
                    Err(e) => Err(e),
                }
            },
            (LoadStep::ListMetadata { .. }, LoadReply::Listing(entries)) => {
                match resolve_from_listing(&entries) {
                    Ok(found) => Ok(LoadStep::ReadMetadata { found }),
                    Err(e) => Err(e),
                }
            },
            (LoadStep::ListMetadata { .. }, LoadReply::ListFailed(cause)) => Err(
                TableError::with_cause(
                    ErrorKind::Unexpected,
                    "list metadata failed",
                    cause.as_str(),
                ),
            ),
            (LoadStep::ListMetadata { .. }, LoadReply::ListEntryFailed(cause)) => Err(
                TableError::with_cause(
                    ErrorKind::Unexpected,
                    "list metadata entry failed",
                    cause.as_str(),
                ),
            ),
            (LoadStep::ReadMetadata { found }, LoadReply::Metadata(metadata)) => {
                match self.install(found.file_version, metadata) {
                    Ok(()) => Ok(LoadStep::Done),
                    Err(e) => Err(e),
                }
            },
            _ => Err(
                TableError::new(ErrorKind::Unexpected, "the answer does not fit the pending step"),
            ),
        }
    }
}

/// Where a load stands after the driver has given `replies`, in order,
/// starting from the step `pending`: the step that is pending then, and the
/// table's state. `None` where one of the answers ends the load in failure.
pub open spec fn spec_load_run(
    table: TableState,
    pending: LoadStepView,
    replies: Seq<LoadReply>,
) -> Option<(LoadStepView, TableState)>
    decreases replies.len(),
{
    if replies.len() == 0 {
        Some((pending, table))
    } else {
        let outcome = spec_load_next(table, pending, replies[0]);
        match outcome.next {
            Ok(step) => spec_load_run(outcome.state, step, replies.drop_first()),
            Err(_) => None,
        }
    }
}

/// Making the same metadata current twice is making it current once.
pub proof fn install_is_idempotent(table: TableState, file_version: i32, metadata: TableMetadata)
    ensures
        table.install(file_version, metadata).install(file_version, metadata) == table.install(
            file_version,
            metadata,
        ),
{
    let once = table.install(file_version, metadata);
    assert(once.install(file_version, metadata).cache =~= once.cache);
}

/// Loading again changes nothing: where a load that got `replies` has
/// finished, a second load from the table it left, given the same answers,
/// finishes too and leaves the table as it found it, with the same current
/// version and the same metadata.
pub proof fn reload_changes_nothing(
    table: TableState,
    pending: LoadStepView,
    replies: Seq<LoadReply>,
)
    requires
        spec_load_run(table, pending, replies) matches Some((LoadStepView::Done, _)),
    ensures
        spec_load_run(table, pending, replies) matches Some((_, loaded)) && spec_load_run(
            loaded,
            pending,
            replies,
        ) == Some((LoadStepView::Done, loaded)),
    decreases replies.len(),
{
    let loaded = match spec_load_run(table, pending, replies) {
        Some((_, state)) => state,
        None => table,
    };
    reveal_with_fuel(spec_load_run, 2);
    if replies.len() > 0 {
        let first = spec_load_next(table, pending, replies[0]);
        let again = spec_load_next(loaded, pending, replies[0]);
        let rest = replies.drop_first();
        assert(again.next == first.next);
        if first.next == Ok::<LoadStepView, ErrorKind>(LoadStepView::Done) {
            if rest.len() > 0 {
                assert(spec_load_next(first.state, LoadStepView::Done, rest[0]).next is Err);
            }
            assert(loaded == first.state);
            match (pending, replies[0]) {
                (
                    LoadStepView::ReadMetadata { file_version, .. },
                    LoadReply::Metadata(metadata),
                ) => {
                    install_is_idempotent(table, file_version, metadata);
                },
                _ => {},
            }
        } else {
            assert(first.state == table);
            assert(again.state == loaded);
            reload_changes_nothing(table, first.next->Ok_0, rest);
        }
    }
}

/// A load that finds the pointer object holding `version` in decimal reads
/// the metadata object of that version and, where its metadata is valid,
/// makes it current under that file version.
pub proof fn load_follows_pointer(
    table: TableState,
    version: i32,
    content: Vec<u8>,
    metadata: TableMetadata,
)
    requires
        version >= 0,
        content@ == decimal(version as int),
        metadata.last_updated_ms != 0,
    ensures
        spec_load_run(
            table,
            spec_load(),
            seq![LoadReply::HintExists(true), LoadReply::HintContent(content)],
        ) == Some(
            (
                LoadStepView::ReadMetadata {
                    file_version: version,
                    path: spec_metadata_file_path(version as int),
                    legacy_name: false,
                },
                table,
            ),
        ),
        spec_load_run(
            table,
            spec_load(),
            seq![
                LoadReply::HintExists(true),
                LoadReply::HintContent(content),
                LoadReply::Metadata(metadata),
            ],
        ) == Some((LoadStepView::Done, table.install(version, metadata))),
{
    version_round_trip(version);
    reveal_with_fuel(spec_load_run, 4);
    let two = seq![LoadReply::HintExists(true), LoadReply::HintContent(content)];
    let three = seq![
        LoadReply::HintExists(true),
        LoadReply::HintContent(content),
        LoadReply::Metadata(metadata),
    ];
    assert(two.drop_first() =~= seq![LoadReply::HintContent(content)]);
    assert(two.drop_first().drop_first() =~= Seq::<LoadReply>::empty());
    assert(three.drop_first() =~= seq![
        LoadReply::HintContent(content),
        LoadReply::Metadata(metadata),
    ]);
    assert(three.drop_first().drop_first() =~= seq![LoadReply::Metadata(metadata)]);
    assert(three.drop_first().drop_first().drop_first() =~= Seq::<LoadReply>::empty());
}

} // verus!
