//! Finding the current file version: from the pointer object where there is
//! one, else from the names of the metadata objects.

use crate::decimal::{parse_version, version_number};
use crate::error::{fails_as, fails_with, ErrorKind, TableError};
use crate::naming::spec_metadata_file_path;
use crate::pattern::{capture_view, first_capture, pattern_compiles, search};
use crate::table::Table;
use crate::text::{
    ends_with, is_suffix, lex_le, lex_le_antisymmetric, lex_le_total, lex_le_transitive, precedes,
};
use vstd::prelude::*;
use vstd::seq_lib::*;
use vstd::string::*;

verus! {

/// The file version that version discovery settled on, and the metadata
/// object to read for it.
#[derive(Debug, Clone, PartialEq, Eq)]
pub struct Resolved {
    pub file_version: i32,
    pub path: String,
    /// The object's name does not follow the versioned pattern, and the file
    /// version was taken to be zero.
    pub legacy_name: bool,
}

/// The pattern that the name of a versioned metadata object matches; its
/// first group is the file version.
pub open spec fn version_pattern() -> Seq<char> {
    "v([0-9]+).metadata.json"@
}

/// The path names a metadata object.
pub open spec fn is_metadata_file(path: Seq<char>) -> bool {
    is_suffix(".metadata.json"@, path)
}

/// The test that keeps the metadata objects of a listing.
pub open spec fn keeps_metadata_files() -> spec_fn(String) -> bool {
    |path: String| is_metadata_file(path@)
}

/// The paths are in lexicographic order.
pub open spec fn sorted_by_name(paths: Seq<String>) -> bool {
    forall|i: int, j: int| 0 <= i <= j < paths.len() ==> lex_le(paths[i]@, paths[j]@)
}

/// `path` is a metadata object of the listing that no other one comes after.
pub open spec fn is_latest(entries: Seq<String>, path: Seq<char>) -> bool {
    &&& is_metadata_file(path)
    &&& exists|i: int| 0 <= i < entries.len() && #[trigger] entries[i]@ == path
    &&& forall|j: int|
        0 <= j < entries.len() && is_metadata_file(#[trigger] entries[j]@) ==> lex_le(
            entries[j]@,
            path,
        )
}

/// The metadata object of the listing that sorts last, if it has any.
pub open spec fn latest_metadata_path(entries: Seq<String>) -> Option<Seq<char>> {
    if exists|path: Seq<char>| is_latest(entries, path) {
        Some(choose|path: Seq<char>| is_latest(entries, path))
    } else {
        None
    }
}

/// A listing has at most one latest metadata object.
pub proof fn latest_is_unique(entries: Seq<String>, path: Seq<char>)
    requires
        is_latest(entries, path),
    ensures
        latest_metadata_path(entries) == Some(path),
{
    let other = choose|p: Seq<char>| is_latest(entries, p);
    let i = choose|i: int| 0 <= i < entries.len() && #[trigger] entries[i]@ == path;
    let j = choose|j: int| 0 <= j < entries.len() && #[trigger] entries[j]@ == other;
    assert(lex_le(entries[i]@, other));
    assert(lex_le(entries[j]@, path));
    lex_le_antisymmetric(path, other);
}

/// A listing without metadata objects has no latest one.
pub proof fn latest_of_none(entries: Seq<String>)
    requires
        forall|i: int| 0 <= i < entries.len() ==> !is_metadata_file(#[trigger] entries[i]@),
    ensures
        latest_metadata_path(entries) is None,
{
}

/// What the pointer content designates: the file version it holds, and the
/// metadata object of that version.
pub open spec fn spec_resolve_from_hint(content: Seq<u8>) -> Option<(i32, Seq<char>)> {
    match version_number(content) {
        Some(v) => Some((v, spec_metadata_file_path(v as int))),
        None => None,
    }
}

/// The file version in the name of a metadata object, given what the
/// version pattern captured there: zero where the name does not match.
pub open spec fn spec_version_of_capture(found: Option<Option<Seq<u8>>>) -> Option<i32> {
    match found {
        None => Some(0),
        Some(None) => None,
        Some(Some(digits)) => version_number(digits),
    }
}

/// Reads the pointer content as the current file version. Fails with
/// `IcebergDataInvalid` unless the whole content is a decimal integer that is
/// not negative and fits in `i32`.
pub fn read_version_hint(content: &[u8]) -> (r: Result<i32, TableError>)
    ensures
        match version_number(content@) {
            Some(v) => r == Ok::<i32, TableError>(v),
            None => fails_with(r, ErrorKind::IcebergDataInvalid, "parse version hint failed"@),
        },
{
    match parse_version(content) {
        Some(v) => Ok(v),
        None => Err(TableError::new(ErrorKind::IcebergDataInvalid, "parse version hint failed")),
    }
}

/// Version discovery through the pointer object.
pub fn resolve_from_hint(content: &[u8]) -> (r: Result<Resolved, TableError>)
    ensures
        match spec_resolve_from_hint(content@) {
            Some((v, path)) => r matches Ok(found) && found.file_version == v && found.path@
                == path && !found.legacy_name,
            None => fails_with(r, ErrorKind::IcebergDataInvalid, "parse version hint failed"@),
        },
{
    match read_version_hint(content) {
        Ok(v) => Ok(
            Resolved {
                file_version: v,
                path: Table::metadata_file_path(v as i64),
                legacy_name: false,
            },
        ),
        Err(e) => Err(e),
    }
}

/// Puts `path` into the sorted `paths`, after every path that is at most it.
fn insert_sorted(paths: &mut Vec<String>, path: String)
    requires
        sorted_by_name(old(paths)@),
    ensures
        sorted_by_name(final(paths)@),
        final(paths)@.to_multiset() == old(paths)@.to_multiset().insert(path),
{
    let mut pos: usize = paths.len();
    while pos > 0 && !precedes(paths[pos - 1].as_str(), path.as_str())
        invariant
            pos <= paths.len(),
            paths@ == old(paths)@,
            forall|k: int| pos <= k < paths.len() ==> lex_le(path@, #[trigger] paths[k]@),
        decreases pos,
    {
        proof {
            lex_le_total(paths[pos - 1]@, path@);
        }
        pos = pos - 1;
    }
    let ghost before = paths@;
    proof {
        assert forall|k: int| 0 <= k < pos implies lex_le(#[trigger] before[k]@, path@) by {
            lex_le_transitive(before[k]@, before[pos - 1]@, path@);
        }
    }
    paths.insert(pos, path);
    proof {
        broadcast use to_multiset_insert;

        assert(paths@ == before.insert(pos as int, path));
        assert forall|i: int, j: int| 0 <= i <= j < paths.len() implies lex_le(
            paths[i]@,
            paths[j]@,
        ) by {
            if i == j {
                crate::text::lex_le_reflexive(paths[i]@);
            } else if j == pos {
                assert(paths[i] == before[i]);
            } else if i == pos {
                assert(paths[j] == before[j - 1]);
            } else {
                let a = if i < pos { i } else { i - 1 };
                let b = if j < pos { j } else { j - 1 };
                assert(paths[i] == before[a]);
                assert(paths[j] == before[b]);
            }
        }
    }
}

/// The metadata objects among the listed paths, in lexicographic order.
pub fn list_table_metadata_paths(entries: &Vec<String>) -> (paths: Vec<String>)
    ensures
        sorted_by_name(paths@),
        paths@.to_multiset() == entries@.filter(keeps_metadata_files()).to_multiset(),
{
    let mut paths: Vec<String> = Vec::new();
    let mut i: usize = 0;
    assert(entries@.take(0).filter(keeps_metadata_files()) =~= Seq::<String>::empty());
    while i < entries.len()
        invariant
            0 <= i <= entries.len(),
            sorted_by_name(paths@),
            paths@.to_multiset() == entries@.take(i as int).filter(
                keeps_metadata_files(),
            ).to_multiset(),
        decreases entries.len() - i,
    {
        let ghost seen = entries@.take(i as int);
        proof {
            broadcast use to_multiset_build;

            assert(entries@.take(i + 1) =~= seen.push(entries@[i as int]));
            seen.lemma_filter_push(entries@[i as int], keeps_metadata_files());
        }
        if ends_with(entries[i].as_str(), ".metadata.json") {
            insert_sorted(&mut paths, entries[i].clone());
        }
        i = i + 1;
    }
    assert(entries@.take(i as int) =~= entries@);
    paths
}

/// The metadata object among the listed paths that sorts last.
pub fn latest_table_metadata_path(entries: &Vec<String>) -> (r: Option<String>)
    ensures
        match latest_metadata_path(entries@) {
            Some(path) => r matches Some(found) && found@ == path,
            None => r is None,
        },
{
    let paths = list_table_metadata_paths(entries);
    let ghost kept = entries@.filter(keeps_metadata_files());
    if paths.len() == 0 {
        proof {
            to_multiset_len(paths@);
            to_multiset_len(kept);
            assert forall|i: int| 0 <= i < entries.len() implies !is_metadata_file(
                #[trigger] entries[i]@,
            ) by {
                if is_metadata_file(entries[i]@) {
                    entries@.lemma_filter_contains(keeps_metadata_files(), i);
                }
            }
            latest_of_none(entries@);
        }
        None
    } else {
        let last = paths[paths.len() - 1].clone();
        proof {
            assert(paths@.contains(last));
            to_multiset_contains(paths@, last);
            to_multiset_contains(kept, last);
            let at = choose|k: int| 0 <= k < kept.len() && kept[k] == last;
            entries@.lemma_filter_pred(keeps_metadata_files(), at);
            entries@.lemma_filter_contains_rev(keeps_metadata_files(), last);
            let origin = choose|i: int| 0 <= i < entries.len() && entries[i] == last;
            assert(entries[origin]@ == last@);
            assert forall|j: int|
                0 <= j < entries.len() && is_metadata_file(#[trigger] entries[j]@) implies lex_le(
                entries[j]@,
                last@,
            ) by {
                entries@.lemma_filter_contains(keeps_metadata_files(), j);
                to_multiset_contains(kept, entries[j]);
                to_multiset_contains(paths@, entries[j]);
                let k = choose|k: int| 0 <= k < paths.len() && paths[k] == entries[j];
                assert(lex_le(paths[k]@, paths[paths.len() - 1]@));
            }
            latest_is_unique(entries@, last@);
        }
        Some(last)
    }
}

/// What the name of the metadata object at `path` says of its file version:
/// the version the pattern captures there, zero under a legacy name, or the
/// kind of failure.
pub open spec fn spec_resolve_from_path(path: Seq<char>) -> Result<(i32, bool), ErrorKind> {
    if !pattern_compiles(version_pattern()) {
        Err(ErrorKind::Unexpected)
    } else {
        match first_capture(version_pattern(), path) {
            None => Ok((0, true)),
            Some(None) => Err(ErrorKind::IcebergDataInvalid),
            Some(Some(digits)) => match version_number(digits) {
                Some(v) => Ok((v, false)),
                None => Err(ErrorKind::IcebergDataInvalid),
            },
        }
    }
}

/// What a listing of the metadata root says of the current file version.
pub open spec fn spec_resolve_from_listing(entries: Seq<String>) -> Result<
    (i32, Seq<char>, bool),
    ErrorKind,
> {
    match latest_metadata_path(entries) {
        None => Err(ErrorKind::IcebergDataInvalid),
        Some(path) => match spec_resolve_from_path(path) {
            Ok((v, legacy)) => Ok((v, path, legacy)),
            Err(kind) => Err(kind),
        },
    }
}

/// `r` is the resolution that `expected` describes, or a failure of the kind
/// it gives.
pub open spec fn resolves_as(
    r: Result<Resolved, TableError>,
    expected: Result<(i32, Seq<char>, bool), ErrorKind>,
) -> bool {
    match expected {
        Ok((v, path, legacy)) => r matches Ok(found) && found.file_version == v && found.path@
            == path && found.legacy_name == legacy,
        Err(kind) => fails_as(r, kind),
    }
}

/// The file version of the metadata object at `path`, from what the version
/// pattern captured in its name. A name that does not match is a legacy name
/// and stands for version zero; a match whose digits are no `i32`, or that
/// captured nothing, fails with `IcebergDataInvalid`.
pub fn version_of_capture(found: Option<Option<Vec<u8>>>, path: String) -> (r: Result<
    Resolved,
    TableError,
>)
    ensures
        match spec_version_of_capture(capture_view(found)) {
            Some(v) => r matches Ok(res) && res.file_version == v && res.path == path
                && res.legacy_name == (found is None),
            None => fails_as(r, ErrorKind::IcebergDataInvalid),
        },
        found matches Some(None) ==> fails_with(
            r,
            ErrorKind::IcebergDataInvalid,
            "Invalid metadata file name"@ + ": "@ + path@,
        ),
        found matches Some(Some(digits)) && version_number(digits@) is None ==> fails_with(
            r,
            ErrorKind::IcebergDataInvalid,
            "Failed to parse int"@,
        ),
{
    match found {
        None => Ok(Resolved { file_version: 0, path, legacy_name: true }),
        Some(None) => Err(
            TableError::with_cause(
                ErrorKind::IcebergDataInvalid,
                "Invalid metadata file name",
                path.as_str(),
            ),
        ),
        Some(Some(digits)) => match parse_version(digits.as_slice()) {
            Some(v) => Ok(Resolved { file_version: v, path, legacy_name: false }),
            None => Err(TableError::new(ErrorKind::IcebergDataInvalid, "Failed to parse int")),
        },
    }
}

/// The file version of the metadata object at `path`, read from its name
/// with the version pattern. Fails with `Unexpected` where the pattern does
/// not compile.
pub fn resolve_from_path(path: String) -> (r: Result<Resolved, TableError>)
    ensures
        resolves_as(
            r,
            match spec_resolve_from_path(path@) {
                Ok((v, legacy)) => Ok((v, path@, legacy)),
                Err(kind) => Err(kind),
            },
        ),
        !pattern_compiles(version_pattern()) ==> fails_with(
            r,
            ErrorKind::Unexpected,
            "Failed to parse regex"@,
        ),
{
    match search("v([0-9]+).metadata.json", path.as_str()) {
        Ok(found) => version_of_capture(found, path),
        Err(_) => Err(TableError::new(ErrorKind::Unexpected, "Failed to parse regex")),
    }
}

/// Version discovery through a listing of the metadata root: the metadata
/// object that sorts last is taken as the latest. Fails with
/// `IcebergDataInvalid` where the listing holds no metadata object.
///
/// The order is that of the names, not of the numbers in them: it finds the
/// highest version only while all versions have the same number of digits
/// (`v9` sorts after `v10`). Tables with a pointer object do not come here.
pub fn resolve_from_listing(entries: &Vec<String>) -> (r: Result<Resolved, TableError>)
    ensures
        resolves_as(r, spec_resolve_from_listing(entries@)),
        latest_metadata_path(entries@) is None ==> fails_with(
            r,
            ErrorKind::IcebergDataInvalid,
            "no table metadata found"@,
        ),
{
    match latest_table_metadata_path(entries) {
        None => Err(TableError::new(ErrorKind::IcebergDataInvalid, "no table metadata found")),
        Some(path) => resolve_from_path(path),
    }
}

} // verus!
