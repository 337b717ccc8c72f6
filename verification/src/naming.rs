//! Where the objects of a table live, relative to the storage root.

use crate::decimal::{ascii_text, decimal, decimal_string};
use crate::table::Table;
use vstd::prelude::*;
use vstd::string::*;

verus! {

/// The path of `filename` under the metadata root.
pub open spec fn spec_metadata_path(filename: Seq<char>) -> Seq<char> {
    "metadata"@ + "/"@ + filename
}

/// The path of the metadata object of file version `version`.
pub open spec fn spec_metadata_file_path(version: int) -> Seq<char> {
    spec_metadata_path("v"@ + ascii_text(decimal(version)) + ".metadata.json"@)
}

/// The prefix under which all metadata objects are listed.
pub open spec fn spec_metadata_prefix() -> Seq<char> {
    "metadata/"@
}

/// The path of the pointer object, which records the current file version.
pub open spec fn spec_version_hint_path() -> Seq<char> {
    spec_metadata_path("version-hint.text"@)
}

/// The path of the temporary object that a commit writes its metadata to.
pub open spec fn spec_temp_metadata_path(token: Seq<char>) -> Seq<char> {
    spec_metadata_path(token + ".metadata.json"@)
}

/// The path of the temporary object that a commit writes its pointer to.
pub open spec fn spec_temp_version_hint_path(token: Seq<char>) -> Seq<char> {
    spec_metadata_path(token + "-version-hint.temp"@)
}

impl Table {
    /// The path of `filename` under the metadata root.
    pub fn metadata_path(filename: &str) -> (path: String)
        ensures
            path@ == spec_metadata_path(filename@),
    {
        let mut path = String::from_str("metadata");
        path.append("/");
        path.append(filename);
        path
    }

    /// The path of the metadata object of file version `metadata_version`.
    pub fn metadata_file_path(metadata_version: i64) -> (path: String)
        ensures
            path@ == spec_metadata_file_path(metadata_version as int),
    {
        let mut name = String::from_str("v");
        name.append(decimal_string(metadata_version).as_str());
        name.append(".metadata.json");
        Table::metadata_path(name.as_str())
    }
}

/// The prefix under which all metadata objects are listed.
pub fn metadata_prefix() -> (prefix: String)
    ensures
        prefix@ == spec_metadata_prefix(),
{
    String::from_str("metadata/")
}

/// The path of the pointer object.
pub fn version_hint_path() -> (path: String)
    ensures
        path@ == spec_version_hint_path(),
{
    Table::metadata_path("version-hint.text")
}

/// The path of the temporary metadata object named by `token`.
pub fn temp_metadata_path(token: &str) -> (path: String)
    ensures
        path@ == spec_temp_metadata_path(token@),
{
    let mut name = String::from_str(token);
    name.append(".metadata.json");
    Table::metadata_path(name.as_str())
}

/// The path of the temporary pointer object named by `token`.
pub fn temp_version_hint_path(token: &str) -> (path: String)
    ensures
        path@ == spec_temp_version_hint_path(token@),
{
    let mut name = String::from_str(token);
    name.append("-version-hint.temp");
    Table::metadata_path(name.as_str())
}

} // verus!
