//! The table: which metadata it has loaded, and which of them is current.

use crate::error::{fails_as, fails_with, ErrorKind, TableError};
use crate::text::{is_prefix, strip_prefix};
use crate::types::TableMetadata;
use std::collections::HashMap;
use vstd::prelude::*;
use vstd::string::*;

verus! {

/// A table of one dataset. It keeps every metadata object it has loaded,
/// by the time of its last update, and never drops one.
pub struct Table {
    table_metadata: HashMap<i64, TableMetadata>,
    /// The last-updated time of the current metadata; zero before the first
    /// load.
    current_version: i64,
    current_location: Option<String>,
    /// The file version of the current metadata object, which is not
    /// `current_version`.
    current_table_version: i64,
    task_id: usize,
}

/// What a `Table` holds.
pub struct TableState {
    /// The loaded metadata, by last-updated time.
    pub cache: Map<i64, TableMetadata>,
    pub current_version: i64,
    pub current_location: Option<Seq<char>>,
    pub current_table_version: i64,
    /// The identifier that the next writer gets.
    pub task_id: usize,
}

impl TableState {
    /// A load has succeeded.
    pub open spec fn is_loaded(self) -> bool {
        self.current_version != 0
    }

    /// The state is one that a table can be in: every metadata object is
    /// cached under its own last-updated time, which is not zero; once a load
    /// has succeeded the current one is among them, and the table's location
    /// is its location; the file version is that of an `i32`.
    pub open spec fn wf(self) -> bool {
        &&& forall|k: i64| #[trigger]
            self.cache.contains_key(k) ==> k != 0 && self.cache[k].last_updated_ms == k
        &&& self.is_loaded() ==> self.cache.contains_key(self.current_version)
            && self.current_location == Some(self.cache[self.current_version].location@)
        &&& !self.is_loaded() ==> self.current_location is None
        &&& i32::MIN <= self.current_table_version <= i32::MAX
    }

    /// The state after loading `metadata` from the object of file version
    /// `file_version`.
    pub open spec fn install(self, file_version: i32, metadata: TableMetadata) -> TableState {
        TableState {
            cache: self.cache.insert(metadata.last_updated_ms, metadata),
            current_version: metadata.last_updated_ms,
            current_location: Some(metadata.location@),
            current_table_version: file_version as i64,
            task_id: self.task_id,
        }
    }

    /// `path` relative to the table's location: `None` where no location is
    /// known or `path` does not begin with it.
    pub open spec fn rel_path(self, path: Seq<char>) -> Option<Seq<char>> {
        match self.current_location {
            Some(location) => if is_prefix(location, path) {
                Some(path.skip(location.len() as int))
            } else {
                None
            },
            None => None,
        }
    }
}

impl View for Table {
    type V = TableState;

    closed spec fn view(&self) -> TableState {
        TableState {
            cache: self.table_metadata@,
            current_version: self.current_version,
            current_location: match self.current_location {
                Some(location) => Some(location@),
                None => None,
            },
            current_table_version: self.current_table_version,
            task_id: self.task_id,
        }
    }
}

impl Table {
    /// A table that has loaded nothing yet.
    pub fn new() -> (table: Table)
        ensures
            table@.wf(),
            table@.cache == Map::<i64, TableMetadata>::empty(),
            table@.current_version == 0,
            table@.current_location is None,
            table@.current_table_version == 0,
            table@.task_id == 0,
    {
        Table {
            table_metadata: HashMap::new(),
            current_version: 0,
            current_location: None,
            current_table_version: 0,
            task_id: 0,
        }
    }

    /// The last-updated time of the current metadata; zero before the first
    /// load.
    pub fn current_version(&self) -> (v: i64)
        ensures
            v == self@.current_version,
    {
        self.current_version
    }

    /// The location of the table, as the current metadata gives it; none
    /// before the first load.
    pub fn current_location(&self) -> (location: Option<&str>)
        ensures
            match self@.current_location {
                Some(text) => location matches Some(found) && found@ == text,
                None => location is None,
            },
    {
        match &self.current_location {
            Some(location) => Some(location.as_str()),
            None => None,
        }
    }

    /// The file version of the current metadata object.
    pub fn current_table_version(&self) -> (v: i64)
        ensures
            v == self@.current_table_version,
    {
        self.current_table_version
    }

    /// Makes `metadata`, read from the object of file version
    /// `file_version`, the current metadata. Fails with `IcebergDataInvalid`,
    /// and changes nothing, where its last-updated time is zero.
    pub fn install(&mut self, file_version: i32, metadata: TableMetadata) -> (r: Result<
        (),
        TableError,
    >)
        requires
            old(self)@.wf(),
        ensures
            final(self)@.wf(),
            metadata.last_updated_ms != 0 ==> r is Ok && final(self)@ == old(self)@.install(
                file_version,
                metadata,
            ),
            metadata.last_updated_ms == 0 ==> final(self)@ == old(self)@ && fails_with(
                r,
                ErrorKind::IcebergDataInvalid,
                "Timestamp when the table was last updated is invalid"@,
            ),
    {
        if metadata.last_updated_ms == 0 {
            return Err(
                TableError::new(
                    ErrorKind::IcebergDataInvalid,
                    "Timestamp when the table was last updated is invalid",
                ),
            );
        }
        let version = metadata.last_updated_ms;
        let location = metadata.location.clone();
        self.table_metadata.insert(version, metadata);
        self.current_version = version;
        self.current_location = Some(location);
        self.current_table_version = file_version as i64;
        Ok(())
    }

    /// The current metadata. There is none before the first load.
    pub fn current_table_metadata(&self) -> (metadata: &TableMetadata)
        requires
            self@.wf(),
            self@.is_loaded(),
        ensures
            *metadata == self@.cache[self@.current_version],
    {
        self.table_metadata.get(&self.current_version).unwrap()
    }

    /// `path` relative to the table's location. Fails with
    /// `IcebergDataInvalid` where no metadata has been loaded yet or `path`
    /// does not begin with the location.
    pub fn rel_path(&self, path: &str) -> (r: Result<String, TableError>)
        ensures
            match self@.rel_path(path@) {
                Some(rest) => r matches Ok(found) && found@ == rest,
                None => fails_as(r, ErrorKind::IcebergDataInvalid),
            },
            self@.current_location is None ==> fails_with(
                r,
                ErrorKind::IcebergDataInvalid,
                "table location is empty, maybe it's not loaded?"@,
            ),
            self@.current_location is Some && self@.rel_path(path@) is None ==> fails_with(
                r,
                ErrorKind::IcebergDataInvalid,
                "path is not starts with table location"@ + ": "@ + path@,
            ),
    {
        match &self.current_location {
            None => Err(
                TableError::new(
                    ErrorKind::IcebergDataInvalid,
                    "table location is empty, maybe it's not loaded?",
                ),
            ),
            Some(location) => match strip_prefix(path, location.as_str()) {
                Some(rest) => Ok(rest),
                None => Err(
                    TableError::with_cause(
                        ErrorKind::IcebergDataInvalid,
                        "path is not starts with table location",
                        path,
                    ),
                ),
            },
        }
    }

    /// Assigns the next writer its task identifier, for a table that is
    /// loaded, and moves the counter on. Identifiers grow by one from zero;
    /// after `usize::MAX` the counter starts again at zero.
    pub fn task_writer(&mut self) -> (task_id: usize)
        requires
            old(self)@.is_loaded(),
        ensures
            task_id == old(self)@.task_id,
            final(self)@ == (TableState {
                task_id: if task_id == usize::MAX {
                    0
                } else {
                    (task_id + 1) as usize
                },
                ..old(self)@
            }),
            final(self)@.task_id != task_id,
    {
        let task_id = self.task_id;
        self.task_id = if task_id == usize::MAX {
            0
        } else {
            task_id + 1
        };
        task_id
    }
}

} // verus!
