//! Sans-I/O core of a versioned table store: version discovery, metadata
//! caching, data-file resolution and the commit plan, each with a proved
//! contract. The driver that owns the storage backend performs the requests
//! this crate hands out and feeds the answers back in.

pub mod commit;
pub mod data_files;
pub mod decimal;
pub mod error;
pub mod load;
pub mod location;
pub mod naming;
pub mod pattern;
pub mod storage;
pub mod table;
pub mod text;
pub mod types;
pub mod version;

pub use error::{ErrorKind, TableError};
pub use table::{Table, TableState};
pub use types::{
    DataFile, ManifestEntry, ManifestFile, ManifestList, ManifestListEntry, Snapshot, StorageInfo,
    TableFormatVersion, TableMetadata,
};
