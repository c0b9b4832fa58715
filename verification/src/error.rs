//! Error taxonomy of the engine.

use vstd::prelude::*;
use crate::schema::Version;

verus! {

/// Every failure the engine reports falls in one of these classes.
///
/// Per-file failures during a scan or a thumbnail run are recovered locally
/// (counted, the photo skipped or marked with an error record); `Store` and
/// `SchemaVersionUnknown` are fatal to the whole operation. `Interrupted` is
/// a clean partial-success stop, distinct from a failure.
#[derive(Debug)]
pub enum ArchiveError {
    /// A file was missing or unreadable.
    Io(String),
    /// No reader accepts the file's extension.
    FormatUnsupported,
    /// A reader accepted the file but could not parse it.
    FormatDecode(String),
    /// The underlying relational engine failed.
    Store(String),
    /// The store reports a schema generation newer than this code understands.
    SchemaVersionUnknown { version: Version },
    /// Cooperative cancellation was observed.
    Interrupted,
}

} // verus!
