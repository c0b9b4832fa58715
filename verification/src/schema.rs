//! Schema versions of the photo database and the order in which migrations run.

use vstd::prelude::*;

verus! {

/// An ordered, non-negative integer identifying a schema generation.
#[derive(Debug, Copy, Clone, PartialEq, Eq, Structural)]
pub struct Version(pub u32);

/// A generation of the photo database layout. Exactly one variant exists for
/// every integer from 0 (blank database) to the latest version; an integer
/// outside that range maps to no variant and is rejected by `from_version`.
#[derive(Debug, Copy, Clone, PartialEq, Eq, Structural)]
pub enum PhotoDbSchema {
    /// Nothing in there yet.
    Empty,
    /// The very first version: the photo table and the thumbnail table.
    InitialVersion,
}

/// The integer of the newest schema generation this library understands.
pub open spec fn spec_latest_version() -> u32 {
    1
}

impl PhotoDbSchema {
    /// The explicit, exhaustive mapping from a stored version integer to a
    /// schema variant. Unknown integers (a database newer than this code)
    /// yield `None`.
    pub fn from_version(version: Version) -> (r: Option<PhotoDbSchema>)
        ensures
            version.0 == 0 ==> r == Some(PhotoDbSchema::Empty),
            version.0 == 1 ==> r == Some(PhotoDbSchema::InitialVersion),
            version.0 > 1 ==> r is None,
    {
        match version.0 {
            0 => Some(PhotoDbSchema::Empty),
            1 => Some(PhotoDbSchema::InitialVersion),
            _ => None,
        }
    }

    /// The version integer of this schema variant.
    pub fn version(&self) -> (r: Version)
        ensures
            r == self.spec_version(),
    {
        match self {
            PhotoDbSchema::Empty => Version(0),
            PhotoDbSchema::InitialVersion => Version(1),
        }
    }

    pub open spec fn spec_version(&self) -> Version {
        match self {
            PhotoDbSchema::Empty => Version(0),
            PhotoDbSchema::InitialVersion => Version(1),
        }
    }

    /// The newest schema generation.
    pub fn latest() -> (r: PhotoDbSchema)
        ensures
            r == PhotoDbSchema::InitialVersion,
            r.spec_version().0 == spec_latest_version(),
    {
        PhotoDbSchema::InitialVersion
    }
}

} // verus!
