//! The ways in which importing one photo, or starting a run, can fail.

use vstd::prelude::*;

verus! {

/// Why an item was dropped, or why a run could not start.
#[derive(Debug, Clone, Copy, PartialEq, Eq, Structural)]
pub enum ImportError {
    /// A file could not be read, created or copied.
    Io,
    /// The metadata tool failed or returned no record for the file.
    MetadataUnavailable,
    /// The record carries neither an original nor a creation date.
    MissingTimestamp,
    /// The checksum index could not be opened or created.
    StoreInit,
    /// A path cannot be written as text.
    PathEncoding,
}

impl ImportError {
    /// Only a failure to open the checksum index ends the whole run; every
    /// other failure drops one item and the run goes on.
    pub fn is_fatal(&self) -> (fatal: bool)
        ensures
            fatal == (*self == ImportError::StoreInit),
    {
        match self {
            ImportError::StoreInit => true,
            _ => false,
        }
    }

    /// The text of the diagnostic for this failure.
    pub open spec fn describe_spec(self) -> Seq<char> {
        match self {
            ImportError::Io => "file could not be read or written"@,
            ImportError::MetadataUnavailable => "no metadata available"@,
            ImportError::MissingTimestamp => "EXIF data is missing DateTime"@,
            ImportError::StoreInit => "Unable to open photohash db"@,
            ImportError::PathEncoding => "Invalid path provided"@,
        }
    }

    /// A one-line diagnostic naming the kind of failure.
    pub fn describe(&self) -> (text: &'static str)
        ensures
            text@ == self.describe_spec(),
    {
        match self {
            ImportError::Io => "file could not be read or written",
            ImportError::MetadataUnavailable => "no metadata available",
            ImportError::MissingTimestamp => "EXIF data is missing DateTime",
            ImportError::StoreInit => "Unable to open photohash db",
            ImportError::PathEncoding => "Invalid path provided",
        }
    }
}

} // verus!
