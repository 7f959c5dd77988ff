//! The errors of the two operations and the messages they are reported with.

use vstd::prelude::*;
use vstd::string::StringExecFns;

verus! {

/// The two operations of the library.
#[derive(Clone, Copy, Debug, PartialEq, Eq, Structural)]
pub enum Operation {
    /// Unpack an archive into a destination directory.
    Extract,
    /// Pack a source directory into an archive.
    Compress,
}

impl Operation {
    /// The name under which the host runtime calls the operation.
    pub open spec fn spec_name(self) -> Seq<char> {
        match self {
            Operation::Extract => "zip_extract"@,
            Operation::Compress => "zip_compress"@,
        }
    }

    /// The name under which the operation is registered with the host
    /// runtime.
    pub fn name(self) -> (text: String)
        ensures
            text@ == self.spec_name(),
    {
        match self {
            Operation::Extract => String::from_str("zip_extract"),
            Operation::Compress => String::from_str("zip_compress"),
        }
    }
}

/// Why an operation failed.
#[derive(Clone, Debug, PartialEq, Eq)]
pub enum ArchiveError {
    /// Fewer than two arguments were supplied.
    Usage(Operation),
    /// An argument could not be read as text; the host's own message.
    Argument(String),
    /// The archive file could not be opened for reading.
    Open(String),
    /// The archive file could not be created for writing.
    Create(String),
    /// The archive container could not be parsed.
    Format(String),
    /// A visited node does not lie under the source root.
    PathPrefix,
    /// A visited node's path is not representable as text.
    PathNotText,
    /// Directory creation, file creation, reading or writing failed.
    Io(String),
}

impl ArchiveError {
    /// The message that the caller is shown for this error.
    pub open spec fn spec_message(self) -> Seq<char> {
        match self {
            ArchiveError::Usage(Operation::Extract) => "Args: zip_path, dest_dir"@,
            ArchiveError::Usage(Operation::Compress) => "Args: source_dir, zip_path"@,
            ArchiveError::Argument(text) => text@,
            ArchiveError::Open(text) => "Open failed: "@ + text@,
            ArchiveError::Create(text) => text@,
            ArchiveError::Format(text) => "Invalid zip: "@ + text@,
            ArchiveError::PathPrefix => "Path prefix error"@,
            ArchiveError::PathNotText => "Invalid UTF-8 path"@,
            ArchiveError::Io(text) => text@,
        }
    }

    /// Renders the error as the descriptive string handed back to the caller.
    pub fn message(&self) -> (text: String)
        ensures
            text@ == self.spec_message(),
    {
        match self {
            ArchiveError::Usage(Operation::Extract) => String::from_str("Args: zip_path, dest_dir"),
            ArchiveError::Usage(Operation::Compress) => String::from_str(
                "Args: source_dir, zip_path",
            ),
            ArchiveError::Argument(text) => text.clone(),
            ArchiveError::Open(text) => String::from_str("Open failed: ").concat(text.as_str()),
            ArchiveError::Create(text) => text.clone(),
            ArchiveError::Format(text) => String::from_str("Invalid zip: ").concat(text.as_str()),
            ArchiveError::PathPrefix => String::from_str("Path prefix error"),
            ArchiveError::PathNotText => String::from_str("Invalid UTF-8 path"),
            ArchiveError::Io(text) => text.clone(),
        }
    }
}

} // verus!
