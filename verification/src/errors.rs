use vstd::prelude::*;
use vstd::string::StringExecFns;

verus! {

/// The ways handling a single file can fail.
///
/// Every failure is scoped to one file; a driver reports it and moves on.
#[derive(Clone, Copy, Debug, PartialEq, Eq, Structural)]
pub enum FmmdError {
    /// The metadata container could not be read or parsed.
    FileParse,
    /// The filesystem rename operation failed.
    FileRename,
    /// The tag holds an empty title and a track number of zero, so no
    /// meaningful name can be built.
    NotEnoughMetadata,
    /// The file path lacks a file extension (or a file name altogether), so
    /// no target path can be built.
    InvalidPath,
}

/// The message shown to the user for each error kind.
pub open spec fn spec_message(e: FmmdError) -> Seq<char> {
    match e {
        FmmdError::FileParse => "Could not parse the file"@,
        FmmdError::FileRename => "Could not rename the file"@,
        FmmdError::NotEnoughMetadata => "Could not find enough information in the file to rename it"@,
        FmmdError::InvalidPath => "Could not determine a new path for the file"@,
    }
}

impl FmmdError {
    /// The human-readable message for this error.
    pub fn message(&self) -> (r: String)
        ensures
            r@ == spec_message(*self),
    {
        match self {
            FmmdError::FileParse => String::from_str("Could not parse the file"),
            FmmdError::FileRename => String::from_str("Could not rename the file"),
            FmmdError::NotEnoughMetadata => String::from_str(
                "Could not find enough information in the file to rename it",
            ),
            FmmdError::InvalidPath => String::from_str(
                "Could not determine a new path for the file",
            ),
        }
    }
}

} // verus!
