use vstd::prelude::*;

verus! {

/// Every failure the manifest-editing operations can report.
#[derive(Debug, PartialEq, Eq)]
pub enum Ros2wsError {
    /// An existing node at the named key (first field) does not have the
    /// expected kind (second field, `"table"` or `"array"`).
    InvalidManifestFile(String, String),
    /// A path handed to a mutation, read or write operation was not absolute;
    /// holds the offending path.
    NotAbsolutePath(String),
    /// The crate name handed to a patch operation was empty.
    EmptyCrateName,
    /// The manifest text is not valid TOML; holds the parser's message.
    ParseFailed(String),
}

} // verus!
