//! Errors of an update check.
use vstd::prelude::*;

verus! {

/// Why an update check stopped.
#[derive(Debug, Clone, Copy, PartialEq, Eq, Structural)]
pub enum ReleaseError {
    /// The metadata or asset endpoint could not be reached.
    NetworkError,
    /// The release metadata was not valid JSON or lacked `tag_name`.
    MalformedResponse,
    /// A tag does not have the expected lexical form.
    MalformedTag,
    /// A tag could not be mapped to a download URL.
    UrlResolutionError,
    /// The running executable is not inside a directory named `bin`.
    InstallLocationError,
    /// Creating, writing or moving a file failed.
    IoError,
}

} // verus!
