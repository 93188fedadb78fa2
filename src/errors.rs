//! The failures that end a run.

use vstd::prelude::*;

verus! {

/// Declares the zip crate's error so that it can be carried through.
#[verifier::external_type_specification]
#[verifier::external_body]
pub struct ExZipError(zip::result::ZipError);

pub type PackResult<T> = Result<T, PackError>;

/// Why a run stopped. Failures of the outside tools are carried as their
/// messages; a zip failure is carried as it came.
#[derive(Debug)]
pub enum PackError {
    AsyncError(String),
    BuildFailed(String),
    ChecksumFailed { expected: String, got: String },
    CopyFailed(String, String),
    CreateFailed(String),
    DeleteFailed(String),
    GitError(String),
    MissingDependency(String),
    NetworkError(String),
    ReadFailed(String),
    Unimplemented,
    ZipError(zip::result::ZipError),
}

} // verus!
