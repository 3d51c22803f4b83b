//! The failures that a repository command can end in.

use vstd::prelude::*;

verus! {

/// Why a path could not be taken as a file of the working tree.
#[derive(Clone, Copy, PartialEq, Eq, Structural, Debug)]
pub enum PathFault {
    /// The path does not lie under the root of the working tree.
    OutsideRoot,
    /// The path is not valid text.
    NotText,
}

/// A command's terminal failure. The variants that carry a string hold the
/// storage layer's own message, which is passed on unchanged.
#[derive(Clone, Debug, PartialEq, Eq)]
pub enum GitError {
    /// The path given is not a repository.
    NotARepository(String),
    /// Any other failure of the storage layer.
    RepositoryError(String),
    /// The index could not be persisted.
    IndexWriteError(String),
    /// The repository has no name and email to sign a commit with.
    NoIdentityConfigured(String),
    /// The repository has no working tree.
    NoWorkingDirectory,
    /// The file path cannot be resolved against the working tree.
    InvalidPath(PathFault),
    /// A commit's recorded time cannot be rendered as a date.
    InvalidTimestamp,
}

/// The text that a failure is reported with.
pub open spec fn error_text(e: GitError) -> Seq<char> {
    match e {
        GitError::NotARepository(m) => m@,
        GitError::RepositoryError(m) => m@,
        GitError::IndexWriteError(m) => m@,
        GitError::NoIdentityConfigured(m) => m@,
        GitError::NoWorkingDirectory => "Repository has no working directory"@,
        GitError::InvalidPath(PathFault::OutsideRoot) => "Invalid file path"@,
        GitError::InvalidPath(PathFault::NotText) => "Invalid UTF-8 path"@,
        GitError::InvalidTimestamp => "Invalid timestamp"@,
    }
}

impl GitError {
    /// The single human-readable string that callers are shown.
    pub fn message(&self) -> (text: String)
        ensures
            text@ == error_text(*self),
    {
        match self {
            GitError::NotARepository(m) => m.clone(),
            GitError::RepositoryError(m) => m.clone(),
            GitError::IndexWriteError(m) => m.clone(),
            GitError::NoIdentityConfigured(m) => m.clone(),
            GitError::NoWorkingDirectory => "Repository has no working directory".to_owned(),
            GitError::InvalidPath(PathFault::OutsideRoot) => "Invalid file path".to_owned(),
            GitError::InvalidPath(PathFault::NotText) => "Invalid UTF-8 path".to_owned(),
            GitError::InvalidTimestamp => "Invalid timestamp".to_owned(),
        }
    }
}

} // verus!
