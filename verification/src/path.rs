//! Resolving the file a history is asked for against the root of the working
//! tree.

use vstd::prelude::*;
use std::path::PathBuf;
use crate::error::{GitError, PathFault};

verus! {

#[verifier::external_type_specification]
#[verifier::external_body]
pub struct ExPathBuf(PathBuf);

/// Calls `Path::join`. How two paths join depends on the path conventions of
/// the machine, so nothing is stated of the result.
#[verifier::external_body]
fn join_path(root: &PathBuf, file: &str) -> (joined: PathBuf) {
    root.join(file)
}

/// Calls `Path::strip_prefix`, with `None` for its error. Which paths lie
/// under a root depends on the path conventions of the machine, so nothing is
/// stated of the result.
#[verifier::external_body]
fn strip_root(path: &PathBuf, root: &PathBuf) -> (rest: Option<PathBuf>) {
    match path.strip_prefix(root) {
        Ok(rest) => Some(rest.to_path_buf()),
        Err(_) => None,
    }
}

/// Calls `Path::to_str`, which gives `None` for a path that is not valid
/// Unicode. Nothing is stated of the result.
#[verifier::external_body]
fn path_text(path: &PathBuf) -> (text: Option<String>) {
    match path.to_str() {
        Some(text) => Some(text.to_owned()),
        None => None,
    }
}

/// What came of looking for a file under the root of the working tree.
#[derive(Clone, Debug, PartialEq, Eq)]
pub enum Lookup {
    /// The file does not lie under the root.
    Outside,
    /// The file lies under the root, but its path from there is not valid
    /// text.
    Unreadable,
    /// The file lies under the root, at this path from there.
    Inside(String),
}

/// The path a history is walked for, or the failure the lookup amounts to.
pub open spec fn target_of(lookup: Lookup) -> Result<String, GitError> {
    match lookup {
        Lookup::Outside => Err(GitError::InvalidPath(PathFault::OutsideRoot)),
        Lookup::Unreadable => Err(GitError::InvalidPath(PathFault::NotText)),
        Lookup::Inside(p) => Ok(p),
    }
}

/// Turns a lookup into the path to walk for, or into `InvalidPath`.
pub fn resolved_target(lookup: Lookup) -> (r: Result<String, GitError>)
    ensures
        r == target_of(lookup),
{
    match lookup {
        Lookup::Outside => Err(GitError::InvalidPath(PathFault::OutsideRoot)),
        Lookup::Unreadable => Err(GitError::InvalidPath(PathFault::NotText)),
        Lookup::Inside(p) => Ok(p),
    }
}

/// Looks for `file_path` under `root`: joins the two, takes the root off
/// again and reads what is left as text.
pub fn look_up(root: &PathBuf, file_path: &str) -> (lookup: Lookup) {
    let joined = join_path(root, file_path);
    match strip_root(&joined, root) {
        None => Lookup::Outside,
        Some(rest) => match path_text(&rest) {
            None => Lookup::Unreadable,
            Some(text) => Lookup::Inside(text),
        },
    }
}

/// Resolves `file_path` to a path relative to `root`, the root of the working
/// tree. The only failure is `InvalidPath`.
pub fn resolve_file(root: &PathBuf, file_path: &str) -> (r: Result<String, GitError>)
    ensures
        r is Err ==> r.unwrap_err() is InvalidPath,
{
    resolved_target(look_up(root, file_path))
}

} // verus!
