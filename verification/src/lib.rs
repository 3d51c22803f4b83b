//! Decisions behind a small set of repository commands: classifying the
//! changes of a working tree, choosing what to stage, shaping commit records,
//! and selecting the commits that make up the history of one file.
//!
//! The repository itself is read and written by the caller. Every function
//! here works on plain values that describe what the caller found there.

pub mod error;
pub mod status;
pub mod stage;
pub mod commit;
pub mod text;
pub mod history;
pub mod path;

pub use crate::commit::git_commit;
pub use crate::commit::git_commit_changes;
pub use crate::error::GitError;
pub use crate::history::git_history;
pub use crate::stage::git_add;
pub use crate::status::git_status;
