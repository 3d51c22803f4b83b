//! Commit records, the parent of a new commit, and the workflow that stages
//! and commits in one go.

use vstd::prelude::*;
use crate::error::GitError;
use crate::status::{any_changed, has_changes, reports_status, StatusEntry, StatusReport};

verus! {

/// The identity a commit is signed with, as the repository has it
/// configured, and the moment of signing in seconds since the Unix epoch.
#[derive(Clone, Debug, PartialEq, Eq)]
pub struct Identity {
    pub name: Option<String>,
    pub email: Option<String>,
    pub when: i64,
}

/// The author of a commit record.
#[derive(Clone, Debug, PartialEq, Eq)]
pub struct Author {
    pub name: String,
    pub email: String,
}

/// What is reported of a commit that was just written.
#[derive(Clone, Debug, PartialEq, Eq)]
pub struct CommitRecord {
    pub id: String,
    pub author: Author,
    pub message: String,
    pub timestamp: i64,
}

/// The text of a commit record.
pub struct RecordText {
    pub id: Seq<char>,
    pub name: Seq<char>,
    pub email: Seq<char>,
    pub message: Seq<char>,
    pub timestamp: i64,
}

impl View for CommitRecord {
    type V = RecordText;

    open spec fn view(&self) -> RecordText {
        RecordText {
            id: self.id@,
            name: self.author.name@,
            email: self.author.email@,
            message: self.message@,
            timestamp: self.timestamp,
        }
    }
}

/// The name a record shows for an identity.
pub open spec fn shown_name(name: Option<String>) -> Seq<char> {
    match name {
        Some(n) => n@,
        None => "Unknown"@,
    }
}

/// The email a record shows for an identity.
pub open spec fn shown_email(email: Option<String>) -> Seq<char> {
    match email {
        Some(e) => e@,
        None => Seq::empty(),
    }
}

/// The record of the commit `id`, signed by `signature` with `message`.
pub open spec fn record_of(id: Seq<char>, signature: Identity, message: Seq<char>) -> RecordText {
    RecordText {
        id,
        name: shown_name(signature.name),
        email: shown_email(signature.email),
        message,
        timestamp: signature.when,
    }
}

/// The parents of a commit written on top of `head`: the head commit alone,
/// or none where the head is unborn.
pub open spec fn parents_of(head: Option<String>) -> Seq<String> {
    match head {
        Some(id) => seq![id],
        None => Seq::empty(),
    }
}

/// The parents that a new commit is given.
pub fn commit_parents(head: Option<String>) -> (parents: Vec<String>)
    ensures
        parents@ == parents_of(head),
{
    let mut parents: Vec<String> = Vec::new();
    match head {
        Some(id) => {
            parents.push(id);
            assert(parents@ =~= seq![id]);
        },
        None => {},
    }
    parents
}

/// The record of a commit that was written under `id`: the id and the
/// message as they are, the signing identity with `Unknown` for a missing
/// name and nothing for a missing email, and the time of signing.
pub fn git_commit(id: String, signature: &Identity, message: String) -> (record: CommitRecord)
    ensures
        record@ == record_of(id@, *signature, message@),
{
    let name = match &signature.name {
        Some(n) => n.clone(),
        None => "Unknown".to_owned(),
    };
    let email = match &signature.email {
        Some(e) => e.clone(),
        None => String::new(),
    };
    CommitRecord { id, author: Author { name, email }, message, timestamp: signature.when }
}

/// What the caller reports to the workflow after each piece of work on the
/// repository.
#[derive(Clone, Debug, PartialEq, Eq)]
pub enum WorkflowEvent {
    /// The status listing was read.
    Scanned(Vec<StatusEntry>),
    /// The changes were staged and the index was written.
    Staged,
    /// The commit was written.
    Committed(CommitRecord),
    /// The last piece of work failed.
    Failed(GitError),
}

/// How a workflow ends well.
#[derive(Clone, Debug, PartialEq, Eq)]
pub enum CommitOutcome {
    NothingToCommit,
    Committed(CommitRecord),
}

/// What the caller is to do next.
#[derive(Clone, Debug, PartialEq, Eq)]
pub enum WorkflowAction {
    /// Stage all changes and write the index.
    Stage,
    /// Write the commit.
    Commit,
    /// Answer with the outcome.
    Done(CommitOutcome),
    /// Answer with the failure. What was staged before stays staged.
    Fail(GitError),
}

/// The action that follows an event.
pub open spec fn decides(event: WorkflowEvent, action: WorkflowAction) -> bool {
    match event {
        WorkflowEvent::Scanned(entries) => if any_changed(entries@) {
            action is Stage
        } else {
            action == WorkflowAction::Done(CommitOutcome::NothingToCommit)
        },
        WorkflowEvent::Staged => action is Commit,
        WorkflowEvent::Committed(record) => action == WorkflowAction::Done(
            CommitOutcome::Committed(record),
        ),
        WorkflowEvent::Failed(e) => action == WorkflowAction::Fail(e),
    }
}

impl CommitOutcome {
    /// The sentence that stands for having nothing to commit, where the
    /// outcome is that one.
    pub fn message(&self) -> (m: Option<&'static str>)
        ensures
            (*self is NothingToCommit) <==> (m is Some),
            m is Some ==> m.unwrap()@ == "No changes to commit"@,
    {
        match self {
            CommitOutcome::NothingToCommit => Some("No changes to commit"),
            CommitOutcome::Committed(_) => None,
        }
    }
}

/// One step of the workflow that stages everything and commits. The caller
/// starts by reading the status listing and reports it; from then on it does
/// what each action asks and reports how that went, until an action ends the
/// workflow.
///
/// A listing without a change ends the workflow at once, with nothing staged
/// and no commit written. Otherwise staging comes first and the commit
/// second; a failure ends the workflow where it happens, so a commit that
/// fails leaves the index staged.
pub fn git_commit_changes(event: WorkflowEvent) -> (action: WorkflowAction)
    ensures
        decides(event, action),
{
    match event {
        WorkflowEvent::Scanned(entries) => {
            if has_changes(&entries) {
                WorkflowAction::Stage
            } else {
                WorkflowAction::Done(CommitOutcome::NothingToCommit)
            }
        },
        WorkflowEvent::Staged => WorkflowAction::Commit,
        WorkflowEvent::Committed(record) => WorkflowAction::Done(CommitOutcome::Committed(record)),
        WorkflowEvent::Failed(e) => WorkflowAction::Fail(e),
    }
}

/// A repository without uncommitted changes has an empty status listing. On
/// it a status query answers that there are no changes, and the workflow ends
/// at once with nothing to commit: it asks neither for staging nor for a
/// commit.
pub proof fn lemma_clean_repository(
    listing: Vec<StatusEntry>,
    report: StatusReport,
    action: WorkflowAction,
)
    requires
        listing@.len() == 0,
        reports_status(report, listing@),
        decides(WorkflowEvent::Scanned(listing), action),
    ensures
        report is NoChanges,
        action == WorkflowAction::Done(CommitOutcome::NothingToCommit),
{
}

/// The workflow asks for a commit only after staging, and for staging only
/// on a listing that holds a change.
pub proof fn lemma_workflow_order(event: WorkflowEvent, action: WorkflowAction)
    requires
        decides(event, action),
    ensures
        action is Commit <==> event is Staged,
        action is Stage <==> (event matches WorkflowEvent::Scanned(entries) && any_changed(
            entries@,
        )),
        action is Fail <==> event is Failed,
{
}

} // verus!
