//! Classification of the entries of a status listing.

use vstd::prelude::*;

verus! {

/// What the storage layer reports of one path: how the working tree differs
/// from the index, and how the index differs from the head commit.
#[derive(Clone, Copy, PartialEq, Eq, Structural, Debug)]
pub struct StatusFlags {
    pub wt_new: bool,
    pub wt_modified: bool,
    pub wt_deleted: bool,
    pub wt_typechange: bool,
    pub wt_renamed: bool,
    pub index_new: bool,
    pub index_modified: bool,
    pub index_deleted: bool,
}

/// The one category that a path is shown under.
#[derive(Clone, Copy, PartialEq, Eq, Structural, Debug)]
pub enum ChangeKind {
    Untracked,
    Modified,
    Deleted,
    TypeChanged,
    Renamed,
    StagedNew,
    StagedModified,
    StagedDeleted,
    Unclassified,
}

/// One line of a status listing as the storage layer hands it out.
#[derive(Clone, Debug, PartialEq, Eq)]
pub struct StatusEntry {
    pub flags: StatusFlags,
    pub path: Option<String>,
}

/// One classified path.
#[derive(Clone, Debug, PartialEq, Eq)]
pub struct ChangeRecord {
    pub status: ChangeKind,
    pub path: String,
}

/// The answer to a status query: a clean repository is told apart from a
/// listing.
#[derive(Clone, Debug, PartialEq, Eq)]
pub enum StatusReport {
    NoChanges,
    Files(Vec<ChangeRecord>),
}

/// The category of a path. A change of the working tree is shown before a
/// staged one, and within each group: new, modified, deleted, type changed,
/// renamed.
pub open spec fn kind_of(f: StatusFlags) -> ChangeKind {
    if f.wt_new {
        ChangeKind::Untracked
    } else if f.wt_modified {
        ChangeKind::Modified
    } else if f.wt_deleted {
        ChangeKind::Deleted
    } else if f.wt_typechange {
        ChangeKind::TypeChanged
    } else if f.wt_renamed {
        ChangeKind::Renamed
    } else if f.index_new {
        ChangeKind::StagedNew
    } else if f.index_modified {
        ChangeKind::StagedModified
    } else if f.index_deleted {
        ChangeKind::StagedDeleted
    } else {
        ChangeKind::Unclassified
    }
}

/// The display symbol of a category.
pub open spec fn symbol_of(k: ChangeKind) -> Seq<char> {
    match k {
        ChangeKind::Untracked => "?"@,
        ChangeKind::Modified => "M"@,
        ChangeKind::Deleted => "D"@,
        ChangeKind::TypeChanged => "T"@,
        ChangeKind::Renamed => "R"@,
        ChangeKind::StagedNew => "A"@,
        ChangeKind::StagedModified => "M"@,
        ChangeKind::StagedDeleted => "D"@,
        ChangeKind::Unclassified => ""@,
    }
}

/// Whether the flags show any change that a commit could record.
pub open spec fn is_changed(f: StatusFlags) -> bool {
    f.wt_new || f.wt_modified || f.wt_deleted || f.wt_renamed || f.wt_typechange || f.index_new
        || f.index_modified || f.index_deleted
}

/// The path an entry is listed under; an entry without one gets a
/// placeholder.
pub open spec fn shown_path(path: Option<String>) -> Seq<char> {
    match path {
        Some(p) => p@,
        None => "[unknown]"@,
    }
}

/// Whether `records` is the classification of `entries`, line by line.
pub open spec fn classifies(records: Seq<ChangeRecord>, entries: Seq<StatusEntry>) -> bool {
    &&& records.len() == entries.len()
    &&& forall|i: int|
        0 <= i < entries.len() ==> (#[trigger] records[i]).status == kind_of(entries[i].flags)
            && records[i].path@ == shown_path(entries[i].path)
}

/// Whether `report` answers a status query on `entries`.
pub open spec fn reports_status(report: StatusReport, entries: Seq<StatusEntry>) -> bool {
    match report {
        StatusReport::NoChanges => entries.len() == 0,
        StatusReport::Files(records) => entries.len() > 0 && classifies(records@, entries),
    }
}

/// Whether any entry shows a change.
pub open spec fn any_changed(entries: Seq<StatusEntry>) -> bool {
    exists|i: int| 0 <= i < entries.len() && is_changed(#[trigger] entries[i].flags)
}

impl StatusFlags {
    /// Flags with nothing set.
    pub fn empty() -> (f: StatusFlags)
        ensures
            f == (StatusFlags {
                wt_new: false,
                wt_modified: false,
                wt_deleted: false,
                wt_typechange: false,
                wt_renamed: false,
                index_new: false,
                index_modified: false,
                index_deleted: false,
            }),
    {
        StatusFlags {
            wt_new: false,
            wt_modified: false,
            wt_deleted: false,
            wt_typechange: false,
            wt_renamed: false,
            index_new: false,
            index_modified: false,
            index_deleted: false,
        }
    }

    /// The category these flags are shown under.
    pub fn kind(&self) -> (k: ChangeKind)
        ensures
            k == kind_of(*self),
    {
        if self.wt_new {
            ChangeKind::Untracked
        } else if self.wt_modified {
            ChangeKind::Modified
        } else if self.wt_deleted {
            ChangeKind::Deleted
        } else if self.wt_typechange {
            ChangeKind::TypeChanged
        } else if self.wt_renamed {
            ChangeKind::Renamed
        } else if self.index_new {
            ChangeKind::StagedNew
        } else if self.index_modified {
            ChangeKind::StagedModified
        } else if self.index_deleted {
            ChangeKind::StagedDeleted
        } else {
            ChangeKind::Unclassified
        }
    }

    /// Whether these flags show a change that a commit could record.
    pub fn changed(&self) -> (b: bool)
        ensures
            b == is_changed(*self),
    {
        self.wt_new || self.wt_modified || self.wt_deleted || self.wt_renamed
            || self.wt_typechange || self.index_new || self.index_modified || self.index_deleted
    }
}

impl ChangeKind {
    /// The symbol this category is displayed with.
    pub fn symbol(&self) -> (s: &'static str)
        ensures
            s@ == symbol_of(*self),
    {
        match self {
            ChangeKind::Untracked => "?",
            ChangeKind::Modified => "M",
            ChangeKind::Deleted => "D",
            ChangeKind::TypeChanged => "T",
            ChangeKind::Renamed => "R",
            ChangeKind::StagedNew => "A",
            ChangeKind::StagedModified => "M",
            ChangeKind::StagedDeleted => "D",
            ChangeKind::Unclassified => "",
        }
    }
}

impl StatusReport {
    /// The sentence that stands for a clean repository, where the report is
    /// that one.
    pub fn message(&self) -> (m: Option<&'static str>)
        ensures
            (*self is NoChanges) <==> (m is Some),
            m is Some ==> m.unwrap()@ == "No changes"@,
    {
        match self {
            StatusReport::NoChanges => Some("No changes"),
            StatusReport::Files(_) => None,
        }
    }
}

/// Classifies every entry of a status listing, in the listing's order. An
/// empty listing gives the report of a clean repository.
pub fn git_status(entries: &Vec<StatusEntry>) -> (report: StatusReport)
    ensures
        reports_status(report, entries@),
{
    let mut records: Vec<ChangeRecord> = Vec::new();
    let mut i: usize = 0;
    while i < entries.len()
        invariant
            i <= entries.len(),
            classifies(records@, entries@.take(i as int)),
        decreases entries.len() - i,
    {
        let entry = &entries[i];
        let path = match &entry.path {
            Some(p) => p.clone(),
            None => "[unknown]".to_owned(),
        };
        records.push(ChangeRecord { status: entry.flags.kind(), path });
        i += 1;
    }
    assert(entries@.take(i as int) =~= entries@);
    if records.len() == 0 {
        StatusReport::NoChanges
    } else {
        StatusReport::Files(records)
    }
}

/// Whether a status listing holds any change that a commit could record.
pub fn has_changes(entries: &Vec<StatusEntry>) -> (b: bool)
    ensures
        b == any_changed(entries@),
{
    let mut i: usize = 0;
    while i < entries.len()
        invariant
            i <= entries.len(),
            forall|j: int| 0 <= j < i ==> !is_changed(#[trigger] entries@[j].flags),
        decreases entries.len() - i,
    {
        if entries[i].flags.changed() {
            return true;
        }
        i += 1;
    }
    false
}

/// An entry whose working tree agrees with the index, and whose index holds
/// a new or a modified file, is shown as staged: never as untracked or
/// modified in the working tree.
pub proof fn lemma_staged_entry_shows_staged(f: StatusFlags)
    requires
        !f.wt_new && !f.wt_modified && !f.wt_deleted && !f.wt_typechange && !f.wt_renamed,
        f.index_new || f.index_modified,
    ensures
        kind_of(f) == ChangeKind::StagedNew || kind_of(f) == ChangeKind::StagedModified,
        f.index_new ==> kind_of(f) == ChangeKind::StagedNew,
{
}

/// A change of the working tree hides a staged one: whatever the index
/// holds, an untracked path is shown as untracked and, unless it is
/// untracked, a modified path as modified.
pub proof fn lemma_working_tree_comes_first(f: StatusFlags)
    ensures
        f.wt_new ==> kind_of(f) == ChangeKind::Untracked,
        !f.wt_new && f.wt_modified ==> kind_of(f) == ChangeKind::Modified,
        kind_of(f) == ChangeKind::Unclassified <==> !is_changed(f),
{
}

} // verus!
