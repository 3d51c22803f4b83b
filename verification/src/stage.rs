//! Choosing what to stage from a status listing.

use vstd::prelude::*;
use crate::status::{StatusEntry, StatusFlags};

verus! {

/// The answer to a request to stage everything: staging nothing is told
/// apart from a list of paths.
#[derive(Clone, Debug, PartialEq, Eq)]
pub enum AddReport {
    NothingAdded,
    Added(Vec<String>),
}

/// Whether the flags show a change of the working tree that staging takes
/// up: a new, modified, type-changed or renamed file. A deletion is not taken
/// up.
pub open spec fn is_stageable(f: StatusFlags) -> bool {
    f.wt_new || f.wt_modified || f.wt_typechange || f.wt_renamed
}

/// The path that staging takes from an entry, if it takes one: the entry must
/// be stageable and have a path.
pub open spec fn staged_path(e: StatusEntry) -> Option<Seq<char>> {
    match e.path {
        Some(p) if is_stageable(e.flags) => Some(p@),
        _ => None,
    }
}

/// The paths to stage, in the listing's order.
pub open spec fn staged_paths(entries: Seq<StatusEntry>) -> Seq<Seq<char>> {
    entries.filter_map(|e: StatusEntry| staged_path(e))
}

/// The texts of a list of strings.
pub open spec fn texts(paths: Seq<String>) -> Seq<Seq<char>> {
    paths.map_values(|p: String| p@)
}

/// Whether `report` answers a request to stage everything in `entries`.
pub open spec fn reports_staging(report: AddReport, entries: Seq<StatusEntry>) -> bool {
    match report {
        AddReport::NothingAdded => staged_paths(entries).len() == 0,
        AddReport::Added(paths) => paths@.len() > 0 && texts(paths@) == staged_paths(entries),
    }
}

impl StatusFlags {
    /// Whether staging takes up the change these flags show.
    pub fn stageable(&self) -> (b: bool)
        ensures
            b == is_stageable(*self),
    {
        self.wt_new || self.wt_modified || self.wt_typechange || self.wt_renamed
    }
}

impl AddReport {
    /// The sentence that stands for staging nothing, where the report is
    /// that one.
    pub fn message(&self) -> (m: Option<&'static str>)
        ensures
            (*self is NothingAdded) <==> (m is Some),
            m is Some ==> m.unwrap()@ == "No files added"@,
    {
        match self {
            AddReport::NothingAdded => Some("No files added"),
            AddReport::Added(_) => None,
        }
    }
}

/// Picks the paths to stage from a status listing: those of the stageable
/// entries that have a path, in the listing's order. The caller adds each of
/// them to the index and then writes the index, also when there are none.
pub fn git_add(entries: &Vec<StatusEntry>) -> (report: AddReport)
    ensures
        reports_staging(report, entries@),
{
    let mut added: Vec<String> = Vec::new();
    let mut i: usize = 0;
    while i < entries.len()
        invariant
            i <= entries.len(),
            texts(added@) == staged_paths(entries@.take(i as int)),
        decreases entries.len() - i,
    {
        let entry = &entries[i];
        let ghost before = added@;
        proof {
            assert(entries@.take(i + 1).drop_last() =~= entries@.take(i as int));
        }
        if entry.flags.stageable() {
            match &entry.path {
                Some(p) => {
                    added.push(p.clone());
                    assert(texts(added@) =~= texts(before) + seq![p@]);
                },
                None => {},
            }
        }
        i += 1;
    }
    assert(entries@.take(i as int) =~= entries@);
    if added.len() == 0 {
        AddReport::NothingAdded
    } else {
        AddReport::Added(added)
    }
}

/// Once no entry of a listing is stageable, a request to stage everything
/// stages nothing: a second request made right after a first, with the
/// working tree left alone, finds nothing to add.
pub proof fn lemma_nothing_left_to_stage(entries: Seq<StatusEntry>, report: AddReport)
    requires
        forall|i: int| 0 <= i < entries.len() ==> !is_stageable(#[trigger] entries[i].flags),
        reports_staging(report, entries),
    ensures
        report is NothingAdded,
{
    lemma_no_stageable_no_paths(entries);
}

/// A listing without a stageable entry yields no path.
proof fn lemma_no_stageable_no_paths(entries: Seq<StatusEntry>)
    requires
        forall|i: int| 0 <= i < entries.len() ==> !is_stageable(#[trigger] entries[i].flags),
    ensures
        staged_paths(entries).len() == 0,
    decreases entries.len(),
{
    if entries.len() > 0 {
        assert(!is_stageable(entries.last().flags));
        lemma_no_stageable_no_paths(entries.drop_last());
    }
}

} // verus!
