//! The history of one file: which commits of an ancestry count, and what is
//! shown of each.
//!
//! A commit counts when it has no parent, or when the file is on the new side
//! of a change between its first parent and itself. Other parents of a merge
//! are not looked at: a change that reached the file only through them is not
//! part of this history.

use vstd::prelude::*;
use crate::error::GitError;
use crate::text::{
    date_of, is_space, lemma_trimmed_keeps_tight_text, render_date, short_id, short_of,
    trim_message, trimmed,
};

verus! {

/// The most entries that a history holds.
pub const MAX_COMMITS: usize = 100;

/// What the walk reads of one commit.
#[derive(Clone, Debug, PartialEq, Eq)]
pub struct CommitInfo {
    /// The commit's id in hexadecimal.
    pub id: String,
    /// The new-side paths of the changes between the first parent and this
    /// commit; `None` for a commit without a parent.
    pub changed: Option<Vec<String>>,
    /// The author's display name, if one is recorded.
    pub author: Option<String>,
    /// The author's time, in seconds since the Unix epoch.
    pub seconds: i64,
    /// The commit message, if it is valid text.
    pub message: Option<String>,
}

/// One line of a file's history.
#[derive(Clone, Debug, PartialEq, Eq)]
pub struct HistoryEntry {
    pub id: String,
    pub author: String,
    pub date: String,
    pub message: String,
}

/// The text of a history entry.
pub struct EntryText {
    pub id: Seq<char>,
    pub author: Seq<char>,
    pub date: Seq<char>,
    pub message: Seq<char>,
}

impl View for HistoryEntry {
    type V = EntryText;

    open spec fn view(&self) -> EntryText {
        EntryText { id: self.id@, author: self.author@, date: self.date@, message: self.message@ }
    }
}

/// The answer to a history query: an empty history is told apart from a
/// listing.
#[derive(Clone, Debug, PartialEq, Eq)]
pub enum HistoryReport {
    NoHistory,
    Commits(Vec<HistoryEntry>),
}

/// Whether a commit belongs to the history of `target`: it has no parent, or
/// one of its changes has exactly `target` as its new-side path.
pub open spec fn touches(c: CommitInfo, target: Seq<char>) -> bool {
    match c.changed {
        None => true,
        Some(paths) => exists|j: int| 0 <= j < paths@.len() && (#[trigger] paths@[j])@ == target,
    }
}

/// `touches` for a fixed target, as a predicate on commits.
pub open spec fn touching(target: Seq<char>) -> spec_fn(CommitInfo) -> bool {
    |c: CommitInfo| touches(c, target)
}

/// The author as shown.
pub open spec fn author_text(author: Option<String>) -> Seq<char> {
    match author {
        Some(a) => a@,
        None => "Unknown"@,
    }
}

/// The message before trimming.
pub open spec fn message_text(message: Option<String>) -> Seq<char> {
    match message {
        Some(m) => m@,
        None => Seq::empty(),
    }
}

/// The entry of a commit whose date reads `date`.
pub open spec fn entry_with(c: CommitInfo, date: Seq<char>) -> EntryText {
    EntryText {
        id: short_of(c.id@),
        author: author_text(c.author),
        date,
        message: trimmed(message_text(c.message)),
    }
}

/// The entry of a commit whose time can be rendered.
pub open spec fn entry_for(c: CommitInfo) -> EntryText
    recommends
        date_of(c.seconds) is Some,
{
    entry_with(c, date_of(c.seconds).unwrap())
}

/// The commits a history is made of: of those that touch `target`, in the
/// order of the walk, the first `MAX_COMMITS`.
pub open spec fn kept(commits: Seq<CommitInfo>, target: Seq<char>) -> Seq<CommitInfo> {
    let hits = commits.filter(touching(target));
    if hits.len() <= MAX_COMMITS {
        hits
    } else {
        hits.take(MAX_COMMITS as int)
    }
}

/// Whether the time of one of the commits cannot be rendered.
pub open spec fn undatable(commits: Seq<CommitInfo>) -> bool {
    exists|k: int| 0 <= k < commits.len() && date_of(#[trigger] commits[k].seconds) is None
}

/// Whether `entries` are the entries of `commits`, one for one.
pub open spec fn entries_of(entries: Seq<HistoryEntry>, commits: Seq<CommitInfo>) -> bool {
    &&& entries.len() == commits.len()
    &&& forall|k: int| 0 <= k < commits.len() ==> (#[trigger] entries[k])@ == entry_for(commits[k])
}

/// Whether `result` answers a history query for `target` on the walk
/// `commits`.
pub open spec fn answers_history(
    result: Result<HistoryReport, GitError>,
    commits: Seq<CommitInfo>,
    target: Seq<char>,
) -> bool {
    let chosen = kept(commits, target);
    if undatable(chosen) {
        result == Err::<HistoryReport, GitError>(GitError::InvalidTimestamp)
    } else {
        match result {
            Ok(HistoryReport::NoHistory) => chosen.len() == 0,
            Ok(HistoryReport::Commits(entries)) => chosen.len() > 0 && entries_of(entries@, chosen),
            Err(_) => false,
        }
    }
}

/// A walk in progress: the file asked about and the entries found so far.
pub struct HistoryWalker {
    pub target: String,
    pub entries: Vec<HistoryEntry>,
}

/// What a walker should do with the next commit of the walk.
pub open spec fn takes(entries: Seq<HistoryEntry>, c: CommitInfo, target: Seq<char>) -> bool {
    entries.len() < MAX_COMMITS && touches(c, target)
}

impl HistoryWalker {
    /// A walker never holds more than `MAX_COMMITS` entries.
    pub open spec fn wf(&self) -> bool {
        self.entries@.len() <= MAX_COMMITS
    }

    /// Starts a walk for the file at `target`, a path relative to the root of
    /// the working tree.
    pub fn new(target: String) -> (w: HistoryWalker)
        ensures
            w.wf(),
            w.target == target,
            w.entries@.len() == 0,
    {
        HistoryWalker { target, entries: Vec::new() }
    }

    /// Whether the walk wants more commits.
    pub fn wants_more(&self) -> (b: bool)
        ensures
            b == (self.entries@.len() < MAX_COMMITS),
    {
        self.entries.len() < MAX_COMMITS
    }

    /// Hands the walker the next commit of the walk. A commit that the walker
    /// takes gets an entry at the end; any other leaves the walker as it was.
    /// The walk fails exactly when a commit that would be taken has a time
    /// that cannot be rendered. The result says whether more commits are
    /// wanted.
    pub fn visit(&mut self, commit: &CommitInfo) -> (r: Result<bool, GitError>)
        ensures
            old(self).wf() ==> final(self).wf(),
            final(self).target == old(self).target,
            r is Err <==> takes(old(self).entries@, *commit, old(self).target@)
                && date_of(commit.seconds) is None,
            r is Err ==> r == Err::<bool, GitError>(GitError::InvalidTimestamp)
                && final(self).entries@ == old(self).entries@,
            r is Ok ==> r.unwrap() == (final(self).entries@.len() < MAX_COMMITS),
            r is Ok && !takes(old(self).entries@, *commit, old(self).target@)
                ==> final(self).entries@ == old(self).entries@,
            r is Ok && takes(old(self).entries@, *commit, old(self).target@) ==> {
                &&& final(self).entries@.len() == old(self).entries@.len() + 1
                &&& final(self).entries@.drop_last() == old(self).entries@
                &&& final(self).entries@.last()@ == entry_for(*commit)
            },
    {
        if self.entries.len() >= MAX_COMMITS || !is_relevant(commit, &self.target) {
            return Ok(self.entries.len() < MAX_COMMITS);
        }
        match render_date(commit.seconds) {
            None => Err(GitError::InvalidTimestamp),
            Some(date) => {
                let entry = make_entry(commit, date);
                let ghost before = self.entries@;
                self.entries.push(entry);
                assert(self.entries@.drop_last() =~= before);
                Ok(self.entries.len() < MAX_COMMITS)
            },
        }
    }

    /// Ends the walk and gives its answer.
    pub fn report(self) -> (report: HistoryReport)
        ensures
            match report {
                HistoryReport::NoHistory => self.entries@.len() == 0,
                HistoryReport::Commits(entries) => entries@.len() > 0 && entries == self.entries,
            },
    {
        if self.entries.len() == 0 {
            HistoryReport::NoHistory
        } else {
            HistoryReport::Commits(self.entries)
        }
    }
}

impl HistoryReport {
    /// The sentence that stands for an empty history, where the report is
    /// that one.
    pub fn message(&self) -> (m: Option<&'static str>)
        ensures
            (*self is NoHistory) <==> (m is Some),
            m is Some ==> m.unwrap()@ == "No history found"@,
    {
        match self {
            HistoryReport::NoHistory => Some("No history found"),
            HistoryReport::Commits(_) => None,
        }
    }
}

/// Whether `commit` belongs to the history of the file at `target`.
pub fn is_relevant(commit: &CommitInfo, target: &String) -> (b: bool)
    ensures
        b == touches(*commit, target@),
{
    match &commit.changed {
        None => true,
        Some(paths) => {
            let mut j: usize = 0;
            while j < paths.len()
                invariant
                    j <= paths.len(),
                    commit.changed == Some(*paths),
                    forall|k: int| 0 <= k < j ==> (#[trigger] paths@[k])@ != target@,
                decreases paths.len() - j,
            {
                if paths[j] == *target {
                    assert(commit.changed.unwrap()@[j as int]@ == target@);
                    return true;
                }
                j += 1;
            }
            false
        },
    }
}

/// Builds the entry of `commit`, given its rendered date: the short id, the
/// author's name or `Unknown`, the date, and the trimmed message.
pub fn make_entry(commit: &CommitInfo, date: String) -> (entry: HistoryEntry)
    ensures
        entry@ == entry_with(*commit, date@),
{
    let author = match &commit.author {
        Some(a) => a.clone(),
        None => "Unknown".to_owned(),
    };
    let message = match &commit.message {
        Some(m) => trim_message(m.as_str()),
        None => trim_message(""),
    };
    proof {
        reveal_strlit("");
        assert(""@ =~= Seq::<char>::empty());
    }
    HistoryEntry { id: short_id(commit.id.as_str()), author, date, message }
}

/// The history of the file at `file_path`, a path relative to the root of the
/// working tree, over the commits of a walk from the head, most recent first.
///
/// Of the commits that touch the file, the first `MAX_COMMITS` are kept, in
/// the order of the walk; commits that do not touch it are passed over and do
/// not count. The query fails with `InvalidTimestamp` exactly when the time
/// of a kept commit cannot be rendered. With nothing kept the answer is
/// `NoHistory`.
pub fn git_history(commits: &Vec<CommitInfo>, file_path: &str) -> (result: Result<
    HistoryReport,
    GitError,
>)
    ensures
        answers_history(result, commits@, file_path@),
{
    let mut walker = HistoryWalker::new(file_path.to_owned());
    let ghost target = file_path@;
    let mut i: usize = 0;
    let mut more: bool = true;
    while more && i < commits.len()
        invariant
            i <= commits.len(),
            walker.wf(),
            walker.target@ == target,
            target == file_path@,
            more == (walker.entries@.len() < MAX_COMMITS),
            entries_of(walker.entries@, commits@.take(i as int).filter(touching(target))),
            !undatable(commits@.take(i as int).filter(touching(target))),
        decreases commits.len() - i,
    {
        let ghost seen = commits@.take(i as int);
        let ghost hits = seen.filter(touching(target));
        let ghost before = walker.entries@;
        proof {
            assert(commits@.take(i + 1) =~= seen.push(commits@[i as int]));
            seen.lemma_filter_push(commits@[i as int], touching(target));
            lemma_hits_lead(commits@, target, i + 1);
        }
        match walker.visit(&commits[i]) {
            Err(e) => {
                proof {
                    let next = hits.push(commits@[i as int]);
                    let all = commits@.filter(touching(target));
                    let chosen = kept(commits@, target);
                    let k = hits.len() as int;
                    assert(all.take(next.len() as int) == next);
                    assert(all[k] == all.take(next.len() as int)[k]);
                    assert(chosen[k] == commits@[i as int]);
                    assert(0 <= k < chosen.len());
                    assert(date_of(chosen[k].seconds) is None);
                    assert(undatable(chosen));
                }
                return Err(e);
            },
            Ok(go_on) => {
                more = go_on;
            },
        }
        proof {
            if touches(commits@[i as int], target) {
                let next = hits.push(commits@[i as int]);
                assert(walker.entries@.drop_last() == before);
                assert forall|k: int| 0 <= k < next.len() implies (#[trigger] walker.entries@[k])@
                    == entry_for(next[k]) by {
                    if k < hits.len() {
                        assert(walker.entries@[k] == before[k]);
                    }
                }
                assert forall|k: int| 0 <= k < next.len() implies date_of(
                    (#[trigger] next[k]).seconds,
                ) is Some by {
                    if k < hits.len() {
                        assert(next[k] == hits[k]);
                    }
                }
            }
        }
        i += 1;
    }
    proof {
        lemma_hits_lead(commits@, target, i as int);
        let hits = commits@.take(i as int).filter(touching(target));
        if i == commits.len() {
            assert(commits@.take(i as int) =~= commits@);
        }
        assert(kept(commits@, target) =~= hits);
    }
    Ok(walker.report())
}

/// The commits that touch `target` among the first `n` of a walk lead those
/// that touch it in the whole walk.
pub proof fn lemma_hits_lead(commits: Seq<CommitInfo>, target: Seq<char>, n: int)
    requires
        0 <= n <= commits.len(),
    ensures
        commits.take(n).filter(touching(target)).len() <= commits.filter(touching(target)).len(),
        commits.filter(touching(target)).take(
            commits.take(n).filter(touching(target)).len() as int,
        ) == commits.take(n).filter(touching(target)),
{
    let head = commits.take(n);
    let rest = commits.skip(n);
    assert(head + rest =~= commits);
    Seq::filter_distributes_over_add(head, rest, touching(target));
    let a = head.filter(touching(target));
    let b = rest.filter(touching(target));
    assert((a + b).take(a.len() as int) =~= a);
}

/// Whether a text neither starts nor ends with white space.
pub open spec fn tight(s: Seq<char>) -> bool {
    s.len() > 0 ==> !is_space(s[0]) && !is_space(s.last())
}

/// Whether `entry` is the entry of a commit of the walk that touches `target`
/// and whose time can be rendered.
pub open spec fn comes_from(entry: EntryText, commits: Seq<CommitInfo>, target: Seq<char>) -> bool {
    exists|j: int|
        0 <= j < commits.len() && touches(#[trigger] commits[j], target) && date_of(
            commits[j].seconds,
        ) is Some && entry == entry_for(commits[j])
}

/// A history never holds more than `MAX_COMMITS` entries, and each entry is
/// that of a commit of the walk that touches the file: one without a parent,
/// or one that differs from its first parent at the file's path.
pub proof fn lemma_history_bounded_and_relevant(
    commits: Seq<CommitInfo>,
    target: Seq<char>,
    result: Result<HistoryReport, GitError>,
)
    requires
        answers_history(result, commits, target),
    ensures
        match result {
            Ok(HistoryReport::Commits(entries)) => {
                &&& entries@.len() <= MAX_COMMITS
                &&& forall|k: int|
                    0 <= k < entries@.len() ==> comes_from(
                        (#[trigger] entries@[k])@,
                        commits,
                        target,
                    )
            },
            _ => true,
        },
{
    let hits = commits.filter(touching(target));
    let chosen = kept(commits, target);
    match result {
        Ok(HistoryReport::Commits(entries)) => {
            assert(entries@.len() == chosen.len() <= MAX_COMMITS);
            assert forall|k: int| 0 <= k < entries@.len() implies comes_from(
                (#[trigger] entries@[k])@,
                commits,
                target,
            ) by {
                assert(chosen[k] == hits[k]);
                commits.lemma_filter_pred(touching(target), k);
                assert(hits.contains(hits[k]));
                commits.lemma_filter_contains_rev(touching(target), hits[k]);
                let j = choose|j: int| 0 <= j < commits.len() && commits[j] == hits[k];
                assert(touches(commits[j], target));
                assert(date_of(chosen[k].seconds) is Some);
                assert(entries@[k]@ == entry_for(chosen[k]));
            }
        },
        _ => {},
    }
}

/// A commit that touches the file and stands first in the walk stands first
/// in the file's history, under the first seven characters of its id and
/// with its message trimmed. So a commit that was just written with a message
/// is found again under the short form of the id it was reported with and
/// under that message, trimmed: under the very message where it neither
/// starts nor ends with white space.
pub proof fn lemma_newest_commit_leads_history(
    commits: Seq<CommitInfo>,
    target: Seq<char>,
    result: Result<HistoryReport, GitError>,
)
    requires
        commits.len() > 0,
        touches(commits[0], target),
        answers_history(result, commits, target),
    ensures
        !(result matches Ok(HistoryReport::NoHistory)),
        result matches Ok(HistoryReport::Commits(entries)) ==> {
            &&& entries@.len() > 0
            &&& entries@[0]@.id == short_of(commits[0].id@)
            &&& entries@[0]@.message == trimmed(message_text(commits[0].message))
            &&& tight(message_text(commits[0].message)) ==> entries@[0]@.message == message_text(
                commits[0].message,
            )
        },
{
    lemma_trimmed_keeps_tight_text(message_text(commits[0].message));
    let first = commits.take(1);
    assert(first =~= Seq::<CommitInfo>::empty().push(commits[0]));
    Seq::<CommitInfo>::empty().lemma_filter_len(touching(target));
    Seq::<CommitInfo>::empty().lemma_filter_push(commits[0], touching(target));
    assert(first.filter(touching(target)) =~= seq![commits[0]]);
    lemma_hits_lead(commits, target, 1);
    let hits = commits.filter(touching(target));
    assert(hits.take(1)[0] == commits[0]);
    assert(kept(commits, target)[0] == commits[0]);
}

} // verus!
