use gitops::commit::{git_commit, Identity};
use gitops::error::{GitError, PathFault};
use gitops::history::{git_history, is_relevant, make_entry, CommitInfo, HistoryEntry, HistoryReport, HistoryWalker, MAX_COMMITS};
use gitops::path::{look_up, resolve_file, resolved_target, Lookup};
use gitops::text::{short_id, trim_message};
use std::path::PathBuf;

fn commit(id: &str, changed: Option<Vec<&str>>, message: &str, seconds: i64) -> CommitInfo {
    CommitInfo {
        id: id.to_string(),
        changed: changed.map(|paths| paths.into_iter().map(|p| p.to_string()).collect()),
        author: Some("Ada".to_string()),
        seconds,
        message: Some(message.to_string()),
    }
}

fn entries(report: Result<HistoryReport, GitError>) -> Vec<HistoryEntry> {
    match report {
        Ok(HistoryReport::Commits(entries)) => entries,
        other => panic!("expected commits, got {:?}", other),
    }
}

#[test]
fn two_commits_on_one_file_newest_first() {
    let walk = vec![
        commit("bbbbbbbbbbbbbbbbbbbbbbbbbbbbbbbbbbbbbbbb", Some(vec!["a.txt"]), "update", 1431648060),
        commit("aaaaaaaaaaaaaaaaaaaaaaaaaaaaaaaaaaaaaaaa", None, "initial", 1431648000),
    ];
    let found = entries(git_history(&walk, "a.txt"));
    assert_eq!(found.len(), 2);
    assert_eq!(found[0].message, "update");
    assert_eq!(found[1].message, "initial");
    assert_eq!(
        found[0],
        HistoryEntry {
            id: "bbbbbbb".to_string(),
            author: "Ada".to_string(),
            date: "2015-05-15 00:01:00".to_string(),
            message: "update".to_string(),
        }
    );
    assert_eq!(found[1].id, "aaaaaaa");
    assert_eq!(found[1].date, "2015-05-15 00:00:00");
}

#[test]
fn empty_walk_has_no_history() {
    let report = git_history(&Vec::new(), "a.txt");
    assert_eq!(report, Ok(HistoryReport::NoHistory));
    assert_eq!(HistoryReport::NoHistory.message(), Some("No history found"));
}

#[test]
fn walk_that_never_touches_the_file_has_no_history() {
    let walk = vec![
        commit("cccccccccccccccccccccccccccccccccccccccc", Some(vec!["b.txt", "dir/a.txt"]), "other", 10),
        commit("dddddddddddddddddddddddddddddddddddddddd", Some(Vec::new()), "empty", 5),
    ];
    assert_eq!(git_history(&walk, "a.txt"), Ok(HistoryReport::NoHistory));
}

#[test]
fn path_must_match_exactly() {
    let c = commit("cccccccccccccccccccccccccccccccccccccccc", Some(vec!["src/a.txt", "a.txt.bak", "a"]), "near", 10);
    assert!(!is_relevant(&c, &"a.txt".to_string()));
    assert!(is_relevant(&c, &"src/a.txt".to_string()));
    assert!(is_relevant(&c, &"a".to_string()));
}

#[test]
fn root_commit_is_always_taken() {
    let root = commit("eeeeeeeeeeeeeeeeeeeeeeeeeeeeeeeeeeeeeeee", None, "root", 0);
    assert!(is_relevant(&root, &"anything".to_string()));
    let found = entries(git_history(&vec![root], "never/seen.txt"));
    assert_eq!(found.len(), 1);
    assert_eq!(found[0].date, "1970-01-01 00:00:00");
}

#[test]
fn skipped_commits_do_not_count_towards_the_cap() {
    let mut walk = Vec::new();
    for i in 0..150 {
        walk.push(commit("ffffffffffffffffffffffffffffffffffffffff", Some(vec!["other.txt"]), "skip", 1000));
        walk.push(commit("9999999999999999999999999999999999999999", Some(vec!["a.txt"]), &format!("take {}", i), 1000));
    }
    let found = entries(git_history(&walk, "a.txt"));
    assert_eq!(found.len(), 100);
    assert_eq!(MAX_COMMITS, 100);
    assert_eq!(found[0].message, "take 0");
    assert_eq!(found[99].message, "take 99");
}

#[test]
fn fewer_than_the_cap_are_all_kept() {
    let mut walk = Vec::new();
    for i in 0..99 {
        walk.push(commit("9999999999999999999999999999999999999999", Some(vec!["a.txt"]), &format!("take {}", i), 1000));
    }
    assert_eq!(entries(git_history(&walk, "a.txt")).len(), 99);
}

#[test]
fn time_that_cannot_be_rendered_fails_the_query() {
    let walk = vec![
        commit("bbbbbbbbbbbbbbbbbbbbbbbbbbbbbbbbbbbbbbbb", Some(vec!["a.txt"]), "fine", 1),
        commit("aaaaaaaaaaaaaaaaaaaaaaaaaaaaaaaaaaaaaaaa", None, "broken", i64::MAX),
    ];
    assert_eq!(git_history(&walk, "a.txt"), Err(GitError::InvalidTimestamp));
}

#[test]
fn bad_time_of_a_skipped_commit_is_not_looked_at() {
    let walk = vec![
        commit("bbbbbbbbbbbbbbbbbbbbbbbbbbbbbbbbbbbbbbbb", Some(vec!["b.txt"]), "skipped", i64::MAX),
        commit("aaaaaaaaaaaaaaaaaaaaaaaaaaaaaaaaaaaaaaaa", None, "root", 1),
    ];
    assert_eq!(entries(git_history(&walk, "a.txt")).len(), 1);
}

#[test]
fn bad_time_beyond_the_cap_is_not_looked_at() {
    let mut walk = Vec::new();
    for _ in 0..100 {
        walk.push(commit("9999999999999999999999999999999999999999", Some(vec!["a.txt"]), "take", 1000));
    }
    walk.push(commit("aaaaaaaaaaaaaaaaaaaaaaaaaaaaaaaaaaaaaaaa", None, "root", i64::MIN));
    assert_eq!(entries(git_history(&walk, "a.txt")).len(), 100);
}

#[test]
fn entry_shows_unknown_author_and_trimmed_message() {
    let c = CommitInfo {
        id: "0123456789abcdef0123456789abcdef01234567".to_string(),
        changed: None,
        author: None,
        seconds: 0,
        message: Some("\n  fix the thing \t\n".to_string()),
    };
    let entry = make_entry(&c, "1970-01-01 00:00:00".to_string());
    assert_eq!(entry.id, "0123456");
    assert_eq!(entry.author, "Unknown");
    assert_eq!(entry.date, "1970-01-01 00:00:00");
    assert_eq!(entry.message, "fix the thing");
}

#[test]
fn entry_of_commit_without_message_is_empty() {
    let c = CommitInfo { id: "0123456789".to_string(), changed: None, author: None, seconds: 0, message: None };
    assert_eq!(make_entry(&c, String::new()).message, "");
}

#[test]
fn short_id_is_the_first_seven_characters() {
    assert_eq!(short_id("0123456789abcdef0123456789abcdef01234567"), "0123456");
    assert_eq!(short_id("0123456"), "0123456");
    assert_eq!(short_id("012"), "012");
    assert_eq!(short_id(""), "");
}

#[test]
fn trimming_removes_white_space_at_both_ends_only() {
    assert_eq!(trim_message("  a b  "), "a b");
    assert_eq!(trim_message("test"), "test");
    assert_eq!(trim_message("\u{3000}x\u{85}\u{a0}"), "x");
    assert_eq!(trim_message(" \t\r\n"), "");
    assert_eq!(trim_message(trim_message(" twice ").as_str()), "twice");
}

#[test]
fn written_commit_is_found_again_in_history() {
    let signature = Identity { name: Some("Ada".to_string()), email: None, when: 1431648000 };
    let record = git_commit(
        "89abcdef0123456789abcdef0123456789abcdef".to_string(),
        &signature,
        "test".to_string(),
    );
    let walk = vec![CommitInfo {
        id: record.id.clone(),
        changed: Some(vec!["a.txt".to_string()]),
        author: Some(record.author.name.clone()),
        seconds: record.timestamp,
        message: Some(record.message.clone()),
    }];
    let found = entries(git_history(&walk, "a.txt"));
    assert_eq!(found.len(), 1);
    assert_eq!(found[0].message, "test");
    assert_eq!(found[0].id, record.id[..7].to_string());
    assert_eq!(found[0].date, "2015-05-15 00:00:00");
}

#[test]
fn walker_takes_commits_one_at_a_time() {
    let mut walker = HistoryWalker::new("a.txt".to_string());
    assert!(walker.wants_more());
    let skipped = commit("bbbbbbbbbbbbbbbbbbbbbbbbbbbbbbbbbbbbbbbb", Some(vec!["b.txt"]), "skip", 1);
    assert_eq!(walker.visit(&skipped), Ok(true));
    assert_eq!(walker.entries.len(), 0);
    let taken = commit("aaaaaaaaaaaaaaaaaaaaaaaaaaaaaaaaaaaaaaaa", Some(vec!["a.txt"]), "take", 1);
    assert_eq!(walker.visit(&taken), Ok(true));
    assert_eq!(walker.entries.len(), 1);
    let broken = commit("cccccccccccccccccccccccccccccccccccccccc", None, "broken", i64::MAX);
    assert_eq!(walker.visit(&broken), Err(GitError::InvalidTimestamp));
    assert_eq!(walker.entries.len(), 1);
    for _ in 0..98 {
        assert_eq!(walker.visit(&taken), Ok(true));
    }
    assert_eq!(walker.visit(&taken), Ok(false));
    assert!(!walker.wants_more());
    assert_eq!(walker.visit(&taken), Ok(false));
    assert_eq!(walker.visit(&broken), Ok(false));
    match walker.report() {
        HistoryReport::Commits(found) => assert_eq!(found.len(), 100),
        HistoryReport::NoHistory => panic!("entries were taken"),
    }
}

#[test]
fn walker_without_entries_reports_no_history() {
    let walker = HistoryWalker::new("a.txt".to_string());
    assert_eq!(walker.report(), HistoryReport::NoHistory);
}

#[test]
fn lookup_becomes_target_or_invalid_path() {
    assert_eq!(resolved_target(Lookup::Inside("a.txt".to_string())), Ok("a.txt".to_string()));
    assert_eq!(resolved_target(Lookup::Outside), Err(GitError::InvalidPath(PathFault::OutsideRoot)));
    assert_eq!(resolved_target(Lookup::Unreadable), Err(GitError::InvalidPath(PathFault::NotText)));
}

#[test]
fn relative_file_resolves_to_itself() {
    let root = PathBuf::from("/work/repo/");
    assert_eq!(look_up(&root, "src/a.txt"), Lookup::Inside("src/a.txt".to_string()));
    assert_eq!(resolve_file(&root, "a.txt"), Ok("a.txt".to_string()));
}

#[test]
fn absolute_file_under_the_root_resolves_to_its_relative_path() {
    let root = PathBuf::from("/work/repo/");
    assert_eq!(resolve_file(&root, "/work/repo/src/a.txt"), Ok("src/a.txt".to_string()));
}

#[test]
fn absolute_file_outside_the_root_is_invalid() {
    let root = PathBuf::from("/work/repo/");
    assert_eq!(look_up(&root, "/elsewhere/a.txt"), Lookup::Outside);
    assert_eq!(resolve_file(&root, "/elsewhere/a.txt"), Err(GitError::InvalidPath(PathFault::OutsideRoot)));
}
