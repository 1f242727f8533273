use gitfrisky::error::{toe, GitError, StoreErrorCode};
use gitfrisky::history::{log, log_entry_of, log_limit, new_commit_entry_of, walk_roots, RawCommit};
use gitfrisky::repo::{
    branch_record, commit_precheck, commit_state_check, diff_source, map_repo_state, repo_summary, unstage_action,
    DiffSource, IndexAction, StoreState,
};
use gitfrisky::status::{status, StatusEntry, StatusFlags};
use gitfrisky::types::{FileStatus, RepoState};
use gitfrisky::watch::{classify_event, FsEventKind, WatchEventKind};

fn no_flags() -> StatusFlags {
    StatusFlags {
        index_new: false,
        index_modified: false,
        index_deleted: false,
        index_renamed: false,
        wt_new: false,
        wt_modified: false,
        wt_deleted: false,
        wt_renamed: false,
        conflicted: false,
    }
}

fn entry(path: &str, flags: StatusFlags) -> StatusEntry {
    StatusEntry { path: path.to_string(), flags }
}

fn raw(id: &str, parents: &[&str]) -> RawCommit {
    RawCommit {
        oid: id.to_string(),
        author: Some("Ann".to_string()),
        email: Some("ann@example.org".to_string()),
        timestamp: 1_700_000_000,
        summary: Some(format!("commit {}", id)),
        message: Some(format!("commit {}\n\nbody", id)),
        parents: parents.iter().map(|p| p.to_string()).collect(),
    }
}

#[test]
fn staged_modification_only() {
    let flags = StatusFlags { index_modified: true, ..no_flags() };
    let p = status(&vec![entry("a.txt", flags)]);
    assert_eq!(p.staged.len(), 1);
    assert_eq!(p.staged[0].path, "a.txt");
    assert_eq!(p.staged[0].status, FileStatus::M);
    assert_eq!(p.staged[0].old_path, None);
    assert_eq!((p.staged[0].additions, p.staged[0].deletions), (0, 0));
    assert!(p.unstaged.is_empty());
}

#[test]
fn staged_and_further_edited() {
    let flags = StatusFlags { index_modified: true, wt_modified: true, ..no_flags() };
    let p = status(&vec![entry("a.txt", flags)]);
    assert_eq!(p.staged.len(), 1);
    assert_eq!(p.staged[0].status, FileStatus::M);
    assert_eq!(p.unstaged.len(), 1);
    assert_eq!(p.unstaged[0].path, "a.txt");
    assert_eq!(p.unstaged[0].status, FileStatus::M);
}

#[test]
fn status_priorities_and_conflicts() {
    let entries = vec![
        entry("new.txt", StatusFlags { index_new: true, index_modified: true, ..no_flags() }),
        entry("u.txt", StatusFlags { wt_new: true, wt_modified: true, ..no_flags() }),
        entry("gone.txt", StatusFlags { index_deleted: true, wt_deleted: true, ..no_flags() }),
        entry("c.txt", StatusFlags { wt_modified: true, conflicted: true, ..no_flags() }),
        entry("r.txt", StatusFlags { index_renamed: true, wt_renamed: true, ..no_flags() }),
        entry("clean.txt", no_flags()),
    ];
    let p = status(&entries);
    let staged: Vec<(&str, FileStatus)> =
        p.staged.iter().map(|c| (c.path.as_str(), c.status)).collect();
    let unstaged: Vec<(&str, FileStatus)> =
        p.unstaged.iter().map(|c| (c.path.as_str(), c.status)).collect();
    assert_eq!(
        staged,
        vec![("new.txt", FileStatus::A), ("gone.txt", FileStatus::D), ("r.txt", FileStatus::R)]
    );
    assert_eq!(
        unstaged,
        vec![
            ("u.txt", FileStatus::U),
            ("gone.txt", FileStatus::D),
            ("c.txt", FileStatus::M),
            ("c.txt", FileStatus::C),
            ("r.txt", FileStatus::R),
        ]
    );
}

#[test]
fn log_takes_limit_in_walk_order() {
    let walk = vec![
        raw("e5", &["d4"]),
        raw("d4", &["c3", "b2"]),
        raw("c3", &["a1"]),
        raw("b2", &["a1"]),
        raw("a1", &[]),
    ];
    let l = log(&walk, Some(2));
    assert_eq!(l.len(), 2);
    assert_eq!(l[0].oid, "e5");
    assert_eq!(l[0].parents, vec!["d4".to_string()]);
    assert_eq!(l[1].oid, "d4");
    assert_eq!(l[1].parents, vec!["c3".to_string(), "b2".to_string()]);
    assert_eq!(l[1].summary, "commit d4");
    assert_eq!(l[1].message.as_deref(), Some("commit d4\n\nbody"));
    assert!(l[1].refs.is_empty());
    assert_eq!(l[1].lane, None);
    assert_eq!(log(&walk, None).len(), 5);
    assert!(log(&walk, Some(0)).is_empty());
    assert!(log(&vec![], Some(3)).is_empty());
}

#[test]
fn log_limit_defaults() {
    assert_eq!(log_limit(None), 500);
    assert_eq!(log_limit(Some(7)), 7);
}

#[test]
fn log_entry_defaults() {
    let mut r = raw("a1", &[]);
    r.author = None;
    r.email = None;
    r.summary = None;
    let c = log_entry_of(&r);
    assert_eq!(c.author, "Unknown");
    assert_eq!(c.email, "");
    assert_eq!(c.summary, "");
    assert_eq!(c.timestamp, 1_700_000_000);
    let n = new_commit_entry_of(&r);
    assert_eq!(n.author, "");
    assert_eq!(n.message, None);
}

#[test]
fn roots_from_branches_or_head() {
    let local = vec![Some("aa"), None];
    let remote = vec![Some("bb")];
    let head = Some("cc");
    assert_eq!(walk_roots(&local, &remote, head), vec!["aa", "bb"]);
    assert_eq!(walk_roots(&vec![], &remote, head), vec!["bb"]);
    assert_eq!(walk_roots(&vec![None], &vec![], head), vec!["cc"]);
    assert!(walk_roots::<&str>(&vec![], &vec![], None).is_empty());
}

#[test]
fn repo_states_map() {
    assert_eq!(map_repo_state(StoreState::RevertSequence), RepoState::Revert);
    assert_eq!(map_repo_state(StoreState::CherryPickSequence), RepoState::CherryPick);
    assert_eq!(map_repo_state(StoreState::RebaseMerge), RepoState::RebaseMerge);
    assert_eq!(map_repo_state(StoreState::ApplyMailbox), RepoState::Clean);
    assert_eq!(map_repo_state(StoreState::Bisect), RepoState::Bisect);
}

#[test]
fn commit_needs_clean_state_and_staged_changes() {
    assert!(commit_precheck(StoreState::Clean, 2).is_ok());
    assert!(commit_state_check(StoreState::Clean).is_ok());
    assert!(matches!(
        commit_state_check(StoreState::CherryPickSequence),
        Err(GitError::UnsafeState(RepoState::CherryPick))
    ));
    assert!(matches!(commit_precheck(StoreState::Clean, 0), Err(GitError::NothingToCommit)));
    assert!(matches!(
        commit_precheck(StoreState::Merge, 3),
        Err(GitError::UnsafeState(RepoState::Merge))
    ));
}

#[test]
fn unstage_restores_or_removes() {
    assert_eq!(unstage_action(true, true), IndexAction::RestoreFromHead);
    assert_eq!(unstage_action(true, false), IndexAction::Remove);
    assert_eq!(unstage_action(false, false), IndexAction::Remove);
}

#[test]
fn diff_sources() {
    assert_eq!(diff_source(true, false), DiffSource::TreeToIndex);
    assert_eq!(diff_source(false, true), DiffSource::IndexToWorkdir);
    assert_eq!(diff_source(false, false), DiffSource::UntrackedFile);
}

#[test]
fn branch_and_summary_records() {
    let b = branch_record(Some("main".to_string()), true, Some("origin/main".to_string()), Some((3, 1)));
    assert_eq!(b.full_name, "refs/heads/main");
    assert_eq!((b.ahead, b.behind), (3, 1));
    assert!(!b.is_remote);
    let b2 = branch_record(None, false, Some("origin/x".to_string()), None);
    assert_eq!(b2.name, "");
    let b3 = branch_record(Some("solo".to_string()), false, None, Some((4, 2)));
    assert_eq!((b3.ahead, b3.behind), (0, 0));
    let b4 = branch_record(Some("far".to_string()), false, Some("o/far".to_string()), Some((usize::MAX, 5)));
    assert_eq!((b4.ahead, b4.behind), (i32::MAX, 5));
    assert_eq!(b2.full_name, "refs/heads/");
    assert_eq!((b2.ahead, b2.behind), (0, 0));
    let s = repo_summary(
        "/r".to_string(),
        vec![b],
        false,
        true,
        Some("abc".to_string()),
        Some("main".to_string()),
        StoreState::Rebase,
    );
    assert_eq!(s.head.as_deref(), Some("abc"));
    assert_eq!(s.state, RepoState::Rebase);
    assert_eq!(s.branches.len(), 1);
}

#[test]
fn error_texts() {
    assert_eq!(toe(&GitError::RepoNotFound("x".to_string())), "Repository not found: x");
    assert_eq!(toe(&GitError::UnsafeState(RepoState::CherryPick)), "Repository in unsafe state: CherryPick");
    assert_eq!(GitError::NothingToCommit.message(), "Nothing to commit");
    assert!(matches!(
        GitError::from_store(StoreErrorCode::Conflict, "f".to_string()),
        GitError::MergeConflict(m) if m == "f"
    ));
    assert!(matches!(
        GitError::from_store(StoreErrorCode::Auth, "f".to_string()),
        GitError::AuthRequired
    ));
    assert!(matches!(
        GitError::from_store(StoreErrorCode::Locked, "boom".to_string()),
        GitError::OperationFailed(m) if m == "boom"
    ));
}

#[test]
fn watch_classification() {
    let p = |s: &str| Some(s.to_string());
    assert_eq!(classify_event(FsEventKind::Modify, &vec![p(".git/HEAD")]), Some(WatchEventKind::Head));
    assert_eq!(classify_event(FsEventKind::Access, &vec![p(".git/HEAD.lock")]), Some(WatchEventKind::Head));
    assert_eq!(classify_event(FsEventKind::Any, &vec![p(".git/refs/heads/main")]), Some(WatchEventKind::Refs));
    assert_eq!(classify_event(FsEventKind::Access, &vec![p(".git/index")]), Some(WatchEventKind::Status));
    assert_eq!(classify_event(FsEventKind::Create, &vec![p("src/main.rs")]), Some(WatchEventKind::Status));
    assert_eq!(classify_event(FsEventKind::Access, &vec![p("src/main.rs")]), None);
    assert_eq!(classify_event(FsEventKind::Create, &vec![p(".git/objects/ab/cd")]), None);
    assert_eq!(
        classify_event(FsEventKind::Create, &vec![p(".git/logs/HEAD1"), p("README")]),
        Some(WatchEventKind::Status)
    );
    assert_eq!(classify_event(FsEventKind::Create, &vec![None, p("README")]), None);
    assert_eq!(classify_event(FsEventKind::Create, &vec![]), None);
}
