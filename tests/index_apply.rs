use std::path::Path;
use std::time::{SystemTime, UNIX_EPOCH};

use git2::{ApplyLocation, Diff, IndexEntry, IndexTime, Oid, Repository};
use gitfrisky::diff::untracked_file_diff;
use gitfrisky::error::GitError;
use gitfrisky::patch::{stage_hunk_patch, unstage_hunk_patch};
use gitfrisky::store::{stage_hunk_diff, store_error, unstage_hunk_diff};
use gitfrisky::types::{DiffHunk, DiffLine, LineType};

fn fresh_repo(tag: &str) -> Repository {
    let nanos = SystemTime::now().duration_since(UNIX_EPOCH).unwrap().as_nanos();
    Repository::init(format!("/tmp/gitfrisky-{}-{}", tag, nanos)).unwrap()
}

fn put_in_index(repo: &Repository, path: &str, content: &[u8]) {
    let mut index = repo.index().unwrap();
    let entry = IndexEntry {
        ctime: IndexTime::new(0, 0),
        mtime: IndexTime::new(0, 0),
        dev: 0,
        ino: 0,
        mode: 0o100644,
        uid: 0,
        gid: 0,
        file_size: content.len() as u32,
        id: Oid::zero(),
        flags: 0,
        flags_extended: 0,
        path: path.as_bytes().to_vec(),
    };
    index.add_frombuffer(&entry, content).unwrap();
    index.write().unwrap();
}

fn index_content(repo: &Repository, path: &str) -> Option<Vec<u8>> {
    let mut index = repo.index().unwrap();
    index.read(true).unwrap();
    let entry = index.get_path(Path::new(path), 0)?;
    Some(repo.find_blob(entry.id).unwrap().content().to_vec())
}

fn apply(repo: &Repository, patch: &str) -> Result<(), git2::Error> {
    let diff = Diff::from_buffer(patch.as_bytes())?;
    repo.apply(&diff, ApplyLocation::Index, None)
}

fn dl(t: LineType, content: &str, old: Option<u32>, new: Option<u32>) -> DiffLine {
    DiffLine { content: content.to_string(), line_type: t, old_lineno: old, new_lineno: new }
}

fn two_to_upper() -> DiffHunk {
    DiffHunk {
        header: "@@ -1,3 +1,3 @@".to_string(),
        old_start: 1,
        old_lines: 3,
        new_start: 1,
        new_lines: 3,
        lines: vec![
            dl(LineType::Context, "one", Some(1), Some(1)),
            dl(LineType::Deletion, "two", Some(2), None),
            dl(LineType::Addition, "TWO", None, Some(2)),
            dl(LineType::Context, "three", Some(3), Some(3)),
        ],
    }
}

#[test]
fn stage_then_unstage_restores_index() {
    let repo = fresh_repo("roundtrip");
    put_in_index(&repo, "a.txt", b"one\ntwo\nthree\n");
    let h = two_to_upper();
    apply(&repo, &stage_hunk_patch("a.txt", &h).unwrap()).unwrap();
    assert_eq!(index_content(&repo, "a.txt").unwrap(), b"one\nTWO\nthree\n".to_vec());
    apply(&repo, &unstage_hunk_patch("a.txt", &h).unwrap()).unwrap();
    assert_eq!(index_content(&repo, "a.txt").unwrap(), b"one\ntwo\nthree\n".to_vec());
}

#[test]
fn drifted_context_is_refused_and_index_kept() {
    let repo = fresh_repo("drift");
    put_in_index(&repo, "a.txt", b"one\nzwei\nthree\n");
    let h = two_to_upper();
    assert!(apply(&repo, &stage_hunk_patch("a.txt", &h).unwrap()).is_err());
    assert_eq!(index_content(&repo, "a.txt").unwrap(), b"one\nzwei\nthree\n".to_vec());
}

#[test]
fn untracked_hunk_fills_empty_index_entry() {
    let repo = fresh_repo("untracked");
    put_in_index(&repo, "n.txt", b"");
    let hunks = untracked_file_diff("first\nsecond\n");
    apply(&repo, &stage_hunk_patch("n.txt", &hunks[0]).unwrap()).unwrap();
    assert_eq!(index_content(&repo, "n.txt").unwrap(), b"first\nsecond\n".to_vec());
}

#[test]
fn hunk_diffs_apply_and_revert() {
    let repo = fresh_repo("diffobj");
    put_in_index(&repo, "a.txt", b"one\ntwo\nthree\n");
    let h = two_to_upper();
    let forward = stage_hunk_diff("a.txt", &h).unwrap();
    assert_eq!(forward.deltas().count(), 1);
    repo.apply(&forward, ApplyLocation::Index, None).unwrap();
    assert_eq!(index_content(&repo, "a.txt").unwrap(), b"one\nTWO\nthree\n".to_vec());
    let back = unstage_hunk_diff("a.txt", &h).unwrap();
    repo.apply(&back, ApplyLocation::Index, None).unwrap();
    assert_eq!(index_content(&repo, "a.txt").unwrap(), b"one\ntwo\nthree\n".to_vec());
}

#[test]
fn unparsable_patch_gives_store_error() {
    let h = DiffHunk {
        header: String::new(),
        old_start: 0,
        old_lines: 0,
        new_start: 0,
        new_lines: 0,
        lines: vec![],
    };
    assert!(matches!(stage_hunk_diff("a.txt", &h), Err(GitError::OperationFailed(_))));
}

#[test]
fn inconsistent_hunk_gives_no_diff() {
    let mut h = two_to_upper();
    h.old_lines = 4;
    assert!(matches!(stage_hunk_diff("a.txt", &h), Err(GitError::InconsistentHunk)));
    assert!(matches!(unstage_hunk_diff("a.txt", &h), Err(GitError::InconsistentHunk)));
}

#[test]
fn store_errors_keep_class_and_text() {
    let e = git2::Error::new(git2::ErrorCode::NotFound, git2::ErrorClass::Repository, "no such repo");
    assert!(matches!(store_error(&e), GitError::RepoNotFound(m) if m == "no such repo"));
    let e = git2::Error::new(git2::ErrorCode::Conflict, git2::ErrorClass::Index, "clash");
    assert!(matches!(store_error(&e), GitError::MergeConflict(m) if m == "clash"));
    let e = git2::Error::new(git2::ErrorCode::Auth, git2::ErrorClass::Net, "who");
    assert!(matches!(store_error(&e), GitError::AuthRequired));
    let e = git2::Error::from_str("boom");
    assert!(matches!(store_error(&e), GitError::OperationFailed(m) if m == "boom"));
}
