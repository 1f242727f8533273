//! The library's error type and its user-visible text.
use vstd::prelude::*;
use crate::types::RepoState;

verus! {

/// Errors surfaced to the client.
#[derive(Debug)]
pub enum GitError {
    RepoNotFound(String),
    NotARepo(String),
    InvalidPath(String),
    OperationFailed(String),
    AuthRequired,
    MergeConflict(String),
    UnsafeState(RepoState),
    NothingToCommit,
    DetachedHead,
    /// A hunk whose line tags contradict the counts in its header.
    InconsistentHunk,
}

/// The class of a failure reported by the version-control store, one
/// variant for each class the store distinguishes.
#[derive(Clone, Copy, Debug, PartialEq, Eq, Structural)]
pub enum StoreErrorCode {
    GenericError,
    NotFound,
    Exists,
    Ambiguous,
    BufSize,
    User,
    BareRepo,
    UnbornBranch,
    Unmerged,
    NotFastForward,
    InvalidSpec,
    Conflict,
    Locked,
    Modified,
    Auth,
    Certificate,
    Applied,
    Peel,
    Eof,
    Invalid,
    Uncommitted,
    Directory,
    MergeConflict,
    HashsumMismatch,
    IndexDirty,
    ApplyFail,
    Owner,
    Timeout,
}

/// The error that a store failure of class `code` with text `message` becomes.
pub open spec fn store_error_of(code: StoreErrorCode, message: String) -> GitError {
    match code {
        StoreErrorCode::NotFound => GitError::RepoNotFound(message),
        StoreErrorCode::Auth => GitError::AuthRequired,
        StoreErrorCode::Conflict => GitError::MergeConflict(message),
        _ => GitError::OperationFailed(message),
    }
}

/// The name of a repository state, as it is printed.
pub open spec fn state_name(s: RepoState) -> Seq<char> {
    match s {
        RepoState::Clean => "Clean"@,
        RepoState::Merge => "Merge"@,
        RepoState::Rebase => "Rebase"@,
        RepoState::RebaseInteractive => "RebaseInteractive"@,
        RepoState::RebaseMerge => "RebaseMerge"@,
        RepoState::Revert => "Revert"@,
        RepoState::CherryPick => "CherryPick"@,
        RepoState::Bisect => "Bisect"@,
    }
}

/// The human-readable text of an error.
pub open spec fn message_of(e: GitError) -> Seq<char> {
    match e {
        GitError::RepoNotFound(s) => "Repository not found: "@ + s@,
        GitError::NotARepo(s) => "Not a git repository: "@ + s@,
        GitError::InvalidPath(s) => "Invalid path: "@ + s@,
        GitError::OperationFailed(s) => "Operation failed: "@ + s@,
        GitError::AuthRequired => "Authentication required"@,
        GitError::MergeConflict(s) => "Merge conflict in "@ + s@,
        GitError::UnsafeState(st) => "Repository in unsafe state: "@ + state_name(st),
        GitError::NothingToCommit => "Nothing to commit"@,
        GitError::DetachedHead => "Detached HEAD"@,
        GitError::InconsistentHunk => "Hunk lines do not match its header counts"@,
    }
}

pub fn state_text(s: RepoState) -> (r: &'static str)
    ensures
        r@ == state_name(s),
{
    match s {
        RepoState::Clean => "Clean",
        RepoState::Merge => "Merge",
        RepoState::Rebase => "Rebase",
        RepoState::RebaseInteractive => "RebaseInteractive",
        RepoState::RebaseMerge => "RebaseMerge",
        RepoState::Revert => "Revert",
        RepoState::CherryPick => "CherryPick",
        RepoState::Bisect => "Bisect",
    }
}

fn prefixed(prefix: &str, s: &String) -> (r: String)
    ensures
        r@ == prefix@ + s@,
{
    let mut m = String::from_str(prefix);
    m.append(s.as_str());
    m
}

impl GitError {
    /// The user-visible text of the error.
    pub fn message(&self) -> (r: String)
        ensures
            r@ == message_of(*self),
    {
        match self {
            GitError::RepoNotFound(s) => prefixed("Repository not found: ", s),
            GitError::NotARepo(s) => prefixed("Not a git repository: ", s),
            GitError::InvalidPath(s) => prefixed("Invalid path: ", s),
            GitError::OperationFailed(s) => prefixed("Operation failed: ", s),
            GitError::AuthRequired => String::from_str("Authentication required"),
            GitError::MergeConflict(s) => prefixed("Merge conflict in ", s),
            GitError::UnsafeState(st) => {
                let mut m = String::from_str("Repository in unsafe state: ");
                m.append(state_text(*st));
                m
            },
            GitError::NothingToCommit => String::from_str("Nothing to commit"),
            GitError::DetachedHead => String::from_str("Detached HEAD"),
            GitError::InconsistentHunk => String::from_str(
                "Hunk lines do not match its header counts",
            ),
        }
    }

    /// The error for a failure of the version-control store: a missing
    /// object, refused credentials and a conflict keep their own kinds, and
    /// everything else is an operation failure carrying the store's text.
    pub fn from_store(code: StoreErrorCode, message: String) -> (r: GitError)
        ensures
            r == store_error_of(code, message),
    {
        match code {
            StoreErrorCode::NotFound => GitError::RepoNotFound(message),
            StoreErrorCode::Auth => GitError::AuthRequired,
            StoreErrorCode::Conflict => GitError::MergeConflict(message),
            _ => GitError::OperationFailed(message),
        }
    }
}

/// The text under which an error is reported to the client.
pub fn toe(e: &GitError) -> (r: String)
    ensures
        r@ == message_of(*e),
{
    e.message()
}

} // verus!
