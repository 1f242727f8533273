//! Decisions around the repository surfaces: which surfaces a diff
//! compares, how an operation state is reported, what a commit needs, how
//! a path is unstaged, and how branches are summarised.
use vstd::prelude::*;
use crate::types::{Branch, RepoState, RepoSummary};
use crate::error::GitError;

verus! {

/// The operation states the store distinguishes.
#[derive(Clone, Copy, Debug, PartialEq, Eq, Structural)]
pub enum StoreState {
    Clean,
    Merge,
    Revert,
    RevertSequence,
    CherryPick,
    CherryPickSequence,
    Bisect,
    Rebase,
    RebaseInteractive,
    RebaseMerge,
    ApplyMailbox,
    ApplyMailboxOrRebase,
}

/// The reported state: sequences of reverts and cherry-picks report as a
/// single revert or cherry-pick, and a mailbox application as clean.
pub open spec fn repo_state_of(s: StoreState) -> RepoState {
    match s {
        StoreState::Clean => RepoState::Clean,
        StoreState::Merge => RepoState::Merge,
        StoreState::Rebase => RepoState::Rebase,
        StoreState::RebaseInteractive => RepoState::RebaseInteractive,
        StoreState::RebaseMerge => RepoState::RebaseMerge,
        StoreState::Revert | StoreState::RevertSequence => RepoState::Revert,
        StoreState::CherryPick | StoreState::CherryPickSequence => RepoState::CherryPick,
        StoreState::Bisect => RepoState::Bisect,
        StoreState::ApplyMailbox | StoreState::ApplyMailboxOrRebase => RepoState::Clean,
    }
}

pub fn map_repo_state(s: StoreState) -> (r: RepoState)
    ensures
        r == repo_state_of(s),
{
    match s {
        StoreState::Clean => RepoState::Clean,
        StoreState::Merge => RepoState::Merge,
        StoreState::Rebase => RepoState::Rebase,
        StoreState::RebaseInteractive => RepoState::RebaseInteractive,
        StoreState::RebaseMerge => RepoState::RebaseMerge,
        StoreState::Revert | StoreState::RevertSequence => RepoState::Revert,
        StoreState::CherryPick | StoreState::CherryPickSequence => RepoState::CherryPick,
        StoreState::Bisect => RepoState::Bisect,
        StoreState::ApplyMailbox | StoreState::ApplyMailboxOrRebase => RepoState::Clean,
    }
}

/// Where the hunks of a diff request come from.
#[derive(Clone, Copy, Debug, PartialEq, Eq, Structural)]
pub enum DiffSource {
    /// The file's whole content, as additions.
    UntrackedFile,
    /// Last commit's tree against the index.
    TreeToIndex,
    /// Index against the working directory.
    IndexToWorkdir,
}

/// The staged view compares tree and index; the unstaged view compares
/// index and working directory, except for a path the index does not
/// hold, which is shown whole.
pub fn diff_source(staged: bool, is_tracked: bool) -> (r: DiffSource)
    ensures
        staged ==> r == DiffSource::TreeToIndex,
        !staged && is_tracked ==> r == DiffSource::IndexToWorkdir,
        !staged && !is_tracked ==> r == DiffSource::UntrackedFile,
{
    if staged {
        DiffSource::TreeToIndex
    } else if is_tracked {
        DiffSource::IndexToWorkdir
    } else {
        DiffSource::UntrackedFile
    }
}

/// A commit is refused outside the clean state.
pub fn commit_state_check(state: StoreState) -> (r: Result<(), GitError>)
    ensures
        state != StoreState::Clean ==> r == Err::<(), GitError>(
            GitError::UnsafeState(repo_state_of(state)),
        ),
        state == StoreState::Clean ==> r is Ok,
{
    if state != StoreState::Clean {
        Err(GitError::UnsafeState(map_repo_state(state)))
    } else {
        Ok(())
    }
}

/// A commit is refused outside the clean state, and when nothing is staged.
pub fn commit_precheck(state: StoreState, staged_changes: usize) -> (r: Result<(), GitError>)
    ensures
        state != StoreState::Clean ==> r == Err::<(), GitError>(
            GitError::UnsafeState(repo_state_of(state)),
        ),
        state == StoreState::Clean && staged_changes == 0 ==> r == Err::<(), GitError>(
            GitError::NothingToCommit,
        ),
        state == StoreState::Clean && staged_changes > 0 ==> r is Ok,
{
    if state != StoreState::Clean {
        Err(GitError::UnsafeState(map_repo_state(state)))
    } else if staged_changes == 0 {
        Err(GitError::NothingToCommit)
    } else {
        Ok(())
    }
}

/// What unstaging does to one path's index entry.
#[derive(Clone, Copy, Debug, PartialEq, Eq, Structural)]
pub enum IndexAction {
    /// Put back the last commit's blob and mode.
    RestoreFromHead,
    /// Drop the entry.
    Remove,
}

/// A path the last commit holds is restored from it; a path it does not
/// hold, or any path before the first commit, leaves the index.
pub fn unstage_action(has_head_tree: bool, in_head_tree: bool) -> (r: IndexAction)
    ensures
        r == IndexAction::RestoreFromHead <==> has_head_tree && in_head_tree,
{
    if has_head_tree && in_head_tree {
        IndexAction::RestoreFromHead
    } else {
        IndexAction::Remove
    }
}

/// A count as reported: counts past the largest `i32` read as that value.
pub open spec fn reported_count(n: usize) -> i32 {
    if n <= i32::MAX {
        n as i32
    } else {
        i32::MAX
    }
}

fn count_i32(n: usize) -> (r: i32)
    ensures
        r == reported_count(n),
{
    if n <= i32::MAX as usize {
        n as i32
    } else {
        i32::MAX
    }
}

/// A local branch record: `name` (empty where the store gives none), its
/// full reference name, and the ahead/behind counts against its upstream
/// (zero for a branch without upstream, and where they could not be
/// computed).
pub fn branch_record(
    name: Option<String>,
    is_head: bool,
    upstream: Option<String>,
    ahead_behind: Option<(usize, usize)>,
) -> (r: Branch)
    ensures
        r.name@ == (match name {
            Some(n) => n@,
            None => ""@,
        }),
        r.full_name@ == "refs/heads/"@ + r.name@,
        r.is_head == is_head,
        !r.is_remote,
        r.upstream == upstream,
        upstream is None ==> r.ahead == 0 && r.behind == 0,
        upstream is Some ==> r.ahead == (match ahead_behind {
            Some(ab) => reported_count(ab.0),
            None => 0,
        }),
        upstream is Some ==> r.behind == (match ahead_behind {
            Some(ab) => reported_count(ab.1),
            None => 0,
        }),
{
    let name = match name {
        Some(n) => n,
        None => String::from_str(""),
    };
    let mut full_name = String::from_str("refs/heads/");
    full_name.append(name.as_str());
    let (ahead, behind) = match (&upstream, ahead_behind) {
        (Some(_), Some(ab)) => (count_i32(ab.0), count_i32(ab.1)),
        _ => (0, 0),
    };
    Branch { name, full_name, is_head, is_remote: false, upstream, ahead, behind }
}

/// The summary of an opened repository. HEAD reads as the commit id when
/// detached, and as the branch's short name otherwise.
pub fn repo_summary(
    path: String,
    branches: Vec<Branch>,
    is_bare: bool,
    is_detached: bool,
    head_target: Option<String>,
    head_shorthand: Option<String>,
    state: StoreState,
) -> (r: RepoSummary)
    ensures
        r.path == path,
        r.branches == branches,
        r.is_bare == is_bare,
        r.is_detached == is_detached,
        r.head == if is_detached {
            head_target
        } else {
            head_shorthand
        },
        r.state == repo_state_of(state),
{
    let head = if is_detached {
        head_target
    } else {
        head_shorthand
    };
    RepoSummary { path, branches, head, is_bare, is_detached, state: map_repo_state(state) }
}

} // verus!
