//! The git2 calls that only compute: reading a patch text into a diff
//! object, and reading the class and text of a git2 error.
use vstd::prelude::*;
use crate::error::{GitError, StoreErrorCode, store_error_of};
use crate::patch::{hunk_patch, patch_text, inverted};
use crate::types::{DiffHunk, hunk_consistent};

verus! {

#[verifier::external_type_specification]
#[verifier::external_body]
pub struct ExStoreError(git2::Error);

#[verifier::external_type_specification]
#[verifier::external_body]
pub struct ExStoreDiff<'a>(git2::Diff<'a>);

/// The classes of git2 errors; a plain enum whose variants Verus reads.
#[verifier::external_type_specification]
pub struct ExStoreErrorCode(git2::ErrorCode);

/// Whether `git2::Diff::from_buffer` accepts a patch with these characters.
pub uninterp spec fn patch_parses(t: Seq<char>) -> bool;

/// Relies on `git2::Diff::from_buffer`: reads a unified-diff text into a
/// diff object, or reports why it cannot; which of the two depends on the
/// text alone.
#[verifier::external_body]
fn parse_patch(text: &String) -> (r: Result<git2::Diff<'static>, git2::Error>)
    ensures
        r is Ok <==> patch_parses(text@),
{
    git2::Diff::from_buffer(text.as_bytes())
}

/// Relies on `git2::Error::code`: the class of the error.
#[verifier::external_body]
fn raw_error_code(e: &git2::Error) -> (r: git2::ErrorCode) {
    e.code()
}

/// The library's name for a git2 error class, variant for variant.
pub fn store_code(c: git2::ErrorCode) -> (r: StoreErrorCode)
    ensures
        c == git2::ErrorCode::GenericError ==> r == StoreErrorCode::GenericError,
        c == git2::ErrorCode::NotFound ==> r == StoreErrorCode::NotFound,
        c == git2::ErrorCode::Exists ==> r == StoreErrorCode::Exists,
        c == git2::ErrorCode::Ambiguous ==> r == StoreErrorCode::Ambiguous,
        c == git2::ErrorCode::BufSize ==> r == StoreErrorCode::BufSize,
        c == git2::ErrorCode::User ==> r == StoreErrorCode::User,
        c == git2::ErrorCode::BareRepo ==> r == StoreErrorCode::BareRepo,
        c == git2::ErrorCode::UnbornBranch ==> r == StoreErrorCode::UnbornBranch,
        c == git2::ErrorCode::Unmerged ==> r == StoreErrorCode::Unmerged,
        c == git2::ErrorCode::NotFastForward ==> r == StoreErrorCode::NotFastForward,
        c == git2::ErrorCode::InvalidSpec ==> r == StoreErrorCode::InvalidSpec,
        c == git2::ErrorCode::Conflict ==> r == StoreErrorCode::Conflict,
        c == git2::ErrorCode::Locked ==> r == StoreErrorCode::Locked,
        c == git2::ErrorCode::Modified ==> r == StoreErrorCode::Modified,
        c == git2::ErrorCode::Auth ==> r == StoreErrorCode::Auth,
        c == git2::ErrorCode::Certificate ==> r == StoreErrorCode::Certificate,
        c == git2::ErrorCode::Applied ==> r == StoreErrorCode::Applied,
        c == git2::ErrorCode::Peel ==> r == StoreErrorCode::Peel,
        c == git2::ErrorCode::Eof ==> r == StoreErrorCode::Eof,
        c == git2::ErrorCode::Invalid ==> r == StoreErrorCode::Invalid,
        c == git2::ErrorCode::Uncommitted ==> r == StoreErrorCode::Uncommitted,
        c == git2::ErrorCode::Directory ==> r == StoreErrorCode::Directory,
        c == git2::ErrorCode::MergeConflict ==> r == StoreErrorCode::MergeConflict,
        c == git2::ErrorCode::HashsumMismatch ==> r == StoreErrorCode::HashsumMismatch,
        c == git2::ErrorCode::IndexDirty ==> r == StoreErrorCode::IndexDirty,
        c == git2::ErrorCode::ApplyFail ==> r == StoreErrorCode::ApplyFail,
        c == git2::ErrorCode::Owner ==> r == StoreErrorCode::Owner,
        c == git2::ErrorCode::Timeout ==> r == StoreErrorCode::Timeout,
{
    match c {
        git2::ErrorCode::GenericError => StoreErrorCode::GenericError,
        git2::ErrorCode::NotFound => StoreErrorCode::NotFound,
        git2::ErrorCode::Exists => StoreErrorCode::Exists,
        git2::ErrorCode::Ambiguous => StoreErrorCode::Ambiguous,
        git2::ErrorCode::BufSize => StoreErrorCode::BufSize,
        git2::ErrorCode::User => StoreErrorCode::User,
        git2::ErrorCode::BareRepo => StoreErrorCode::BareRepo,
        git2::ErrorCode::UnbornBranch => StoreErrorCode::UnbornBranch,
        git2::ErrorCode::Unmerged => StoreErrorCode::Unmerged,
        git2::ErrorCode::NotFastForward => StoreErrorCode::NotFastForward,
        git2::ErrorCode::InvalidSpec => StoreErrorCode::InvalidSpec,
        git2::ErrorCode::Conflict => StoreErrorCode::Conflict,
        git2::ErrorCode::Locked => StoreErrorCode::Locked,
        git2::ErrorCode::Modified => StoreErrorCode::Modified,
        git2::ErrorCode::Auth => StoreErrorCode::Auth,
        git2::ErrorCode::Certificate => StoreErrorCode::Certificate,
        git2::ErrorCode::Applied => StoreErrorCode::Applied,
        git2::ErrorCode::Peel => StoreErrorCode::Peel,
        git2::ErrorCode::Eof => StoreErrorCode::Eof,
        git2::ErrorCode::Invalid => StoreErrorCode::Invalid,
        git2::ErrorCode::Uncommitted => StoreErrorCode::Uncommitted,
        git2::ErrorCode::Directory => StoreErrorCode::Directory,
        git2::ErrorCode::MergeConflict => StoreErrorCode::MergeConflict,
        git2::ErrorCode::HashsumMismatch => StoreErrorCode::HashsumMismatch,
        git2::ErrorCode::IndexDirty => StoreErrorCode::IndexDirty,
        git2::ErrorCode::ApplyFail => StoreErrorCode::ApplyFail,
        git2::ErrorCode::Owner => StoreErrorCode::Owner,
        git2::ErrorCode::Timeout => StoreErrorCode::Timeout,
    }
}

fn error_code(e: &git2::Error) -> (r: StoreErrorCode) {
    store_code(raw_error_code(e))
}

/// Relies on `git2::Error::message`: the error's text.
#[verifier::external_body]
fn error_message(e: &git2::Error) -> (r: String) {
    e.message().to_string()
}

/// The library error for a git2 error: its class and text, as
/// `GitError::from_store` maps them.
pub fn store_error(e: &git2::Error) -> (r: GitError)
    ensures
        exists|c: StoreErrorCode, m: String| r == store_error_of(c, m),
{
    let c = error_code(e);
    let m = error_message(e);
    GitError::from_store(c, m)
}

/// The diff object of the patch for one hunk (inverted with `invert`),
/// ready to be applied. A hunk whose lines contradict its header is refused
/// before any text is read; otherwise the diff object is had exactly when
/// git2 reads the patch text, and any failure is the store's.
pub fn hunk_diff(file_path: &str, hunk: &DiffHunk, invert: bool) -> (r: Result<
    git2::Diff<'static>,
    GitError,
>)
    ensures
        !hunk_consistent(hunk@) ==> r matches Err(GitError::InconsistentHunk),
        hunk_consistent(hunk@) ==> (r is Ok <==> patch_parses(
            patch_text(
                file_path@,
                if invert {
                    inverted(hunk@)
                } else {
                    hunk@
                },
            ),
        )),
        hunk_consistent(hunk@) ==> (r matches Err(e) ==> exists|c: StoreErrorCode, m: String|
            e == store_error_of(c, m)),
{
    match hunk_patch(file_path, hunk, invert) {
        Err(e) => Err(e),
        Ok(text) => match parse_patch(&text) {
            Ok(d) => Ok(d),
            Err(e) => Err(store_error(&e)),
        },
    }
}

/// The diff object that stages one hunk.
pub fn stage_hunk_diff(file_path: &str, hunk: &DiffHunk) -> (r: Result<git2::Diff<'static>, GitError>)
    ensures
        !hunk_consistent(hunk@) ==> r matches Err(GitError::InconsistentHunk),
        hunk_consistent(hunk@) ==> (r is Ok <==> patch_parses(patch_text(file_path@, hunk@))),
        hunk_consistent(hunk@) ==> (r matches Err(e) ==> exists|c: StoreErrorCode, m: String|
            e == store_error_of(c, m)),
{
    hunk_diff(file_path, hunk, false)
}

/// The diff object that unstages one hunk.
pub fn unstage_hunk_diff(file_path: &str, hunk: &DiffHunk) -> (r: Result<git2::Diff<'static>, GitError>)
    ensures
        !hunk_consistent(hunk@) ==> r matches Err(GitError::InconsistentHunk),
        hunk_consistent(hunk@) ==> (r is Ok <==> patch_parses(
            patch_text(file_path@, inverted(hunk@)),
        )),
        hunk_consistent(hunk@) ==> (r matches Err(e) ==> exists|c: StoreErrorCode, m: String|
            e == store_error_of(c, m)),
{
    hunk_diff(file_path, hunk, true)
}

} // verus!
