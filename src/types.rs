use vstd::prelude::*;

verus! {

/// A local branch as shown to the client.
#[derive(Clone, Debug)]
pub struct Branch {
    pub name: String,
    pub full_name: String,
    pub is_head: bool,
    pub is_remote: bool,
    pub upstream: Option<String>,
    pub ahead: i32,
    pub behind: i32,
}

/// One commit of the history.
#[derive(Clone, Debug)]
pub struct Commit {
    pub oid: String,
    pub author: String,
    pub email: String,
    pub timestamp: i64,
    pub summary: String,
    /// Full message; absent where it is not loaded.
    pub message: Option<String>,
    pub parents: Vec<String>,
    /// Branch and tag names pointing at the commit; left empty by this library.
    pub refs: Vec<String>,
    /// Graph lane; assigned by the presentation layer, never here.
    pub lane: Option<u32>,
}

/// One changed path and how it changed.
#[derive(Clone, Debug)]
pub struct FileChange {
    pub path: String,
    pub status: FileStatus,
    /// Rename source; not populated by this library.
    pub old_path: Option<String>,
    /// Line counts; the status primitive does not supply them, so they stay zero.
    pub additions: u32,
    pub deletions: u32,
}

/// Added, Modified, Deleted, Renamed, Untracked, Conflicted.
#[derive(Clone, Copy, Debug, PartialEq, Eq, Structural)]
pub enum FileStatus {
    A,
    M,
    D,
    R,
    U,
    C,
}

/// The two buckets of a status query.
#[derive(Clone, Debug)]
pub struct StatusPayload {
    pub unstaged: Vec<FileChange>,
    pub staged: Vec<FileChange>,
}

/// A contiguous block of a unified diff.
#[derive(Clone, Debug)]
pub struct DiffHunk {
    /// The `@@ ... @@` text, kept for display only.
    pub header: String,
    pub old_start: u32,
    pub old_lines: u32,
    pub new_start: u32,
    pub new_lines: u32,
    pub lines: Vec<DiffLine>,
}

/// One line of a hunk.
#[derive(Clone, Debug)]
pub struct DiffLine {
    pub content: String,
    pub line_type: LineType,
    pub old_lineno: Option<u32>,
    pub new_lineno: Option<u32>,
}

#[derive(Clone, Copy, Debug, PartialEq, Eq, Structural)]
pub enum LineType {
    Context,
    Addition,
    Deletion,
}

/// The mathematical value of a `DiffLine`.
pub struct LineView {
    pub content: Seq<char>,
    pub line_type: LineType,
    pub old_lineno: Option<u32>,
    pub new_lineno: Option<u32>,
}

/// The mathematical value of a `DiffHunk`.
pub struct HunkView {
    pub header: Seq<char>,
    pub old_start: u32,
    pub old_lines: u32,
    pub new_start: u32,
    pub new_lines: u32,
    pub lines: Seq<LineView>,
}

impl View for DiffLine {
    type V = LineView;

    open spec fn view(&self) -> LineView {
        LineView {
            content: self.content@,
            line_type: self.line_type,
            old_lineno: self.old_lineno,
            new_lineno: self.new_lineno,
        }
    }
}

/// The views of a sequence of lines.
pub open spec fn line_views(ls: Seq<DiffLine>) -> Seq<LineView> {
    ls.map_values(|l: DiffLine| l@)
}

impl View for DiffHunk {
    type V = HunkView;

    open spec fn view(&self) -> HunkView {
        HunkView {
            header: self.header@,
            old_start: self.old_start,
            old_lines: self.old_lines,
            new_start: self.new_start,
            new_lines: self.new_lines,
            lines: line_views(self.lines@),
        }
    }
}

/// How many of the lines belong to the new side (additions and context).
pub open spec fn count_new(ls: Seq<LineView>) -> nat
    decreases ls.len(),
{
    if ls.len() == 0 {
        0
    } else {
        count_new(ls.drop_last()) + if ls.last().line_type == LineType::Deletion {
            0nat
        } else {
            1nat
        }
    }
}

/// How many of the lines belong to the old side (deletions and context).
pub open spec fn count_old(ls: Seq<LineView>) -> nat
    decreases ls.len(),
{
    if ls.len() == 0 {
        0
    } else {
        count_old(ls.drop_last()) + if ls.last().line_type == LineType::Addition {
            0nat
        } else {
            1nat
        }
    }
}

/// The hunk's lines agree with the counts of its header.
pub open spec fn hunk_consistent(h: HunkView) -> bool {
    count_new(h.lines) == h.new_lines && count_old(h.lines) == h.old_lines
}

/// The views of a sequence of hunks.
pub open spec fn hunk_views(hs: Seq<DiffHunk>) -> Seq<HunkView> {
    hs.map_values(|h: DiffHunk| h@)
}

/// What the client is shown of an opened repository.
#[derive(Clone, Debug)]
pub struct RepoSummary {
    pub path: String,
    pub branches: Vec<Branch>,
    /// Current branch name, or the commit id when HEAD is detached.
    pub head: Option<String>,
    pub is_bare: bool,
    pub is_detached: bool,
    pub state: RepoState,
}

#[derive(Clone, Copy, Debug, PartialEq, Eq, Structural)]
pub enum RepoState {
    Clean,
    Merge,
    Rebase,
    RebaseInteractive,
    RebaseMerge,
    Revert,
    CherryPick,
    Bisect,
}

#[derive(Clone, Debug)]
pub struct Stash {
    pub index: usize,
    pub message: String,
    pub oid: String,
    pub timestamp: i64,
}

#[derive(Clone, Debug)]
pub struct Tag {
    pub name: String,
    pub full_name: String,
    pub target_oid: String,
    /// Annotated tag message.
    pub message: Option<String>,
    pub tagger: Option<String>,
    pub timestamp: Option<i64>,
}

#[derive(Clone, Debug)]
pub struct Remote {
    pub name: String,
    pub url: String,
    pub fetch_url: Option<String>,
    pub push_url: Option<String>,
}

#[derive(Clone, Debug)]
pub struct ProgressEvent {
    pub phase: ProgressPhase,
    pub current: usize,
    pub total: usize,
    pub message: Option<String>,
}

#[derive(Clone, Copy, Debug, PartialEq, Eq, Structural)]
pub enum ProgressPhase {
    Counting,
    Compressing,
    Receiving,
    Resolving,
    Indexing,
    Checkout,
}

} // verus!
