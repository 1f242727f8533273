//! The status aggregator: sorts each changed path into the staged and
//! unstaged buckets from the store's status flags.
use vstd::prelude::*;
use crate::types::{FileChange, FileStatus, StatusPayload};

verus! {

/// The status flags of one path, as the store reports them.
#[derive(Clone, Copy, Debug, PartialEq, Eq, Structural)]
pub struct StatusFlags {
    pub index_new: bool,
    pub index_modified: bool,
    pub index_deleted: bool,
    pub index_renamed: bool,
    pub wt_new: bool,
    pub wt_modified: bool,
    pub wt_deleted: bool,
    pub wt_renamed: bool,
    pub conflicted: bool,
}

/// One path with a non-clean status.
#[derive(Clone, Debug)]
pub struct StatusEntry {
    pub path: String,
    pub flags: StatusFlags,
}

pub struct EntryView {
    pub path: Seq<char>,
    pub flags: StatusFlags,
}

impl View for StatusEntry {
    type V = EntryView;

    open spec fn view(&self) -> EntryView {
        EntryView { path: self.path@, flags: self.flags }
    }
}

pub open spec fn entry_views(es: Seq<StatusEntry>) -> Seq<EntryView> {
    es.map_values(|e: StatusEntry| e@)
}

pub struct ChangeView {
    pub path: Seq<char>,
    pub status: FileStatus,
    pub old_path: Option<Seq<char>>,
    pub additions: u32,
    pub deletions: u32,
}

impl View for FileChange {
    type V = ChangeView;

    open spec fn view(&self) -> ChangeView {
        ChangeView {
            path: self.path@,
            status: self.status,
            old_path: match self.old_path {
                Some(p) => Some(p@),
                None => None,
            },
            additions: self.additions,
            deletions: self.deletions,
        }
    }
}

pub open spec fn change_views(cs: Seq<FileChange>) -> Seq<ChangeView> {
    cs.map_values(|c: FileChange| c@)
}

/// A change as this aggregator reports it: no rename source, no counts.
pub open spec fn change(path: Seq<char>, status: FileStatus) -> ChangeView {
    ChangeView { path, status, old_path: None, additions: 0, deletions: 0 }
}

/// The staged class of a path: the first index-level flag that is set.
pub open spec fn staged_class(f: StatusFlags) -> Option<FileStatus> {
    if f.index_new {
        Some(FileStatus::A)
    } else if f.index_modified {
        Some(FileStatus::M)
    } else if f.index_deleted {
        Some(FileStatus::D)
    } else if f.index_renamed {
        Some(FileStatus::R)
    } else {
        None
    }
}

/// The unstaged class of a path: the first working-tree flag that is set.
pub open spec fn unstaged_class(f: StatusFlags) -> Option<FileStatus> {
    if f.wt_new {
        Some(FileStatus::U)
    } else if f.wt_modified {
        Some(FileStatus::M)
    } else if f.wt_deleted {
        Some(FileStatus::D)
    } else if f.wt_renamed {
        Some(FileStatus::R)
    } else {
        None
    }
}

pub open spec fn entry_staged(e: EntryView) -> Seq<ChangeView> {
    match staged_class(e.flags) {
        Some(s) => seq![change(e.path, s)],
        None => Seq::empty(),
    }
}

/// A conflicted path is added as conflicted after its working-tree class.
pub open spec fn entry_unstaged(e: EntryView) -> Seq<ChangeView> {
    (match unstaged_class(e.flags) {
        Some(s) => seq![change(e.path, s)],
        None => Seq::empty(),
    }) + if e.flags.conflicted {
        seq![change(e.path, FileStatus::C)]
    } else {
        Seq::empty()
    }
}

pub open spec fn staged_of(es: Seq<EntryView>) -> Seq<ChangeView>
    decreases es.len(),
{
    if es.len() == 0 {
        Seq::empty()
    } else {
        staged_of(es.drop_last()) + entry_staged(es.last())
    }
}

pub open spec fn unstaged_of(es: Seq<EntryView>) -> Seq<ChangeView>
    decreases es.len(),
{
    if es.len() == 0 {
        Seq::empty()
    } else {
        unstaged_of(es.drop_last()) + entry_unstaged(es.last())
    }
}

fn new_change(path: &String, status: FileStatus) -> (r: FileChange)
    ensures
        r@ == change(path@, status),
{
    FileChange { path: path.clone(), status, old_path: None, additions: 0, deletions: 0 }
}

/// Sorts the entries, in order, into the staged bucket (by index-level
/// flags) and the unstaged bucket (by working-tree flags, then conflict).
pub fn status(entries: &Vec<StatusEntry>) -> (r: StatusPayload)
    ensures
        change_views(r.staged@) == staged_of(entry_views(entries@)),
        change_views(r.unstaged@) == unstaged_of(entry_views(entries@)),
{
    let ghost es = entry_views(entries@);
    let mut staged: Vec<FileChange> = Vec::new();
    let mut unstaged: Vec<FileChange> = Vec::new();
    let mut i: usize = 0;
    while i < entries.len()
        invariant
            i <= entries@.len(),
            es == entry_views(entries@),
            change_views(staged@) == staged_of(es.take(i as int)),
            change_views(unstaged@) == unstaged_of(es.take(i as int)),
        decreases entries@.len() - i,
    {
        proof {
            assert(es.take(i + 1).drop_last() =~= es.take(i as int));
            assert(es.take(i + 1).last() == entries@[i as int]@);
        }
        let e = &entries[i];
        let f = e.flags;
        let ghost s0 = staged@;
        let ghost u0 = unstaged@;
        if f.index_new {
            staged.push(new_change(&e.path, FileStatus::A));
        } else if f.index_modified {
            staged.push(new_change(&e.path, FileStatus::M));
        } else if f.index_deleted {
            staged.push(new_change(&e.path, FileStatus::D));
        } else if f.index_renamed {
            staged.push(new_change(&e.path, FileStatus::R));
        }
        proof {
            assert(change_views(staged@) =~= change_views(s0) + entry_staged(e@));
        }
        if f.wt_new {
            unstaged.push(new_change(&e.path, FileStatus::U));
        } else if f.wt_modified {
            unstaged.push(new_change(&e.path, FileStatus::M));
        } else if f.wt_deleted {
            unstaged.push(new_change(&e.path, FileStatus::D));
        } else if f.wt_renamed {
            unstaged.push(new_change(&e.path, FileStatus::R));
        }
        if f.conflicted {
            unstaged.push(new_change(&e.path, FileStatus::C));
        }
        proof {
            assert(change_views(unstaged@) =~= change_views(u0) + entry_unstaged(e@));
        }
        i = i + 1;
    }
    proof {
        assert(es.take(i as int) =~= es);
    }
    StatusPayload { unstaged, staged }
}

/// A path with both an index-level and a working-tree modification (and no
/// flag that ranks before them) is listed as modified in both buckets.
pub proof fn lemma_partially_staged_in_both(es: Seq<EntryView>, i: int)
    requires
        0 <= i < es.len(),
        es[i].flags.index_modified && !es[i].flags.index_new,
        es[i].flags.wt_modified && !es[i].flags.wt_new,
    ensures
        staged_of(es).contains(change(es[i].path, FileStatus::M)),
        unstaged_of(es).contains(change(es[i].path, FileStatus::M)),
    decreases es.len(),
{
    let c = change(es[i].path, FileStatus::M);
    if i == es.len() - 1 {
        let a = staged_of(es.drop_last());
        let b = unstaged_of(es.drop_last());
        assert(staged_of(es)[a.len() as int] == c);
        assert(unstaged_of(es)[b.len() as int] == c);
    } else {
        lemma_partially_staged_in_both(es.drop_last(), i);
        let a = staged_of(es.drop_last());
        let b = unstaged_of(es.drop_last());
        let j = choose|j: int| 0 <= j < a.len() && a[j] == c;
        let k = choose|k: int| 0 <= k < b.len() && b[k] == c;
        assert(staged_of(es)[j] == c);
        assert(unstaged_of(es)[k] == c);
    }
}

} // verus!
