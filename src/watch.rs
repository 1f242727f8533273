//! Classification of file-system change notifications into the hints a
//! client uses to re-query status, HEAD or references.
use vstd::prelude::*;
use crate::text::{chars_of, contains_chars, starts_with_chars, contains_seq, has_prefix};

verus! {

/// What a change notification invalidates.
#[derive(Clone, Copy, Debug, PartialEq, Eq, Structural)]
pub enum WatchEventKind {
    /// Working tree or index changes.
    Status,
    /// HEAD moved (a checkout).
    Head,
    /// Branches or tags changed.
    Refs,
}

/// The notification sent to the client.
#[derive(Clone, Copy, Debug, PartialEq, Eq, Structural)]
pub struct WatchEvent {
    pub kind: WatchEventKind,
}

/// The kind of a file-system event.
#[derive(Clone, Copy, Debug, PartialEq, Eq, Structural)]
pub enum FsEventKind {
    Any,
    Access,
    Create,
    Modify,
    Remove,
    Other,
}

/// What a change at repository-relative path `p` invalidates, if anything.
pub open spec fn path_class(kind: FsEventKind, p: Seq<char>) -> Option<WatchEventKind> {
    if contains_seq(p, ".git/HEAD"@) {
        Some(WatchEventKind::Head)
    } else if has_prefix(p, ".git/refs/"@) {
        Some(WatchEventKind::Refs)
    } else if contains_seq(p, ".git/index"@) {
        Some(WatchEventKind::Status)
    } else if !has_prefix(p, ".git/objects/"@) && !has_prefix(p, ".git/logs/"@) && (
    kind == FsEventKind::Create || kind == FsEventKind::Modify || kind == FsEventKind::Remove) {
        Some(WatchEventKind::Status)
    } else {
        None
    }
}

/// The class of an event: that of its first path that has one. A path
/// outside the repository, or one that is not text (`None`), ends the
/// search with no class.
pub open spec fn event_class(kind: FsEventKind, paths: Seq<Option<Seq<char>>>) -> Option<
    WatchEventKind,
>
    decreases paths.len(),
{
    if paths.len() == 0 {
        None
    } else {
        match paths[0] {
            None => None,
            Some(p) => match path_class(kind, p) {
                Some(k) => Some(k),
                None => event_class(kind, paths.skip(1)),
            },
        }
    }
}

pub open spec fn path_views(paths: Seq<Option<String>>) -> Seq<Option<Seq<char>>> {
    paths.map_values(
        |o: Option<String>|
            match o {
                Some(s) => Some(s@),
                None => None,
            },
    )
}

fn classify_path(kind: FsEventKind, path: &String) -> (r: Option<WatchEventKind>)
    ensures
        r == path_class(kind, path@),
{
    let p = chars_of(path.as_str());
    if contains_chars(&p, &chars_of(".git/HEAD")) {
        Some(WatchEventKind::Head)
    } else if starts_with_chars(&p, &chars_of(".git/refs/")) {
        Some(WatchEventKind::Refs)
    } else if contains_chars(&p, &chars_of(".git/index")) {
        Some(WatchEventKind::Status)
    } else if !starts_with_chars(&p, &chars_of(".git/objects/")) && !starts_with_chars(
        &p,
        &chars_of(".git/logs/"),
    ) && (kind == FsEventKind::Create || kind == FsEventKind::Modify || kind
        == FsEventKind::Remove) {
        Some(WatchEventKind::Status)
    } else {
        None
    }
}

/// Classifies an event from its kind and its paths relative to the
/// repository root (`None` for a path outside it or not valid text).
pub fn classify_event(kind: FsEventKind, paths: &Vec<Option<String>>) -> (r: Option<
    WatchEventKind,
>)
    ensures
        r == event_class(kind, path_views(paths@)),
{
    let ghost ps = path_views(paths@);
    let mut i: usize = 0;
    proof {
        assert(ps.skip(0) =~= ps);
    }
    while i < paths.len()
        invariant
            i <= paths@.len(),
            ps == path_views(paths@),
            event_class(kind, ps) == event_class(kind, ps.skip(i as int)),
        decreases paths@.len() - i,
    {
        proof {
            assert(ps.skip(i as int)[0] == ps[i as int]);
            assert(ps.skip(i as int).skip(1) =~= ps.skip(i + 1));
        }
        match &paths[i] {
            None => {
                return None;
            },
            Some(p) => {
                let c = classify_path(kind, p);
                if c.is_some() {
                    return c;
                }
            },
        }
        i = i + 1;
    }
    None
}

} // verus!
