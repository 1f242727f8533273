//! The commit-graph reader's records: which tips a walk starts from, how
//! many commits it keeps, and how each visited commit is reported.
use vstd::prelude::*;
use crate::types::Commit;

verus! {

/// How many commits a log returns when the caller names no limit.
pub const DEFAULT_LOG_LIMIT: usize = 500;

/// What the store holds of one visited commit.
#[derive(Clone, Debug)]
pub struct RawCommit {
    pub oid: String,
    pub author: Option<String>,
    pub email: Option<String>,
    pub timestamp: i64,
    pub summary: Option<String>,
    pub message: Option<String>,
    pub parents: Vec<String>,
}

pub struct RawView {
    pub oid: Seq<char>,
    pub author: Option<Seq<char>>,
    pub email: Option<Seq<char>>,
    pub timestamp: i64,
    pub summary: Option<Seq<char>>,
    pub message: Option<Seq<char>>,
    pub parents: Seq<Seq<char>>,
}

pub open spec fn opt_view(o: Option<String>) -> Option<Seq<char>> {
    match o {
        Some(s) => Some(s@),
        None => None,
    }
}

pub open spec fn strings_view(v: Seq<String>) -> Seq<Seq<char>> {
    v.map_values(|s: String| s@)
}

impl View for RawCommit {
    type V = RawView;

    open spec fn view(&self) -> RawView {
        RawView {
            oid: self.oid@,
            author: opt_view(self.author),
            email: opt_view(self.email),
            timestamp: self.timestamp,
            summary: opt_view(self.summary),
            message: opt_view(self.message),
            parents: strings_view(self.parents@),
        }
    }
}

pub struct CommitView {
    pub oid: Seq<char>,
    pub author: Seq<char>,
    pub email: Seq<char>,
    pub timestamp: i64,
    pub summary: Seq<char>,
    pub message: Option<Seq<char>>,
    pub parents: Seq<Seq<char>>,
    pub refs: Seq<Seq<char>>,
    pub lane: Option<u32>,
}

impl View for Commit {
    type V = CommitView;

    open spec fn view(&self) -> CommitView {
        CommitView {
            oid: self.oid@,
            author: self.author@,
            email: self.email@,
            timestamp: self.timestamp,
            summary: self.summary@,
            message: opt_view(self.message),
            parents: strings_view(self.parents@),
            refs: strings_view(self.refs@),
            lane: self.lane,
        }
    }
}

pub open spec fn raw_views(v: Seq<RawCommit>) -> Seq<RawView> {
    v.map_values(|c: RawCommit| c@)
}

pub open spec fn commit_views(v: Seq<Commit>) -> Seq<CommitView> {
    v.map_values(|c: Commit| c@)
}

pub open spec fn or_default(o: Option<Seq<char>>, d: Seq<char>) -> Seq<char> {
    match o {
        Some(s) => s,
        None => d,
    }
}

/// How a visited commit is reported in a log: a missing author name reads
/// "Unknown", a missing email or summary is empty, and names and lanes are
/// left to the presentation layer.
pub open spec fn log_entry(c: RawView) -> CommitView {
    CommitView {
        oid: c.oid,
        author: or_default(c.author, "Unknown"@),
        email: or_default(c.email, ""@),
        timestamp: c.timestamp,
        summary: or_default(c.summary, ""@),
        message: c.message,
        parents: c.parents,
        refs: Seq::empty(),
        lane: None,
    }
}

/// How a commit just made is reported: without its full message, and with
/// empty text for a missing author name, email or summary.
pub open spec fn new_commit_entry(c: RawView) -> CommitView {
    CommitView {
        oid: c.oid,
        author: or_default(c.author, ""@),
        email: or_default(c.email, ""@),
        timestamp: c.timestamp,
        summary: or_default(c.summary, ""@),
        message: None,
        parents: c.parents,
        refs: Seq::empty(),
        lane: None,
    }
}

/// The limit in force: the caller's, or the default.
pub open spec fn limit_of(limit: Option<usize>) -> nat {
    match limit {
        Some(n) => n as nat,
        None => DEFAULT_LOG_LIMIT as nat,
    }
}

/// The tips present, in order.
pub open spec fn present<T>(tips: Seq<Option<T>>) -> Seq<T>
    decreases tips.len(),
{
    if tips.len() == 0 {
        Seq::empty()
    } else {
        present(tips.drop_last()) + match tips.last() {
            Some(t) => seq![t],
            None => Seq::empty(),
        }
    }
}

/// The roots of a log walk: every local and then every remote branch tip;
/// only where there is none, the commit HEAD points at, if any.
pub open spec fn roots_of<T>(local: Seq<Option<T>>, remote: Seq<Option<T>>, head: Option<T>) -> Seq<T> {
    let tips = present(local) + present(remote);
    if tips.len() > 0 {
        tips
    } else {
        match head {
            Some(h) => seq![h],
            None => Seq::empty(),
        }
    }
}

fn text_or(o: &Option<String>, d: &str) -> (r: String)
    ensures
        r@ == or_default(opt_view(*o), d@),
{
    match o {
        Some(s) => s.clone(),
        None => String::from_str(d),
    }
}

fn copy_option(o: &Option<String>) -> (r: Option<String>)
    ensures
        opt_view(r) == opt_view(*o),
{
    match o {
        Some(s) => Some(s.clone()),
        None => None,
    }
}

fn copy_strings(v: &Vec<String>) -> (r: Vec<String>)
    ensures
        strings_view(r@) == strings_view(v@),
{
    let mut r: Vec<String> = Vec::new();
    let mut i: usize = 0;
    while i < v.len()
        invariant
            i <= v@.len(),
            strings_view(r@) == strings_view(v@).take(i as int),
        decreases v@.len() - i,
    {
        let ghost before = r@;
        r.push(v[i].clone());
        proof {
            assert(strings_view(r@) =~= strings_view(before).push(v@[i as int]@));
            assert(strings_view(r@) =~= strings_view(v@).take(i + 1));
        }
        i = i + 1;
    }
    proof {
        assert(strings_view(v@).take(i as int) =~= strings_view(v@));
    }
    r
}

fn push_present<T: Copy>(out: &mut Vec<T>, tips: &Vec<Option<T>>)
    ensures
        final(out)@ == old(out)@ + present(tips@),
{
    let mut i: usize = 0;
    proof {
        assert(tips@.take(0) =~= Seq::<Option<T>>::empty());
        assert(out@ =~= old(out)@ + present(tips@.take(0)));
    }
    while i < tips.len()
        invariant
            i <= tips@.len(),
            out@ == old(out)@ + present(tips@.take(i as int)),
        decreases tips@.len() - i,
    {
        proof {
            assert(tips@.take(i + 1).drop_last() =~= tips@.take(i as int));
        }
        match tips[i] {
            Some(t) => {
                out.push(t);
            },
            None => {},
        }
        proof {
            assert(out@ =~= old(out)@ + present(tips@.take(i + 1)));
        }
        i = i + 1;
    }
    proof {
        assert(tips@.take(i as int) =~= tips@);
    }
}

/// The tips a log walk starts from: all local branch tips, then all
/// remote ones; where no branch has a tip, HEAD's commit; where there is
/// none either, nothing, and the log is empty.
pub fn walk_roots<T: Copy>(local: &Vec<Option<T>>, remote: &Vec<Option<T>>, head: Option<T>) -> (r: Vec<T>)
    ensures
        r@ == roots_of(local@, remote@, head),
{
    let mut r: Vec<T> = Vec::new();
    push_present(&mut r, local);
    push_present(&mut r, remote);
    if r.len() == 0 {
        match head {
            Some(h) => {
                r.push(h);
                proof {
                    assert(r@ =~= seq![h]);
                }
            },
            None => {},
        }
    }
    r
}

/// The number of commits a log may return.
pub fn log_limit(limit: Option<usize>) -> (r: usize)
    ensures
        r == limit_of(limit),
{
    match limit {
        Some(n) => n,
        None => DEFAULT_LOG_LIMIT,
    }
}

/// The report of one visited commit.
pub fn log_entry_of(c: &RawCommit) -> (r: Commit)
    ensures
        r@ == log_entry(c@),
{
    let r = Commit {
        oid: c.oid.clone(),
        author: text_or(&c.author, "Unknown"),
        email: text_or(&c.email, ""),
        timestamp: c.timestamp,
        summary: text_or(&c.summary, ""),
        message: copy_option(&c.message),
        parents: copy_strings(&c.parents),
        refs: Vec::new(),
        lane: None,
    };
    proof {
        assert(strings_view(r.refs@) =~= Seq::<Seq<char>>::empty());
    }
    r
}

/// The report of a commit just created.
pub fn new_commit_entry_of(c: &RawCommit) -> (r: Commit)
    ensures
        r@ == new_commit_entry(c@),
{
    let r = Commit {
        oid: c.oid.clone(),
        author: text_or(&c.author, ""),
        email: text_or(&c.email, ""),
        timestamp: c.timestamp,
        summary: text_or(&c.summary, ""),
        message: None,
        parents: copy_strings(&c.parents),
        refs: Vec::new(),
        lane: None,
    };
    proof {
        assert(strings_view(r.refs@) =~= Seq::<Seq<char>>::empty());
    }
    r
}

/// The log: the first commits of the walk, as many as the limit allows,
/// in the walk's order, each reported as `log_entry` says.
pub fn log(walk: &Vec<RawCommit>, limit: Option<usize>) -> (r: Vec<Commit>)
    ensures
        r@.len() == if walk@.len() < limit_of(limit) {
            walk@.len()
        } else {
            limit_of(limit)
        },
        forall|i: int| 0 <= i < r@.len() ==> #[trigger] r@[i]@ == log_entry(walk@[i]@),
{
    let n = log_limit(limit);
    let mut r: Vec<Commit> = Vec::new();
    let mut i: usize = 0;
    while i < walk.len() && i < n
        invariant
            i <= walk@.len(),
            i <= n,
            n == limit_of(limit),
            r@.len() == i,
            forall|k: int| 0 <= k < i ==> #[trigger] r@[k]@ == log_entry(walk@[k]@),
        decreases walk@.len() - i,
    {
        r.push(log_entry_of(&walk[i]));
        i = i + 1;
    }
    r
}

} // verus!
