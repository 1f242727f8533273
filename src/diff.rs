//! The diff extractor's fold: turns the hunk-start and line events reported
//! by the diff primitive into hunks, and builds the all-additions hunk of an
//! untracked file.
use vstd::prelude::*;
use crate::types::{
    DiffHunk, DiffLine, LineType, HunkView, LineView, line_views, hunk_views, hunk_consistent,
    count_new, count_old,
};
use crate::patch::lemma_untracked_hunk_applies;
use crate::text::{chars_of, string_of_range, push_decimal, decimal_of};

verus! {

/// One event of a diff traversal.
#[derive(Clone, Debug)]
pub enum DiffEvent {
    /// A new hunk starts; `header` is its raw `@@ ... @@` text.
    Hunk { header: String, old_start: u32, old_lines: u32, new_start: u32, new_lines: u32 },
    /// A line of the current hunk, with the primitive's origin marker.
    Line { origin: char, content: String },
}

pub enum EventView {
    Hunk { header: Seq<char>, old_start: u32, old_lines: u32, new_start: u32, new_lines: u32 },
    Line { origin: char, content: Seq<char> },
}

impl View for DiffEvent {
    type V = EventView;

    open spec fn view(&self) -> EventView {
        match self {
            DiffEvent::Hunk { header, old_start, old_lines, new_start, new_lines } => EventView::Hunk {
                header: header@,
                old_start: *old_start,
                old_lines: *old_lines,
                new_start: *new_start,
                new_lines: *new_lines,
            },
            DiffEvent::Line { origin, content } => EventView::Line {
                origin: *origin,
                content: content@,
            },
        }
    }
}

pub open spec fn event_views(es: Seq<DiffEvent>) -> Seq<EventView> {
    es.map_values(|e: DiffEvent| e@)
}

/// A whitespace character: one with the Unicode `White_Space` property.
pub open spec fn is_space(c: char) -> bool {
    let v = c as u32;
    (0x9 <= v <= 0xD) || v == 0x20 || v == 0x85 || v == 0xA0 || v == 0x1680 || (0x2000 <= v
        <= 0x200A) || v == 0x2028 || v == 0x2029 || v == 0x202F || v == 0x205F || v == 0x3000
}

/// The text without its leading whitespace.
pub open spec fn trim_start(s: Seq<char>) -> Seq<char>
    decreases s.len(),
{
    if s.len() > 0 && is_space(s[0]) {
        trim_start(s.skip(1))
    } else {
        s
    }
}

/// The text without its trailing whitespace.
pub open spec fn trim_end(s: Seq<char>) -> Seq<char>
    decreases s.len(),
{
    if s.len() > 0 && is_space(s.last()) {
        trim_end(s.drop_last())
    } else {
        s
    }
}

/// The text without leading and trailing whitespace.
pub open spec fn trimmed(s: Seq<char>) -> Seq<char> {
    trim_end(trim_start(s))
}

fn space(c: char) -> (r: bool)
    ensures
        r == is_space(c),
{
    let v = c as u32;
    (0x9 <= v && v <= 0xD) || v == 0x20 || v == 0x85 || v == 0xA0 || v == 0x1680 || (0x2000 <= v
        && v <= 0x200A) || v == 0x2028 || v == 0x2029 || v == 0x202F || v == 0x205F || v == 0x3000
}

fn trim_text(s: &str) -> (r: String)
    ensures
        r@ == trimmed(s@),
{
    let cs = chars_of(s);
    let n = cs.len();
    let mut from: usize = 0;
    proof {
        assert(cs@.skip(0) =~= cs@);
    }
    while from < n && space(cs[from])
        invariant
            n == cs@.len(),
            from <= n,
            trim_start(cs@) == trim_start(cs@.skip(from as int)),
        decreases n - from,
    {
        proof {
            assert(cs@.skip(from as int).skip(1) =~= cs@.skip(from + 1));
        }
        from = from + 1;
    }
    let ghost rest = cs@.skip(from as int);
    proof {
        assert(trim_start(cs@) == rest);
        assert(rest =~= cs@.subrange(from as int, n as int));
    }
    let mut to: usize = n;
    while to > from && space(cs[to - 1])
        invariant
            n == cs@.len(),
            from <= to <= n,
            rest == cs@.subrange(from as int, n as int),
            trim_end(rest) == trim_end(cs@.subrange(from as int, to as int)),
        decreases to - from,
    {
        proof {
            assert(cs@.subrange(from as int, to as int).drop_last() =~= cs@.subrange(from as int, to - 1));
        }
        to = to - 1;
    }
    string_of_range(&cs, from, to)
}

/// The line kind that an origin marker stands for; other markers (file
/// headers, end-of-file notes) stand for no line.
pub open spec fn line_kind(origin: char) -> Option<LineType> {
    if origin == '+' || origin == '>' {
        Some(LineType::Addition)
    } else if origin == '-' || origin == '<' {
        Some(LineType::Deletion)
    } else if origin == ' ' || origin == '=' {
        Some(LineType::Context)
    } else {
        None
    }
}

/// The text without one trailing newline.
pub open spec fn strip_newline(c: Seq<char>) -> Seq<char> {
    if c.len() > 0 && c.last() == '\n' {
        c.drop_last()
    } else {
        c
    }
}

/// The next line number (line numbers stop at the largest `u32`).
pub open spec fn next_lineno(n: u32) -> u32 {
    if n < u32::MAX {
        (n + 1) as u32
    } else {
        n
    }
}

/// The state of the fold after some events.
pub struct FoldState {
    pub done: Seq<HunkView>,
    pub current: Option<HunkView>,
    pub old_no: u32,
    pub new_no: u32,
}

pub open spec fn flushed(st: FoldState) -> Seq<HunkView> {
    match st.current {
        Some(h) => st.done.push(h),
        None => st.done,
    }
}

/// One event applied to the fold state.
pub open spec fn step(st: FoldState, e: EventView) -> FoldState {
    match e {
        EventView::Hunk { header, old_start, old_lines, new_start, new_lines } => FoldState {
            done: flushed(st),
            current: Some(
                HunkView {
                    header: trimmed(header),
                    old_start,
                    old_lines,
                    new_start,
                    new_lines,
                    lines: Seq::empty(),
                },
            ),
            old_no: old_start,
            new_no: new_start,
        },
        EventView::Line { origin, content } => match st.current {
            None => st,
            Some(h) => match line_kind(origin) {
                None => st,
                Some(t) => {
                    let l = LineView {
                        content: strip_newline(content),
                        line_type: t,
                        old_lineno: if t == LineType::Addition {
                            None
                        } else {
                            Some(st.old_no)
                        },
                        new_lineno: if t == LineType::Deletion {
                            None
                        } else {
                            Some(st.new_no)
                        },
                    };
                    FoldState {
                        done: st.done,
                        current: Some(HunkView { lines: h.lines.push(l), ..h }),
                        old_no: if t == LineType::Addition {
                            st.old_no
                        } else {
                            next_lineno(st.old_no)
                        },
                        new_no: if t == LineType::Deletion {
                            st.new_no
                        } else {
                            next_lineno(st.new_no)
                        },
                    }
                },
            },
        },
    }
}

pub open spec fn fold_events(es: Seq<EventView>) -> FoldState
    decreases es.len(),
{
    if es.len() == 0 {
        FoldState { done: Seq::empty(), current: None, old_no: 0, new_no: 0 }
    } else {
        step(fold_events(es.drop_last()), es.last())
    }
}

/// The hunks that a sequence of diff events describes.
pub open spec fn hunks_of_events(es: Seq<EventView>) -> Seq<HunkView> {
    flushed(fold_events(es))
}

fn strip_trailing_newline(content: &String) -> (r: String)
    ensures
        r@ == strip_newline(content@),
{
    let cs = chars_of(content.as_str());
    let n = cs.len();
    if n > 0 && cs[n - 1] == '\n' {
        string_of_range(&cs, 0, n - 1)
    } else {
        string_of_range(&cs, 0, n)
    }
}

/// Builds the hunks described by a diff traversal: each hunk-start event
/// closes the hunk before it and opens a new one with the header's numbers
/// taken as they are; each line event is numbered from running counters
/// and added to the open hunk.
pub fn hunks_from_events(events: &Vec<DiffEvent>) -> (r: Vec<DiffHunk>)
    ensures
        hunk_views(r@) == hunks_of_events(event_views(events@)),
        forall|i: int| 0 <= i < r@.len() ==> #[trigger] numbered(r@[i]@),
{
    let ghost evs = event_views(events@);
    let mut done: Vec<DiffHunk> = Vec::new();
    let mut open = false;
    let mut cur_header = String::new();
    let mut cur_os: u32 = 0;
    let mut cur_ol: u32 = 0;
    let mut cur_ns: u32 = 0;
    let mut cur_nl: u32 = 0;
    let mut cur_lines: Vec<DiffLine> = Vec::new();
    let mut old_no: u32 = 0;
    let mut new_no: u32 = 0;
    let mut i: usize = 0;
    proof {
        assert(evs.take(0) =~= Seq::<EventView>::empty());
    }
    while i < events.len()
        invariant
            i <= events@.len(),
            evs == event_views(events@),
            ({
                let st = fold_events(evs.take(i as int));
                &&& hunk_views(done@) == st.done
                &&& st.old_no == old_no
                &&& st.new_no == new_no
                &&& st.current == (if open {
                    Some(
                        HunkView {
                            header: cur_header@,
                            old_start: cur_os,
                            old_lines: cur_ol,
                            new_start: cur_ns,
                            new_lines: cur_nl,
                            lines: line_views(cur_lines@),
                        },
                    )
                } else {
                    None
                })
            }),
        decreases events@.len() - i,
    {
        proof {
            assert(evs.take(i + 1).drop_last() =~= evs.take(i as int));
            assert(evs.take(i + 1).last() == events@[i as int]@);
        }
        match &events[i] {
            DiffEvent::Hunk { header, old_start, old_lines, new_start, new_lines } => {
                if open {
                    let h = DiffHunk {
                        header: cur_header,
                        old_start: cur_os,
                        old_lines: cur_ol,
                        new_start: cur_ns,
                        new_lines: cur_nl,
                        lines: cur_lines,
                    };
                    done.push(h);
                }
                cur_header = trim_text(header.as_str());
                cur_os = *old_start;
                cur_ol = *old_lines;
                cur_ns = *new_start;
                cur_nl = *new_lines;
                cur_lines = Vec::new();
                open = true;
                old_no = *old_start;
                new_no = *new_start;
                proof {
                    assert(hunk_views(done@) =~= fold_events(evs.take(i + 1)).done);
                    assert(line_views(cur_lines@) =~= Seq::<LineView>::empty());
                }
            },
            DiffEvent::Line { origin, content } => {
                if open {
                    let c = *origin;
                    let kind: Option<LineType> = if c == '+' || c == '>' {
                        Some(LineType::Addition)
                    } else if c == '-' || c == '<' {
                        Some(LineType::Deletion)
                    } else if c == ' ' || c == '=' {
                        Some(LineType::Context)
                    } else {
                        None
                    };
                    if let Some(t) = kind {
                        let text = strip_trailing_newline(content);
                        let on = if t == LineType::Addition {
                            None
                        } else {
                            Some(old_no)
                        };
                        let nn = if t == LineType::Deletion {
                            None
                        } else {
                            Some(new_no)
                        };
                        let ghost before = cur_lines@;
                        cur_lines.push(DiffLine { content: text, line_type: t, old_lineno: on, new_lineno: nn });
                        if t != LineType::Addition && old_no < u32::MAX {
                            old_no = old_no + 1;
                        }
                        if t != LineType::Deletion && new_no < u32::MAX {
                            new_no = new_no + 1;
                        }
                        proof {
                            assert(line_views(cur_lines@) =~= line_views(before).push(cur_lines@.last()@));
                        }
                    }
                }
            },
        }
        i = i + 1;
    }
    if open {
        let h = DiffHunk {
            header: cur_header,
            old_start: cur_os,
            old_lines: cur_ol,
            new_start: cur_ns,
            new_lines: cur_nl,
            lines: cur_lines,
        };
        done.push(h);
    }
    proof {
        assert(evs.take(i as int) =~= evs);
        assert(hunk_views(done@) =~= hunks_of_events(evs));
        lemma_extracted_lines_numbered(evs);
        assert forall|i: int| 0 <= i < done@.len() implies #[trigger] numbered(done@[i]@) by {
            assert(done@[i]@ == hunk_views(done@)[i]);
        }
    }
    done
}

/// `n`, or the largest `u32` where `n` is past it.
pub open spec fn capped(n: int) -> u32 {
    if n <= u32::MAX {
        n as u32
    } else {
        u32::MAX
    }
}

/// Line `k` of `h` carries the numbers that follow from the header: on each
/// side it is numbered from the side's start plus the lines of that side
/// before it, and it has no number on a side it does not belong to.
pub open spec fn line_numbered(h: HunkView, k: int) -> bool {
    let l = h.lines[k];
    &&& l.old_lineno == if l.line_type == LineType::Addition {
        None
    } else {
        Some(capped(h.old_start + count_old(h.lines.take(k))))
    }
    &&& l.new_lineno == if l.line_type == LineType::Deletion {
        None
    } else {
        Some(capped(h.new_start + count_new(h.lines.take(k))))
    }
}

pub open spec fn numbered(h: HunkView) -> bool {
    forall|k: int| 0 <= k < h.lines.len() ==> #[trigger] line_numbered(h, k)
}

pub open spec fn fold_numbered(st: FoldState) -> bool {
    &&& forall|i: int| 0 <= i < st.done.len() ==> #[trigger] numbered(st.done[i])
    &&& match st.current {
        None => true,
        Some(h) => {
            &&& numbered(h)
            &&& st.old_no == capped(h.old_start + count_old(h.lines))
            &&& st.new_no == capped(h.new_start + count_new(h.lines))
        },
    }
}

proof fn lemma_step_numbered(st: FoldState, e: EventView)
    requires
        fold_numbered(st),
    ensures
        fold_numbered(step(st, e)),
{
    let st2 = step(st, e);
    match e {
        EventView::Hunk { header, old_start, old_lines, new_start, new_lines } => {
            assert forall|i: int| 0 <= i < st2.done.len() implies #[trigger] numbered(st2.done[i]) by {
                if i < st.done.len() {
                    assert(st2.done[i] == st.done[i]);
                }
            }
        },
        EventView::Line { origin, content } => {
            match st.current {
                None => {},
                Some(h) => match line_kind(origin) {
                    None => {},
                    Some(t) => {
                        let h2 = st2.current->0;
                        let n = h.lines.len() as int;
                        assert(h2.lines.drop_last() =~= h.lines);
                        assert(h2.lines.take(n) =~= h.lines);
                        assert forall|k: int| 0 <= k < h2.lines.len() implies #[trigger] line_numbered(h2, k) by {
                            if k < n {
                                assert(h2.lines.take(k) =~= h.lines.take(k));
                                assert(line_numbered(h, k));
                            }
                        }
                    },
                },
            }
        },
    }
}

proof fn lemma_fold_numbered(es: Seq<EventView>)
    ensures
        fold_numbered(fold_events(es)),
    decreases es.len(),
{
    if es.len() > 0 {
        lemma_fold_numbered(es.drop_last());
        lemma_step_numbered(fold_events(es.drop_last()), es.last());
    }
}

/// Every line of every hunk built from diff events is numbered from its
/// hunk's header: consecutively on each side it belongs to, and not at all
/// on the other.
pub proof fn lemma_extracted_lines_numbered(es: Seq<EventView>)
    ensures
        forall|i: int|
            0 <= i < hunks_of_events(es).len() ==> #[trigger] numbered(hunks_of_events(es)[i]),
{
    lemma_fold_numbered(es);
    let st = fold_events(es);
    let hs = hunks_of_events(es);
    assert forall|i: int| 0 <= i < hs.len() implies #[trigger] numbered(hs[i]) by {
        if i < st.done.len() {
            assert(hs[i] == st.done[i]);
        }
    }
}

/// The line without one trailing carriage return.
pub open spec fn strip_cr(l: Seq<char>) -> Seq<char> {
    if l.len() > 0 && l.last() == '\r' {
        l.drop_last()
    } else {
        l
    }
}

/// Lines closed so far and the line being read.
pub struct LinesState {
    pub lines: Seq<Seq<char>>,
    pub cur: Seq<char>,
}

pub open spec fn lines_fold(s: Seq<char>) -> LinesState
    decreases s.len(),
{
    if s.len() == 0 {
        LinesState { lines: Seq::empty(), cur: Seq::empty() }
    } else {
        let st = lines_fold(s.drop_last());
        if s.last() == '\n' {
            LinesState { lines: st.lines.push(strip_cr(st.cur)), cur: Seq::empty() }
        } else {
            LinesState { lines: st.lines, cur: st.cur.push(s.last()) }
        }
    }
}

/// The lines of a text: split at each `\n` (a `\r` before it is dropped);
/// the last line needs no terminator, and a text ending in `\n` has no
/// empty line after it.
pub open spec fn text_lines(s: Seq<char>) -> Seq<Seq<char>> {
    let st = lines_fold(s);
    if st.cur.len() > 0 {
        st.lines.push(st.cur)
    } else {
        st.lines
    }
}

proof fn lemma_lines_fold_grows(s: Seq<char>, i: int)
    requires
        0 <= i <= s.len(),
    ensures
        lines_fold(s.take(i)).lines.len() <= text_lines(s).len(),
    decreases s.len(),
{
    if i < s.len() {
        assert(s.take(i) =~= s.drop_last().take(i));
        lemma_lines_fold_grows(s.drop_last(), i);
    } else {
        assert(s.take(i) =~= s);
    }
}

/// The `k`-th line of an all-additions hunk.
pub open spec fn added_line(content: Seq<char>, k: int) -> LineView {
    LineView {
        content,
        line_type: LineType::Addition,
        old_lineno: None,
        new_lineno: Some((k + 1) as u32),
    }
}

pub open spec fn added_lines(ls: Seq<Seq<char>>) -> Seq<LineView> {
    Seq::new(ls.len(), |k: int| added_line(ls[k], k))
}

/// The hunk that shows a whole untracked file as additions.
pub open spec fn untracked_hunk(content: Seq<char>) -> HunkView {
    let ls = text_lines(content);
    HunkView {
        header: "@@ -0,0 +1,"@ + decimal_of(ls.len()) + " @@"@,
        old_start: 0,
        old_lines: 0,
        new_start: 1,
        new_lines: ls.len() as u32,
        lines: added_lines(ls),
    }
}

/// The diff of a file that the index does not hold: one hunk, from line 0
/// of nothing to every line of `content`, each line an addition numbered
/// from 1.
pub fn untracked_file_diff(content: &str) -> (r: Vec<DiffHunk>)
    requires
        text_lines(content@).len() <= u32::MAX,
    ensures
        hunk_views(r@) == seq![untracked_hunk(content@)],
        r@.len() == 1,
        hunk_consistent(r@[0]@),
        r@[0].new_lines == text_lines(content@).len(),
        r@[0].old_lines == 0 && r@[0].old_start == 0 && r@[0].new_start == 1,
        r@[0].lines@.len() == text_lines(content@).len(),
        forall|k: int|
            0 <= k < r@[0].lines@.len() ==> {
                &&& (#[trigger] r@[0].lines@[k]).line_type == LineType::Addition
                &&& r@[0].lines@[k].content@ == text_lines(content@)[k]
                &&& r@[0].lines@[k].old_lineno.is_none()
                &&& r@[0].lines@[k].new_lineno == Some((k + 1) as u32)
            },
{
    let cs = chars_of(content);
    let mut lines: Vec<DiffLine> = Vec::new();
    let mut start: usize = 0;
    let mut i: usize = 0;
    let ghost mut closed: Seq<Seq<char>> = Seq::empty();
    proof {
        assert(cs@.take(0) =~= Seq::<char>::empty());
    }
    while i < cs.len()
        invariant
            cs@ == content@,
            text_lines(cs@).len() <= u32::MAX,
            start <= i <= cs@.len(),
            lines_fold(cs@.take(i as int)).lines == closed,
            lines_fold(cs@.take(i as int)).cur == cs@.subrange(start as int, i as int),
            closed.len() <= start,
            lines@.len() == closed.len(),
            line_views(lines@) == added_lines(closed),
        decreases cs@.len() - i,
    {
        proof {
            assert(cs@.take(i + 1).drop_last() =~= cs@.take(i as int));
            assert(cs@.take(i + 1).last() == cs@[i as int]);
        }
        if cs[i] == '\n' {
            let end = if i > start && cs[i - 1] == '\r' {
                i - 1
            } else {
                i
            };
            proof {
                lemma_lines_fold_grows(cs@, i + 1);
            }
            let text = string_of_range(&cs, start, end);
            let n = lines.len() as u32;
            let ghost before = lines@;
            let ghost old_closed = closed;
            lines.push(DiffLine { content: text, line_type: LineType::Addition, old_lineno: None, new_lineno: Some(n + 1) });
            proof {
                let cur = cs@.subrange(start as int, i as int);
                assert(strip_cr(cur) =~= cs@.subrange(start as int, end as int));
                closed = closed.push(strip_cr(cur));
                assert(line_views(lines@) =~= line_views(before).push(lines@.last()@));
                assert(added_lines(closed) =~= added_lines(old_closed).push(added_line(strip_cr(cur), old_closed.len() as int)));
            }
            start = i + 1;
            proof {
                assert(cs@.subrange(start as int, i + 1) =~= Seq::<char>::empty());
            }
        } else {
            proof {
                assert(cs@.subrange(start as int, i + 1) =~= cs@.subrange(start as int, i as int).push(cs@[i as int]));
            }
        }
        i = i + 1;
    }
    proof {
        assert(cs@.take(i as int) =~= cs@);
    }
    if start < cs.len() {
        let text = string_of_range(&cs, start, cs.len());
        let n = lines.len() as u32;
        let ghost before = lines@;
        let ghost old_closed = closed;
        lines.push(DiffLine { content: text, line_type: LineType::Addition, old_lineno: None, new_lineno: Some(n + 1) });
        proof {
            closed = closed.push(cs@.subrange(start as int, i as int));
            assert(line_views(lines@) =~= line_views(before).push(lines@.last()@));
            assert(added_lines(closed) =~= added_lines(old_closed).push(added_line(cs@.subrange(start as int, i as int), old_closed.len() as int)));
        }
    }
    proof {
        assert(closed == text_lines(content@));
        lemma_untracked_hunk_applies(content@);
    }
    let count = lines.len() as u32;
    let mut header = String::from_str("@@ -0,0 +1,");
    push_decimal(&mut header, count);
    header.append(" @@");
    let hunk = DiffHunk {
        header,
        old_start: 0,
        old_lines: 0,
        new_start: 1,
        new_lines: count,
        lines,
    };
    let r = vec![hunk];
    proof {
        assert(hunk_views(r@) =~= seq![untracked_hunk(content@)]);
        assert forall|k: int| 0 <= k < r@[0].lines@.len() implies
            (#[trigger] r@[0].lines@[k]).line_type == LineType::Addition
            && r@[0].lines@[k].content@ == text_lines(content@)[k]
            && r@[0].lines@[k].old_lineno.is_none()
            && r@[0].lines@[k].new_lineno == Some((k + 1) as u32) by {
            assert(line_views(r@[0].lines@)[k] == added_line(closed[k], k));
        }
    }
    r
}

} // verus!
