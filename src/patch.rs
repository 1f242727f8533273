//! The patch synthesizer: a single hunk written back as a one-file unified
//! diff, forward for staging or inverted for unstaging, and the meaning of
//! such a patch on the lines of its target.
use vstd::prelude::*;
use crate::types::{
    DiffHunk, DiffLine, LineType, HunkView, LineView, line_views, count_new, count_old,
    hunk_consistent,
};
use crate::error::GitError;
use crate::text::{push_decimal, decimal_of};
use crate::diff::{added_lines, untracked_hunk, text_lines};

verus! {

/// An addition becomes a deletion and back; context stays context.
pub open spec fn inverted_type(t: LineType) -> LineType {
    match t {
        LineType::Addition => LineType::Deletion,
        LineType::Deletion => LineType::Addition,
        LineType::Context => LineType::Context,
    }
}

/// The line with its roles swapped.
pub open spec fn inverted_line(l: LineView) -> LineView {
    LineView {
        content: l.content,
        line_type: inverted_type(l.line_type),
        old_lineno: l.new_lineno,
        new_lineno: l.old_lineno,
    }
}

/// The hunk that undoes `h`: old and new positions, counts and line roles swapped.
pub open spec fn inverted(h: HunkView) -> HunkView {
    HunkView {
        header: h.header,
        old_start: h.new_start,
        old_lines: h.new_lines,
        new_start: h.old_start,
        new_lines: h.old_lines,
        lines: h.lines.map_values(|l: LineView| inverted_line(l)),
    }
}

pub open spec fn prefix_text(t: LineType) -> Seq<char> {
    match t {
        LineType::Addition => "+"@,
        LineType::Deletion => "-"@,
        LineType::Context => " "@,
    }
}

/// One patch line: its prefix, its text, and a newline unless the text ends in one.
pub open spec fn line_text(l: LineView) -> Seq<char> {
    prefix_text(l.line_type) + l.content + if l.content.len() > 0 && l.content.last() == '\n' {
        Seq::empty()
    } else {
        "\n"@
    }
}

pub open spec fn body_text(ls: Seq<LineView>) -> Seq<char>
    decreases ls.len(),
{
    if ls.len() == 0 {
        Seq::empty()
    } else {
        body_text(ls.drop_last()) + line_text(ls.last())
    }
}

/// `@@ -old_start,old_lines +new_start,new_lines @@`, from the hunk's numbers.
pub open spec fn header_text(h: HunkView) -> Seq<char> {
    "@@ -"@ + decimal_of(h.old_start as nat) + ","@ + decimal_of(h.old_lines as nat) + " +"@
        + decimal_of(h.new_start as nat) + ","@ + decimal_of(h.new_lines as nat) + " @@"@
}

/// The one-file unified diff that carries hunk `h` for the file at `path`.
pub open spec fn patch_text(path: Seq<char>, h: HunkView) -> Seq<char> {
    "diff --git a/"@ + path + " b/"@ + path + "\n"@ + "--- a/"@ + path + "\n"@ + "+++ b/"@
        + path + "\n"@ + header_text(h) + "\n"@ + body_text(h.lines)
}

fn prefix_for(t: LineType, invert: bool) -> (r: &'static str)
    ensures
        r@ == prefix_text(
            if invert {
                inverted_type(t)
            } else {
                t
            },
        ),
{
    match t {
        LineType::Addition => if invert {
            "-"
        } else {
            "+"
        },
        LineType::Deletion => if invert {
            "+"
        } else {
            "-"
        },
        LineType::Context => " ",
    }
}

/// Whether the lines agree with the hunk's header counts.
fn counts_agree(hunk: &DiffHunk) -> (r: bool)
    ensures
        r == hunk_consistent(hunk@),
{
    let ghost ls = line_views(hunk.lines@);
    let mut n_new: usize = 0;
    let mut n_old: usize = 0;
    let mut k: usize = 0;
    while k < hunk.lines.len()
        invariant
            k <= hunk.lines@.len(),
            ls == line_views(hunk.lines@),
            n_new == count_new(ls.take(k as int)),
            n_old == count_old(ls.take(k as int)),
            n_new <= k && n_old <= k,
        decreases hunk.lines@.len() - k,
    {
        proof {
            assert(ls.take(k + 1).drop_last() =~= ls.take(k as int));
        }
        let t = hunk.lines[k].line_type;
        if t != LineType::Deletion {
            n_new = n_new + 1;
        }
        if t != LineType::Addition {
            n_old = n_old + 1;
        }
        k = k + 1;
    }
    proof {
        assert(ls.take(k as int) =~= ls);
    }
    n_new == hunk.new_lines as usize && n_old == hunk.old_lines as usize
}

fn append_line(s: &mut String, line: &DiffLine, invert: bool)
    ensures
        final(s)@ == old(s)@ + line_text(if invert { inverted_line(line@) } else { line@ }),
{
    proof {
        reveal_strlit("\n");
    }
    s.append(prefix_for(line.line_type, invert));
    s.append(line.content.as_str());
    let n = line.content.as_str().unicode_len();
    if n > 0 && line.content.as_str().get_char(n - 1) == '\n' {
        proof {
            assert(final(s)@ =~= old(s)@ + line_text(if invert { inverted_line(line@) } else { line@ }));
        }
    } else {
        s.append("\n");
        proof {
            assert(s@ =~= old(s)@ + line_text(if invert { inverted_line(line@) } else { line@ }));
        }
    }
}

/// The patch for one hunk of the file at `file_path`; with `invert`, the
/// patch that undoes it. The header is written from the hunk's numbers.
/// A hunk whose lines contradict its header counts is refused.
pub fn hunk_patch(file_path: &str, hunk: &DiffHunk, invert: bool) -> (r: Result<String, GitError>)
    ensures
        r is Ok <==> hunk_consistent(hunk@),
        r matches Ok(t) ==> t@ == patch_text(
            file_path@,
            if invert {
                inverted(hunk@)
            } else {
                hunk@
            },
        ),
        r matches Err(e) ==> e == GitError::InconsistentHunk,
{
    if !counts_agree(hunk) {
        return Err(GitError::InconsistentHunk);
    }
    let ghost target = if invert {
        inverted(hunk@)
    } else {
        hunk@
    };
    let mut s = String::from_str("diff --git a/");
    s.append(file_path);
    s.append(" b/");
    s.append(file_path);
    s.append("\n");
    s.append("--- a/");
    s.append(file_path);
    s.append("\n");
    s.append("+++ b/");
    s.append(file_path);
    s.append("\n");
    let (a_start, a_lines, b_start, b_lines) = if invert {
        (hunk.new_start, hunk.new_lines, hunk.old_start, hunk.old_lines)
    } else {
        (hunk.old_start, hunk.old_lines, hunk.new_start, hunk.new_lines)
    };
    s.append("@@ -");
    push_decimal(&mut s, a_start);
    s.append(",");
    push_decimal(&mut s, a_lines);
    s.append(" +");
    push_decimal(&mut s, b_start);
    s.append(",");
    push_decimal(&mut s, b_lines);
    s.append(" @@");
    s.append("\n");
    let ghost head = s@;
    proof {
        assert(head =~= "diff --git a/"@ + file_path@ + " b/"@ + file_path@ + "\n"@ + "--- a/"@ + file_path@ + "\n"@ + "+++ b/"@
            + file_path@ + "\n"@ + header_text(target) + "\n"@);
        assert(target.lines.take(0) =~= Seq::<LineView>::empty());
    }
    let mut k: usize = 0;
    while k < hunk.lines.len()
        invariant
            k <= hunk.lines@.len(),
            target == (if invert { inverted(hunk@) } else { hunk@ }),
            target.lines.len() == hunk.lines@.len(),
            s@ == head + body_text(target.lines.take(k as int)),
        decreases hunk.lines@.len() - k,
    {
        proof {
            assert(target.lines.take(k + 1).drop_last() =~= target.lines.take(k as int));
            assert(target.lines[k as int] == (if invert { inverted_line(hunk.lines@[k as int]@) } else { hunk.lines@[k as int]@ }));
        }
        append_line(&mut s, &hunk.lines[k], invert);
        proof {
            assert(s@ =~= head + body_text(target.lines.take(k + 1)));
        }
        k = k + 1;
    }
    proof {
        assert(target.lines.take(k as int) =~= target.lines);
        assert(s@ =~= patch_text(file_path@, target));
    }
    Ok(s)
}

/// The patch that stages `hunk` of the file at `file_path`.
pub fn stage_hunk_patch(file_path: &str, hunk: &DiffHunk) -> (r: Result<String, GitError>)
    ensures
        r is Ok <==> hunk_consistent(hunk@),
        r matches Ok(t) ==> t@ == patch_text(file_path@, hunk@),
        r matches Err(e) ==> e == GitError::InconsistentHunk,
{
    hunk_patch(file_path, hunk, false)
}

/// The patch that unstages `hunk` of the file at `file_path`: the patch of
/// the inverted hunk.
pub fn unstage_hunk_patch(file_path: &str, hunk: &DiffHunk) -> (r: Result<String, GitError>)
    ensures
        r is Ok <==> hunk_consistent(hunk@),
        r matches Ok(t) ==> t@ == patch_text(file_path@, inverted(hunk@)),
        r matches Err(e) ==> e == GitError::InconsistentHunk,
{
    hunk_patch(file_path, hunk, true)
}

/// The text of the old side of the lines: context and deletions, in order.
pub open spec fn old_side(ls: Seq<LineView>) -> Seq<Seq<char>>
    decreases ls.len(),
{
    if ls.len() == 0 {
        Seq::empty()
    } else if ls.last().line_type == LineType::Addition {
        old_side(ls.drop_last())
    } else {
        old_side(ls.drop_last()).push(ls.last().content)
    }
}

/// The text of the new side of the lines: context and additions, in order.
pub open spec fn new_side(ls: Seq<LineView>) -> Seq<Seq<char>>
    decreases ls.len(),
{
    if ls.len() == 0 {
        Seq::empty()
    } else if ls.last().line_type == LineType::Deletion {
        new_side(ls.drop_last())
    } else {
        new_side(ls.drop_last()).push(ls.last().content)
    }
}

/// Where, counted from 0, a side with `count` lines starting at line `start`
/// begins: a side of no lines names the line after which it stands.
pub open spec fn side_pos(start: u32, count: u32) -> int {
    if count == 0 {
        start as int
    } else {
        start - 1
    }
}

/// What a one-hunk patch does to the lines of its target, placed at the
/// position its header gives: where the old side stands there, it is
/// replaced by the new side; otherwise the patch does not apply.
pub open spec fn apply_hunk(file: Seq<Seq<char>>, h: HunkView) -> Option<Seq<Seq<char>>> {
    let p = side_pos(h.old_start, h.old_lines);
    let e = p + h.old_lines;
    if 0 <= p && e <= file.len() && file.subrange(p, e) == old_side(h.lines) {
        Some(file.subrange(0, p) + new_side(h.lines) + file.subrange(e, file.len() as int))
    } else {
        None
    }
}

proof fn lemma_side_lengths(ls: Seq<LineView>)
    ensures
        old_side(ls).len() == count_old(ls),
        new_side(ls).len() == count_new(ls),
    decreases ls.len(),
{
    if ls.len() > 0 {
        lemma_side_lengths(ls.drop_last());
    }
}

proof fn lemma_inverted_sides(ls: Seq<LineView>)
    ensures
        old_side(ls.map_values(|l: LineView| inverted_line(l))) == new_side(ls),
        new_side(ls.map_values(|l: LineView| inverted_line(l))) == old_side(ls),
        count_old(ls.map_values(|l: LineView| inverted_line(l))) == count_new(ls),
        count_new(ls.map_values(|l: LineView| inverted_line(l))) == count_old(ls),
    decreases ls.len(),
{
    if ls.len() > 0 {
        let inv = ls.map_values(|l: LineView| inverted_line(l));
        assert(inv.drop_last() =~= ls.drop_last().map_values(|l: LineView| inverted_line(l)));
        lemma_inverted_sides(ls.drop_last());
    }
}

/// Inverting a hunk keeps its lines in agreement with its header.
pub proof fn lemma_inverted_consistent(h: HunkView)
    requires
        hunk_consistent(h),
    ensures
        hunk_consistent(inverted(h)),
{
    lemma_inverted_sides(h.lines);
}

/// Inverting a hunk twice gives the hunk back.
pub proof fn lemma_inverted_twice(h: HunkView)
    ensures
        inverted(inverted(h)) == h,
{
    assert(inverted(inverted(h)).lines =~= h.lines);
}

/// A hunk whose lines agree with its header applies to any target whose
/// lines at the hunk's position are its old side, and leaves there its new
/// side; its patch is then written without refusal.
pub proof fn lemma_consistent_hunk_applies(file: Seq<Seq<char>>, h: HunkView)
    requires
        hunk_consistent(h),
        0 <= side_pos(h.old_start, h.old_lines),
        side_pos(h.old_start, h.old_lines) + h.old_lines <= file.len(),
        file.subrange(
            side_pos(h.old_start, h.old_lines),
            side_pos(h.old_start, h.old_lines) + h.old_lines,
        ) == old_side(h.lines),
    ensures
        apply_hunk(file, h) == Some(
            file.subrange(0, side_pos(h.old_start, h.old_lines)) + new_side(h.lines)
                + file.subrange(side_pos(h.old_start, h.old_lines) + h.old_lines, file.len() as int),
        ),
{
}

/// Staging a hunk and then unstaging it gives back the target's lines: the
/// inverted hunk applies to what the hunk left and restores what was there,
/// provided the hunk's old and new sides start at the same place.
pub proof fn lemma_unstage_undoes_stage(file: Seq<Seq<char>>, h: HunkView)
    requires
        hunk_consistent(h),
        side_pos(h.old_start, h.old_lines) == side_pos(h.new_start, h.new_lines),
        apply_hunk(file, h) is Some,
    ensures
        apply_hunk(apply_hunk(file, h)->0, inverted(h)) == Some(file),
{
    let p = side_pos(h.old_start, h.old_lines);
    let e = p + h.old_lines;
    let staged = apply_hunk(file, h)->0;
    let inv = inverted(h);
    lemma_side_lengths(h.lines);
    lemma_inverted_sides(h.lines);
    let mid = new_side(h.lines);
    assert(staged == file.subrange(0, p) + mid + file.subrange(e, file.len() as int));
    assert(side_pos(inv.old_start, inv.old_lines) == p);
    assert(staged.subrange(p, p + h.new_lines) =~= mid);
    assert(staged.subrange(0, p) =~= file.subrange(0, p));
    assert(staged.subrange(p + h.new_lines, staged.len() as int) =~= file.subrange(e, file.len() as int));
    assert(file.subrange(0, p) + old_side(h.lines) + file.subrange(e, file.len() as int) =~= file);
}

proof fn lemma_added_sides(ls: Seq<Seq<char>>)
    ensures
        count_new(added_lines(ls)) == ls.len(),
        count_old(added_lines(ls)) == 0,
        new_side(added_lines(ls)) == ls,
        old_side(added_lines(ls)) == Seq::<Seq<char>>::empty(),
    decreases ls.len(),
{
    if ls.len() > 0 {
        assert(added_lines(ls).drop_last() =~= added_lines(ls.drop_last()));
        lemma_added_sides(ls.drop_last());
        assert(ls.drop_last().push(ls.last()) =~= ls);
    } else {
        assert(added_lines(ls) =~= Seq::<LineView>::empty());
    }
}

/// The hunk of an untracked file agrees with its header and, applied to
/// an empty target, yields exactly the file's lines.
pub proof fn lemma_untracked_hunk_applies(content: Seq<char>)
    requires
        text_lines(content).len() <= u32::MAX,
    ensures
        hunk_consistent(untracked_hunk(content)),
        apply_hunk(Seq::empty(), untracked_hunk(content)) == Some(text_lines(content)),
{
    let ls = text_lines(content);
    lemma_added_sides(ls);
    let e = Seq::<Seq<char>>::empty();
    assert(e.subrange(0, 0) =~= old_side(added_lines(ls)));
    assert(e.subrange(0, 0) + ls + e.subrange(0, 0) =~= ls);
}

} // verus!
