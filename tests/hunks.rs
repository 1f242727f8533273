use gitfrisky::diff::{hunks_from_events, untracked_file_diff, DiffEvent};
use gitfrisky::error::GitError;
use gitfrisky::patch::{hunk_patch, stage_hunk_patch, unstage_hunk_patch};
use gitfrisky::types::{DiffHunk, DiffLine, LineType};

fn hunk_start(header: &str, os: u32, ol: u32, ns: u32, nl: u32) -> DiffEvent {
    DiffEvent::Hunk {
        header: header.to_string(),
        old_start: os,
        old_lines: ol,
        new_start: ns,
        new_lines: nl,
    }
}

fn line(origin: char, content: &str) -> DiffEvent {
    DiffEvent::Line { origin, content: content.to_string() }
}

fn dl(t: LineType, content: &str, old: Option<u32>, new: Option<u32>) -> DiffLine {
    DiffLine { content: content.to_string(), line_type: t, old_lineno: old, new_lineno: new }
}

fn sample_hunk() -> DiffHunk {
    DiffHunk {
        header: "@@ -2,3 +2,3 @@ fn main".to_string(),
        old_start: 2,
        old_lines: 3,
        new_start: 2,
        new_lines: 3,
        lines: vec![
            dl(LineType::Context, "a", Some(2), Some(2)),
            dl(LineType::Deletion, "b", Some(3), None),
            dl(LineType::Addition, "B", None, Some(3)),
            dl(LineType::Context, "c", Some(4), Some(4)),
        ],
    }
}

#[test]
fn events_build_numbered_hunks() {
    let events = vec![
        line(' ', "before any hunk\n"),
        hunk_start("@@ -1,2 +1,2 @@\n", 1, 2, 1, 2),
        line(' ', "one\n"),
        line('-', "two\n"),
        line('+', "TWO\n"),
        line('F', "diff --git a/x b/x\n"),
        hunk_start("  @@ -10,1 +10,2 @@  ", 10, 1, 10, 2),
        line('=', "ten"),
        line('>', "eleven\n\n"),
    ];
    let hunks = hunks_from_events(&events);
    assert_eq!(hunks.len(), 2);
    let h0 = &hunks[0];
    assert_eq!(h0.header, "@@ -1,2 +1,2 @@");
    assert_eq!((h0.old_start, h0.old_lines, h0.new_start, h0.new_lines), (1, 2, 1, 2));
    assert_eq!(h0.lines.len(), 3);
    assert_eq!(h0.lines[0].content, "one");
    assert_eq!(h0.lines[0].line_type, LineType::Context);
    assert_eq!((h0.lines[0].old_lineno, h0.lines[0].new_lineno), (Some(1), Some(1)));
    assert_eq!(h0.lines[1].line_type, LineType::Deletion);
    assert_eq!((h0.lines[1].old_lineno, h0.lines[1].new_lineno), (Some(2), None));
    assert_eq!(h0.lines[2].content, "TWO");
    assert_eq!(h0.lines[2].line_type, LineType::Addition);
    assert_eq!((h0.lines[2].old_lineno, h0.lines[2].new_lineno), (None, Some(2)));
    let h1 = &hunks[1];
    assert_eq!(h1.header, "@@ -10,1 +10,2 @@");
    assert_eq!(h1.lines.len(), 2);
    assert_eq!(h1.lines[0].content, "ten");
    assert_eq!((h1.lines[0].old_lineno, h1.lines[0].new_lineno), (Some(10), Some(10)));
    assert_eq!(h1.lines[1].content, "eleven\n");
    assert_eq!(h1.lines[1].line_type, LineType::Addition);
    assert_eq!((h1.lines[1].old_lineno, h1.lines[1].new_lineno), (None, Some(11)));
}

#[test]
fn no_events_no_hunks() {
    assert!(hunks_from_events(&vec![]).is_empty());
    assert!(hunks_from_events(&vec![line('+', "x\n")]).is_empty());
}

#[test]
fn extracted_hunk_counts_match_header() {
    let events = vec![
        hunk_start("@@ -3,2 +3,3 @@", 3, 2, 3, 3),
        line(' ', "x\n"),
        line('+', "y\n"),
        line(' ', "z\n"),
    ];
    let hunks = hunks_from_events(&events);
    let h = &hunks[0];
    let new = h.lines.iter().filter(|l| l.line_type != LineType::Deletion).count();
    let old = h.lines.iter().filter(|l| l.line_type != LineType::Addition).count();
    assert_eq!(new as u32, h.new_lines);
    assert_eq!(old as u32, h.old_lines);
    assert!(stage_hunk_patch("f.txt", h).is_ok());
}

#[test]
fn untracked_file_is_one_addition_hunk() {
    let hunks = untracked_file_diff("alpha\nbeta\r\ngamma");
    assert_eq!(hunks.len(), 1);
    let h = &hunks[0];
    assert_eq!(h.header, "@@ -0,0 +1,3 @@");
    assert_eq!((h.old_start, h.old_lines, h.new_start, h.new_lines), (0, 0, 1, 3));
    let contents: Vec<&str> = h.lines.iter().map(|l| l.content.as_str()).collect();
    assert_eq!(contents, vec!["alpha", "beta", "gamma"]);
    for (i, l) in h.lines.iter().enumerate() {
        assert_eq!(l.line_type, LineType::Addition);
        assert_eq!(l.old_lineno, None);
        assert_eq!(l.new_lineno, Some(i as u32 + 1));
    }
}

#[test]
fn untracked_file_trailing_newline_and_blank_lines() {
    let h = &untracked_file_diff("a\n\nb\n")[0];
    assert_eq!(h.new_lines, 3);
    let contents: Vec<&str> = h.lines.iter().map(|l| l.content.as_str()).collect();
    assert_eq!(contents, vec!["a", "", "b"]);
    assert_eq!(h.lines[2].new_lineno, Some(3));
}

#[test]
fn untracked_empty_file() {
    let hunks = untracked_file_diff("");
    assert_eq!(hunks.len(), 1);
    assert_eq!(hunks[0].header, "@@ -0,0 +1,0 @@");
    assert_eq!(hunks[0].new_lines, 0);
    assert!(hunks[0].lines.is_empty());
}

#[test]
fn untracked_file_with_many_lines_counts_in_decimal() {
    let text = "x\n".repeat(1234);
    let h = &untracked_file_diff(&text)[0];
    assert_eq!(h.header, "@@ -0,0 +1,1234 @@");
    assert_eq!(h.lines[1233].new_lineno, Some(1234));
}

#[test]
fn forward_patch_text() {
    let p = stage_hunk_patch("src/a.rs", &sample_hunk()).unwrap();
    assert_eq!(
        p,
        "diff --git a/src/a.rs b/src/a.rs\n--- a/src/a.rs\n+++ b/src/a.rs\n@@ -2,3 +2,3 @@\n a\n-b\n+B\n c\n"
    );
}

#[test]
fn inverted_patch_text() {
    let mut h = sample_hunk();
    h.new_start = 5;
    h.old_start = 17;
    let p = unstage_hunk_patch("a.txt", &h).unwrap();
    assert_eq!(
        p,
        "diff --git a/a.txt b/a.txt\n--- a/a.txt\n+++ b/a.txt\n@@ -5,3 +17,3 @@\n a\n+b\n-B\n c\n"
    );
    assert_eq!(hunk_patch("a.txt", &h, true).unwrap(), p);
}

#[test]
fn patch_keeps_a_stored_newline() {
    let h = DiffHunk {
        header: String::new(),
        old_start: 0,
        old_lines: 0,
        new_start: 1,
        new_lines: 1,
        lines: vec![dl(LineType::Addition, "x\n", None, Some(1))],
    };
    let p = stage_hunk_patch("f", &h).unwrap();
    assert!(p.ends_with("@@ -0,0 +1,1 @@\n+x\n"));
}

#[test]
fn inconsistent_hunk_is_refused() {
    let mut h = sample_hunk();
    h.new_lines = 4;
    assert!(matches!(stage_hunk_patch("a", &h), Err(GitError::InconsistentHunk)));
    assert!(matches!(unstage_hunk_patch("a", &h), Err(GitError::InconsistentHunk)));
    let mut h = sample_hunk();
    h.old_lines = 2;
    assert!(matches!(stage_hunk_patch("a", &h), Err(GitError::InconsistentHunk)));
}

#[test]
fn untracked_hunk_patch_adds_every_line() {
    let h = &untracked_file_diff("one\ntwo\n")[0];
    let p = stage_hunk_patch("n.txt", h).unwrap();
    assert_eq!(
        p,
        "diff --git a/n.txt b/n.txt\n--- a/n.txt\n+++ b/n.txt\n@@ -0,0 +1,2 @@\n+one\n+two\n"
    );
}

#[test]
fn header_whitespace_is_trimmed_both_ends() {
    let events = vec![hunk_start("\u{3000} @@ -1 +1 @@ fn x()\t\r\n", 1, 1, 1, 1), line('+', "y")];
    let hunks = hunks_from_events(&events);
    assert_eq!(hunks[0].header, "@@ -1 +1 @@ fn x()");
    assert_eq!(hunks[0].header, "\u{3000} @@ -1 +1 @@ fn x()\t\r\n".trim());
    let blank = hunks_from_events(&vec![hunk_start(" \n", 0, 0, 0, 0)]);
    assert_eq!(blank[0].header, "");
}

#[test]
fn untracked_lines_split_like_str_lines() {
    for text in ["", "\n", "a", "a\n", "a\r\nb\r", "\r\n\r\n", "x\ny\n\nz", "tail\r"] {
        let h = &untracked_file_diff(text)[0];
        let got: Vec<&str> = h.lines.iter().map(|l| l.content.as_str()).collect();
        let want: Vec<&str> = text.lines().collect();
        assert_eq!(got, want, "for {:?}", text);
        assert_eq!(h.new_lines as usize, want.len());
    }
}
