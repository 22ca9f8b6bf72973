use git_full_commit::git::{FileDiff, FileStatus, Hunk};
use git_full_commit::ui::diff_view::{
    build_line_segments, color_pair, compute_word_diffs, diff_line_numbers, get_scrolled_line,
    line_number_label_exec, number_role_exec, plan_diff_rows, run_text_exec, scroll_segments,
    word_lines_from_changes, ColorRole, DiffRow, WordDiffLine, WordSource,
};

/// Whether `similar` finds the two texts similar enough for word-level
/// highlighting, as the program decides it.
fn similar_enough(old: &str, new: &str) -> bool {
    similar::TextDiff::from_unicode_words(old, new).ratio() >= 0.7
}

fn word_diffs(old: &str, new: &str) -> (Vec<WordDiffLine>, Vec<WordDiffLine>) {
    compute_word_diffs(old, new, similar_enough(old, new))
}

fn pieces(v: &[(&str, bool)]) -> WordDiffLine {
    WordDiffLine(v.iter().map(|(t, c)| (t.to_string(), *c)).collect())
}

#[test]
fn test_compute_word_diffs() {
    let old = "The quick brown fox\njumps over the lazy dog";
    let new = "The slow brown cat\njumps over the lazy dog";
    let (old_diff, new_diff) = word_diffs(old, new);
    assert_eq!(old_diff.len(), 2);
    assert_eq!(new_diff.len(), 2);
    assert_eq!(old_diff[0], pieces(&[("The", false), (" ", false), ("quick", true), (" ", false), ("brown", false), (" ", false), ("fox", true)]));
    assert_eq!(new_diff[0], pieces(&[("The", false), (" ", false), ("slow", true), (" ", false), ("brown", false), (" ", false), ("cat", true)]));
    let expected_line2 = pieces(&[
        ("jumps", false), (" ", false), ("over", false), (" ", false), ("the", false), (" ", false), ("lazy", false), (" ", false), ("dog", false),
    ]);
    assert_eq!(old_diff[1], expected_line2);
    assert_eq!(new_diff[1], expected_line2);
}

#[test]
fn test_compute_word_diffs_empty() {
    let (old_diff, new_diff) = word_diffs("", "a");
    assert_eq!(old_diff.len(), 0);
    assert_eq!(new_diff.len(), 1);
    assert_eq!(new_diff[0], pieces(&[("a", false)]));

    let (old_diff, new_diff) = word_diffs("a", "");
    assert_eq!(old_diff.len(), 1);
    assert_eq!(new_diff.len(), 0);
    assert_eq!(old_diff[0], pieces(&[("a", false)]));
}

#[test]
fn test_compute_word_diffs_low_similarity() {
    let old = "completely different";
    let new = "something else entirely";
    let (old_diff, new_diff) = word_diffs(old, new);
    assert_eq!(old_diff.len(), 1);
    assert_eq!(old_diff[0], pieces(&[("completely different", false)]));
    assert_eq!(new_diff.len(), 1);
    assert_eq!(new_diff[0], pieces(&[("something else entirely", false)]));
}

#[test]
fn word_lines_split_at_newlines_inside_changes() {
    let changes = vec![
        (true, true, "a".to_string()),
        (true, false, "b\nc".to_string()),
        (false, true, "x\n".to_string()),
        (true, true, "\nd".to_string()),
    ];
    let (old, new) = word_lines_from_changes(&changes);
    assert_eq!(old, vec![pieces(&[("a", false), ("b", true)]), pieces(&[("c", true)]), pieces(&[("d", false)])]);
    assert_eq!(new, vec![pieces(&[("a", false), ("x", true)]), WordDiffLine(vec![]), pieces(&[("d", false)])]);
}

#[test]
fn scrolled_line_starts_at_the_first_character_past_the_offset() {
    assert_eq!(get_scrolled_line("hello", 0), "hello");
    assert_eq!(get_scrolled_line("hello", 2), "llo");
    assert_eq!(get_scrolled_line("hello", 5), "");
    assert_eq!(get_scrolled_line("日本語", 1), "本語");
    assert_eq!(get_scrolled_line("日本語", 2), "本語");
    assert_eq!(get_scrolled_line("日本語", 3), "語");
}

fn lines(v: &[&str]) -> Vec<String> {
    v.iter().map(|s| s.to_string()).collect()
}

#[test]
fn rows_pair_removed_and_added_runs() {
    let ls = lines(&["@@ -1,3 +1,3 @@", " a", "-b", "-c", "+B", " d", "-e", " f"]);
    let rows = plan_diff_rows(&ls, 0, 100);
    let plain = |i: usize| DiffRow { index: i, word: None };
    let word = |i: usize, position: usize, is_new: bool| DiffRow {
        index: i,
        word: Some(WordSource { minus_start: 2, plus_start: 4, plus_end: 5, position, is_new }),
    };
    assert_eq!(rows, vec![plain(0), plain(1), word(2, 0, false), word(3, 1, false), word(4, 0, true), plain(5), plain(6), plain(7)]);
    assert_eq!(run_text_exec(&ls, 2, 4), "b\nc");
    assert_eq!(run_text_exec(&ls, 4, 5), "B");
}

#[test]
fn rows_skip_scrolled_lines_and_stop_at_the_height() {
    let ls = lines(&[" a", "-b", "-c", "+B", " d"]);
    let rows = plan_diff_rows(&ls, 2, 2);
    assert_eq!(rows.len(), 2);
    assert_eq!(rows[0].index, 2);
    assert_eq!(rows[0].word.unwrap().position, 1);
    assert_eq!(rows[1].index, 3);
    assert!(rows[1].word.unwrap().is_new);
    assert!(plan_diff_rows(&ls, 0, 0).is_empty());
    assert!(plan_diff_rows(&ls, 9, 10).is_empty());
}

#[test]
fn line_numbers_come_from_the_hunks() {
    let f = FileDiff {
        file_name: "f".to_string(),
        old_file_name: "f".to_string(),
        lines: lines(&["diff --git a/f b/f", "@@ -1 +1 @@", "-x", "+y"]),
        hunks: vec![Hunk { start_line: 1, lines: vec![], old_start: 1, new_start: 1, line_numbers: vec![(0, 0), (1, 0), (0, 1)] }],
        status: FileStatus::Modified,
    };
    assert_eq!(diff_line_numbers(&f), vec![(0, 0), (0, 0), (1, 0), (0, 1)]);
}

#[test]
fn line_number_labels_hide_the_missing_side() {
    assert_eq!(line_number_label_exec(" ctx", 12, 13), "12   13  ");
    assert_eq!(line_number_label_exec("+add", 3, 4), "     4   ");
    assert_eq!(line_number_label_exec("-del", 3, 4), "3        ");
    assert_eq!(line_number_label_exec(" ctx", 0, 12345), "     12345");
    assert_eq!(number_role_exec("+add"), Some(ColorRole::Addition));
    assert_eq!(number_role_exec(" ctx"), Some(ColorRole::Grey));
    assert_eq!(number_role_exec("@@ -1 +1 @@"), Some(ColorRole::Grey));
    assert_eq!(number_role_exec("+++ b/f"), None);
}

#[test]
fn colour_pairs_follow_the_cursor() {
    assert_eq!(color_pair(ColorRole::Default, false, false), 1);
    assert_eq!(color_pair(ColorRole::Grey, false, true), 9);
    assert_eq!(color_pair(ColorRole::Addition, true, true), 7);
    assert_eq!(color_pair(ColorRole::HunkHeader, true, false), 14);
}

#[test]
fn hunk_headers_split_after_the_last_marker() {
    let segs = build_line_segments("@@ -1,2 +1,3 @@ fn main() {", None);
    assert_eq!(segs.len(), 2);
    assert_eq!(segs[0].text, "@@ -1,2 +1,3 @@");
    assert_eq!(segs[0].role, ColorRole::HunkHeader);
    assert_eq!(segs[1].text, " fn main() {");
    assert_eq!(segs[1].role, ColorRole::Addition);
}

#[test]
fn word_pieces_follow_the_mark() {
    let w = pieces(&[("a", false), ("b", true)]);
    let segs = build_line_segments("-ab", Some(&w));
    let texts: Vec<(&str, ColorRole, bool)> = segs.iter().map(|s| (s.text.as_str(), s.role, s.reverse)).collect();
    assert_eq!(texts, vec![("-", ColorRole::Deletion, false), ("a", ColorRole::Deletion, false), ("b", ColorRole::Deletion, true)]);
    let segs = build_line_segments(" plain", None);
    assert_eq!(segs.len(), 1);
    assert_eq!(segs[0].role, ColorRole::Default);
}

#[test]
fn scrolling_consumes_whole_pieces_then_cuts_one() {
    let segs = build_line_segments("-abc", Some(&pieces(&[("abc", false), ("def", true)])));
    let shown = scroll_segments(segs, 3);
    let texts: Vec<&str> = shown.iter().map(|s| s.text.as_str()).collect();
    assert_eq!(texts, vec!["c", "def"]);
    let segs = build_line_segments("-abc", Some(&pieces(&[("abc", false), ("def", true)])));
    let texts: Vec<String> = scroll_segments(segs, 0).into_iter().map(|s| s.text).collect();
    assert_eq!(texts, vec!["-", "abc", "def"]);
}
