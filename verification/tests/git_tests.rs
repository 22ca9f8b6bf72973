use git_full_commit::app_state::AppState;
use git_full_commit::ui::diff_view::joined_diff;
use git_full_commit::git::{
    calc_line_numbers, match_diff_header, parse_diff, parse_diff_lines, parse_diff_reply, parse_is_on_remote,
    parse_unstaged_files, parse_untracked_files, FileDiff, FileStatus, GitOutput, Hunk,
};
use git_full_commit::git_patch::{
    create_patch_for_new_file, create_stage_hunk_patch, create_stage_line_patch,
    create_unstage_hunk_patch, create_unstage_line_patch, find_hunk, get_line_number,
    line_number_fits, line_patch_fits,
};

const DIFF: &str = "diff --git a/src/main.rs b/src/main.rs
index 1111111..2222222 100644
--- a/src/main.rs
+++ b/src/main.rs
@@ -1,3 +1,3 @@ fn main() {
 a
-b
+B
 c
@@ -10,2 +10,3 @@
 x
+y
 z
diff --git a/new.txt b/new.txt
new file mode 100644
index 0000000..e69de29
--- /dev/null
+++ b/new.txt
@@ -0,0 +1 @@
+hello
diff --git a/gone.txt b/gone.txt
deleted file mode 100644
diff --git a/old name.txt b/new name.txt
similarity index 100%
rename from old name.txt
rename to new name.txt
";

#[test]
fn parse_diff_reads_files_hunks_and_statuses() {
    let files = parse_diff(DIFF);
    assert_eq!(files.len(), 4);

    let f = &files[0];
    assert_eq!(f.file_name, "src/main.rs");
    assert_eq!(f.old_file_name, "src/main.rs");
    assert_eq!(f.status, FileStatus::Modified);
    assert_eq!(f.lines.len(), 13);
    assert_eq!(f.lines[0], "diff --git a/src/main.rs b/src/main.rs");
    assert_eq!(f.hunks.len(), 2);
    assert_eq!(f.hunks[0].start_line, 4);
    assert_eq!(f.hunks[0].old_start, 1);
    assert_eq!(f.hunks[0].new_start, 1);
    assert_eq!(f.hunks[0].lines.len(), 5);
    assert_eq!(f.hunks[0].line_numbers, vec![(0, 0), (1, 1), (2, 1), (2, 2), (3, 3)]);
    assert_eq!(f.hunks[1].start_line, 9);
    assert_eq!(f.hunks[1].old_start, 10);
    assert_eq!(f.hunks[1].line_numbers, vec![(0, 0), (10, 10), (10, 11), (11, 12)]);

    assert_eq!(files[1].file_name, "new.txt");
    assert_eq!(files[1].status, FileStatus::Added);
    assert_eq!(files[1].hunks[0].old_start, 0);
    assert_eq!(files[1].hunks[0].new_start, 1);
    assert_eq!(files[2].status, FileStatus::Deleted);
    assert!(files[2].hunks.is_empty());
    assert_eq!(files[3].status, FileStatus::Renamed);
    assert_eq!(files[3].old_file_name, "old name.txt");
    assert_eq!(files[3].file_name, "new name.txt");
}

#[test]
fn parsed_hunks_are_ordered_runs_of_their_file_lines() {
    for f in parse_diff(DIFF).iter() {
        let mut previous_end = 0;
        for h in f.hunks.iter() {
            let end = h.start_line + h.lines.len();
            assert!(h.start_line >= previous_end);
            assert!(end <= f.lines.len());
            assert_eq!(&f.lines[h.start_line..end], &h.lines[..]);
            assert!(h.lines[0].starts_with("@@ "));
            assert_eq!(h.line_numbers, calc_line_numbers(h));
            previous_end = end;
        }
    }
}

#[test]
fn parse_diff_of_text_without_file_headers_keeps_the_lines() {
    let files = parse_diff("commit abc\nAuthor: me\n");
    assert_eq!(files.len(), 1);
    assert_eq!(files[0].file_name, "");
    assert_eq!(files[0].lines, vec!["commit abc".to_string(), "Author: me".to_string()]);
    assert!(parse_diff("").is_empty());
}

#[test]
fn leading_lines_go_to_the_first_file() {
    let files = parse_diff("commit abc\n\ndiff --git a/f b/f\n@@ -1 +1 @@\n-x\n+y\n");
    assert_eq!(files.len(), 1);
    assert_eq!(files[0].lines[0], "commit abc");
    assert_eq!(files[0].hunks[0].start_line, 3);
}

#[test]
fn quoted_header_names_lose_their_quotes() {
    assert_eq!(match_diff_header("diff --git a/\"a b\" b/\"a b\""), Some(("a b".to_string(), "a b".to_string())));
    assert_eq!(match_diff_header("diff --git a/x b/y"), Some(("x".to_string(), "y".to_string())));
    assert_eq!(match_diff_header("index 1..2"), None);
}

#[test]
fn line_numbers_count_from_the_hunk_starts() {
    let hunk = Hunk {
        start_line: 0,
        lines: vec!["@@ -5,2 +7,2 @@".to_string(), "-a".to_string(), "+b".to_string(), " c".to_string()],
        old_start: 5,
        new_start: 7,
        line_numbers: vec![],
    };
    assert_eq!(calc_line_numbers(&hunk), vec![(0, 0), (5, 6), (5, 7), (6, 8)]);
    let from_zero = Hunk { start_line: 0, lines: vec!["@@".to_string(), "+a".to_string()], old_start: 0, new_start: 1, line_numbers: vec![] };
    assert_eq!(calc_line_numbers(&from_zero), vec![(0, 0), (0, 1)]);
}

fn out(stdout: &str, success: bool) -> Option<GitOutput> {
    Some(GitOutput { success, code: Some(if success { 0 } else { 1 }), stdout: stdout.to_string(), stderr: String::new() })
}

#[test]
fn answers_of_git_are_read() {
    assert_eq!(parse_unstaged_files(&out("a.txt\nb.txt\n", true)), vec!["a.txt".to_string(), "b.txt".to_string()]);
    assert!(parse_unstaged_files(&None).is_empty());
    assert_eq!(parse_untracked_files(&out("x\n\ny\n", true)), vec!["x".to_string(), "y".to_string()]);
    assert_eq!(parse_is_on_remote(&out("  origin/main\n", true)), Some(true));
    assert_eq!(parse_is_on_remote(&out("", true)), Some(false));
    assert_eq!(parse_diff_reply(&out(DIFF, true)).len(), 4);
    assert!(parse_diff_reply(&None).is_empty());
}

fn main_rs() -> FileDiff {
    parse_diff(DIFF).remove(0)
}

#[test]
fn hunks_are_found_by_line() {
    let f = main_rs();
    assert!(find_hunk(&f, 3).is_none());
    assert_eq!(find_hunk(&f, 4).unwrap().old_start, 1);
    assert_eq!(find_hunk(&f, 8).unwrap().old_start, 1);
    assert_eq!(find_hunk(&f, 9).unwrap().old_start, 10);
    assert!(find_hunk(&f, 13).is_none());
}

#[test]
fn line_patches_carry_one_changed_line() {
    let f = main_rs();
    assert!(line_patch_fits(&f, 6, true));
    assert_eq!(
        create_unstage_line_patch(&f, 7, true).unwrap(),
        "diff --git a/src/main.rs b/src/main.rs\n--- a/src/main.rs\n+++ b/src/main.rs\n@@ -1,0 +2,1 @@\n+B\n"
    );
    assert_eq!(
        create_unstage_line_patch(&f, 6, true).unwrap(),
        "diff --git a/src/main.rs b/src/main.rs\n--- a/src/main.rs\n+++ b/src/main.rs\n@@ -2,1 +2,0 @@\n-b\n"
    );
    assert_eq!(
        create_stage_line_patch(&f, 7).unwrap(),
        "diff --git a/src/main.rs b/src/main.rs\n--- a/src/main.rs\n+++ b/src/main.rs\n@@ -2,0 +3,1 @@\n+B\n"
    );
    assert!(create_stage_line_patch(&f, 8).is_none());
    assert!(create_stage_line_patch(&f, 100).is_none());
}

#[test]
fn hunk_patches_carry_the_whole_hunk() {
    let f = main_rs();
    let expected = "diff --git a/src/main.rs b/src/main.rs\n--- a/src/main.rs\n+++ b/src/main.rs\n@@ -10,2 +10,3 @@\n x\n+y\n z\n";
    assert_eq!(create_unstage_hunk_patch(&f, &f.hunks[1]), expected);
    assert_eq!(create_stage_hunk_patch(&f, &f.hunks[1]), expected);
}

#[test]
fn new_file_patches_add_every_line() {
    assert_eq!(
        create_patch_for_new_file("a.txt", "one\ntwo\n"),
        "diff --git a/a.txt b/a.txt\nnew file mode 100644\nindex 0000000..e69de29\n--- /dev/null\n+++ b/a.txt\n@@ -0,0 +1,2 @@\n+one\n+two\n"
    );
    assert_eq!(
        create_patch_for_new_file("a.txt", "one"),
        "diff --git a/a.txt b/a.txt\nnew file mode 100644\nindex 0000000..e69de29\n--- /dev/null\n+++ b/a.txt\n@@ -0,0 +1,1 @@\n+one"
    );
}

#[test]
fn line_numbers_for_the_editor() {
    let f = main_rs();
    assert!(line_number_fits(&f, 5));
    assert_eq!(get_line_number(&f, 4), None);
    assert_eq!(get_line_number(&f, 5), Some(1));
    assert_eq!(get_line_number(&f, 6), Some(2));
    assert_eq!(get_line_number(&f, 7), Some(2));
    assert_eq!(get_line_number(&f, 8), Some(3));
    assert_eq!(get_line_number(&f, 0), None);
}

#[test]
fn parsing_takes_the_file_names_from_the_header_matches() {
    let lines: Vec<String> = ["diff --git a/x b/y", "rename from x", "@@ -3,2 +4,2 @@", "-a", "+b", "diff --git a/z b/z", "new file mode 100644"]
        .iter()
        .map(|l| l.to_string())
        .collect();
    let headers = vec![
        Some(("old name".to_string(), "new name".to_string())),
        None,
        None,
        None,
        None,
        Some(("z".to_string(), "z".to_string())),
        None,
    ];
    let files = parse_diff_lines(&lines, headers);
    assert_eq!(files.len(), 2);
    assert_eq!((files[0].old_file_name.as_str(), files[0].file_name.as_str()), ("old name", "new name"));
    assert_eq!(files[0].status, FileStatus::Renamed);
    assert_eq!(files[0].lines.len(), 5);
    assert_eq!(files[0].hunks.len(), 1);
    assert_eq!((files[0].hunks[0].start_line, files[0].hunks[0].old_start, files[0].hunks[0].new_start), (2, 3, 4));
    assert_eq!(files[0].hunks[0].lines, vec!["@@ -3,2 +4,2 @@", "-a", "+b"]);
    assert_eq!(files[1].file_name, "z");
    assert_eq!(files[1].status, FileStatus::Added);
    assert!(files[1].hunks.is_empty());
}

const COMMIT_SHOW: &str = "commit 0123456789abcdef
Author: Someone <someone@example.com>

    Change two files

 a.txt | 2 +-
 b.txt | 1 +
 2 files changed, 2 insertions(+), 1 deletion(-)

diff --git a/a.txt b/a.txt
index 1111111..2222222 100644
--- a/a.txt
+++ b/a.txt
@@ -1 +1 @@
-old
+new
diff --git a/b.txt b/b.txt
index 3333333..4444444 100644
--- a/b.txt
+++ b/b.txt
@@ -1 +1,2 @@
 keep
+added
";

#[test]
fn a_jump_from_a_summary_line_lands_on_a_file_header() {
    let files = parse_diff(COMMIT_SHOW);
    assert_eq!(files.len(), 2);
    let joined = joined_diff(&files);
    for (summary_line, expected) in [(5usize, "diff --git a/a.txt b/a.txt"), (6, "diff --git a/b.txt b/b.txt")] {
        let mut state = AppState::new("/r".to_string(), vec![], String::new(), vec![], vec![], vec![]);
        state.selected_commit_files = parse_diff(COMMIT_SHOW);
        state.main_screen.is_diff_cursor_active = true;
        state.main_screen.line_cursor = summary_line;
        assert!(state.jump_to_file_in_diff());
        assert_eq!(joined.lines[state.main_screen.line_cursor], expected);
        assert_eq!(state.main_screen.diff_scroll, state.main_screen.line_cursor);
    }
}
