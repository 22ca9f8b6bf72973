use git_full_commit::app_state::{AppState, FilePreview, FocusedPane};
use git_full_commit::git::{CommitInfo, FileDiff, FileStatus, Hunk};
use git_full_commit::ui::diff_view::joined_diff;
use git_full_commit::ui::layout::{diff_pane, main_rows, preview_lines_of, screen, unstaged_rows, DiffSource, Row};

fn file(name: &str, status: FileStatus, lines: Vec<&str>, hunks: Vec<Hunk>) -> FileDiff {
    FileDiff {
        file_name: name.to_string(),
        old_file_name: format!("old_{name}"),
        hunks,
        lines: lines.into_iter().map(|l| l.to_string()).collect(),
        status,
    }
}

fn commit(hash: &str, message: &str, is_on_remote: bool, is_fixup: bool) -> CommitInfo {
    CommitInfo { hash: hash.to_string(), message: message.to_string(), is_on_remote, is_fixup }
}

fn pieces(row: &Row) -> Vec<(String, i16)> {
    row.pieces.iter().map(|p| (p.text.clone(), p.pair)).collect()
}

fn owned(v: Vec<(&str, i16)>) -> Vec<(String, i16)> {
    v.into_iter().map(|(t, p)| (t.to_string(), p)).collect()
}

#[test]
fn main_rows_show_each_item_with_its_colours() {
    let files = vec![file("a.txt", FileStatus::Modified, vec![], vec![]), file("b.txt", FileStatus::Renamed, vec![], vec![])];
    let commits = vec![commit("c2", "second commit", false, false), commit("c1", "first commit", true, true)];
    let state = AppState::new("/tmp".to_string(), files, String::new(), commits, vec![], vec![]);
    // The cursor starts on the first staged file.
    let rows = main_rows(&state, 30, 80);
    assert_eq!(rows.len(), 6);
    assert_eq!(rows[0].fill, None);
    assert_eq!(pieces(&rows[0]), owned(vec![(" Staged changes", 1)]));
    assert_eq!(rows[1].fill, Some(5));
    assert_eq!(pieces(&rows[1]), owned(vec![("   ", 5), ("M", 6), (" a.txt", 5)]));
    assert_eq!(pieces(&rows[2]), owned(vec![("   ", 1), ("R", 2), (" old_b.txt -> b.txt", 1)]));
    assert_eq!(pieces(&rows[3]), owned(vec![(" ○ ", 1), ("Enter commit message...", 9)]));
    assert_eq!(rows[3].caret, Some(3));
    assert_eq!(pieces(&rows[4]), owned(vec![(" ● ", 3), ("second commit", 1)]));
    assert_eq!(pieces(&rows[5]), owned(vec![(" ● ", 4), ("fixup!", 1)]));
}

#[test]
fn a_commit_message_is_cut_to_the_screen_width() {
    let commits = vec![commit("c1", "abcdefghij", false, false)];
    let state = AppState::new("/tmp".to_string(), vec![], String::new(), commits, vec![], vec![]);
    let rows = main_rows(&state, 30, 8);
    assert_eq!(pieces(&rows[2]), owned(vec![(" ● ", 3), ("abcde", 1)]));
}

#[test]
fn the_message_input_shows_the_message_and_its_caret() {
    let mut state = AppState::new("/tmp".to_string(), vec![], "hello".to_string(), vec![], vec![], vec![]);
    state.main_screen.file_cursor = 1;
    state.main_screen.commit_cursor = 2;
    let layout = screen(&state, 30, 80);
    assert_eq!(pieces(&layout.main_rows[1]), owned(vec![(" ○ ", 5), ("hello", 5)]));
    assert_eq!(layout.main_rows[1].fill, Some(5));
    assert_eq!(layout.caret, Some((1, 5)));
    assert!(layout.caret_shown);
    assert_eq!(layout.main_top, 0);
    assert_eq!(layout.title, None);
}

#[test]
fn the_list_shows_only_the_rows_that_fit_from_its_scroll_position() {
    let files: Vec<FileDiff> = (0..10).map(|i| file(&format!("f{i}"), FileStatus::Added, vec![], vec![])).collect();
    let mut state = AppState::new("/tmp".to_string(), files, String::new(), vec![], vec![], vec![]);
    state.main_screen.file_list_scroll = 4;
    // A third of 15 rows is 5, so five of the twelve items show.
    let rows = main_rows(&state, 15, 80);
    assert_eq!(rows.len(), 5);
    assert_eq!(pieces(&rows[0]), owned(vec![("   ", 1), ("A", 2), (" f3", 1)]));
    state.main_screen.file_list_scroll = 10;
    assert_eq!(main_rows(&state, 15, 80).len(), 2);
    state.main_screen.file_list_scroll = 20;
    assert_eq!(main_rows(&state, 15, 80).len(), 0);
}

#[test]
fn the_unstaged_list_sits_above_the_main_list() {
    let unstaged = vec![file("u.txt", FileStatus::Modified, vec![], vec![])];
    let state = AppState::new("/tmp".to_string(), vec![], String::new(), vec![], unstaged, vec!["new.txt".to_string()]);
    let layout = screen(&state, 30, 80);
    assert_eq!(layout.unstaged_rows.len(), 4);
    assert_eq!(pieces(&layout.unstaged_rows[0]), owned(vec![(" Unstaged changes", 1)]));
    assert_eq!(pieces(&layout.unstaged_rows[3]), owned(vec![("    ? new.txt", 1)]));
    assert_eq!(layout.main_top, 4);
    assert_eq!(layout.diff_top, 4 + 2);
    let mut focused = state;
    focused.focused_pane = FocusedPane::Unstaged;
    focused.unstaged_pane.cursor = 1;
    let rows = unstaged_rows(&focused, 30);
    assert_eq!(rows[1].fill, Some(5));
    assert_eq!(pieces(&rows[1]), owned(vec![("   ", 5), ("M", 6), (" u.txt", 5)]));
    assert_eq!(screen(&focused, 30, 80).caret, None);
}

#[test]
fn the_reorder_title_is_centred() {
    let commits = vec![commit("c2", "second", false, false), commit("c1", "first", false, false)];
    let mut state = AppState::new("/tmp".to_string(), vec![], String::new(), commits, vec![], vec![]);
    state.main_screen.is_reordering_commits = true;
    let (title, column) = screen(&state, 30, 80).title.unwrap();
    assert_eq!(title, " Commit Reordering (Up/Down: move, Enter: confirm, Esc/q: cancel) ");
    assert_eq!(column, 7);
    assert_eq!(screen(&state, 30, 61).title.unwrap().1, -2);
}

#[test]
fn the_files_of_a_commit_join_into_one_diff() {
    let h1 = Hunk { start_line: 1, lines: vec![], old_start: 1, new_start: 1, line_numbers: vec![] };
    let h2 = Hunk { start_line: 0, lines: vec![], old_start: 5, new_start: 6, line_numbers: vec![(0, 0)] };
    let files = vec![
        file("a", FileStatus::Modified, vec!["diff --git a/a b/a", "@@ -1 +1 @@", "+x"], vec![h1]),
        file("b", FileStatus::Added, vec!["@@ -5 +6 @@", " y"], vec![h2]),
    ];
    let joined = joined_diff(&files);
    assert_eq!(joined.lines, vec!["diff --git a/a b/a", "@@ -1 +1 @@", "+x", "@@ -5 +6 @@", " y"]);
    assert_eq!(joined.hunks.len(), 2);
    assert_eq!(joined.hunks[0].start_line, 1);
    assert_eq!(joined.hunks[1].start_line, 3);
    assert_eq!((joined.hunks[1].old_start, joined.hunks[1].new_start), (5, 6));
    assert_eq!(joined.hunks[1].line_numbers, vec![(0, 0)]);
    assert!(joined.file_name.is_empty());
}

#[test]
fn a_preview_shows_the_lines_or_a_note() {
    assert_eq!(preview_lines_of(&FilePreview::Text("a\r\nb\n".to_string())), vec![" a", " b"]);
    assert_eq!(preview_lines_of(&FilePreview::Binary(12)), vec!["  Binary file (size: 12 bytes)"]);
    assert_eq!(preview_lines_of(&FilePreview::Unreadable("denied".to_string())), vec!["  Error reading file: denied"]);
    assert!(preview_lines_of(&FilePreview::NotRead).is_empty());
}

#[test]
fn the_diff_pane_follows_the_focused_cursor() {
    let files = vec![file("a.txt", FileStatus::Modified, vec!["x"], vec![])];
    let commits = vec![commit("c1", "first", false, false)];
    let mut state = AppState::new("/tmp".to_string(), files, String::new(), commits, vec![], vec![]);
    state.main_screen.line_cursor = 4;
    state.main_screen.diff_scroll = 2;
    let pane = diff_pane(&state);
    assert!(matches!(pane.source, DiffSource::StagedFile));
    assert_eq!((pane.scroll, pane.cursor), (2, 4));
    state.main_screen.file_cursor = 3;
    assert!(matches!(diff_pane(&state).source, DiffSource::Commit));
    state.main_screen.file_cursor = 0;
    let pane = diff_pane(&state);
    assert!(matches!(pane.source, DiffSource::Nothing));
    assert_eq!(pane.cursor, 0);
    state.focused_pane = FocusedPane::Unstaged;
    assert!(matches!(diff_pane(&state).source, DiffSource::Nothing));
}
