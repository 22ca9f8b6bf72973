use git_full_commit::app_state::{AppState, FocusedPane};
use git_full_commit::background::Response;
use git_full_commit::git::{FileDiff, FileStatus, Hunk};
use git_full_commit::ui::keyboard::Key;
use git_full_commit::ui::main_screen::{handle_reorder_mode_input, ListItem, LINE_CONTENT_OFFSET};
use git_full_commit::ui::update::update_state;

fn file(name: &str, lines: Vec<String>, hunks: Vec<Hunk>) -> FileDiff {
    FileDiff { file_name: name.to_string(), old_file_name: name.to_string(), hunks, lines, status: FileStatus::Modified }
}

fn create_test_file_diff() -> FileDiff {
    let lines: Vec<String> = vec![
        "@@ -1,5 +1,6 @@".to_string(),
        " line 1".to_string(),
        "-line 2".to_string(),
        "-line 3".to_string(),
        "+line 2 new".to_string(),
        "+line 3 new".to_string(),
        " line 4".to_string(),
    ];
    let line_numbers = vec![(0, 0), (1, 1), (2, 1), (3, 1), (3, 2), (3, 3), (4, 4)];
    let hunks = vec![Hunk { start_line: 0, lines: lines.clone(), old_start: 1, new_start: 1, line_numbers }];
    file("test.txt", lines, hunks)
}

fn new_state(files: Vec<FileDiff>) -> AppState {
    AppState::new("/tmp".to_string(), files, String::new(), vec![], vec![], vec![])
}

fn create_state_with_files(num_files: usize) -> AppState {
    let files = (0..num_files).map(|i| file(&format!("file_{i}.txt"), vec![], vec![])).collect();
    new_state(files)
}

fn create_test_state(lines_count: usize, file_cursor: usize, line_cursor: usize, scroll: usize) -> AppState {
    let mut files = Vec::new();
    if lines_count > 0 {
        let lines = (0..lines_count).map(|i| format!("line {i}")).collect();
        files.push(file("test_file.rs", lines, vec![Hunk {
            old_start: 1,
            new_start: 1,
            lines: Vec::new(),
            start_line: 0,
            line_numbers: Vec::new(),
        }]));
    }
    let mut state = new_state(files);
    state.main_screen.file_cursor = file_cursor;
    state.main_screen.line_cursor = line_cursor;
    state.main_screen.diff_scroll = scroll;
    state.selected_commit_files = vec![];
    state
}

fn content_height(state: &AppState, max_y: i32) -> usize {
    let (header_height, _) = state.main_header_height(max_y);
    (max_y as usize).saturating_sub(header_height)
}

#[test]
fn test_file_list_scrolling() {
    let mut state = create_state_with_files(50);
    let max_y = 30;
    for _ in 0..8 {
        state = update_state(state, Some(Key::KeyDown), max_y, 80);
    }
    assert_eq!(state.main_screen.file_cursor, 9);
    assert_eq!(state.main_screen.file_list_scroll, 0);

    state = update_state(state, Some(Key::KeyDown), max_y, 80);
    assert_eq!(state.main_screen.file_cursor, 10);
    assert_eq!(state.main_screen.file_list_scroll, 1);

    for _ in 0..10 {
        state = update_state(state, Some(Key::KeyDown), max_y, 80);
    }
    assert_eq!(state.main_screen.file_cursor, 20);
    assert_eq!(state.main_screen.file_list_scroll, 11);

    for _ in 0..9 {
        state = update_state(state, Some(Key::KeyUp), max_y, 80);
    }
    assert_eq!(state.main_screen.file_cursor, 11);
    assert_eq!(state.main_screen.file_list_scroll, 11);

    state = update_state(state, Some(Key::KeyUp), max_y, 80);
    assert_eq!(state.main_screen.file_cursor, 10);
    assert_eq!(state.main_screen.file_list_scroll, 10);

    for _ in 0..10 {
        state = update_state(state, Some(Key::KeyUp), max_y, 80);
    }
    assert_eq!(state.main_screen.file_cursor, 0);
    assert_eq!(state.main_screen.file_list_scroll, 0);
}

#[test]
fn test_page_down_scrolls_by_page() {
    let initial_state = create_test_state(100, 1, 5, 0);
    let max_y = 30;
    let content_height = content_height(&initial_state, max_y);
    let final_state = update_state(initial_state, Some(Key::Character(' ')), max_y, 80);
    assert_eq!(final_state.main_screen.line_cursor, 5 + content_height, "Cursor should move down by one page");
    assert_eq!(final_state.main_screen.diff_scroll, content_height, "Scroll should move by a full page");
}

#[test]
fn test_page_down_scrolls_beyond_content() {
    let max_y = 30;
    let initial_state = create_test_state(100, 1, 95, 74);
    let content_height = content_height(&initial_state, max_y);
    let final_state = update_state(initial_state, Some(Key::Character(' ')), max_y, 80);
    assert_eq!(final_state.main_screen.line_cursor, 99, "Cursor should move to the last line");
    assert_eq!(final_state.main_screen.diff_scroll, 74 + content_height);
}

#[test]
fn test_page_down_clamps_at_end() {
    let lines_count: usize = 40;
    let max_y = 30;
    let initial_state = create_test_state(lines_count, 1, 10, 0);
    let content_height = content_height(&initial_state, max_y);
    let final_state = update_state(initial_state, Some(Key::Character(' ')), max_y, 80);
    let expected_cursor = (10 + content_height).min(lines_count - 1);
    assert_eq!(final_state.main_screen.line_cursor, expected_cursor);
    assert_eq!(final_state.main_screen.diff_scroll, content_height);
}

#[test]
fn test_page_up_scrolls_by_page() {
    let max_y = 30;
    let initial_state = create_test_state(100, 1, 60, 50);
    let content_height = content_height(&initial_state, max_y);
    let final_state = update_state(initial_state, Some(Key::Character('b')), max_y, 80);
    assert_eq!(final_state.main_screen.line_cursor, 60 - content_height, "Cursor should move up by one page");
    assert_eq!(final_state.main_screen.diff_scroll, 50 - content_height, "Scroll should move up by a full page");
}

#[test]
fn test_page_up_stops_at_top() {
    let max_y = 30;
    let initial_state = create_test_state(100, 1, 20, 15);
    let content_height = content_height(&initial_state, max_y);
    let final_state = update_state(initial_state, Some(Key::Character('b')), max_y, 80);
    assert_eq!(final_state.main_screen.line_cursor, 20_usize.saturating_sub(content_height));
    assert_eq!(final_state.main_screen.diff_scroll, 0, "Scroll should clamp at the top");
}

#[test]
fn test_page_up_at_top_does_nothing() {
    let max_y = 30;
    let initial_state = create_test_state(100, 1, 10, 0);
    let final_state = update_state(initial_state, Some(Key::Character('b')), max_y, 80);
    assert_eq!(final_state.main_screen.diff_scroll, 0, "Scroll should not change");
    assert_eq!(final_state.main_screen.line_cursor, 0, "Cursor should be at the first line");
}

#[test]
fn test_half_page_down() {
    let max_y = 30;
    let initial_state = create_test_state(100, 1, 10, 5);
    let scroll_amount = (content_height(&initial_state, max_y) / 2).max(1);
    let final_state = update_state(initial_state, Some(Key::Character('\u{4}')), max_y, 80);
    assert_eq!(final_state.main_screen.line_cursor, 10 + scroll_amount);
    assert_eq!(final_state.main_screen.diff_scroll, 5);
}

#[test]
fn test_half_page_down_and_scroll() {
    let max_y = 30;
    let initial_state = create_test_state(100, 1, 20, 0);
    let scroll_amount = (content_height(&initial_state, max_y) / 2).max(1);
    let final_state = update_state(initial_state, Some(Key::Character('\u{4}')), max_y, 80);
    assert_eq!(final_state.main_screen.line_cursor, 20 + scroll_amount);
    assert_eq!(final_state.main_screen.diff_scroll, scroll_amount);
}

#[test]
fn test_half_page_up() {
    let max_y = 30;
    let initial_state = create_test_state(100, 1, 20, 15);
    let scroll_amount = (content_height(&initial_state, max_y) / 2).max(1);
    let final_state = update_state(initial_state, Some(Key::Character('\u{15}')), max_y, 80);
    assert_eq!(final_state.main_screen.line_cursor, 20 - scroll_amount);
    assert_eq!(final_state.main_screen.diff_scroll, 15 - scroll_amount);
}

#[test]
fn test_half_page_up_and_scroll() {
    let max_y = 30;
    let initial_state = create_test_state(100, 1, 10, 10);
    let scroll_amount = (content_height(&initial_state, max_y) / 2).max(1);
    let final_state = update_state(initial_state, Some(Key::Character('\u{15}')), max_y, 80);
    assert_eq!(final_state.main_screen.line_cursor, 10_usize.saturating_sub(scroll_amount));
    assert_eq!(final_state.main_screen.diff_scroll, 10_usize.saturating_sub(scroll_amount));
}

#[test]
fn test_horizontal_scroll() {
    let mut state = create_test_state(10, 1, 0, 0);
    assert_eq!(state.main_screen.horizontal_scroll, 0);
    let max_x = 80;
    let scroll_amount = (max_x as usize).saturating_sub(LINE_CONTENT_OFFSET);
    state = update_state(state, Some(Key::KeyRight), 30, max_x);
    assert_eq!(state.main_screen.horizontal_scroll, scroll_amount);
    state = update_state(state, Some(Key::KeyRight), 30, max_x);
    assert_eq!(state.main_screen.horizontal_scroll, scroll_amount * 2);
    state = update_state(state, Some(Key::KeyLeft), 30, max_x);
    assert_eq!(state.main_screen.horizontal_scroll, scroll_amount);
    state = update_state(state, Some(Key::KeyLeft), 30, max_x);
    assert_eq!(state.main_screen.horizontal_scroll, 0);
    state = update_state(state, Some(Key::KeyLeft), 30, max_x);
    assert_eq!(state.main_screen.horizontal_scroll, 0);
}

#[test]
fn test_keydown_stops_at_last_line() {
    let state = create_state_with_files(1);
    assert_eq!(state.main_screen.list_items.len(), 3);
    assert!(matches!(state.current_main_item(), Some(ListItem::File(_))));
    let state = update_state(state, Some(Key::KeyDown), 30, 80);
    assert_eq!(state.main_screen.file_cursor, 2);
    assert!(matches!(state.current_main_item(), Some(ListItem::CommitMessageInput)));
    let state = update_state(state, Some(Key::KeyDown), 30, 80);
    assert_eq!(state.main_screen.file_cursor, 2);
}

#[test]
fn test_tab_screen_switching_and_cursor_sync() {
    let mut state = create_state_with_files(0);
    let staged_file1 = file("staged_only.txt", vec![], vec![]);
    let staged_file2 = file("common_file.txt", vec![], vec![]);
    state.files = vec![staged_file1.clone(), staged_file2.clone()];
    state.unstaged_pane.unstaged_files = vec![file("common_file.txt", vec![], vec![]), file("unstaged_only.txt", vec![], vec![])];
    state.unstaged_pane.untracked_files = vec!["untracked_file.txt".to_string()];
    state.unstaged_pane.list_items = AppState::build_unstaged_screen_list_items(
        &state.unstaged_pane.unstaged_files,
        &state.unstaged_pane.untracked_files,
    );
    state.main_screen.has_unstaged_changes = true;
    state.main_screen.list_items = vec![
        ListItem::StagedChangesHeader,
        ListItem::File(staged_file1),
        ListItem::File(staged_file2),
        ListItem::CommitMessageInput,
        ListItem::PreviousCommitInfo { hash: String::new(), message: String::new(), is_on_remote: false, is_fixup: false },
    ];

    // Main to the unstaged pane, on the same file.
    state.focused_pane = FocusedPane::Main;
    state.main_screen.file_cursor = 2;
    let state = update_state(state, Some(Key::Character('\t')), 30, 80);
    assert_eq!(state.focused_pane, FocusedPane::Unstaged);
    assert_eq!(state.unstaged_pane.cursor, 1);

    // Back to the main pane, on the same file.
    let mut state = update_state(state, Some(Key::Character('\t')), 30, 80);
    assert_eq!(state.focused_pane, FocusedPane::Main);
    assert_eq!(state.main_screen.file_cursor, 2);

    // Main to the unstaged pane, on an untracked file.
    let untracked = FileDiff {
        file_name: "untracked_file.txt".to_string(),
        old_file_name: "untracked_file.txt".to_string(),
        status: FileStatus::Added,
        lines: vec![],
        hunks: vec![],
    };
    state.files.push(untracked.clone());
    state.main_screen.list_items.push(ListItem::File(untracked));
    state.main_screen.file_cursor = 5;
    let mut state = update_state(state, Some(Key::Character('\t')), 30, 80);
    assert_eq!(state.focused_pane, FocusedPane::Unstaged);
    assert_eq!(state.unstaged_pane.cursor, 4);

    // Unstaged to main, on a file the main pane does not show.
    state.unstaged_pane.cursor = 2;
    let state = update_state(state, Some(Key::Character('\t')), 30, 80);
    assert_eq!(state.focused_pane, FocusedPane::Main);
    assert_eq!(state.main_screen.file_cursor, 5);
}

#[test]
fn test_q_behavior_with_active_diff_cursor() {
    let mut state = create_test_state(10, 1, 0, 0);
    state.main_screen.is_diff_cursor_active = true;
    let state = update_state(state, Some(Key::Character('q')), 30, 80);
    assert!(state.running, "App should still be running after first 'q'");
    assert!(!state.main_screen.is_diff_cursor_active, "Diff cursor should be inactive after first 'q'");
    let state = update_state(state, Some(Key::Character('q')), 30, 80);
    assert!(!state.running, "App should quit after second 'q'");
}

#[test]
fn test_open_editor_main_view_no_line() {
    let mut state = create_state_with_files(1);
    state.main_screen.file_cursor = 1;
    state.main_screen.is_diff_cursor_active = false;
    let updated_state = update_state(state, Some(Key::Character('e')), 80, 80);
    let request = updated_state.editor_request.unwrap();
    assert_eq!(request.file_path, "/tmp/file_0.txt");
    assert_eq!(request.line_number, None);
}

#[test]
fn test_open_editor_main_view_with_line() {
    let mut state = create_test_state(0, 0, 5, 0);
    state.main_screen.is_diff_cursor_active = true;
    let mut f = create_test_file_diff();
    f.file_name = "test_file.rs".to_string();
    state.main_screen.list_items = vec![
        ListItem::StagedChangesHeader,
        ListItem::File(f.clone()),
        ListItem::CommitMessageInput,
        ListItem::PreviousCommitInfo { hash: String::new(), message: String::new(), is_on_remote: false, is_fixup: false },
    ];
    state.main_screen.file_cursor = 1;
    state.files = vec![f];
    let updated_state = update_state(state, Some(Key::Character('e')), 80, 80);
    let request = updated_state.editor_request.unwrap();
    assert_eq!(request.file_path, "/tmp/test_file.rs");
    assert_eq!(request.line_number, Some(3));
}

#[test]
fn test_open_editor_unstaged_screen() {
    let mut state = create_state_with_files(0);
    let mut f = create_test_file_diff();
    f.file_name = "unstaged_file.txt".to_string();
    state.unstaged_pane.unstaged_files = vec![f];
    state.unstaged_pane.list_items = AppState::build_unstaged_screen_list_items(
        &state.unstaged_pane.unstaged_files,
        &state.unstaged_pane.untracked_files,
    );
    state.main_screen.has_unstaged_changes = true;
    state.focused_pane = FocusedPane::Unstaged;
    state.unstaged_pane.cursor = 1;
    state.main_screen.line_cursor = 4;
    let updated_state = update_state(state, Some(Key::Character('e')), 80, 80);
    let request = updated_state.editor_request.unwrap();
    assert_eq!(request.file_path, "/tmp/unstaged_file.txt");
    assert_eq!(request.line_number, Some(2));
}

#[test]
fn test_open_editor_untracked_file() {
    let mut state = create_state_with_files(0);
    state.unstaged_pane.untracked_files = vec!["untracked.txt".to_string()];
    state.unstaged_pane.list_items = AppState::build_unstaged_screen_list_items(
        &state.unstaged_pane.unstaged_files,
        &state.unstaged_pane.untracked_files,
    );
    state.main_screen.has_unstaged_changes = true;
    state.focused_pane = FocusedPane::Unstaged;
    state.unstaged_pane.cursor = 2;
    let updated_state = update_state(state, Some(Key::Character('e')), 80, 80);
    let request = updated_state.editor_request.unwrap();
    assert_eq!(request.file_path, "/tmp/untracked.txt");
    assert_eq!(request.line_number, None);
}

fn local_commit(hash: &str, message: &str) -> git_full_commit::git::CommitInfo {
    git_full_commit::git::CommitInfo { hash: hash.to_string(), message: message.to_string(), is_on_remote: false, is_fixup: false }
}

#[test]
fn alt_arrows_move_a_commit_in_the_reorder_mode() {
    let commits = vec![local_commit("c3", "third"), local_commit("c2", "second"), local_commit("c1", "first")];
    let mut state = AppState::new("/tmp".to_string(), vec![], String::new(), commits, vec![], vec![]);
    // Staged-changes header, message input, then the three commits.
    state.main_screen.file_cursor = 2;
    let state = git_full_commit::ui::update::update_state_with_alt(state, Some(Key::KeyDown), 30, 80);
    assert!(state.main_screen.is_reordering_commits);
    let subjects = |s: &AppState| -> Vec<String> {
        s.main_screen
            .list_items
            .iter()
            .filter_map(|i| match i {
                ListItem::PreviousCommitInfo { message, .. } => Some(message.clone()),
                _ => None,
            })
            .collect()
    };
    assert_eq!(subjects(&state), vec!["second", "third", "first"]);
    let cursor = state.main_screen.file_cursor;
    let state = git_full_commit::ui::update::update_state_with_alt(state, Some(Key::KeyUp), 30, 80);
    assert_eq!(subjects(&state), vec!["third", "second", "first"]);
    assert_eq!(state.main_screen.file_cursor, cursor - 1);
    // Cancelling gives back the list from before the reorder mode.
    let state = update_state(state, Some(Key::Character('q')), 30, 80);
    assert!(!state.main_screen.is_reordering_commits);
    assert_eq!(subjects(&state), vec!["third", "second", "first"]);
}

#[test]
fn reorder_mode_marks_drops_undoes_and_redoes() {
    let commits = vec![local_commit("c3", "third"), local_commit("c2", "second"), local_commit("c1", "first")];
    let mut state = AppState::new("/tmp".to_string(), vec![], String::new(), commits, vec![], vec![]);
    state.main_screen.file_cursor = 2;
    let state = git_full_commit::ui::update::update_state_with_alt(state, Some(Key::KeyDown), 30, 80);
    assert!(state.main_screen.is_reordering_commits);
    let fixups = |s: &AppState| -> Vec<(String, bool)> {
        s.main_screen
            .list_items
            .iter()
            .filter_map(|i| match i {
                ListItem::PreviousCommitInfo { message, is_fixup, .. } => Some((message.clone(), *is_fixup)),
                _ => None,
            })
            .collect()
    };
    let unmarked = vec![("second".to_string(), false), ("third".to_string(), false), ("first".to_string(), false)];
    let marked = vec![("second".to_string(), false), ("third".to_string(), true), ("first".to_string(), false)];
    assert_eq!(fixups(&state), unmarked);
    // The reorder list holds the commits alone; the moved commit stays under the cursor.
    assert_eq!(state.main_screen.list_items.len(), 3);
    assert_eq!(state.main_screen.file_cursor, 1);
    // `f` marks the commit under the cursor as a fixup; the reorder mode's
    // `<` and `>` undo and redo that (at the top level these two keys undo
    // and redo the repository commands instead).
    let mut state = update_state(state, Some(Key::Character('f')), 30, 80);
    assert_eq!(fixups(&state), marked);
    handle_reorder_mode_input(&mut state, Key::Character('<'), 30, 80);
    assert_eq!(fixups(&state), unmarked);
    handle_reorder_mode_input(&mut state, Key::Character('>'), 30, 80);
    assert_eq!(fixups(&state), marked);
    // `!` drops it; undoing puts it back in place.
    let mut state = update_state(state, Some(Key::Character('!')), 30, 80);
    assert_eq!(fixups(&state), vec![("second".to_string(), false), ("first".to_string(), false)]);
    handle_reorder_mode_input(&mut state, Key::Character('<'), 30, 80);
    assert_eq!(fixups(&state), marked);
    // The last commit cannot be a fixup: `f` there changes nothing.
    let mut state = state;
    state.main_screen.file_cursor = 2;
    let state = update_state(state, Some(Key::Character('f')), 30, 80);
    assert_eq!(fixups(&state), marked);
}

#[test]
fn the_last_diff_of_the_selected_commit_is_shown() {
    let commits = vec![local_commit("c2", "second"), local_commit("c1", "first")];
    let mut state = AppState::new("/tmp".to_string(), vec![], String::new(), commits, vec![], vec![]);
    // Header, message input, then the commits: the cursor on `c1`.
    state.main_screen.file_cursor = 3;
    let diff = |name: &str| vec![file(name, vec![], vec![])];
    let shown = state.poll_background(vec![
        Response::CommitDiff("c1".to_string(), diff("early.txt")),
        Response::CommitDiff("c2".to_string(), diff("other.txt")),
        Response::CommitDiff("c1".to_string(), diff("late.txt")),
    ]);
    assert!(shown);
    assert_eq!(state.selected_commit_files.len(), 1);
    assert_eq!(state.selected_commit_files[0].file_name, "late.txt");
    // Answers about another commit change nothing.
    let shown = state.poll_background(vec![Response::CommitDiff("c2".to_string(), diff("other.txt"))]);
    assert!(!shown);
    assert_eq!(state.selected_commit_files[0].file_name, "late.txt");
}

#[test]
fn tab_in_the_message_input_switches_to_amending_the_last_commit() {
    let commits = vec![local_commit("c2", "second"), local_commit("c1", "first")];
    let mut state = AppState::new("/tmp".to_string(), vec![], "draft".to_string(), commits, vec![], vec![]);
    // Header, message input, then the commits: the cursor on the input.
    state.main_screen.file_cursor = 1;
    let state = update_state(state, Some(Key::Character('\t')), 30, 80);
    assert_eq!(state.main_screen.amending_commit_hash.as_deref(), Some("c2"));
    assert_eq!(state.main_screen.file_cursor, 2);
    assert!(matches!(&state.main_screen.list_items[2],
        ListItem::AmendingCommitMessageInput { hash, message } if hash == "c2" && message == "second"));
    assert!(state.main_screen.commit_message.is_empty());
    // Typing now edits the message of the commit being amended.
    let state = update_state(state, Some(Key::Character('!')), 30, 80);
    assert!(matches!(&state.main_screen.list_items[2],
        ListItem::AmendingCommitMessageInput { message, .. } if message == "second!"));
    // A last commit on a remote branch is not amended.
    let mut pushed = AppState::new("/tmp".to_string(), vec![], String::new(),
        vec![git_full_commit::git::CommitInfo { hash: "c9".to_string(), message: "pushed".to_string(), is_on_remote: true, is_fixup: false }],
        vec![], vec![]);
    pushed.main_screen.file_cursor = 1;
    let pushed = update_state(pushed, Some(Key::Character('\t')), 30, 80);
    assert!(pushed.main_screen.amending_commit_hash.is_none());
    assert_eq!(pushed.main_screen.file_cursor, 1);
}
