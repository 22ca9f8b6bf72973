use git_full_commit::app_state::{AppState, CommitRequest, FocusedPane, UiAction};
use git_full_commit::command::list_commands::{FixupCommitCommand, SwapCommitCommand};
use git_full_commit::cursor_state::CursorState;
use git_full_commit::git::{CommitInfo, FileDiff, FileStatus};
use git_full_commit::text::{split_lines, str_contains, trim};
use git_full_commit::external_command::editor_command;
use git_full_commit::ui::commit_view::{
    build_display_line, compute_commit_scroll, handle_commit_input, handle_generic_text_input,
    handle_generic_text_input_with_alt, truncate_to_width,
};
use git_full_commit::ui::keyboard::{
    after_escape, after_escape_bracket, is_move_down, is_move_up, is_stage_toggle, AfterEscape, Key, KeyPress,
};
use git_full_commit::ui::main_screen::ListItem;

fn edit(text: &str, cursor: usize, keys: &[Key]) -> (String, usize) {
    let mut t = text.to_string();
    let mut c = cursor;
    for k in keys {
        handle_generic_text_input(&mut t, &mut c, k.clone());
    }
    (t, c)
}

#[test]
fn typing_inserts_at_the_cursor() {
    assert_eq!(edit("helo", 3, &[Key::Character('l')]), ("hello".to_string(), 4));
    assert_eq!(edit("", 0, &[Key::Character('é'), Key::Character('x')]), ("éx".to_string(), 2));
    // Control characters are not inserted.
    assert_eq!(edit("ab", 1, &[Key::Character('\u{7}')]), ("ab".to_string(), 1));
}

#[test]
fn typing_then_backspace_gives_back_the_text() {
    for (text, cursor) in [("", 0), ("abc", 0), ("abc", 2), ("日本", 1)] {
        assert_eq!(edit(text, cursor, &[Key::Character('z'), Key::KeyBackspace]), (text.to_string(), cursor));
    }
}

#[test]
fn deleting_and_moving() {
    assert_eq!(edit("abc", 0, &[Key::KeyBackspace]), ("abc".to_string(), 0));
    assert_eq!(edit("abc", 1, &[Key::Character('\u{7f}')]), ("bc".to_string(), 0));
    assert_eq!(edit("abc", 1, &[Key::KeyDC]), ("ac".to_string(), 1));
    assert_eq!(edit("abc", 3, &[Key::KeyDC]), ("abc".to_string(), 3));
    assert_eq!(edit("abc", 1, &[Key::KeyLeft, Key::KeyLeft]), ("abc".to_string(), 0));
    assert_eq!(edit("abc", 2, &[Key::KeyRight, Key::KeyRight]), ("abc".to_string(), 3));
    assert_eq!(edit("abc", 2, &[Key::Character('\u{1}')]), ("abc".to_string(), 0));
    assert_eq!(edit("abc", 0, &[Key::Character('\u{5}')]), ("abc".to_string(), 3));
    assert_eq!(edit("abcdef", 2, &[Key::Character('\u{b}')]), ("ab".to_string(), 2));
}

#[test]
fn alt_keys_move_and_delete_by_words() {
    let run = |text: &str, cursor: usize, keys: &[Key]| {
        let mut t = text.to_string();
        let mut c = cursor;
        for k in keys {
            handle_generic_text_input_with_alt(&mut t, &mut c, k.clone());
        }
        (t, c)
    };
    assert_eq!(run("hello big world", 15, &[Key::Character('b')]), ("hello big world".to_string(), 10));
    assert_eq!(run("hello big world", 0, &[Key::Character('f')]), ("hello big world".to_string(), 6));
    assert_eq!(run("hello big world", 15, &[Key::KeyBackspace]), ("hello big ".to_string(), 10));
}

#[test]
fn commit_scroll_keeps_the_cursor_visible() {
    assert_eq!(compute_commit_scroll("short", 3, 20), (0, false));
    let text = "a fairly long commit message that does not fit";
    let (offset, _) = compute_commit_scroll(text, text.chars().count(), 10);
    assert!(offset > 0);
    let (shown, col) = build_display_line(text, text.chars().count(), 10, offset, false);
    assert!(shown.chars().count() <= 10);
    assert!(col <= 10);
    let (shown, col) = build_display_line("abc", 1, 10, 0, false);
    assert_eq!(shown, "abc");
    assert_eq!(col, 1);
}

fn file(name: &str) -> FileDiff {
    FileDiff { file_name: name.to_string(), old_file_name: name.to_string(), hunks: vec![], lines: vec![], status: FileStatus::Modified }
}

fn commit(hash: &str, message: &str) -> CommitInfo {
    CommitInfo { hash: hash.to_string(), message: message.to_string(), is_on_remote: false, is_fixup: false }
}

#[test]
fn enter_on_the_message_asks_for_a_commit() {
    let mut state = AppState::new("/r".to_string(), vec![file("a")], "draft".to_string(), vec![commit("h1", "old")], vec![], vec![]);
    state.main_screen.file_cursor = 2;
    assert!(matches!(state.current_main_item(), Some(ListItem::CommitMessageInput)));
    handle_commit_input(&mut state, Key::Character('!'), 30, 80);
    assert_eq!(state.main_screen.commit_message, "!draft");
    state.actions.clear();
    handle_commit_input(&mut state, Key::Character('\n'), 30, 80);
    assert_eq!(state.actions.len(), 1);
    match &state.actions[0] {
        UiAction::Commit(CommitRequest::New { message }) => assert_eq!(message, "!draft"),
        other => panic!("unexpected {:?}", other),
    }
}

#[test]
fn cursor_state_round_trips() {
    let mut b = file("b");
    b.lines = (0..5).map(|i| format!(" line {i}")).collect();
    let mut state = AppState::new("/r".to_string(), vec![file("a"), b], String::new(), vec![], vec![], vec![]);
    state.main_screen.file_cursor = 2;
    state.main_screen.line_cursor = 3;
    let saved = CursorState::from_app_state(&state);
    state.main_screen.file_cursor = 0;
    state.main_screen.line_cursor = 0;
    saved.apply_to_app_state(&mut state);
    assert_eq!(state.main_screen.file_cursor, 2);
    assert_eq!(state.main_screen.line_cursor, 3);
    assert_eq!(state.focused_pane, FocusedPane::Main);
}

fn commit_item(message: &str) -> ListItem {
    ListItem::PreviousCommitInfo { hash: message.to_string(), message: message.to_string(), is_on_remote: false, is_fixup: false }
}

fn messages(items: &[ListItem]) -> Vec<String> {
    items
        .iter()
        .map(|i| match i {
            ListItem::PreviousCommitInfo { message, is_fixup, .. } => format!("{message}{}", if *is_fixup { "*" } else { "" }),
            _ => "-".to_string(),
        })
        .collect()
}

#[test]
fn swapping_twice_restores_the_list() {
    let mut items = vec![commit_item("c"), commit_item("b"), commit_item("a")];
    let mut swap = SwapCommitCommand::new(0, 1);
    assert!(swap.execute(&mut items));
    assert_eq!(messages(&items), vec!["b", "c", "a"]);
    swap.undo(&mut items);
    assert_eq!(messages(&items), vec!["c", "b", "a"]);
}

#[test]
fn fixup_mark_flips_and_flips_back() {
    let mut items = vec![commit_item("c"), commit_item("b"), commit_item("a")];
    let mut fixup = FixupCommitCommand::new(0);
    assert!(fixup.execute(&mut items));
    assert_eq!(messages(&items), vec!["c*", "b", "a"]);
    fixup.undo(&mut items);
    assert_eq!(messages(&items), vec!["c", "b", "a"]);
}

#[test]
fn keys_for_moving_and_staging() {
    assert!(is_move_up(&Key::KeyUp));
    assert!(is_move_down(&Key::KeyDown));
    assert!(!is_move_up(&Key::KeyDown));
    assert!(is_stage_toggle(&Key::Character('\n')));
}

#[test]
fn text_helpers() {
    assert_eq!(split_lines("a\r\nb\n\nc"), vec!["a".to_string(), "b".to_string(), String::new(), "c".to_string()]);
    assert_eq!(trim("  x y \n"), "x y");
    assert!(str_contains("hello world", "o w"));
    assert!(!str_contains("hello", "world"));
}

#[test]
fn commit_scroll_puts_the_cursor_four_columns_from_the_edge() {
    let alpha = "abcdefghijklmnopqrstuvwxyz";
    assert_eq!(compute_commit_scroll(alpha, 26, 10), (21, false));
    assert_eq!(compute_commit_scroll(alpha, 8, 10), (3, false));
    assert_eq!(compute_commit_scroll(alpha, 5, 10), (0, false));
    assert_eq!(compute_commit_scroll(alpha, 26, 4), (0, false));
    assert_eq!(compute_commit_scroll("日本語日本語", 6, 10), (4, true));
}

#[test]
fn subjects_are_cut_to_the_width() {
    assert_eq!(truncate_to_width("hello", 3), "hel");
    assert_eq!(truncate_to_width("hello", 10), "hello");
    assert_eq!(truncate_to_width("日本語", 5), "日本");
    assert_eq!(truncate_to_width("abc", 0), "");
}

#[test]
fn editors_are_told_the_line_their_way() {
    let s = |v: &[&str]| v.iter().map(|x| x.to_string()).collect::<Vec<_>>();
    assert_eq!(editor_command(true, Some("vim"), false, "/r/a.rs", Some(3)), ("code".to_string(), s(&["-g", "/r/a.rs:3"])));
    assert_eq!(editor_command(true, None, false, "/r/a.rs", None), ("code".to_string(), s(&["/r/a.rs"])));
    assert_eq!(editor_command(false, Some("nvim"), false, "/r/a.rs", Some(12)), ("nvim".to_string(), s(&["+12", "/r/a.rs"])));
    assert_eq!(editor_command(false, Some("/usr/bin/code-insiders"), false, "/r/a.rs", Some(1)),
        ("/usr/bin/code-insiders".to_string(), s(&["-g", "/r/a.rs:1"])));
    assert_eq!(editor_command(false, None, true, "/r/a.rs", Some(3)), ("open".to_string(), s(&["/r/a.rs"])));
    assert_eq!(editor_command(false, None, false, "/r/a.rs", Some(3)), ("vi".to_string(), s(&["+3", "/r/a.rs"])));
}

#[test]
fn commits_compare_by_every_field() {
    let a = commit("abc", "m");
    assert_eq!(a, commit("abc", "m"));
    assert_ne!(a, commit("abd", "m"));
    let mut b = commit("abc", "m");
    b.is_fixup = true;
    assert_ne!(a, b);
}

#[test]
fn escape_sequences_give_alt_keys() {
    assert_eq!(after_escape(Some(Key::Character('['))), AfterEscape::ReadMore);
    assert_eq!(after_escape(Some(Key::Character('b'))), AfterEscape::Done(KeyPress::Alt(Key::Character('b'))));
    assert_eq!(after_escape(None), AfterEscape::Done(KeyPress::Plain(Some(Key::Character('\u{1b}')))));
    assert_eq!(after_escape_bracket(Some(Key::Character('A'))), KeyPress::Alt(Key::KeyUp));
    assert_eq!(after_escape_bracket(Some(Key::Character('B'))), KeyPress::Alt(Key::KeyDown));
    assert_eq!(after_escape_bracket(Some(Key::Character('C'))), KeyPress::Plain(Some(Key::Character('C'))));
    assert_eq!(after_escape_bracket(None), KeyPress::Plain(None));
}
