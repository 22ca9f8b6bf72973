//! Paging through a diff with the keyboard.
use crate::app_state::{
    count_lines_before, item_at, lines_before, list_height, min_of, preview_lines, sat_sub, AppState,
    FocusedPane,
};
use crate::git::file_views;
use crate::ui::keyboard::Key;
use crate::ui::main_screen::{item_views, ListItem, ListItemView, UnstagedListItem};
use vstd::prelude::*;

verus! {

/// Which way to page.
#[derive(Clone, Copy, Debug, PartialEq, Eq, Structural)]
pub enum ScrollDirection {
    Up,
    Down,
}

/// How far to page.
#[derive(Clone, Copy, Debug, PartialEq, Eq, Structural)]
pub enum ScrollAmount {
    /// A whole view.
    Full,
    /// Half a view, at least one line.
    Half,
}

/// The lines one page moves.
pub open spec fn page_size(content_height: usize, amount: ScrollAmount) -> int {
    match amount {
        ScrollAmount::Full => content_height as int,
        ScrollAmount::Half => if content_height / 2 >= 1 { (content_height / 2) as int } else { 1 },
    }
}

/// `x + y`, or `usize::MAX` when that is larger.
pub open spec fn sat_add(x: int, y: int) -> int {
    if x + y > usize::MAX { usize::MAX as int } else { x + y }
}

/// The line cursor and the first line shown after one page: down, the
/// cursor moves by a page (at most to the last line) and the view follows
/// by a page when the cursor would leave it; up, the cursor moves back by a
/// page (at most to the first line) and the view follows when the cursor
/// would be above it. Nothing moves in an empty diff.
pub open spec fn scrolled(line_cursor: usize, scroll: usize, content_height: usize, lines_count: usize,
    direction: ScrollDirection, amount: ScrollAmount) -> (usize, usize)
{
    if lines_count == 0 {
        (line_cursor, scroll)
    } else {
        let step = page_size(content_height, amount);
        match direction {
            ScrollDirection::Down => {
                let new_scroll = if sat_add(line_cursor as int, step) >= scroll + content_height {
                    sat_add(scroll as int, step)
                } else {
                    scroll as int
                };
                (min_of(sat_add(line_cursor as int, step), lines_count - 1) as usize, new_scroll as usize)
            },
            ScrollDirection::Up => {
                let c = sat_sub(line_cursor as int, step);
                (c as usize, if c < scroll { sat_sub(scroll as int, step) as usize } else { scroll })
            },
        }
    }
}

/// Moves the line cursor and the view by a page.
pub fn scroll_content(line_cursor: usize, scroll: usize, content_height: usize, lines_count: usize,
    direction: ScrollDirection, amount: ScrollAmount) -> (r: (usize, usize))
    ensures
        r == scrolled(line_cursor, scroll, content_height, lines_count, direction, amount),
        lines_count > 0 && direction == ScrollDirection::Down ==> r.0 < lines_count,
        direction == ScrollDirection::Up ==> r.0 <= line_cursor && r.1 <= scroll,
{
    if lines_count == 0 {
        return (line_cursor, scroll);
    }
    let scroll_amount = match amount {
        ScrollAmount::Full => content_height,
        ScrollAmount::Half => if content_height / 2 >= 1 { content_height / 2 } else { 1 },
    };
    let max_line = lines_count - 1;
    let mut new_line_cursor = line_cursor;
    let mut new_scroll = scroll;
    match direction {
        ScrollDirection::Down => {
            let moved = new_line_cursor.saturating_add(scroll_amount);
            let leaves_view = match new_scroll.checked_add(content_height) {
                Some(bottom) => moved >= bottom,
                None => false,
            };
            if leaves_view {
                new_scroll = new_scroll.saturating_add(scroll_amount);
            }
            new_line_cursor = if moved < max_line { moved } else { max_line };
        },
        ScrollDirection::Up => {
            new_line_cursor = new_line_cursor.saturating_sub(scroll_amount);
            if new_line_cursor < new_scroll {
                new_scroll = new_scroll.saturating_sub(scroll_amount);
            }
        },
    }
    (new_line_cursor, new_scroll)
}

/// The lines of the diff the main pane shows for the item under its cursor:
/// a staged file's, or all of the selected commit's.
pub open spec fn main_diff_lines(s: AppState) -> int {
    match item_at(item_views(s.main_screen.list_items@), s.main_screen.file_cursor as int) {
        Some(ListItemView::File(f)) => f.lines.len() as int,
        Some(ListItemView::PreviousCommitInfo { .. }) => lines_before(file_views(s.selected_commit_files@), s.selected_commit_files@.len() as int),
        _ => 0,
    }
}

/// The lines of the diff the unstaged pane shows for the item under its
/// cursor: a changed file's, or the untracked file's as read.
pub open spec fn unstaged_diff_lines(s: AppState) -> int {
    if s.unstaged_pane.cursor < s.unstaged_pane.list_items@.len() {
        match s.unstaged_pane.list_items@[s.unstaged_pane.cursor as int] {
            UnstagedListItem::File(f) => f.lines@.len() as int,
            UnstagedListItem::UntrackedFile(_) => preview_lines(s.unstaged_pane.preview) as int,
            _ => 0,
        }
    } else {
        0
    }
}

/// The state with only the main pane's line cursor and view moved.
pub open spec fn only_main_lines_moved(a: AppState, b: AppState) -> bool {
    b == AppState {
        main_screen: crate::app_state::MainScreenState {
            line_cursor: b.main_screen.line_cursor,
            diff_scroll: b.main_screen.diff_scroll,
            ..a.main_screen
        },
        ..a
    }
}

/// The state with only the line cursor and the unstaged pane's view moved.
pub open spec fn only_unstaged_lines_moved(a: AppState, b: AppState) -> bool {
    b == AppState {
        main_screen: crate::app_state::MainScreenState { line_cursor: b.main_screen.line_cursor, ..a.main_screen },
        unstaged_pane: crate::app_state::UnstagedPaneState { diff_scroll: b.unstaged_pane.diff_scroll, ..a.unstaged_pane },
        ..a
    }
}

/// The number of lines the main pane's diff shows.
fn main_lines_count(state: &AppState) -> (r: usize)
    ensures
        r as int == main_diff_lines(*state),
{
    match state.current_main_item() {
        Some(ListItem::File(f)) => f.lines.len(),
        Some(ListItem::PreviousCommitInfo { .. }) => count_lines_before(&state.selected_commit_files, state.selected_commit_files.len()),
        _ => 0,
    }
}

/// Pages through the main pane's diff; the view is the screen below the file
/// list.
pub fn scroll_view(state: &mut AppState, direction: ScrollDirection, amount: ScrollAmount, max_y: i32)
    ensures
        only_main_lines_moved(*old(state), *final(state)),
        (final(state).main_screen.line_cursor, final(state).main_screen.diff_scroll) == scrolled(
            old(state).main_screen.line_cursor, old(state).main_screen.diff_scroll,
            sat_sub(max_y as usize as int, list_height(max_y, old(state).main_screen.list_items@.len()) as int) as usize,
            main_diff_lines(*old(state)) as usize, direction, amount),
{
    let header_height = state.main_header_height(max_y).0;
    let content_height = (max_y as usize).saturating_sub(header_height);
    let lines_count = main_lines_count(state);
    let (line, scroll) = scroll_content(state.main_screen.line_cursor, state.main_screen.diff_scroll, content_height,
        lines_count, direction, amount);
    state.main_screen.line_cursor = line;
    state.main_screen.diff_scroll = scroll;
}

/// The number of lines the unstaged pane's diff shows.
fn unstaged_lines_count(state: &AppState) -> (r: usize)
    ensures
        r as int == unstaged_diff_lines(*state),
{
    if state.unstaged_pane.cursor < state.unstaged_pane.list_items.len() {
        match &state.unstaged_pane.list_items[state.unstaged_pane.cursor] {
            UnstagedListItem::File(f) => f.lines.len(),
            UnstagedListItem::UntrackedFile(_) => state.unstaged_pane.preview.line_count(),
            _ => 0,
        }
    } else {
        0
    }
}

/// Pages through the unstaged pane's diff, when it shows anything.
pub fn scroll_unstaged_diff_view(state: &mut AppState, direction: ScrollDirection, amount: ScrollAmount, max_y: i32)
    ensures
        only_unstaged_lines_moved(*old(state), *final(state)),
        unstaged_diff_lines(*old(state)) == 0 ==> *final(state) == *old(state),
        unstaged_diff_lines(*old(state)) > 0 ==> (final(state).main_screen.line_cursor, final(state).unstaged_pane.diff_scroll) == scrolled(
            old(state).main_screen.line_cursor, old(state).unstaged_pane.diff_scroll,
            sat_sub(max_y as usize as int, list_height(max_y, old(state).unstaged_pane.list_items@.len()) + 1) as usize,
            unstaged_diff_lines(*old(state)) as usize, direction, amount),
{
    let lines_count = unstaged_lines_count(state);
    if lines_count > 0 {
        let file_list_height = state.unstaged_header_height(max_y).0;
        let content_height = (max_y as usize).saturating_sub(file_list_height + 1);
        let (line, scroll) = scroll_content(state.main_screen.line_cursor, state.unstaged_pane.diff_scroll,
            content_height, lines_count, direction, amount);
        state.main_screen.line_cursor = line;
        state.unstaged_pane.diff_scroll = scroll;
    }
}

/// The page a key asks for: space or Ctrl-V a page down, `b` or Ctrl-B a
/// page up, Ctrl-D and Ctrl-U half a page down and up.
pub open spec fn page_key(input: Key) -> Option<(ScrollDirection, ScrollAmount)> {
    if input == Key::Character(' ') || input == Key::Character('\u{16}') {
        Some((ScrollDirection::Down, ScrollAmount::Full))
    } else if input == Key::Character('b') || input == Key::Character('\u{2}') {
        Some((ScrollDirection::Up, ScrollAmount::Full))
    } else if input == Key::Character('\u{4}') {
        Some((ScrollDirection::Down, ScrollAmount::Half))
    } else if input == Key::Character('\u{15}') {
        Some((ScrollDirection::Up, ScrollAmount::Half))
    } else {
        None
    }
}

/// What a paging key does (see [`handle_scroll`]): the focused pane's diff
/// moves by the page the key asks for; any other key changes nothing.
pub open spec fn paged(o: AppState, input: Key, max_y: i32, n: AppState) -> bool {
    match page_key(input) {
        None => n == o,
        Some((d, a)) => if o.focused_pane == FocusedPane::Main {
            only_main_lines_moved(o, n)
                && (n.main_screen.line_cursor, n.main_screen.diff_scroll) == scrolled(
                o.main_screen.line_cursor, o.main_screen.diff_scroll,
                sat_sub(max_y as usize as int, list_height(max_y, o.main_screen.list_items@.len()) as int) as usize,
                main_diff_lines(o) as usize, d, a)
        } else if unstaged_diff_lines(o) == 0 {
            n == o
        } else {
            only_unstaged_lines_moved(o, n)
                && (n.main_screen.line_cursor, n.unstaged_pane.diff_scroll) == scrolled(
                o.main_screen.line_cursor, o.unstaged_pane.diff_scroll,
                sat_sub(max_y as usize as int, list_height(max_y, o.unstaged_pane.list_items@.len()) + 1) as usize,
                unstaged_diff_lines(o) as usize, d, a)
        },
    }
}

/// Pages through the diff of the focused pane when the key asks for it.
pub fn handle_scroll(state: &mut AppState, input: Key, max_y: i32)
    ensures
        paged(*old(state), input, max_y, *final(state)),
{
    let (direction, amount) = match input {
        Key::Character(' ') | Key::Character('\u{16}') => (ScrollDirection::Down, ScrollAmount::Full),
        Key::Character('b') | Key::Character('\u{2}') => (ScrollDirection::Up, ScrollAmount::Full),
        Key::Character('\u{4}') => (ScrollDirection::Down, ScrollAmount::Half),
        Key::Character('\u{15}') => (ScrollDirection::Up, ScrollAmount::Half),
        _ => return,
    };
    match state.focused_pane {
        FocusedPane::Main => scroll_view(state, direction, amount, max_y),
        FocusedPane::Unstaged => scroll_unstaged_diff_view(state, direction, amount, max_y),
    }
}

} // verus!
