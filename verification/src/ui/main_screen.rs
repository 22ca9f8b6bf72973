//! The items of the two file lists and the handling of keys on the screen.
use crate::app_state::{
    item_at, list_height, min_of, preview_lines, sat_sub, AppState, CommandPlan, EditorRequest,
    FocusedPane, FollowUp, UiAction,
};
use crate::command::git_commands::{
    ApplyPatchCommand, DiscardHunkCommand, DiscardUnstagedHunkCommand, IgnoreFileCommand,
    IgnoreUnstagedTrackedFileCommand, StageFileCommand, StagePatchCommand, UnstageFileCommand,
};
use crate::command::list_commands::{can_toggle_fixup, flip_fixup, DiscardCommitCommand, FixupCommitCommand};
use crate::command::reorder_commits::ReorderCommitsCommand;
use crate::command::effect::{Effect, Observation};
use crate::command::{history_executed, history_redid, history_undid, stacks, AnyCommand, CommandHistory, CommandKind};
use crate::cursor_state::{clamp_cursor, cursor_of, CursorState};
use crate::git::{CommitInfo, CommitView};
use crate::ui::commit_view::{self, edit_text};
use crate::ui::scroll;
use crate::git::{FileDiff, FileDiffView, FileStatus};
use crate::git_patch::{self, line_patch_in_range, spec_find_hunk, spec_hunk_patch, spec_line_number, spec_line_patch};
use crate::ui::keyboard::{
    is_diff_move_down, is_diff_move_up, is_horizontal_left, is_horizontal_right, is_move_down,
    is_move_up, is_stage_toggle, is_vertical_navigation, Key,
};
use crate::ui::scroll::{main_diff_lines, sat_add, unstaged_diff_lines};
use vstd::prelude::*;

verus! {

/// An entry of the unstaged pane's list.
#[derive(Debug)]
pub enum UnstagedListItem {
    UnstagedChangesHeader,
    File(FileDiff),
    UntrackedFilesHeader,
    UntrackedFile(String),
}

/// An entry of the main pane's list: staged files, the commit message input
/// and the previous commits, some of which may be edited.
#[derive(Debug)]
pub enum ListItem {
    StagedChangesHeader,
    File(FileDiff),
    CommitMessageInput,
    PreviousCommitInfo {
        hash: String,
        message: String,
        is_on_remote: bool,
        is_fixup: bool,
    },
    AmendingCommitMessageInput {
        hash: String,
        message: String,
    },
    EditingReorderCommit {
        hash: String,
        original_message: String,
        current_text: String,
        cursor: usize,
        scroll_offset: usize,
        scroll_extra_space: bool,
        is_on_remote: bool,
        is_fixup: bool,
    },
}

/// The mathematical content of an [`UnstagedListItem`].
pub enum UnstagedItemView {
    UnstagedChangesHeader,
    File(FileDiffView),
    UntrackedFilesHeader,
    UntrackedFile(Seq<char>),
}

/// The mathematical content of a [`ListItem`].
pub enum ListItemView {
    StagedChangesHeader,
    File(FileDiffView),
    CommitMessageInput,
    PreviousCommitInfo { hash: Seq<char>, message: Seq<char>, is_on_remote: bool, is_fixup: bool },
    AmendingCommitMessageInput { hash: Seq<char>, message: Seq<char> },
    EditingReorderCommit {
        hash: Seq<char>,
        original_message: Seq<char>,
        current_text: Seq<char>,
        cursor: usize,
        scroll_offset: usize,
        scroll_extra_space: bool,
        is_on_remote: bool,
        is_fixup: bool,
    },
}

impl View for UnstagedListItem {
    type V = UnstagedItemView;

    open spec fn view(&self) -> UnstagedItemView {
        match self {
            UnstagedListItem::UnstagedChangesHeader => UnstagedItemView::UnstagedChangesHeader,
            UnstagedListItem::File(f) => UnstagedItemView::File(f@),
            UnstagedListItem::UntrackedFilesHeader => UnstagedItemView::UntrackedFilesHeader,
            UnstagedListItem::UntrackedFile(n) => UnstagedItemView::UntrackedFile(n@),
        }
    }
}

impl View for ListItem {
    type V = ListItemView;

    open spec fn view(&self) -> ListItemView {
        match self {
            ListItem::StagedChangesHeader => ListItemView::StagedChangesHeader,
            ListItem::File(f) => ListItemView::File(f@),
            ListItem::CommitMessageInput => ListItemView::CommitMessageInput,
            ListItem::PreviousCommitInfo { hash, message, is_on_remote, is_fixup } =>
                ListItemView::PreviousCommitInfo {
                    hash: hash@,
                    message: message@,
                    is_on_remote: *is_on_remote,
                    is_fixup: *is_fixup,
                },
            ListItem::AmendingCommitMessageInput { hash, message } =>
                ListItemView::AmendingCommitMessageInput { hash: hash@, message: message@ },
            ListItem::EditingReorderCommit {
                hash,
                original_message,
                current_text,
                cursor,
                scroll_offset,
                scroll_extra_space,
                is_on_remote,
                is_fixup,
            } => ListItemView::EditingReorderCommit {
                hash: hash@,
                original_message: original_message@,
                current_text: current_text@,
                cursor: *cursor,
                scroll_offset: *scroll_offset,
                scroll_extra_space: *scroll_extra_space,
                is_on_remote: *is_on_remote,
                is_fixup: *is_fixup,
            },
        }
    }
}

/// The views of the main list's items.
pub open spec fn item_views(v: Seq<ListItem>) -> Seq<ListItemView> {
    v.map_values(|i: ListItem| i@)
}

/// The views of the unstaged list's items.
pub open spec fn unstaged_item_views(v: Seq<UnstagedListItem>) -> Seq<UnstagedItemView> {
    v.map_values(|i: UnstagedListItem| i@)
}

impl Clone for UnstagedListItem {
    fn clone(&self) -> (r: Self)
        ensures
            r@ == self@,
    {
        match self {
            UnstagedListItem::UnstagedChangesHeader => UnstagedListItem::UnstagedChangesHeader,
            UnstagedListItem::File(f) => UnstagedListItem::File(f.clone()),
            UnstagedListItem::UntrackedFilesHeader => UnstagedListItem::UntrackedFilesHeader,
            UnstagedListItem::UntrackedFile(n) => UnstagedListItem::UntrackedFile(n.clone()),
        }
    }
}

impl Clone for ListItem {
    fn clone(&self) -> (r: Self)
        ensures
            r@ == self@,
    {
        match self {
            ListItem::StagedChangesHeader => ListItem::StagedChangesHeader,
            ListItem::File(f) => ListItem::File(f.clone()),
            ListItem::CommitMessageInput => ListItem::CommitMessageInput,
            ListItem::PreviousCommitInfo { hash, message, is_on_remote, is_fixup } =>
                ListItem::PreviousCommitInfo {
                    hash: hash.clone(),
                    message: message.clone(),
                    is_on_remote: *is_on_remote,
                    is_fixup: *is_fixup,
                },
            ListItem::AmendingCommitMessageInput { hash, message } =>
                ListItem::AmendingCommitMessageInput { hash: hash.clone(), message: message.clone() },
            ListItem::EditingReorderCommit {
                hash,
                original_message,
                current_text,
                cursor,
                scroll_offset,
                scroll_extra_space,
                is_on_remote,
                is_fixup,
            } => ListItem::EditingReorderCommit {
                hash: hash.clone(),
                original_message: original_message.clone(),
                current_text: current_text.clone(),
                cursor: *cursor,
                scroll_offset: *scroll_offset,
                scroll_extra_space: *scroll_extra_space,
                is_on_remote: *is_on_remote,
                is_fixup: *is_fixup,
            },
        }
    }
}

/// A copy of a list of main items.
pub fn clone_items(v: &Vec<ListItem>) -> (r: Vec<ListItem>)
    ensures
        item_views(r@) == item_views(v@),
{
    let mut r: Vec<ListItem> = Vec::new();
    let mut i: usize = 0;
    while i < v.len()
        invariant
            i <= v@.len(),
            r@.len() == i,
            forall|k: int| 0 <= k < i ==> #[trigger] r@[k]@ == v@[k]@,
        decreases v@.len() - i,
    {
        r.push(v[i].clone());
        i = i + 1;
    }
    assert(item_views(r@) =~= item_views(v@));
    r
}

/// Whether the content holds a zero byte, which marks a file as binary.
pub fn is_binary(content: &Vec<u8>) -> (r: bool)
    ensures
        r == content@.contains(0u8),
{
    let mut i: usize = 0;
    while i < content.len()
        invariant
            i <= content@.len(),
            forall|k: int| 0 <= k < i ==> content@[k] != 0u8,
        decreases content@.len() - i,
    {
        if content[i] == 0u8 {
            assert(content@[i as int] == 0u8);
            return true;
        }
        i = i + 1;
    }
    false
}


// ---------------------------------------------------------------------------
// Paths and small helpers
// ---------------------------------------------------------------------------

/// The columns the line numbers of a diff take; a horizontal scroll moves by
/// the rest of the screen's width.
pub const LINE_CONTENT_OFFSET: usize = 10;

/// `name` inside the directory `dir`, as `Path::join` forms it: an absolute
/// `name` stands alone, else a `'/'` separates the two unless `dir` is empty
/// or already ends with one.
pub open spec fn joined_path(dir: Seq<char>, name: Seq<char>) -> Seq<char> {
    if name.len() > 0 && name[0] == '/' {
        name
    } else if dir.len() == 0 || dir.last() == '/' {
        dir + name
    } else {
        dir + seq!['/'] + name
    }
}

/// The path of `name` inside the directory `dir`.
pub fn join_path(dir: &str, name: &str) -> (r: String)
    ensures
        r@ == joined_path(dir@, name@),
{
    let n = crate::text::chars_of(name);
    if n.len() > 0 && n[0] == '/' {
        return crate::git::owned(name);
    }
    let d = crate::text::chars_of(dir);
    let mut r = crate::git::owned(dir);
    if !(d.len() == 0 || d[d.len() - 1] == '/') {
        crate::text::string_push(&mut r, '/');
    }
    crate::text::push_all(&mut r, name);
    r
}

/// The columns a horizontal scroll moves on a screen `max_x` columns wide.
pub open spec fn horizontal_step(max_x: i32) -> int {
    sat_sub(max_x as usize as int, LINE_CONTENT_OFFSET as int)
}

/// The state with other actions.
pub open spec fn with_actions(s: AppState, actions: Vec<UiAction>) -> AppState {
    AppState { actions, ..s }
}

/// `row` is below the rows `[top, top + height)`: the view starting at
/// `top` must move so that `row` is its last row.
pub open spec fn follow_row(row: int, top: int, height: int) -> int {
    if row >= top + height { sat_add(row - height, 1) } else { top }
}

// ---------------------------------------------------------------------------
// Moving in the main pane
// ---------------------------------------------------------------------------

/// Up in the main list: from its top, when there are unstaged changes, to
/// the bottom of the unstaged list (`true`); else one item up, the diff back
/// at its start, the list scrolled to keep the cursor in view (`false`).
pub open spec fn main_moved_up(s: AppState, max_y: i32) -> (AppState, bool) {
    let n = s.unstaged_pane.list_items@.len();
    if s.main_screen.file_cursor == 0 && s.main_screen.has_unstaged_changes && n > 0 {
        let c = (n - 1) as int;
        (AppState {
            focused_pane: FocusedPane::Unstaged,
            unstaged_pane: crate::app_state::UnstagedPaneState {
                cursor: c as usize,
                scroll: follow_row(c, s.unstaged_pane.scroll as int, list_height(max_y, n) as int) as usize,
                ..s.unstaged_pane
            },
            ..s
        }, true)
    } else {
        let fc = sat_sub(s.main_screen.file_cursor as int, 1);
        (AppState {
            main_screen: crate::app_state::MainScreenState {
                file_cursor: fc as usize,
                diff_scroll: 0,
                line_cursor: 0,
                is_diff_cursor_active: false,
                file_list_scroll: if fc < s.main_screen.file_list_scroll { fc as usize } else { s.main_screen.file_list_scroll },
                ..s.main_screen
            },
            ..s
        }, false)
    }
}

/// Moves up in the main list; returns whether it went to the unstaged list.
pub fn handle_main_move_up(state: &mut AppState, max_y: i32) -> (r: bool)
    ensures
        (*final(state), r) == main_moved_up(*old(state), max_y),
{
    if state.main_screen.file_cursor == 0 && state.main_screen.has_unstaged_changes {
        let n = state.unstaged_pane.list_items.len();
        if n > 0 {
            state.focused_pane = FocusedPane::Unstaged;
            state.unstaged_pane.cursor = n - 1;
            let (h, _) = state.unstaged_header_height(max_y);
            let c = n - 1;
            if h <= c && c - h >= state.unstaged_pane.scroll {
                state.unstaged_pane.scroll = (c - h).saturating_add(1);
            }
            return true;
        }
    }
    let fc = state.main_screen.file_cursor.saturating_sub(1);
    state.main_screen.file_cursor = fc;
    state.main_screen.diff_scroll = 0;
    state.main_screen.line_cursor = 0;
    state.main_screen.is_diff_cursor_active = false;
    if fc < state.main_screen.file_list_scroll {
        state.main_screen.file_list_scroll = fc;
    }
    false
}

/// Down in the main list: one item down (not past the last), the diff back
/// at its start when the cursor moved, the list scrolled to keep the cursor
/// in view.
pub open spec fn main_moved_down(s: AppState, max_y: i32) -> AppState {
    let len = s.main_screen.list_items@.len();
    let moves = s.main_screen.file_cursor < sat_sub(len as int, 1);
    let fc: int = if moves { s.main_screen.file_cursor + 1 } else { s.main_screen.file_cursor as int };
    AppState {
        main_screen: crate::app_state::MainScreenState {
            file_cursor: fc as usize,
            diff_scroll: if moves { 0 } else { s.main_screen.diff_scroll },
            line_cursor: if moves { 0 } else { s.main_screen.line_cursor },
            is_diff_cursor_active: false,
            file_list_scroll: follow_row(fc, s.main_screen.file_list_scroll as int, list_height(max_y, len) as int) as usize,
            ..s.main_screen
        },
        ..s
    }
}

/// Moves down in the main list.
pub fn handle_main_move_down(state: &mut AppState, max_y: i32)
    ensures
        *final(state) == main_moved_down(*old(state), max_y),
{
    if state.main_screen.file_cursor < state.main_screen.list_items.len().saturating_sub(1) {
        state.main_screen.file_cursor = state.main_screen.file_cursor + 1;
        state.main_screen.diff_scroll = 0;
        state.main_screen.line_cursor = 0;
    }
    state.main_screen.is_diff_cursor_active = false;
    let h = state.main_header_height(max_y).0;
    let fc = state.main_screen.file_cursor;
    if h <= fc && fc - h >= state.main_screen.file_list_scroll {
        state.main_screen.file_list_scroll = (fc - h).saturating_add(1);
    }
}

/// `k` in the main pane: the diff cursor becomes active and moves up a line;
/// the view follows when the cursor would be above it.
pub open spec fn main_diff_moved_up(s: AppState) -> AppState {
    let lc = sat_sub(s.main_screen.line_cursor as int, 1);
    let shown = if crate::app_state::shows_diff(item_at(item_views(s.main_screen.list_items@), s.main_screen.file_cursor as int)) {
        lc
    } else {
        0
    };
    AppState {
        main_screen: crate::app_state::MainScreenState {
            is_diff_cursor_active: true,
            line_cursor: lc as usize,
            diff_scroll: if shown < s.main_screen.diff_scroll { shown as usize } else { s.main_screen.diff_scroll },
            ..s.main_screen
        },
        ..s
    }
}

/// Moves the main diff cursor up.
pub fn handle_main_diff_move_up(state: &mut AppState)
    ensures
        *final(state) == main_diff_moved_up(*old(state)),
{
    state.main_screen.is_diff_cursor_active = true;
    state.main_screen.line_cursor = state.main_screen.line_cursor.saturating_sub(1);
    let cursor_line = state.get_cursor_line_index();
    if cursor_line < state.main_screen.diff_scroll {
        state.main_screen.diff_scroll = cursor_line;
    }
}

/// The rows of the diff below the lists.
pub open spec fn diff_rows(s: AppState, max_y: i32) -> int {
    let offset: int = if s.main_screen.has_unstaged_changes {
        list_height(max_y, s.unstaged_pane.list_items@.len()) + 1
    } else {
        0
    };
    sat_sub(max_y as usize as int, offset + list_height(max_y, s.main_screen.list_items@.len()))
}

/// `j` in the main pane: the diff cursor becomes active and moves down a
/// line (not past the last); the view follows when the cursor would leave
/// it.
pub open spec fn main_diff_moved_down(s: AppState, max_y: i32) -> AppState {
    let count = main_diff_lines(s);
    let moves = count > 0 && s.main_screen.line_cursor < count - 1;
    let lc: int = if moves { s.main_screen.line_cursor + 1 } else { s.main_screen.line_cursor as int };
    AppState {
        main_screen: crate::app_state::MainScreenState {
            is_diff_cursor_active: true,
            line_cursor: lc as usize,
            diff_scroll: if moves {
                follow_row(lc, s.main_screen.diff_scroll as int, diff_rows(s, max_y)) as usize
            } else {
                s.main_screen.diff_scroll
            },
            ..s.main_screen
        },
        ..s
    }
}

/// Moves the main diff cursor down.
pub fn handle_main_diff_move_down(state: &mut AppState, max_y: i32)
    ensures
        *final(state) == main_diff_moved_down(*old(state), max_y),
{
    state.main_screen.is_diff_cursor_active = true;
    let lines_count = match state.current_main_item() {
        Some(ListItem::File(file)) => file.lines.len(),
        Some(ListItem::PreviousCommitInfo { .. }) => crate::app_state::count_lines_before(
            &state.selected_commit_files, state.selected_commit_files.len()),
        _ => 0,
    };
    if lines_count > 0 && state.main_screen.line_cursor < lines_count - 1 {
        let lc = state.main_screen.line_cursor + 1;
        state.main_screen.line_cursor = lc;
        let rows = diff_rows_exec(state, max_y);
        if rows <= lc && lc - rows >= state.main_screen.diff_scroll {
            state.main_screen.diff_scroll = (lc - rows).saturating_add(1);
        }
    }
}

/// The rows of the diff below the lists.
fn diff_rows_exec(state: &AppState, max_y: i32) -> (r: usize)
    ensures
        r == diff_rows(*state, max_y),
{
    let offset: usize = if state.main_screen.has_unstaged_changes {
        state.unstaged_header_height(max_y).0 + 1
    } else {
        0
    };
    let main_height = state.main_header_height(max_y).0;
    (max_y as usize).saturating_sub(offset + main_height)
}

/// The left arrow scrolls the main diff left by the width of the text.
pub fn handle_main_horizontal_scroll_left(state: &mut AppState, max_x: i32)
    ensures
        *final(state) == (AppState {
            main_screen: crate::app_state::MainScreenState {
                horizontal_scroll: sat_sub(old(state).main_screen.horizontal_scroll as int, horizontal_step(max_x)) as usize,
                ..old(state).main_screen
            },
            ..*old(state)
        }),
{
    let amount = (max_x as usize).saturating_sub(LINE_CONTENT_OFFSET);
    state.main_screen.horizontal_scroll = state.main_screen.horizontal_scroll.saturating_sub(amount);
}

/// The right arrow scrolls the main diff right by the width of the text.
pub fn handle_main_horizontal_scroll_right(state: &mut AppState, max_x: i32)
    ensures
        *final(state) == (AppState {
            main_screen: crate::app_state::MainScreenState {
                horizontal_scroll: sat_add(old(state).main_screen.horizontal_scroll as int, horizontal_step(max_x)) as usize,
                ..old(state).main_screen
            },
            ..*old(state)
        }),
{
    let amount = (max_x as usize).saturating_sub(LINE_CONTENT_OFFSET);
    state.main_screen.horizontal_scroll = state.main_screen.horizontal_scroll.saturating_add(amount);
}

// ---------------------------------------------------------------------------
// Moving in the unstaged pane
// ---------------------------------------------------------------------------

/// Quitting: the program ends once the commit message draft is stored.
pub open spec fn quitting(s: AppState) -> AppState {
    AppState { running: false, ..s }
}

/// The actions after asking to store the draft.
pub open spec fn saving_draft(s: AppState) -> Seq<UiAction> {
    s.actions@.push(UiAction::SaveCommitMessage(s.main_screen.commit_message))
}

/// Stores the commit message draft and ends the program.
fn quit(state: &mut AppState)
    ensures
        *final(state) == with_actions(quitting(*old(state)), final(state).actions),
        final(state).actions@ == saving_draft(*old(state)),
{
    let m = state.main_screen.commit_message.clone();
    state.actions.push(UiAction::SaveCommitMessage(m));
    state.running = false;
}

/// What `q` does in the unstaged pane: it leaves the diff cursor when that
/// is active; otherwise the program ends with the draft stored.
pub open spec fn unstaged_quit_done(o: AppState, n: AppState) -> bool {
    if o.unstaged_pane.is_diff_cursor_active {
        n == (AppState {
            unstaged_pane: crate::app_state::UnstagedPaneState { is_diff_cursor_active: false, ..o.unstaged_pane },
            ..o
        })
    } else {
        n == with_actions(quitting(o), n.actions) && n.actions@ == saving_draft(o)
    }
}

/// Handles `q` in the unstaged pane (see [`unstaged_quit_done`]).
pub fn handle_unstaged_quit(state: &mut AppState, input: &Key) -> (r: bool)
    ensures
        r == (*input == Key::Character('q')),
        !r ==> *final(state) == *old(state),
        r ==> unstaged_quit_done(*old(state), *final(state)),
{
    if *input == Key::Character('q') {
        if state.unstaged_pane.is_diff_cursor_active {
            state.unstaged_pane.is_diff_cursor_active = false;
        } else {
            quit(state);
        }
        return true;
    }
    false
}

/// The up arrow or Ctrl-P.
pub open spec fn is_up_key(k: Key) -> bool {
    k == Key::KeyUp || k == Key::Character('\u{10}')
}

/// The down arrow or Ctrl-N.
pub open spec fn is_down_key(k: Key) -> bool {
    k == Key::KeyDown || k == Key::Character('\u{e}')
}

/// The unstaged cursor at `c`, the diff back at its start and inactive, the
/// list scrolled to `scroll`.
pub open spec fn unstaged_at(s: AppState, c: int, scroll: int) -> AppState {
    AppState {
        unstaged_pane: crate::app_state::UnstagedPaneState {
            cursor: c as usize,
            diff_scroll: 0,
            is_diff_cursor_active: false,
            scroll: scroll as usize,
            ..s.unstaged_pane
        },
        main_screen: crate::app_state::MainScreenState { line_cursor: 0, ..s.main_screen },
        ..s
    }
}

/// Up and down in the unstaged list: one item, the list scrolling to keep
/// the cursor in view; down from the last item goes to the top of the main
/// list when it has items.
pub open spec fn unstaged_moved(s: AppState, input: Key, height: usize, total: usize) -> AppState {
    if is_up_key(input) {
        let c = sat_sub(s.unstaged_pane.cursor as int, 1);
        unstaged_at(s, c, if c < s.unstaged_pane.scroll { c } else { s.unstaged_pane.scroll as int })
    } else if total > 0 && s.unstaged_pane.cursor == total - 1 && s.main_screen.list_items@.len() > 0 {
        AppState {
            focused_pane: FocusedPane::Main,
            main_screen: crate::app_state::MainScreenState { file_cursor: 0, file_list_scroll: 0, ..s.main_screen },
            ..s
        }
    } else {
        let c = min_of(sat_add(s.unstaged_pane.cursor as int, 1), sat_sub(total as int, 1));
        unstaged_at(s, c, follow_row(c, s.unstaged_pane.scroll as int, height as int))
    }
}

/// Moves in the unstaged list on up and down; returns whether the key was one.
pub fn handle_unstaged_vertical_navigation(state: &mut AppState, input: &Key, file_list_height: usize, total_items: usize) -> (r: bool)
    ensures
        r == (is_up_key(*input) || is_down_key(*input)),
        !r ==> *final(state) == *old(state),
        r ==> *final(state) == unstaged_moved(*old(state), *input, file_list_height, total_items),
{
    if is_move_up(input) {
        let c = state.unstaged_pane.cursor.saturating_sub(1);
        state.unstaged_pane.cursor = c;
        state.unstaged_pane.diff_scroll = 0;
        state.main_screen.line_cursor = 0;
        state.unstaged_pane.is_diff_cursor_active = false;
        if c < state.unstaged_pane.scroll {
            state.unstaged_pane.scroll = c;
        }
        return true;
    }
    if is_move_down(input) {
        if total_items > 0 && state.unstaged_pane.cursor == total_items - 1 && state.main_screen.list_items.len() > 0 {
            state.focused_pane = FocusedPane::Main;
            state.main_screen.file_cursor = 0;
            state.main_screen.file_list_scroll = 0;
            return true;
        }
        let up = state.unstaged_pane.cursor.saturating_add(1);
        let limit = total_items.saturating_sub(1);
        let c = if up < limit { up } else { limit };
        state.unstaged_pane.cursor = c;
        state.unstaged_pane.diff_scroll = 0;
        state.main_screen.line_cursor = 0;
        state.unstaged_pane.is_diff_cursor_active = false;
        if file_list_height <= c && c - file_list_height >= state.unstaged_pane.scroll {
            state.unstaged_pane.scroll = (c - file_list_height).saturating_add(1);
        }
        return true;
    }
    false
}

/// `k` and `j` in the unstaged pane: the diff cursor becomes active and the
/// line cursor moves up or down a line (down not past the last); the view
/// follows.
pub open spec fn unstaged_diff_moved(s: AppState, input: Key, max_y: i32) -> AppState {
    if input == Key::Character('k') {
        let lc = sat_sub(s.main_screen.line_cursor as int, 1);
        AppState {
            main_screen: crate::app_state::MainScreenState { line_cursor: lc as usize, ..s.main_screen },
            unstaged_pane: crate::app_state::UnstagedPaneState {
                is_diff_cursor_active: true,
                diff_scroll: if lc < s.unstaged_pane.diff_scroll { lc as usize } else { s.unstaged_pane.diff_scroll },
                ..s.unstaged_pane
            },
            ..s
        }
    } else {
        let moves = s.main_screen.line_cursor < sat_sub(unstaged_diff_lines(s), 1);
        let lc: int = if moves { s.main_screen.line_cursor + 1 } else { s.main_screen.line_cursor as int };
        AppState {
            main_screen: crate::app_state::MainScreenState { line_cursor: lc as usize, ..s.main_screen },
            unstaged_pane: crate::app_state::UnstagedPaneState {
                is_diff_cursor_active: true,
                diff_scroll: if moves {
                    follow_row(lc, s.unstaged_pane.diff_scroll as int, diff_rows(s, max_y)) as usize
                } else {
                    s.unstaged_pane.diff_scroll
                },
                ..s.unstaged_pane
            },
            ..s
        }
    }
}

/// Moves the unstaged diff cursor on `k` and `j`; returns whether the key
/// was one.
pub fn handle_unstaged_diff_navigation(state: &mut AppState, input: &Key, max_y: i32) -> (r: bool)
    ensures
        r == (*input == Key::Character('k') || *input == Key::Character('j')),
        !r ==> *final(state) == *old(state),
        r ==> *final(state) == unstaged_diff_moved(*old(state), *input, max_y),
{
    if is_diff_move_up(input) {
        state.unstaged_pane.is_diff_cursor_active = true;
        let lc = state.main_screen.line_cursor.saturating_sub(1);
        state.main_screen.line_cursor = lc;
        if lc < state.unstaged_pane.diff_scroll {
            state.unstaged_pane.diff_scroll = lc;
        }
        return true;
    }
    if is_diff_move_down(input) {
        state.unstaged_pane.is_diff_cursor_active = true;
        let count: usize = if state.unstaged_pane.cursor < state.unstaged_pane.list_items.len() {
            match &state.unstaged_pane.list_items[state.unstaged_pane.cursor] {
                UnstagedListItem::File(f) => f.lines.len(),
                UnstagedListItem::UntrackedFile(_) => state.unstaged_pane.preview.line_count(),
                _ => 0,
            }
        } else {
            0
        };
        if state.main_screen.line_cursor < count.saturating_sub(1) {
            let lc = state.main_screen.line_cursor + 1;
            state.main_screen.line_cursor = lc;
            let rows = diff_rows_exec(state, max_y);
            if rows <= lc && lc - rows >= state.unstaged_pane.diff_scroll {
                state.unstaged_pane.diff_scroll = (lc - rows).saturating_add(1);
            }
        }
        return true;
    }
    false
}

/// The arrows scroll the unstaged diff sideways by the width of the text.
pub open spec fn unstaged_scrolled_sideways(s: AppState, input: Key, max_x: i32) -> AppState {
    AppState {
        unstaged_pane: crate::app_state::UnstagedPaneState {
            horizontal_scroll: if input == Key::KeyLeft {
                sat_sub(s.unstaged_pane.horizontal_scroll as int, horizontal_step(max_x)) as usize
            } else {
                sat_add(s.unstaged_pane.horizontal_scroll as int, horizontal_step(max_x)) as usize
            },
            ..s.unstaged_pane
        },
        ..s
    }
}

/// Scrolls the unstaged diff sideways on the arrows; returns whether the key
/// was one.
pub fn handle_unstaged_horizontal_scroll(state: &mut AppState, input: &Key, max_x: i32) -> (r: bool)
    ensures
        r == (*input == Key::KeyLeft || *input == Key::KeyRight),
        !r ==> *final(state) == *old(state),
        r ==> *final(state) == unstaged_scrolled_sideways(*old(state), *input, max_x),
{
    let amount = (max_x as usize).saturating_sub(LINE_CONTENT_OFFSET);
    if is_horizontal_left(input) {
        state.unstaged_pane.horizontal_scroll = state.unstaged_pane.horizontal_scroll.saturating_sub(amount);
        return true;
    }
    if is_horizontal_right(input) {
        state.unstaged_pane.horizontal_scroll = state.unstaged_pane.horizontal_scroll.saturating_add(amount);
        return true;
    }
    false
}


// ---------------------------------------------------------------------------
// Asking for commands
// ---------------------------------------------------------------------------

/// The command `kind`, made afresh.
pub open spec fn fresh(kind: CommandKind) -> AnyCommand {
    AnyCommand { kind, cursor_before_execute: None, cursor_before_undo: None }
}

/// Running `kind`, which needs nothing read, then `follow`.
pub open spec fn run_ready(kind: CommandKind, follow: FollowUp) -> UiAction {
    UiAction::RunCommand { plan: CommandPlan::Ready(fresh(kind)), follow }
}

/// Running a plan that needs reads.
pub open spec fn run_plan(plan: CommandPlan) -> UiAction {
    UiAction::RunCommand { plan, follow: FollowUp::Nothing }
}

/// The commands made of a patch.
#[derive(PartialEq, Eq, Structural)]
pub enum PatchCommand {
    /// Stage it.
    Stage,
    /// Apply it in reverse to the index.
    Apply,
    /// Apply it in reverse to the work tree.
    DiscardUnstaged,
    /// Apply it in reverse to the index and the work tree.
    Discard,
}

/// The action runs the command `which` made of `patch`, then `follow`.
pub open spec fn runs_patch(a: UiAction, repo: String, which: PatchCommand, patch: Seq<char>, follow: FollowUp) -> bool {
    match a {
        UiAction::RunCommand { plan: CommandPlan::Ready(c), follow: f } => {
            &&& f == follow
            &&& c.cursor_before_execute is None
            &&& c.cursor_before_undo is None
            &&& match c.kind {
                CommandKind::StagePatch(x) => which == PatchCommand::Stage && x.repo_path == repo && x.patch@ == patch,
                CommandKind::ApplyPatch(x) => which == PatchCommand::Apply && x.repo_path == repo && x.patch@ == patch,
                CommandKind::DiscardUnstagedHunk(x) => which == PatchCommand::DiscardUnstaged && x.repo_path == repo && x.patch@ == patch,
                CommandKind::DiscardHunk(x) => which == PatchCommand::Discard && x.repo_path == repo && x.patch@ == patch,
                _ => false,
            }
        },
        _ => false,
    }
}

/// One more action, which `pred` accepts, was asked for and nothing else changed.
pub open spec fn asked(a: AppState, b: AppState) -> bool {
    &&& b == with_actions(a, b.actions)
    &&& b.actions@.len() == a.actions@.len() + 1
    &&& b.actions@.drop_last() == a.actions@
}

/// Asks for `action`.
fn push_action(state: &mut AppState, action: UiAction)
    ensures
        *final(state) == with_actions(*old(state), final(state).actions),
        final(state).actions@ == old(state).actions@.push(action),
        final(state).actions@.drop_last() == old(state).actions@,
        final(state).actions@.last() == action,
{
    state.actions.push(action);
    assert(state.actions@.drop_last() =~= old(state).actions@);
}

/// The item under the unstaged cursor.
pub open spec fn unstaged_item(s: AppState) -> Option<UnstagedListItem> {
    if s.unstaged_pane.cursor < s.unstaged_pane.list_items@.len() {
        Some(s.unstaged_pane.list_items@[s.unstaged_pane.cursor as int])
    } else {
        None
    }
}

/// Enter or `u` in the unstaged pane stages what is under the cursor: all
/// changed files on their header, all untracked files on theirs, a file, or,
/// with the diff cursor on a hunk of a changed file, that hunk (keeping the
/// line cursor where it was).
pub open spec fn unstaged_stage_asked(s: AppState, max_y: i32, b: AppState) -> bool {
    match unstaged_item(s) {
        Some(UnstagedListItem::UnstagedChangesHeader) => b == with_actions(s, b.actions) && b.actions@ == s.actions@.push(run_plan(CommandPlan::StageUnstaged)),
        Some(UnstagedListItem::File(f)) => {
            match (if s.unstaged_pane.is_diff_cursor_active { spec_find_hunk(f@, s.main_screen.line_cursor as int) } else { None }) {
                Some(h) => asked(s, b) && runs_patch(b.actions@.last(), s.repo_path, PatchCommand::Stage,
                    spec_hunk_patch(f@.file_name, h), FollowUp::KeepUnstagedLine { old_line_cursor: s.main_screen.line_cursor, max_y }),
                None => b == with_actions(s, b.actions) && b.actions@ == s.actions@.push(run_ready(
                    CommandKind::StageFile(StageFileCommand { repo_path: s.repo_path, file_name: f.file_name }), FollowUp::Nothing)),
            }
        },
        Some(UnstagedListItem::UntrackedFilesHeader) => b == with_actions(s, b.actions) && b.actions@ == s.actions@.push(run_plan(CommandPlan::StageUntracked)),
        Some(UnstagedListItem::UntrackedFile(n)) => b == with_actions(s, b.actions) && b.actions@ == s.actions@.push(run_ready(
            CommandKind::StageFile(StageFileCommand { repo_path: s.repo_path, file_name: n }), FollowUp::Nothing)),
        None => b == s,
    }
}

/// Stages what is under the unstaged cursor on Enter or `u`; returns
/// whether the key was one of them.
pub fn handle_unstaged_stage_action(state: &mut AppState, input: &Key, max_y: i32) -> (r: bool)
    ensures
        r == (*input == Key::Character('\n') || *input == Key::Character('u')),
        !r ==> *final(state) == *old(state),
        r ==> unstaged_stage_asked(*old(state), max_y, *final(state)),
{
    if !is_stage_toggle(input) {
        return false;
    }
    if state.unstaged_pane.cursor >= state.unstaged_pane.list_items.len() {
        return true;
    }
    let i = state.unstaged_pane.cursor;
    let action = match &state.unstaged_pane.list_items[i] {
        UnstagedListItem::UnstagedChangesHeader => UiAction::RunCommand { plan: CommandPlan::StageUnstaged, follow: FollowUp::Nothing },
        UnstagedListItem::File(file) => {
            let hunk = if state.unstaged_pane.is_diff_cursor_active {
                git_patch::find_hunk(file, state.main_screen.line_cursor)
            } else {
                None
            };
            match hunk {
                Some(h) => {
                    let patch = git_patch::create_stage_hunk_patch(file, h);
                    UiAction::RunCommand {
                        plan: CommandPlan::Ready(AnyCommand::new(CommandKind::StagePatch(StagePatchCommand::new(state.repo_path.clone(), patch)))),
                        follow: FollowUp::KeepUnstagedLine { old_line_cursor: state.main_screen.line_cursor, max_y },
                    }
                },
                None => UiAction::RunCommand {
                    plan: CommandPlan::Ready(AnyCommand::new(CommandKind::StageFile(StageFileCommand::new(
                        state.repo_path.clone(), file.file_name.clone())))),
                    follow: FollowUp::Nothing,
                },
            }
        },
        UnstagedListItem::UntrackedFilesHeader => UiAction::RunCommand { plan: CommandPlan::StageUntracked, follow: FollowUp::Nothing },
        UnstagedListItem::UntrackedFile(name) => UiAction::RunCommand {
            plan: CommandPlan::Ready(AnyCommand::new(CommandKind::StageFile(StageFileCommand::new(
                state.repo_path.clone(), name.clone())))),
            follow: FollowUp::Nothing,
        },
    };
    push_action(state, action);
    true
}

/// `1` in the unstaged pane stages the single changed line under the diff
/// cursor of a changed file, keeping the line cursor where it was.
pub open spec fn unstaged_line_asked(s: AppState, max_y: i32, b: AppState) -> bool {
    match unstaged_item(s) {
        Some(UnstagedListItem::File(f)) => {
            let line = s.main_screen.line_cursor as int;
            if (line < f@.lines.len() ==> line_patch_in_range(f@, line, false)) && spec_line_patch(f@, line, false) is Some {
                asked(s, b) && runs_patch(b.actions@.last(), s.repo_path, PatchCommand::Stage, spec_line_patch(f@, line, false)->0,
                    FollowUp::KeepUnstagedLine { old_line_cursor: s.main_screen.line_cursor, max_y })
            } else {
                b == s
            }
        },
        _ => b == s,
    }
}

/// Stages the line under the unstaged diff cursor on `1`; returns whether
/// the key was `1`.
pub fn handle_unstaged_stage_line(state: &mut AppState, input: &Key, max_y: i32) -> (r: bool)
    ensures
        r == (*input == Key::Character('1')),
        !r ==> *final(state) == *old(state),
        r ==> unstaged_line_asked(*old(state), max_y, *final(state)),
{
    if *input != Key::Character('1') {
        return false;
    }
    if state.unstaged_pane.cursor >= state.unstaged_pane.list_items.len() {
        return true;
    }
    let line = state.main_screen.line_cursor;
    let patch = match &state.unstaged_pane.list_items[state.unstaged_pane.cursor] {
        UnstagedListItem::File(file) => {
            if git_patch::line_patch_fits(file, line, false) {
                git_patch::create_stage_line_patch(file, line)
            } else {
                None
            }
        },
        _ => None,
    };
    if let Some(p) = patch {
        let action = UiAction::RunCommand {
            plan: CommandPlan::Ready(AnyCommand::new(CommandKind::StagePatch(StagePatchCommand::new(state.repo_path.clone(), p)))),
            follow: FollowUp::KeepUnstagedLine { old_line_cursor: line, max_y },
        };
        push_action(state, action);
    }
    true
}

/// Staging every change is asked for, and nothing else changes.
pub open spec fn stage_all_asked(o: AppState, n: AppState) -> bool {
    n == with_actions(o, n.actions) && n.actions@ == o.actions@.push(run_plan(CommandPlan::StageAll))
}

/// `R` stages every change.
pub fn handle_unstaged_stage_all(state: &mut AppState, input: &Key) -> (r: bool)
    ensures
        r == (*input == Key::Character('R')),
        !r ==> *final(state) == *old(state),
        r ==> stage_all_asked(*old(state), *final(state)),
{
    if *input == Key::Character('R') {
        push_action(state, UiAction::RunCommand { plan: CommandPlan::StageAll, follow: FollowUp::Nothing });
        return true;
    }
    false
}

/// The editor is asked to open `path`, at `line` if given.
pub open spec fn editor_asked(a: AppState, b: AppState, path: Seq<char>, line: Option<int>) -> bool {
    &&& b == AppState { editor_request: b.editor_request, ..a }
    &&& b.editor_request matches Some(r) && r.file_path@ == path && match r.line_number {
        Some(n) => line == Some(n as int),
        None => line is None,
    }
}

/// The line an editor opens for line `line` of a file's diff, when its
/// number fits.
pub open spec fn editor_line(f: FileDiffView, line: int) -> Option<int> {
    match spec_line_number(f, line) {
        Some(n) => if n <= usize::MAX { Some(n) } else { None },
        None => None,
    }
}

/// The line an editor opens for line `line` of `file`'s diff.
fn editor_line_exec(file: &FileDiff, line: usize) -> (r: Option<usize>)
    ensures
        match r {
            Some(n) => editor_line(file@, line as int) == Some(n as int),
            None => editor_line(file@, line as int) is None,
        },
{
    if git_patch::line_number_fits(file, line) {
        git_patch::get_line_number(file, line)
    } else {
        None
    }
}

/// What `e` does in the unstaged pane: the file under the cursor is opened
/// in an editor, a changed file at the line under the diff cursor.
pub open spec fn unstaged_editor_done(o: AppState, n: AppState) -> bool {
    match unstaged_item(o) {
        Some(UnstagedListItem::File(f)) => editor_asked(o, n, joined_path(o.repo_path@, f.file_name@),
            editor_line(f@, o.main_screen.line_cursor as int)),
        Some(UnstagedListItem::UntrackedFile(name)) => editor_asked(o, n, joined_path(o.repo_path@, name@), None),
        _ => n == o,
    }
}

/// Handles `e` in the unstaged pane (see [`unstaged_editor_done`]).
pub fn handle_unstaged_open_editor(state: &mut AppState, input: &Key) -> (r: bool)
    ensures
        r == (*input == Key::Character('e')),
        !r ==> *final(state) == *old(state),
        r ==> unstaged_editor_done(*old(state), *final(state)),
{
    if *input != Key::Character('e') {
        return false;
    }
    if state.unstaged_pane.cursor >= state.unstaged_pane.list_items.len() {
        return true;
    }
    let request = match &state.unstaged_pane.list_items[state.unstaged_pane.cursor] {
        UnstagedListItem::File(file) => Some(EditorRequest {
            file_path: join_path(state.repo_path.as_str(), file.file_name.as_str()),
            line_number: editor_line_exec(file, state.main_screen.line_cursor),
        }),
        UnstagedListItem::UntrackedFile(name) => Some(EditorRequest {
            file_path: join_path(state.repo_path.as_str(), name.as_str()),
            line_number: None,
        }),
        _ => None,
    };
    if request.is_some() {
        state.editor_request = request;
    }
    true
}

/// `!` in the unstaged pane throws away what is under the cursor: the hunk
/// under the diff cursor, a changed file's changes, or an untracked file.
pub open spec fn unstaged_discard_asked(s: AppState, b: AppState) -> bool {
    match unstaged_item(s) {
        Some(UnstagedListItem::File(f)) => {
            if s.unstaged_pane.is_diff_cursor_active {
                match spec_find_hunk(f@, s.main_screen.line_cursor as int) {
                    Some(h) => asked(s, b) && runs_patch(b.actions@.last(), s.repo_path, PatchCommand::DiscardUnstaged,
                        spec_hunk_patch(f@.file_name, h), FollowUp::Nothing),
                    None => b == s,
                }
            } else {
                b == with_actions(s, b.actions) && b.actions@ == s.actions@.push(run_plan(CommandPlan::CheckoutFile { file_name: f.file_name }))
            }
        },
        Some(UnstagedListItem::UntrackedFile(n)) => b == with_actions(s, b.actions)
            && b.actions@ == s.actions@.push(run_plan(CommandPlan::DeleteUntrackedFile { file_name: n })),
        _ => b == s,
    }
}

/// Throws away what is under the unstaged cursor on `!`; returns whether
/// the key was `!`.
pub fn handle_unstaged_discard(state: &mut AppState, input: &Key) -> (r: bool)
    ensures
        r == (*input == Key::Character('!')),
        !r ==> *final(state) == *old(state),
        r ==> unstaged_discard_asked(*old(state), *final(state)),
{
    if *input != Key::Character('!') {
        return false;
    }
    if state.unstaged_pane.cursor >= state.unstaged_pane.list_items.len() {
        return true;
    }
    let action = match &state.unstaged_pane.list_items[state.unstaged_pane.cursor] {
        UnstagedListItem::File(file) => {
            if state.unstaged_pane.is_diff_cursor_active {
                match git_patch::find_hunk(file, state.main_screen.line_cursor) {
                    Some(h) => {
                        let patch = git_patch::create_unstage_hunk_patch(file, h);
                        Some(UiAction::RunCommand {
                            plan: CommandPlan::Ready(AnyCommand::new(CommandKind::DiscardUnstagedHunk(
                                DiscardUnstagedHunkCommand::new(state.repo_path.clone(), patch)))),
                            follow: FollowUp::Nothing,
                        })
                    },
                    None => None,
                }
            } else {
                Some(UiAction::RunCommand { plan: CommandPlan::CheckoutFile { file_name: file.file_name.clone() }, follow: FollowUp::Nothing })
            }
        },
        UnstagedListItem::UntrackedFile(name) => Some(UiAction::RunCommand {
            plan: CommandPlan::DeleteUntrackedFile { file_name: name.clone() },
            follow: FollowUp::Nothing,
        }),
        _ => None,
    };
    if let Some(a) = action {
        push_action(state, a);
    }
    true
}

/// `i` in the unstaged pane ignores the file under the cursor, unless it is
/// the ignore file itself.
pub open spec fn unstaged_ignore_asked(s: AppState, b: AppState) -> bool {
    match unstaged_item(s) {
        Some(UnstagedListItem::File(f)) => if f.file_name@ != ".gitignore"@ {
            b == with_actions(s, b.actions) && b.actions@ == s.actions@.push(run_ready(
                CommandKind::IgnoreUnstagedTrackedFile(IgnoreUnstagedTrackedFileCommand { repo_path: s.repo_path, file_name: f.file_name }),
                FollowUp::Nothing))
        } else {
            b == s
        },
        Some(UnstagedListItem::UntrackedFile(n)) => if n@ != ".gitignore"@ {
            b == with_actions(s, b.actions) && b.actions@ == s.actions@.push(run_plan(CommandPlan::IgnoreUntrackedFile { file_name: n }))
        } else {
            b == s
        },
        _ => b == s,
    }
}

/// Ignores the file under the unstaged cursor on `i`; returns whether the
/// key was `i`.
pub fn handle_unstaged_ignore(state: &mut AppState, input: &Key) -> (r: bool)
    ensures
        r == (*input == Key::Character('i')),
        !r ==> *final(state) == *old(state),
        r ==> unstaged_ignore_asked(*old(state), *final(state)),
{
    if *input != Key::Character('i') {
        return false;
    }
    if state.unstaged_pane.cursor >= state.unstaged_pane.list_items.len() {
        return true;
    }
    let action = match &state.unstaged_pane.list_items[state.unstaged_pane.cursor] {
        UnstagedListItem::File(file) => {
            if !crate::text::str_equal(file.file_name.as_str(), ".gitignore") {
                Some(UiAction::RunCommand {
                    plan: CommandPlan::Ready(AnyCommand::new(CommandKind::IgnoreUnstagedTrackedFile(
                        IgnoreUnstagedTrackedFileCommand::new(state.repo_path.clone(), file.file_name.clone())))),
                    follow: FollowUp::Nothing,
                })
            } else {
                None
            }
        },
        UnstagedListItem::UntrackedFile(name) => {
            if !crate::text::str_equal(name.as_str(), ".gitignore") {
                Some(UiAction::RunCommand { plan: CommandPlan::IgnoreUntrackedFile { file_name: name.clone() }, follow: FollowUp::Nothing })
            } else {
                None
            }
        },
        _ => None,
    };
    if let Some(a) = action {
        push_action(state, a);
    }
    true
}


// ---------------------------------------------------------------------------
// Commands of the main pane
// ---------------------------------------------------------------------------

/// The item under the main cursor.
pub open spec fn main_item(s: AppState) -> Option<ListItem> {
    if s.main_screen.file_cursor < s.main_screen.list_items@.len() {
        Some(s.main_screen.list_items@[s.main_screen.file_cursor as int])
    } else {
        None
    }
}

/// What `q` does in the main pane: it leaves the diff cursor when that is
/// active; otherwise the program ends with the draft stored.
pub open spec fn main_quit_done(o: AppState, n: AppState) -> bool {
    if o.main_screen.is_diff_cursor_active {
        n == (AppState {
            main_screen: crate::app_state::MainScreenState { is_diff_cursor_active: false, ..o.main_screen },
            ..o
        })
    } else {
        n == with_actions(quitting(o), n.actions) && n.actions@ == saving_draft(o)
    }
}

/// Handles `q` in the main pane (see [`main_quit_done`]).
pub fn handle_main_quit(state: &mut AppState, input: &Key) -> (r: bool)
    ensures
        r == (*input == Key::Character('q')),
        !r ==> *final(state) == *old(state),
        r ==> main_quit_done(*old(state), *final(state)),
{
    if *input == Key::Character('q') {
        if state.main_screen.is_diff_cursor_active {
            state.main_screen.is_diff_cursor_active = false;
        } else {
            quit(state);
        }
        return true;
    }
    false
}

/// What `i` does in the main pane: the staged file under the cursor is
/// ignored, unless it is the ignore file itself.
pub open spec fn main_ignore_done(o: AppState, n: AppState) -> bool {
    match main_item(o) {
        Some(ListItem::File(f)) => if f.file_name@ != ".gitignore"@ {
            n == with_actions(o, n.actions)
                && n.actions@ == o.actions@.push(run_ready(
                CommandKind::IgnoreFile(IgnoreFileCommand { repo_path: o.repo_path, file_name: f.file_name }), FollowUp::Nothing))
        } else {
            n == o
        },
        _ => n == o,
    }
}

/// Handles `i` in the main pane (see [`main_ignore_done`]).
pub fn handle_main_ignore(state: &mut AppState, input: &Key) -> (r: bool)
    ensures
        r == (*input == Key::Character('i')),
        !r ==> *final(state) == *old(state),
        r ==> main_ignore_done(*old(state), *final(state)),
{
    if *input != Key::Character('i') {
        return false;
    }
    let action = match state.current_main_file() {
        Some(file) => {
            if !crate::text::str_equal(file.file_name.as_str(), ".gitignore") {
                Some(UiAction::RunCommand {
                    plan: CommandPlan::Ready(AnyCommand::new(CommandKind::IgnoreFile(
                        IgnoreFileCommand::new(state.repo_path.clone(), file.file_name.clone())))),
                    follow: FollowUp::Nothing,
                })
            } else {
                None
            }
        },
        None => None,
    };
    if let Some(a) = action {
        push_action(state, a);
    }
    true
}

/// `!` in the main pane throws away staged changes: the hunk under the diff
/// cursor when it is active, else the whole staged file.
pub open spec fn main_discard_asked(s: AppState, b: AppState) -> bool {
    match main_item(s) {
        Some(ListItem::File(f)) => {
            if s.main_screen.is_diff_cursor_active {
                match spec_find_hunk(f@, s.main_screen.line_cursor as int) {
                    Some(h) => asked(s, b) && runs_patch(b.actions@.last(), s.repo_path, PatchCommand::Discard,
                        spec_hunk_patch(f@.file_name, h), FollowUp::Nothing),
                    None => b == s,
                }
            } else {
                b == with_actions(s, b.actions) && b.actions@ == s.actions@.push(run_plan(
                    CommandPlan::DiscardFile { file_name: f.file_name, is_new: f.status == FileStatus::Added }))
            }
        },
        _ => b == s,
    }
}

/// Throws away staged changes on `!`; returns whether the key was `!`.
pub fn handle_main_discard(state: &mut AppState, input: &Key) -> (r: bool)
    ensures
        r == (*input == Key::Character('!')),
        !r ==> *final(state) == *old(state),
        r ==> main_discard_asked(*old(state), *final(state)),
{
    if *input != Key::Character('!') {
        return false;
    }
    let action = match state.current_main_file() {
        Some(file) => {
            if state.main_screen.is_diff_cursor_active {
                match git_patch::find_hunk(file, state.main_screen.line_cursor) {
                    Some(h) => {
                        let patch = git_patch::create_unstage_hunk_patch(file, h);
                        Some(UiAction::RunCommand {
                            plan: CommandPlan::Ready(AnyCommand::new(CommandKind::DiscardHunk(
                                DiscardHunkCommand::new(state.repo_path.clone(), patch)))),
                            follow: FollowUp::Nothing,
                        })
                    },
                    None => None,
                }
            } else {
                let is_new = file.status == FileStatus::Added;
                Some(UiAction::RunCommand {
                    plan: CommandPlan::DiscardFile { file_name: file.file_name.clone(), is_new },
                    follow: FollowUp::Nothing,
                })
            }
        },
        None => None,
    };
    if let Some(a) = action {
        push_action(state, a);
    }
    true
}

/// The position of the commit message input in the list, if it is there.
pub open spec fn has_message_input(items: Seq<ListItem>) -> bool {
    exists|k: int| 0 <= k < items.len() && items[k] is CommitMessageInput
}

/// Enter or `u` in the main pane: on the header, unstage everything; on a
/// staged file, unstage the hunk under the line cursor, or the whole file
/// outside every hunk. On a commit: with the diff cursor on a summary line,
/// jump to that file's patch; else, unless the commit is on a remote, start
/// amending it, its message in the input (the new commit's message is then
/// emptied).
pub open spec fn main_toggle_done(s: AppState, b: AppState) -> bool {
    match main_item(s) {
        Some(ListItem::StagedChangesHeader) => b == with_actions(s, b.actions)
            && b.actions@ == s.actions@.push(run_plan(CommandPlan::UnstageAll)),
        Some(ListItem::File(f)) => match spec_find_hunk(f@, s.main_screen.line_cursor as int) {
            Some(h) => asked(s, b) && runs_patch(b.actions@.last(), s.repo_path, PatchCommand::Apply,
                spec_hunk_patch(f@.file_name, h), FollowUp::Nothing),
            None => b == with_actions(s, b.actions) && b.actions@ == s.actions@.push(run_ready(
                CommandKind::UnstageFile(UnstageFileCommand { repo_path: s.repo_path, file_name: f.file_name }), FollowUp::Nothing)),
        },
        Some(ListItem::PreviousCommitInfo { hash, message, is_on_remote, .. }) => {
            let jumps = s.main_screen.is_diff_cursor_active
                && crate::app_state::jump_target(crate::git::file_views(s.selected_commit_files@), s.main_screen.line_cursor as int) is Some;
            if jumps {
                b.main_screen.list_items == s.main_screen.list_items && b.actions == s.actions
            } else if is_on_remote {
                b.main_screen.list_items == s.main_screen.list_items && b.actions == s.actions
                    && b.main_screen.amending_commit_hash == s.main_screen.amending_commit_hash
            } else {
                &&& b.main_screen.amending_commit_hash == Some(hash)
                &&& item_views(b.main_screen.list_items@) == item_views(s.main_screen.list_items@).update(
                    s.main_screen.file_cursor as int, ListItemView::AmendingCommitMessageInput { hash: hash@, message: message@ })
                &&& b.main_screen.commit_cursor == message@.len()
                &&& (if has_message_input(s.main_screen.list_items@) { b.main_screen.commit_message@.len() == 0 }
                    else { b.main_screen.commit_message == s.main_screen.commit_message })
                &&& b.actions == s.actions
                &&& b.main_screen.file_cursor == s.main_screen.file_cursor
            }
        },
        _ => b == s,
    }
}

/// The position of the first commit of `items` from `k` on.
pub open spec fn first_commit_from(items: Seq<ListItem>, k: int) -> Option<int>
    decreases items.len() - k,
{
    if k < 0 || k >= items.len() {
        None
    } else if items[k] is PreviousCommitInfo {
        Some(k)
    } else {
        first_commit_from(items, k + 1)
    }
}

/// What Tab does in the commit message input: it switches to amending the
/// last commit (the first commit of the list), unless that commit is on a
/// remote branch. As on Enter over that commit, its item becomes the amend
/// input holding its message, the draft is cleared, and the cursor moves to
/// the amend input, at the end of the message. Elsewhere, or while a commit
/// is amended, nothing changes.
pub open spec fn tab_amend_done(o: AppState, n: AppState) -> bool {
    if main_item(o) matches Some(ListItem::CommitMessageInput) && o.main_screen.amending_commit_hash is None {
        match first_commit_from(o.main_screen.list_items@, 0) {
            Some(k) => match o.main_screen.list_items@[k] {
                ListItem::PreviousCommitInfo { hash, message, is_on_remote, .. } => if is_on_remote {
                    n == o
                } else {
                    &&& n == (AppState {
                        main_screen: crate::app_state::MainScreenState {
                            amending_commit_hash: Some(hash),
                            list_items: n.main_screen.list_items,
                            file_cursor: k as usize,
                            commit_cursor: message@.len() as usize,
                            commit_message: n.main_screen.commit_message,
                            ..o.main_screen
                        },
                        ..o
                    })
                    &&& item_views(n.main_screen.list_items@) == item_views(o.main_screen.list_items@).update(k,
                        ListItemView::AmendingCommitMessageInput { hash: hash@, message: message@ })
                    &&& n.main_screen.commit_message@.len() == 0
                },
                _ => n == o,
            },
            None => n == o,
        }
    } else {
        n == o
    }
}

/// The position of the first commit of `items`.
fn find_first_commit(items: &Vec<ListItem>) -> (r: Option<usize>)
    ensures
        match r {
            Some(k) => k < items@.len() && first_commit_from(items@, 0) == Some(k as int),
            None => first_commit_from(items@, 0) is None,
        },
{
    let mut i: usize = 0;
    while i < items.len()
        invariant
            i <= items@.len(),
            first_commit_from(items@, 0) == first_commit_from(items@, i as int),
        decreases items@.len() - i,
    {
        match &items[i] {
            ListItem::PreviousCommitInfo { .. } => {
                return Some(i);
            },
            _ => {},
        }
        i = i + 1;
    }
    None
}

/// Switches from the commit message input to amending the last commit (see
/// [`tab_amend_done`]).
pub fn amend_from_message_input(state: &mut AppState)
    ensures
        tab_amend_done(*old(state), *final(state)),
{
    let on_message = match state.current_main_item() {
        Some(ListItem::CommitMessageInput) => true,
        _ => false,
    };
    if !on_message || state.main_screen.amending_commit_hash.is_some() {
        return;
    }
    let k = match find_first_commit(&state.main_screen.list_items) {
        Some(k) => k,
        None => return,
    };
    let (hash, message, on_remote) = match &state.main_screen.list_items[k] {
        ListItem::PreviousCommitInfo { hash, message, is_on_remote, .. } => (hash.clone(), message.clone(), *is_on_remote),
        _ => return,
    };
    if on_remote {
        return;
    }
    state.main_screen.amending_commit_hash = Some(hash.clone());
    let count = crate::text::chars_of(message.as_str()).len();
    let ghost before = state.main_screen.list_items@;
    state.main_screen.list_items[k] = ListItem::AmendingCommitMessageInput { hash, message };
    assert(item_views(state.main_screen.list_items@) =~= item_views(before).update(k as int,
        ListItemView::AmendingCommitMessageInput { hash: hash@, message: message@ }));
    state.main_screen.file_cursor = k;
    state.main_screen.commit_cursor = count;
    state.main_screen.commit_message = String::new();
}

/// Stages or unstages on Enter or `u`; returns whether the key was one of
/// them.
pub fn handle_main_stage_toggle(state: &mut AppState, input: &Key) -> (r: bool)
    ensures
        r == (*input == Key::Character('\n') || *input == Key::Character('u')),
        !r ==> *final(state) == *old(state),
        r ==> main_toggle_done(*old(state), *final(state)),
        final(state).running == old(state).running,
{
    if !is_stage_toggle(input) {
        return false;
    }
    let mut action: Option<UiAction> = None;
    let mut commit: Option<(String, String, bool)> = None;
    match state.current_main_item() {
        None => {},
        Some(ListItem::StagedChangesHeader) => {
            action = Some(UiAction::RunCommand { plan: CommandPlan::UnstageAll, follow: FollowUp::Nothing });
        },
        Some(ListItem::File(file)) => {
            action = Some(match git_patch::find_hunk(file, state.main_screen.line_cursor) {
                Some(h) => {
                    let patch = git_patch::create_unstage_hunk_patch(file, h);
                    UiAction::RunCommand {
                        plan: CommandPlan::Ready(AnyCommand::new(CommandKind::ApplyPatch(ApplyPatchCommand::new(state.repo_path.clone(), patch)))),
                        follow: FollowUp::Nothing,
                    }
                },
                None => UiAction::RunCommand {
                    plan: CommandPlan::Ready(AnyCommand::new(CommandKind::UnstageFile(
                        UnstageFileCommand::new(state.repo_path.clone(), file.file_name.clone())))),
                    follow: FollowUp::Nothing,
                },
            });
        },
        Some(ListItem::PreviousCommitInfo { hash, message, is_on_remote, .. }) => {
            commit = Some((hash.clone(), message.clone(), *is_on_remote));
        },
        _ => {},
    }
    if let Some(a) = action {
        push_action(state, a);
        return true;
    }
    if let Some((hash, message, is_on_remote)) = commit {
        if state.main_screen.is_diff_cursor_active {
            if state.jump_to_file_in_diff() {
                return true;
            }
        }
        if !is_on_remote {
            state.main_screen.amending_commit_hash = Some(hash.clone());
            let i = state.main_screen.file_cursor;
            let ghost before = state.main_screen.list_items@;
            let count = crate::text::chars_of(message.as_str()).len();
            state.main_screen.list_items[i] = ListItem::AmendingCommitMessageInput { hash, message };
            assert(item_views(state.main_screen.list_items@) =~= item_views(before).update(i as int,
                ListItemView::AmendingCommitMessageInput { hash: hash@, message: message@ }));
            assert forall|k: int| 0 <= k < state.main_screen.list_items@.len() implies
                (state.main_screen.list_items@[k] is CommitMessageInput <==> before[k] is CommitMessageInput) by {
                if k == i as int {
                    assert(item_views(before)[k] matches ListItemView::PreviousCommitInfo { .. });
                    assert(item_views(state.main_screen.list_items@)[k] matches ListItemView::AmendingCommitMessageInput { .. });
                } else {
                    assert(item_views(state.main_screen.list_items@)[k] == item_views(before)[k]);
                }
            }
            if contains_message_input(&state.main_screen.list_items) {
                state.main_screen.commit_message = String::new();
            }
            state.main_screen.commit_cursor = count;
        }
    }
    true
}

/// Whether the list holds the commit message input.
fn contains_message_input(items: &Vec<ListItem>) -> (r: bool)
    ensures
        r == has_message_input(items@),
{
    let mut i: usize = 0;
    while i < items.len()
        invariant
            i <= items@.len(),
            forall|k: int| 0 <= k < i ==> !(items@[k] is CommitMessageInput),
        decreases items@.len() - i,
    {
        if let ListItem::CommitMessageInput = &items[i] {
            return true;
        }
        i = i + 1;
    }
    false
}

/// `1` in the main pane unstages the single changed line under the line
/// cursor of a staged file, keeping the line cursor where it was.
pub open spec fn main_line_asked(s: AppState, max_y: i32, b: AppState) -> bool {
    match main_item(s) {
        Some(ListItem::File(f)) => {
            let line = s.main_screen.line_cursor as int;
            if (line < f@.lines.len() ==> line_patch_in_range(f@, line, true)) && spec_line_patch(f@, line, true) is Some {
                asked(s, b) && runs_patch(b.actions@.last(), s.repo_path, PatchCommand::Apply, spec_line_patch(f@, line, true)->0,
                    FollowUp::KeepMainLine { old_line_cursor: s.main_screen.line_cursor, max_y })
            } else {
                b == s
            }
        },
        _ => b == s,
    }
}

/// Unstages the line under the main line cursor.
pub fn unstage_line(state: &mut AppState, max_y: i32)
    ensures
        main_line_asked(*old(state), max_y, *final(state)),
{
    let line = state.main_screen.line_cursor;
    let patch = match state.current_main_file() {
        Some(file) => {
            if git_patch::line_patch_fits(file, line, true) {
                git_patch::create_unstage_line_patch(file, line, true)
            } else {
                None
            }
        },
        None => None,
    };
    if let Some(p) = patch {
        let action = UiAction::RunCommand {
            plan: CommandPlan::Ready(AnyCommand::new(CommandKind::ApplyPatch(ApplyPatchCommand::new(state.repo_path.clone(), p)))),
            follow: FollowUp::KeepMainLine { old_line_cursor: line, max_y },
        };
        push_action(state, action);
    }
}

/// Unstages a line on `1`; returns whether the key was `1`.
pub fn handle_main_stage_line(state: &mut AppState, input: &Key, max_y: i32) -> (r: bool)
    ensures
        r == (*input == Key::Character('1')),
        !r ==> *final(state) == *old(state),
        r ==> main_line_asked(*old(state), max_y, *final(state)),
{
    if *input != Key::Character('1') {
        return false;
    }
    unstage_line(state, max_y);
    true
}

/// `R` stages every change.
pub fn handle_main_stage_all(state: &mut AppState, input: &Key) -> (r: bool)
    ensures
        r == (*input == Key::Character('R')),
        !r ==> *final(state) == *old(state),
        r ==> stage_all_asked(*old(state), *final(state)),
{
    if *input == Key::Character('R') {
        push_action(state, UiAction::RunCommand { plan: CommandPlan::StageAll, follow: FollowUp::Nothing });
        return true;
    }
    false
}

/// What `e` does in the main pane: the staged file under the cursor is
/// opened in an editor, at the line under the diff cursor when it is active.
pub open spec fn main_editor_done(o: AppState, n: AppState) -> bool {
    match main_item(o) {
        Some(ListItem::File(f)) => editor_asked(o, n, joined_path(o.repo_path@, f.file_name@),
            if o.main_screen.is_diff_cursor_active { editor_line(f@, o.main_screen.line_cursor as int) } else { None }),
        _ => n == o,
    }
}

/// Handles `e` in the main pane (see [`main_editor_done`]).
pub fn handle_main_open_editor(state: &mut AppState, input: &Key) -> (r: bool)
    ensures
        r == (*input == Key::Character('e')),
        !r ==> *final(state) == *old(state),
        r ==> main_editor_done(*old(state), *final(state)),
{
    if *input != Key::Character('e') {
        return false;
    }
    let request = match state.current_main_file() {
        Some(file) => {
            let line_number = if state.main_screen.is_diff_cursor_active {
                editor_line_exec(file, state.main_screen.line_cursor)
            } else {
                None
            };
            Some(EditorRequest { file_path: join_path(state.repo_path.as_str(), file.file_name.as_str()), line_number })
        },
        None => None,
    };
    if request.is_some() {
        state.editor_request = request;
    }
    true
}

/// The keys of the main pane's commands.
pub open spec fn is_main_command_key(k: Key) -> bool {
    k == Key::Character('q') || k == Key::Character('i') || k == Key::Character('!') || k == Key::Character('\n')
        || k == Key::Character('u') || k == Key::Character('1') || k == Key::Character('R') || k == Key::Character('e')
}

/// What a command key does in the main pane (see [`handle_commands`]).
pub open spec fn commands_done(o: AppState, input: Key, max_y: i32, n: AppState) -> bool {
    &&& (input == Key::Character('q') ==> main_quit_done(o, n))
    &&& (input == Key::Character('i') ==> main_ignore_done(o, n))
    &&& (input == Key::Character('R') ==> stage_all_asked(o, n))
    &&& (input == Key::Character('e') ==> main_editor_done(o, n))
    &&& (input == Key::Character('!') ==> main_discard_asked(o, n))
    &&& ((input == Key::Character('\n') || input == Key::Character('u')) ==> main_toggle_done(o, n))
    &&& (input == Key::Character('1') ==> main_line_asked(o, max_y, n))
}

/// Runs the command of the main pane a key asks for; returns whether the key
/// was one.
pub fn handle_commands(state: &mut AppState, input: &Key, max_y: i32) -> (r: bool)
    ensures
        r == is_main_command_key(*input),
        !r ==> *final(state) == *old(state),
        commands_done(*old(state), *input, max_y, *final(state)),

{
    if handle_main_quit(state, input) {
        return true;
    }
    if handle_main_ignore(state, input) {
        return true;
    }
    if handle_main_discard(state, input) {
        return true;
    }
    if handle_main_stage_toggle(state, input) {
        return true;
    }
    if handle_main_stage_line(state, input, max_y) {
        return true;
    }
    if handle_main_stage_all(state, input) {
        return true;
    }
    if handle_main_open_editor(state, input) {
        return true;
    }
    false
}


// ---------------------------------------------------------------------------
// Keys of the unstaged pane
// ---------------------------------------------------------------------------

/// What a key does in the unstaged pane (see [`handle_unstaged_pane_input`]).
pub open spec fn unstaged_input_done(o: AppState, input: Key, max_y: i32, max_x: i32, n: AppState) -> bool {
    &&& (input == Key::Character('q') ==> unstaged_quit_done(o, n))
    &&& (input == Key::Character('R') ==> stage_all_asked(o, n))
    &&& (input == Key::Character('e') ==> unstaged_editor_done(o, n))
    &&& (!is_unstaged_key(input) ==> scroll::paged(o, input, max_y, n))
    &&& ((is_up_key(input) || is_down_key(input)) ==> n == unstaged_moved(o, input,
            list_height(max_y, o.unstaged_pane.list_items@.len()), o.unstaged_pane.list_items@.len() as usize))
    &&& ((input == Key::Character('k') || input == Key::Character('j')) ==> n == unstaged_diff_moved(o, input, max_y))
    &&& ((input == Key::KeyLeft || input == Key::KeyRight) ==> n == unstaged_scrolled_sideways(o, input, max_x))
    &&& ((input == Key::Character('\n') || input == Key::Character('u')) ==> unstaged_stage_asked(o, max_y, n))
    &&& (input == Key::Character('1') ==> unstaged_line_asked(o, max_y, n))
    &&& (input == Key::Character('!') ==> unstaged_discard_asked(o, n))
    &&& (input == Key::Character('i') ==> unstaged_ignore_asked(o, n))
}

/// The keys of the unstaged pane's own: quitting, moving, scrolling
/// sideways, staging, discarding, ignoring, opening an editor.
pub open spec fn is_unstaged_key(k: Key) -> bool {
    k == Key::Character('q') || is_up_key(k) || is_down_key(k) || k == Key::Character('k') || k == Key::Character('j')
        || k == Key::KeyLeft || k == Key::KeyRight || k == Key::Character('\n') || k == Key::Character('u')
        || k == Key::Character('1') || k == Key::Character('R') || k == Key::Character('e')
        || k == Key::Character('!') || k == Key::Character('i')
}

/// A key in the unstaged pane: quitting, moving, scrolling, staging,
/// discarding, ignoring or opening an editor, else paging through the diff.
pub fn handle_unstaged_pane_input(state: &mut AppState, input: Key, max_y: i32, max_x: i32)
    ensures
        unstaged_input_done(*old(state), input, max_y, max_x, *final(state)),

{
    let (file_list_height, unstaged_items_count) = state.unstaged_header_height(max_y);
    if handle_unstaged_quit(state, &input) {
        return;
    }
    if handle_unstaged_vertical_navigation(state, &input, file_list_height, unstaged_items_count) {
        return;
    }
    if handle_unstaged_diff_navigation(state, &input, max_y) {
        return;
    }
    if handle_unstaged_horizontal_scroll(state, &input, max_x) {
        return;
    }
    if handle_unstaged_stage_action(state, &input, max_y) {
        return;
    }
    if handle_unstaged_stage_line(state, &input, max_y) {
        return;
    }
    if handle_unstaged_stage_all(state, &input) {
        return;
    }
    if handle_unstaged_open_editor(state, &input) {
        return;
    }
    if handle_unstaged_discard(state, &input) {
        return;
    }
    if handle_unstaged_ignore(state, &input) {
        return;
    }
    scroll::handle_scroll(state, input, max_y);
}

// ---------------------------------------------------------------------------
// Reordering commits
// ---------------------------------------------------------------------------

/// The commits of a list, in order: each commit item, a commit being renamed
/// with its new text (and no fixup mark).
pub open spec fn commits_of(items: Seq<ListItemView>) -> Seq<CommitView>
    decreases items.len(),
{
    if items.len() == 0 {
        Seq::empty()
    } else {
        let rest = commits_of(items.drop_last());
        match items.last() {
            ListItemView::PreviousCommitInfo { hash, message, is_on_remote, is_fixup } =>
                rest.push(CommitView { hash, message, is_on_remote, is_fixup }),
            ListItemView::EditingReorderCommit { hash, current_text, is_on_remote, .. } =>
                rest.push(CommitView { hash, message: current_text, is_on_remote, is_fixup: false }),
            _ => rest,
        }
    }
}

/// The commits of a list.
pub fn get_commits_from_list(list: &Vec<ListItem>) -> (r: Vec<CommitInfo>)
    ensures
        crate::git::commit_views(r@) == commits_of(item_views(list@)),
{
    let ghost v = item_views(list@);
    let mut out: Vec<CommitInfo> = Vec::new();
    let mut i: usize = 0;
    while i < list.len()
        invariant
            i <= list@.len(),
            v == item_views(list@),
            crate::git::commit_views(out@) == commits_of(v.subrange(0, i as int)),
        decreases list@.len() - i,
    {
        let ghost before = out@;
        assert(v.subrange(0, i + 1).drop_last() == v.subrange(0, i as int));
        assert(v.subrange(0, i + 1).last() == list@[i as int]@);
        match &list[i] {
            ListItem::PreviousCommitInfo { hash, message, is_on_remote, is_fixup } => {
                out.push(CommitInfo { hash: hash.clone(), message: message.clone(), is_on_remote: *is_on_remote, is_fixup: *is_fixup });
                assert(crate::git::commit_views(out@) =~= crate::git::commit_views(before).push(out@.last()@));
            },
            ListItem::EditingReorderCommit { hash, current_text, is_on_remote, .. } => {
                out.push(CommitInfo { hash: hash.clone(), message: current_text.clone(), is_on_remote: *is_on_remote, is_fixup: false });
                assert(crate::git::commit_views(out@) =~= crate::git::commit_views(before).push(out@.last()@));
            },
            _ => {},
        }
        i = i + 1;
    }
    assert(v.subrange(0, list@.len() as int) == v);
    out
}

/// Whether a list item stands for a commit (as it is or being renamed).
pub open spec fn is_commit_item(item: ListItemView) -> bool {
    item is PreviousCommitInfo || item is EditingReorderCommit
}

/// How many of the first `i` items stand for commits.
pub open spec fn commit_items_before(items: Seq<ListItemView>, i: int) -> nat
    decreases i,
{
    if i <= 0 {
        0
    } else if is_commit_item(items[i - 1]) {
        commit_items_before(items, i - 1) + 1
    } else {
        commit_items_before(items, i - 1)
    }
}

proof fn lemma_commit_items_before_drop_last(items: Seq<ListItemView>, i: int)
    requires
        0 <= i < items.len(),
    ensures
        commit_items_before(items.drop_last(), i) == commit_items_before(items, i),
    decreases i,
{
    if i > 0 {
        lemma_commit_items_before_drop_last(items, i - 1);
        assert(items.drop_last()[i - 1] == items[i - 1]);
    }
}

/// The commits of a list correspond one for one, in order, to its commit
/// items: there are as many commits as commit items, and the item at `i`
/// gives the commit numbered by the commit items before it. A commit item
/// gives its own hash, message, remote flag and fixup mark; a commit being
/// renamed gives its new text and no fixup mark.
pub proof fn lemma_commits_follow_the_items(items: Seq<ListItemView>)
    ensures
        commits_of(items).len() == commit_items_before(items, items.len() as int),
        forall|i: int| 0 <= i < items.len() && is_commit_item(#[trigger] items[i]) ==> {
            let c = commits_of(items)[commit_items_before(items, i) as int];
            &&& commit_items_before(items, i) < commits_of(items).len()
            &&& c.hash == (match items[i] {
                ListItemView::PreviousCommitInfo { hash, .. } => hash,
                ListItemView::EditingReorderCommit { hash, .. } => hash,
                _ => c.hash,
            })
            &&& (items[i] matches ListItemView::PreviousCommitInfo { message, is_on_remote, is_fixup, .. }
                ==> c.message == message && c.is_on_remote == is_on_remote && c.is_fixup == is_fixup)
            &&& (items[i] matches ListItemView::EditingReorderCommit { current_text, is_on_remote, .. }
                ==> c.message == current_text && c.is_on_remote == is_on_remote && !c.is_fixup)
        },
    decreases items.len(),
{
    if items.len() > 0 {
        let rest = items.drop_last();
        let n = items.len() - 1;
        lemma_commits_follow_the_items(rest);
        lemma_commit_items_before_drop_last(items, n);
        assert forall|i: int| 0 <= i < items.len() && is_commit_item(#[trigger] items[i]) implies {
            let c = commits_of(items)[commit_items_before(items, i) as int];
            &&& commit_items_before(items, i) < commits_of(items).len()
            &&& c.hash == (match items[i] {
                ListItemView::PreviousCommitInfo { hash, .. } => hash,
                ListItemView::EditingReorderCommit { hash, .. } => hash,
                _ => c.hash,
            })
            &&& (items[i] matches ListItemView::PreviousCommitInfo { message, is_on_remote, is_fixup, .. }
                ==> c.message == message && c.is_on_remote == is_on_remote && c.is_fixup == is_fixup)
            &&& (items[i] matches ListItemView::EditingReorderCommit { current_text, is_on_remote, .. }
                ==> c.message == current_text && c.is_on_remote == is_on_remote && !c.is_fixup)
        } by {
            if i < n {
                lemma_commit_items_before_drop_last(items, i);
                assert(rest[i] == items[i]);
                assert(is_commit_item(rest[i]));
            }
        }
    }
}

/// Two lists whose commit items agree but for the fixup mark of one commit
/// item give different commits: marking a commit for fixup is never lost.
pub proof fn lemma_fixup_mark_changes_the_commits(items: Seq<ListItemView>, i: int)
    requires
        0 <= i < items.len(),
        items[i] is PreviousCommitInfo,
    ensures
        commits_of(items) != commits_of(items.update(i, match items[i] {
            ListItemView::PreviousCommitInfo { hash, message, is_on_remote, is_fixup } =>
                ListItemView::PreviousCommitInfo { hash, message, is_on_remote, is_fixup: !is_fixup },
            other => other,
        })),
{
    let marked = items.update(i, match items[i] {
        ListItemView::PreviousCommitInfo { hash, message, is_on_remote, is_fixup } =>
            ListItemView::PreviousCommitInfo { hash, message, is_on_remote, is_fixup: !is_fixup },
        other => other,
    });
    lemma_commits_follow_the_items(items);
    lemma_commits_follow_the_items(marked);
    lemma_same_commit_positions(items, marked, i);
    assert(is_commit_item(items[i]));
    assert(is_commit_item(marked[i]));
    let k = commit_items_before(items, i) as int;
    assert(commits_of(items)[k].is_fixup != commits_of(marked)[k].is_fixup);
}

/// Lists that agree on which items stand for commits number them alike.
proof fn lemma_same_commit_positions(a: Seq<ListItemView>, b: Seq<ListItemView>, i: int)
    requires
        a.len() == b.len(),
        forall|j: int| 0 <= j < a.len() ==> is_commit_item(#[trigger] a[j]) == is_commit_item(b[j]),
        0 <= i <= a.len(),
    ensures
        commit_items_before(a, i) == commit_items_before(b, i),
    decreases i,
{
    if i > 0 {
        lemma_same_commit_positions(a, b, i - 1);
        assert(is_commit_item(a[i - 1]) == is_commit_item(b[i - 1]));
    }
}

/// The commit items of a list, in order.
pub open spec fn commit_items(items: Seq<ListItemView>) -> Seq<ListItemView>
    decreases items.len(),
{
    if items.len() == 0 {
        Seq::empty()
    } else if items.last() is PreviousCommitInfo || items.last() is EditingReorderCommit {
        commit_items(items.drop_last()).push(items.last())
    } else {
        commit_items(items.drop_last())
    }
}

/// The position of the first commit item from `from` on with this hash.
pub open spec fn position_of_hash(items: Seq<ListItemView>, hash: Seq<char>, from: int) -> Option<int>
    decreases items.len() - from,
{
    if from < 0 || from >= items.len() {
        None
    } else if crate::app_state::item_hash(items[from]) == Some(hash) {
        Some(from)
    } else {
        position_of_hash(items, hash, from + 1)
    }
}

/// The position of the first commit item with this hash.
fn find_hash_position(items: &Vec<ListItem>, hash: &String) -> (r: Option<usize>)
    ensures
        match r {
            Some(k) => position_of_hash(item_views(items@), hash@, 0) == Some(k as int),
            None => position_of_hash(item_views(items@), hash@, 0) is None,
        },
{
    let ghost v = item_views(items@);
    let mut i: usize = 0;
    while i < items.len()
        invariant
            i <= items@.len(),
            v == item_views(items@),
            position_of_hash(v, hash@, i as int) == position_of_hash(v, hash@, 0),
        decreases items@.len() - i,
    {
        let matches = match &items[i] {
            ListItem::PreviousCommitInfo { hash: h, .. } => crate::text::str_equal(h.as_str(), hash.as_str()),
            ListItem::EditingReorderCommit { hash: h, .. } => crate::text::str_equal(h.as_str(), hash.as_str()),
            _ => false,
        };
        if matches {
            return Some(i);
        }
        i = i + 1;
    }
    None
}

/// Starting the reorder mode: the list is remembered, only the commits stay
/// in it, the cursor stays on the commit it was on (or goes to the first),
/// and the reorder history starts empty. Nothing happens when the mode is
/// already on.
pub open spec fn reorder_started(s: AppState, b: AppState) -> bool {
    if s.main_screen.is_reordering_commits {
        b == s
    } else {
        let before = item_views(s.main_screen.list_items@);
        let after = commit_items(before);
        &&& item_views(b.main_screen.original_list_items_for_reorder@) == before
        &&& item_views(b.main_screen.list_items@) == after
        &&& b.main_screen.file_cursor == match crate::app_state::selected_hash(s) {
            Some(h) => match position_of_hash(after, h, 0) {
                Some(k) => k,
                None => 0,
            },
            None => 0,
        }
        &&& b.main_screen.is_reordering_commits
        &&& b.reorder_command_history matches Some(h) && h.undo_stack@.len() == 0 && h.redo_stack@.len() == 0
        &&& b.actions == s.actions
        &&& b.running == s.running
    }
}

/// Starts reordering the commits.
pub fn start_reorder_mode(state: &mut AppState)
    ensures
        reorder_started(*old(state), *final(state)),
{
    if state.main_screen.is_reordering_commits {
        return;
    }
    let current_hash = state.get_selected_commit_hash();
    state.main_screen.original_list_items_for_reorder = clone_items(&state.main_screen.list_items);
    let ghost v = item_views(state.main_screen.list_items@);
    let mut kept: Vec<ListItem> = Vec::new();
    let mut old_items = Vec::new();
    std::mem::swap(&mut old_items, &mut state.main_screen.list_items);
    let mut i: usize = 0;
    let n = old_items.len();
    while i < n
        invariant
            n == old_items@.len(),
            i <= n,
            v == item_views(old_items@),
            item_views(kept@) == commit_items(v.subrange(0, i as int)),
        decreases n - i,
    {
        let ghost before = kept@;
        assert(v.subrange(0, i + 1).drop_last() == v.subrange(0, i as int));
        assert(v.subrange(0, i + 1).last() == old_items@[i as int]@);
        let keep = match &old_items[i] {
            ListItem::PreviousCommitInfo { .. } => true,
            ListItem::EditingReorderCommit { .. } => true,
            _ => false,
        };
        if keep {
            kept.push(old_items[i].clone());
            assert(item_views(kept@) =~= item_views(before).push(v[i as int]));
        }
        i = i + 1;
    }
    assert(v.subrange(0, n as int) == v);
    state.main_screen.list_items = kept;
    state.main_screen.file_cursor = match current_hash {
        Some(h) => match find_hash_position(&state.main_screen.list_items, &h) {
            Some(k) => k,
            None => 0,
        },
        None => 0,
    };
    state.main_screen.is_reordering_commits = true;
    state.reorder_command_history = Some(CommandHistory::new());
}

/// The item under the main cursor is a commit being renamed.
pub open spec fn editing_at_cursor(s: AppState) -> bool {
    main_item(s) matches Some(ListItem::EditingReorderCommit { .. })
}

/// Leaving the reorder mode without changing anything: the list as it was
/// when the mode started, the cursor on the commit it was on when it is in
/// that list, the reorder history gone.
pub open spec fn reorder_cancelled(s: AppState, b: AppState) -> bool {
    let restored = item_views(s.main_screen.original_list_items_for_reorder@);
    &&& item_views(b.main_screen.list_items@) == restored
    &&& b.main_screen.file_cursor == match crate::app_state::selected_hash(s) {
        Some(h) => match position_of_previous_commit(restored, h, 0) {
            Some(k) => k as usize,
            None => s.main_screen.file_cursor,
        },
        None => s.main_screen.file_cursor,
    }
    &&& !b.main_screen.is_reordering_commits
    &&& b.reorder_command_history is None
    &&& b.actions == s.actions
    &&& b.running == s.running
}

/// The position of the first plain commit item from `from` on with this hash.
pub open spec fn position_of_previous_commit(items: Seq<ListItemView>, hash: Seq<char>, from: int) -> Option<int>
    decreases items.len() - from,
{
    if from < 0 || from >= items.len() {
        None
    } else if items[from] matches ListItemView::PreviousCommitInfo { hash: h, .. } && h == hash {
        Some(from)
    } else {
        position_of_previous_commit(items, hash, from + 1)
    }
}

/// The position of the first plain commit item with this hash.
fn find_previous_commit(items: &Vec<ListItem>, hash: &String) -> (r: Option<usize>)
    ensures
        match r {
            Some(k) => position_of_previous_commit(item_views(items@), hash@, 0) == Some(k as int),
            None => position_of_previous_commit(item_views(items@), hash@, 0) is None,
        },
{
    let ghost v = item_views(items@);
    let mut i: usize = 0;
    while i < items.len()
        invariant
            i <= items@.len(),
            v == item_views(items@),
            position_of_previous_commit(v, hash@, i as int) == position_of_previous_commit(v, hash@, 0),
        decreases items@.len() - i,
    {
        let matches = match &items[i] {
            ListItem::PreviousCommitInfo { hash: h, .. } => crate::text::str_equal(h.as_str(), hash.as_str()),
            _ => false,
        };
        if matches {
            return Some(i);
        }
        i = i + 1;
    }
    None
}

/// Leaves the reorder mode, putting the list back as it was.
fn cancel_reorder(state: &mut AppState)
    ensures
        reorder_cancelled(*old(state), *final(state)),
        final(state).main_screen.original_list_items_for_reorder == old(state).main_screen.original_list_items_for_reorder,
{
    let current_hash = state.get_selected_commit_hash();
    state.main_screen.list_items = clone_items(&state.main_screen.original_list_items_for_reorder);
    if let Some(h) = current_hash {
        if let Some(pos) = find_previous_commit(&state.main_screen.list_items, &h) {
            state.main_screen.file_cursor = pos;
        }
    }
    state.main_screen.is_reordering_commits = false;
    state.reorder_command_history = None;
}

/// Cancelling the reorder mode right after starting it gives back the list
/// as it was, the cursor on the item it was on when that is a commit, and
/// the mode off.
pub proof fn lemma_reorder_cancel_restores(s: AppState, started: AppState, cancelled: AppState)
    requires
        !s.main_screen.is_reordering_commits,
        reorder_started(s, started),
        reorder_cancelled(started, cancelled),
    ensures
        item_views(cancelled.main_screen.list_items@) == item_views(s.main_screen.list_items@),
        !cancelled.main_screen.is_reordering_commits,
        cancelled.reorder_command_history is None,
{
}

/// What a key does to a commit being renamed: Enter keeps the new text,
/// Escape or Ctrl-C goes back to the old message, any other key edits the
/// text (which scrolls to keep its cursor in view).
pub open spec fn rename_key_done(s: AppState, input: Key, b: AppState) -> bool {
    let i = s.main_screen.file_cursor as int;
    match s.main_screen.list_items@[i]@ {
        ListItemView::EditingReorderCommit { hash, original_message, current_text, cursor, is_on_remote, is_fixup, .. } => {
            &&& b.main_screen.list_items@.len() == s.main_screen.list_items@.len()
            &&& forall|k: int| 0 <= k < s.main_screen.list_items@.len() && k != i ==> #[trigger] b.main_screen.list_items@[k] == s.main_screen.list_items@[k]
            &&& if input == Key::Character('\n') {
                b.main_screen.list_items@[i]@ == ListItemView::PreviousCommitInfo { hash, message: current_text, is_on_remote, is_fixup }
            } else if input == Key::Character('\u{1b}') || input == Key::Character('\u{3}') {
                b.main_screen.list_items@[i]@ == ListItemView::PreviousCommitInfo { hash, message: original_message, is_on_remote, is_fixup }
            } else {
                let (t2, c2) = edit_text(current_text, cursor, input);
                b.main_screen.list_items@[i]@ matches ListItemView::EditingReorderCommit {
                    hash: h2, original_message: o2, current_text: t3, cursor: c3, is_on_remote: r2, is_fixup: f2, scroll_offset: so, ..
                } && h2 == hash && o2 == original_message && t3 == t2 && c3 == c2 && r2 == is_on_remote && f2 == is_fixup
                    && so <= min_of(c2 as int, t2.len() as int)
            }
            &&& b.main_screen.file_cursor == s.main_screen.file_cursor
            &&& b.main_screen.is_reordering_commits == s.main_screen.is_reordering_commits
            &&& b.main_screen.original_list_items_for_reorder == s.main_screen.original_list_items_for_reorder
            &&& b.actions == s.actions
        },
        _ => false,
    }
}

/// Applies a key to the commit being renamed under the cursor.
fn handle_rename_key(state: &mut AppState, input: Key, max_x: i32)
    requires
        editing_at_cursor(*old(state)),
    ensures
        rename_key_done(*old(state), input, *final(state)),
        final(state).running == old(state).running,
        final(state).reorder_command_history == old(state).reorder_command_history,
{
    let i = state.main_screen.file_cursor;
    let ghost before = state.main_screen.list_items@;
    let new_item = match &state.main_screen.list_items[i] {
        ListItem::EditingReorderCommit { hash, original_message, current_text, cursor, scroll_offset, scroll_extra_space, is_on_remote, is_fixup } => {
            if input == Key::Character('\n') {
                ListItem::PreviousCommitInfo { hash: hash.clone(), message: current_text.clone(), is_on_remote: *is_on_remote, is_fixup: *is_fixup }
            } else if input == Key::Character('\u{1b}') || input == Key::Character('\u{3}') {
                ListItem::PreviousCommitInfo { hash: hash.clone(), message: original_message.clone(), is_on_remote: *is_on_remote, is_fixup: *is_fixup }
            } else {
                let mut text = current_text.clone();
                let mut c = *cursor;
                commit_view::handle_generic_text_input(&mut text, &mut c, input);
                let (offset, extra_space) = commit_view::compute_scroll_for_prefix(text.as_str(), c, max_x, " ● ");
                ListItem::EditingReorderCommit {
                    hash: hash.clone(),
                    original_message: original_message.clone(),
                    current_text: text,
                    cursor: c,
                    scroll_offset: offset,
                    scroll_extra_space: extra_space,
                    is_on_remote: *is_on_remote,
                    is_fixup: *is_fixup,
                }
            }
        },
        other => other.clone(),
    };
    state.main_screen.list_items[i] = new_item;
}

/// What a key does in the reorder mode (see [`handle_reorder_mode_input`]).
pub open spec fn reorder_input_done(o: AppState, input: Key, max_y: i32, max_x: i32, n: AppState) -> bool {
    &&& (editing_at_cursor(o) ==> rename_key_done(o, input, n))
    &&& (!editing_at_cursor(o) && input == Key::Character('q') ==> reorder_cancelled(o, n))
    &&& (!editing_at_cursor(o) && input == Key::Character('\n') ==> {
            let orig = commits_of(item_views(o.main_screen.original_list_items_for_reorder@));
            let now = commits_of(item_views(o.main_screen.list_items@));
            &&& !n.main_screen.is_reordering_commits
            &&& n.reorder_command_history is None
            &&& n.main_screen.list_items == o.main_screen.list_items
            &&& orig == now ==> n.actions == o.actions
            &&& orig != now ==> crate::app_state::one_more_action(o.actions@, n.actions@)
                && (n.actions@.last() matches UiAction::RunCommand { plan: CommandPlan::Ready(c), follow: FollowUp::Nothing }
                    && c.kind matches CommandKind::ReorderCommits(r) && r.repo_path == o.repo_path
                    && crate::git::commit_views(r.original_commits@) == orig && crate::git::commit_views(r.reordered_commits@) == now)
        })
    &&& (!editing_at_cursor(o) && is_up_key(input) ==> {
            &&& n.main_screen.file_cursor == sat_sub(o.main_screen.file_cursor as int, 1)
            &&& n.main_screen.line_cursor == 0 && n.main_screen.diff_scroll == 0
            &&& n.last_interaction_time == Some(o.clock)
            &&& n.main_screen.list_items == o.main_screen.list_items
        })
    &&& (!editing_at_cursor(o) && is_down_key(input) ==> {
            let count = o.main_screen.list_items@.len();
            &&& n.main_screen.file_cursor == if count > 0 {
                min_of(sat_add(o.main_screen.file_cursor as int, 1), count - 1) as usize
            } else {
                o.main_screen.file_cursor
            }
            &&& n.main_screen.line_cursor == 0 && n.main_screen.diff_scroll == 0
            &&& n.last_interaction_time == Some(o.clock)
            &&& n.main_screen.list_items == o.main_screen.list_items
        })
    &&& (!editing_at_cursor(o) && input == Key::Character('f') ==> {
            let c = o.main_screen.file_cursor;
            let l = o.main_screen.list_items@;
            let applies = o.reorder_command_history is Some && c < l.len() && l[c as int] is PreviousCommitInfo;
            &&& n.main_screen.file_cursor == c
            &&& n.actions == o.actions
            &&& applies ==> n.main_screen.list_items@ == if can_toggle_fixup(l, c as int) {
                    l.update(c as int, flip_fixup(l[c as int]))
                } else {
                    l
                }
            &&& applies ==> exists|effects: Vec<Effect>| #[trigger] history_executed(
                    stacks(o.reorder_command_history->0), stacks(n.reorder_command_history->0),
                    (AnyCommand { kind: CommandKind::FixupCommit(FixupCommitCommand { index: c }),
                        cursor_before_execute: None, cursor_before_undo: None }),
                    cursor_of(o), l, n.main_screen.list_items@, Observation::Nothing, effects)
            &&& !applies ==> n.main_screen.list_items == o.main_screen.list_items
                && n.reorder_command_history == o.reorder_command_history
        })
    &&& (!editing_at_cursor(o) && input == Key::Character('!') ==> {
            let c = o.main_screen.file_cursor;
            let l = o.main_screen.list_items@;
            let applies = o.reorder_command_history is Some && c < l.len() && l[c as int] is PreviousCommitInfo;
            &&& n.actions == o.actions
            &&& applies ==> n.main_screen.list_items@ == l.remove(c as int)
                && n.main_screen.file_cursor == if c + 1 >= l.len() && l.len() > 1 { (l.len() - 2) as usize } else { c }
            &&& applies ==> exists|effects: Vec<Effect>| #[trigger] history_executed(
                    stacks(o.reorder_command_history->0), stacks(n.reorder_command_history->0),
                    (AnyCommand { kind: CommandKind::DiscardCommit(DiscardCommitCommand { index: c, removed_item: None }),
                        cursor_before_execute: None, cursor_before_undo: None }),
                    cursor_of(o), l, n.main_screen.list_items@, Observation::Nothing, effects)
            &&& !applies ==> n.main_screen.list_items == o.main_screen.list_items
                && n.reorder_command_history == o.reorder_command_history
                && n.main_screen.file_cursor == c
        })
    &&& (!editing_at_cursor(o) && input == Key::Character('<') ==> {
            &&& n.actions == o.actions
            &&& o.reorder_command_history is None ==> n == o
            &&& o.reorder_command_history is Some ==> n.reorder_command_history is Some
                && exists|r: (Option<CursorState>, Vec<Effect>)| #[trigger] history_undid(
                    stacks(o.reorder_command_history->0), stacks(n.reorder_command_history->0), cursor_of(o),
                    o.main_screen.list_items@, n.main_screen.list_items@, Observation::Nothing, r)
                && match r.0 { Some(saved) => cursor_of(n) == clamp_cursor(saved, n), None => cursor_of(n) == cursor_of(o) }
        })
    &&& (!editing_at_cursor(o) && input == Key::Character('>') ==> {
            &&& n.actions == o.actions
            &&& o.reorder_command_history is None ==> n == o
            &&& o.reorder_command_history is Some ==> n.reorder_command_history is Some
                && exists|r: (Option<CursorState>, Vec<Effect>)| #[trigger] history_redid(
                    stacks(o.reorder_command_history->0), stacks(n.reorder_command_history->0), cursor_of(o),
                    o.main_screen.list_items@, n.main_screen.list_items@, Observation::Nothing, r)
                && match r.0 { Some(saved) => cursor_of(n) == clamp_cursor(saved, n), None => cursor_of(n) == cursor_of(o) }
        })
    &&& (!editing_at_cursor(o) && !is_reorder_key(input) ==> navigation_done(o, input, max_y, max_x, n))
    &&& (n.running == o.running || input == Key::Character('q') || input == Key::Character('e'))
}

/// The keys of the reorder mode: `q`, Enter, up and down, `f`, `!`, `<`
/// and `>`.
pub open spec fn is_reorder_key(k: Key) -> bool {
    k == Key::Character('q') || k == Key::Character('\n') || is_up_key(k) || is_down_key(k)
        || k == Key::Character('f') || k == Key::Character('!') || k == Key::Character('<') || k == Key::Character('>')
}

/// What a key does in the reorder mode when no commit is being renamed:
/// `q` cancels it, Enter rewrites the history when the order or a message
/// changed and leaves the mode, up and down move the cursor, `f` marks a
/// commit as a fixup, `!` drops one, `<` and `>` undo and redo these, and
/// any other key moves as outside the mode.
pub fn handle_reorder_mode_input(state: &mut AppState, input: Key, max_y: i32, max_x: i32)
    ensures
        reorder_input_done(*old(state), input, max_y, max_x, *final(state)),

{
    if state.main_screen.file_cursor < state.main_screen.list_items.len() {
        let editing = match &state.main_screen.list_items[state.main_screen.file_cursor] {
            ListItem::EditingReorderCommit { .. } => true,
            _ => false,
        };
        if editing {
            handle_rename_key(state, input, max_x);
            return;
        }
    }
    match input {
        Key::Character('q') => {
            cancel_reorder(state);
        },
        Key::Character('\n') => {
            let original_commits = get_commits_from_list(&state.main_screen.original_list_items_for_reorder);
            let reordered_commits = get_commits_from_list(&state.main_screen.list_items);
            if !crate::command::reorder_commits::commits_equal(&original_commits, &reordered_commits) {
                let command = AnyCommand::new(CommandKind::ReorderCommits(ReorderCommitsCommand::new(
                    state.repo_path.clone(), original_commits, reordered_commits)));
                state.execute_and_refresh(CommandPlan::Ready(command));
            }
            state.main_screen.is_reordering_commits = false;
            state.reorder_command_history = None;
        },
        Key::KeyUp | Key::Character('\u{10}') => {
            state.main_screen.file_cursor = state.main_screen.file_cursor.saturating_sub(1);
            state.main_screen.diff_scroll = 0;
            state.main_screen.line_cursor = 0;
            let now = state.clock;
            state.debounce_diff_update(now);
        },
        Key::KeyDown | Key::Character('\u{e}') => {
            let n = state.main_screen.list_items.len();
            if n > 0 {
                let up = state.main_screen.file_cursor.saturating_add(1);
                state.main_screen.file_cursor = if up < n - 1 { up } else { n - 1 };
            }
            state.main_screen.diff_scroll = 0;
            state.main_screen.line_cursor = 0;
            let now = state.clock;
            state.debounce_diff_update(now);
        },
        Key::Character('f') => {
            let cursor = state.main_screen.file_cursor;
            if is_previous_commit_at(&state.main_screen.list_items, cursor) {
                state.execute_reorder_command(AnyCommand::new(CommandKind::FixupCommit(FixupCommitCommand::new(cursor))));
            }
        },
        Key::Character('!') => {
            let cursor = state.main_screen.file_cursor;
            if is_previous_commit_at(&state.main_screen.list_items, cursor) {
                state.execute_reorder_command(AnyCommand::new(CommandKind::DiscardCommit(DiscardCommitCommand::new(cursor))));
                let n = state.main_screen.list_items.len();
                if cursor >= n && n > 0 {
                    state.main_screen.file_cursor = n - 1;
                }
            }
        },
        Key::Character('<') => {
            let cursor_state = CursorState::from_app_state(state);
            if let Some(mut history) = state.reorder_command_history.take() {
                let outcome = history.undo(cursor_state, &mut state.main_screen.list_items, &Observation::Nothing);
                state.reorder_command_history = Some(history);
                if let Some(c) = outcome.0 {
                    c.apply_to_app_state(state);
                }
                assert(history_undid(stacks(old(state).reorder_command_history->0), stacks(state.reorder_command_history->0),
                    cursor_of(*old(state)), old(state).main_screen.list_items@, state.main_screen.list_items@,
                    Observation::Nothing, outcome));
            }
        },
        Key::Character('>') => {
            let cursor_state = CursorState::from_app_state(state);
            if let Some(mut history) = state.reorder_command_history.take() {
                let outcome = history.redo(cursor_state, &mut state.main_screen.list_items, &Observation::Nothing);
                state.reorder_command_history = Some(history);
                if let Some(c) = outcome.0 {
                    c.apply_to_app_state(state);
                }
                assert(history_redid(stacks(old(state).reorder_command_history->0), stacks(state.reorder_command_history->0),
                    cursor_of(*old(state)), old(state).main_screen.list_items@, state.main_screen.list_items@,
                    Observation::Nothing, outcome));
            }
        },
        _ => handle_navigation(state, input, max_y, max_x),
    }
}

/// Whether the item at `i` is a plain commit.
fn is_previous_commit_at(items: &Vec<ListItem>, i: usize) -> (r: bool)
    ensures
        r == (i < items@.len() && items@[i as int] is PreviousCommitInfo),
{
    if i < items.len() {
        match &items[i] {
            ListItem::PreviousCommitInfo { .. } => true,
            _ => false,
        }
    } else {
        false
    }
}


// ---------------------------------------------------------------------------
// Moving, and the keys of the main pane
// ---------------------------------------------------------------------------

/// The position of the first message being amended, from `from` on.
pub open spec fn position_of_amending(items: Seq<ListItemView>, from: int) -> Option<int>
    decreases items.len() - from,
{
    if from < 0 || from >= items.len() {
        None
    } else if items[from] is AmendingCommitMessageInput {
        Some(from)
    } else {
        position_of_amending(items, from + 1)
    }
}

/// Leaving an amend in progress: the amended commit's item shows the commit
/// again (when the commit is still in the history) and no commit is amended.
pub open spec fn amend_left(s: AppState, b: AppState) -> bool {
    match s.main_screen.amending_commit_hash {
        None => b == s,
        Some(hash) => {
            let items = item_views(s.main_screen.list_items@);
            &&& b == AppState {
                main_screen: crate::app_state::MainScreenState {
                    amending_commit_hash: None,
                    list_items: b.main_screen.list_items,
                    ..s.main_screen
                },
                ..s
            }
            &&& match (position_of_amending(items, 0), crate::command::reorder_commits::first_with_hash(
                crate::git::commit_views(s.previous_commits@), hash@, 0)) {
                (Some(p), Some(c)) => item_views(b.main_screen.list_items@) == items.update(p,
                    ListItemView::PreviousCommitInfo { hash: c.hash, message: c.message, is_on_remote: c.is_on_remote, is_fixup: c.is_fixup }),
                _ => b.main_screen.list_items == s.main_screen.list_items,
            }
        },
    }
}

/// The position of the first message being amended.
fn find_amending(items: &Vec<ListItem>) -> (r: Option<usize>)
    ensures
        match r {
            Some(k) => k < items@.len() && position_of_amending(item_views(items@), 0) == Some(k as int),
            None => position_of_amending(item_views(items@), 0) is None,
        },
{
    let ghost v = item_views(items@);
    let mut i: usize = 0;
    while i < items.len()
        invariant
            i <= items@.len(),
            v == item_views(items@),
            position_of_amending(v, i as int) == position_of_amending(v, 0),
        decreases items@.len() - i,
    {
        if let ListItem::AmendingCommitMessageInput { .. } = &items[i] {
            return Some(i);
        }
        i = i + 1;
    }
    None
}

/// The position of the first commit with this hash.
fn find_commit(commits: &Vec<CommitInfo>, hash: &str) -> (r: Option<usize>)
    ensures
        match r {
            Some(k) => k < commits@.len() && crate::command::reorder_commits::first_with_hash(
                crate::git::commit_views(commits@), hash@, 0) == Some(commits@[k as int]@),
            None => crate::command::reorder_commits::first_with_hash(crate::git::commit_views(commits@), hash@, 0) is None,
        },
{
    let ghost cv = crate::git::commit_views(commits@);
    let mut i: usize = 0;
    while i < commits.len()
        invariant
            i <= commits@.len(),
            cv == crate::git::commit_views(commits@),
            crate::command::reorder_commits::first_with_hash(cv, hash@, i as int)
                == crate::command::reorder_commits::first_with_hash(cv, hash@, 0),
        decreases commits@.len() - i,
    {
        if crate::text::str_equal(commits[i].hash.as_str(), hash) {
            return Some(i);
        }
        i = i + 1;
    }
    None
}

/// Leaves an amend in progress.
fn cancel_amending(state: &mut AppState)
    ensures
        amend_left(*old(state), *final(state)),
{
    let hash = match &state.main_screen.amending_commit_hash {
        Some(h) => h.clone(),
        None => return,
    };
    if let Some(index) = find_amending(&state.main_screen.list_items) {
        if let Some(k) = find_commit(&state.previous_commits, hash.as_str()) {
            let c = &state.previous_commits[k];
            let item = ListItem::PreviousCommitInfo {
                hash: c.hash.clone(),
                message: c.message.clone(),
                is_on_remote: c.is_on_remote,
                is_fixup: c.is_fixup,
            };
            let ghost before = state.main_screen.list_items@;
            state.main_screen.list_items[index] = item;
            assert(item_views(state.main_screen.list_items@) =~= item_views(before).update(index as int, item@));
        }
    }
    state.main_screen.amending_commit_hash = None;
}

/// The state once the selection moved at the time of the key.
pub open spec fn debounced(s: AppState, clock: u64) -> AppState {
    AppState { last_interaction_time: Some(clock), ..s }
}

/// The keys that move in the main pane: up and down, `k` and `j`, left and
/// right.
pub open spec fn is_moving_key(k: Key) -> bool {
    is_up_key(k) || is_down_key(k) || k == Key::Character('k') || k == Key::Character('j')
        || k == Key::KeyLeft || k == Key::KeyRight
}

/// The cursor of the main pane stands on the commit message input.
pub open spec fn on_commit_message(s: AppState) -> bool {
    main_item(s) matches Some(ListItem::CommitMessageInput)
}

/// What a key does in the main pane once no commit is being amended: up
/// and down through the list, `k` and `j` through the diff, the arrows
/// sideways; any other key edits the message on the commit message input
/// and pages through the diff elsewhere.
pub open spec fn moved_in_main(s: AppState, input: Key, max_y: i32, max_x: i32, n: AppState) -> bool {
    &&& is_up_key(input) ==> n == if main_moved_up(s, max_y).1 {
        main_moved_up(s, max_y).0
    } else {
        debounced(main_moved_up(s, max_y).0, s.clock)
    }
    &&& is_down_key(input) ==> n == debounced(main_moved_down(s, max_y), s.clock)
    &&& input == Key::Character('k') ==> n == main_diff_moved_up(s)
    &&& input == Key::Character('j') ==> n == main_diff_moved_down(s, max_y)
    &&& input == Key::KeyLeft ==> n == (AppState {
        main_screen: crate::app_state::MainScreenState {
            horizontal_scroll: sat_sub(s.main_screen.horizontal_scroll as int, horizontal_step(max_x)) as usize,
            ..s.main_screen
        },
        ..s
    })
    &&& input == Key::KeyRight ==> n == (AppState {
        main_screen: crate::app_state::MainScreenState {
            horizontal_scroll: sat_add(s.main_screen.horizontal_scroll as int, horizontal_step(max_x)) as usize,
            ..s.main_screen
        },
        ..s
    })
    &&& !is_moving_key(input) && on_commit_message(s) ==> commit_view::commit_input_done(s, input, max_y, max_x, n)
    &&& !is_moving_key(input) && !on_commit_message(s) ==> scroll::paged(s, input, max_y, n)
}

/// What a key does in the main pane (see [`handle_navigation`]): an amend in
/// progress is left, then the key does what [`moved_in_main`] says.
pub open spec fn navigation_done(o: AppState, input: Key, max_y: i32, max_x: i32, n: AppState) -> bool {
    &&& (n.main_screen.amending_commit_hash is None
            || o.main_screen.amending_commit_hash is None)
    &&& exists|s: AppState| #[trigger] amend_left(o, s) && moved_in_main(s, input, max_y, max_x, n)
    &&& (n.running == o.running)
}

/// Moving in the main pane (an amend in progress is left first): up and
/// down through the list, `k` and `j` through the diff, the arrows sideways;
/// on the commit message input other keys edit the message, elsewhere they
/// page through the diff.
pub fn handle_navigation(state: &mut AppState, input: Key, max_y: i32, max_x: i32)
    ensures
        navigation_done(*old(state), input, max_y, max_x, *final(state)),
{
    cancel_amending(state);
    let ghost left = *state;
    move_in_main(state, input, max_y, max_x);
    assert(amend_left(*old(state), left) && moved_in_main(left, input, max_y, max_x, *state));
}

/// What [`moved_in_main`] says, on a state where no commit is being amended.
fn move_in_main(state: &mut AppState, input: Key, max_y: i32, max_x: i32)
    requires
        old(state).main_screen.amending_commit_hash is None,
    ensures
        moved_in_main(*old(state), input, max_y, max_x, *final(state)),
        final(state).main_screen.amending_commit_hash is None,
        final(state).running == old(state).running,
{
    if is_move_up(&input) {
        if handle_main_move_up(state, max_y) {
            return;
        }
        let now = state.clock;
        state.debounce_diff_update(now);
        return;
    }
    if is_move_down(&input) {
        handle_main_move_down(state, max_y);
        let now = state.clock;
        state.debounce_diff_update(now);
        return;
    }
    if is_diff_move_up(&input) {
        handle_main_diff_move_up(state);
        return;
    }
    if is_diff_move_down(&input) {
        handle_main_diff_move_down(state, max_y);
        return;
    }
    if is_horizontal_left(&input) {
        handle_main_horizontal_scroll_left(state, max_x);
        return;
    }
    if is_horizontal_right(&input) {
        handle_main_horizontal_scroll_right(state, max_x);
        return;
    }
    let on_input = match state.current_main_item() {
        Some(ListItem::CommitMessageInput) => true,
        _ => false,
    };
    if on_input {
        commit_view::handle_commit_input(state, input, max_y, max_x);
    } else {
        scroll::handle_scroll(state, input, max_y);
    }
}

/// The cursor of the main pane stands on a text input.
pub open spec fn on_input(o: AppState) -> bool {
    crate::app_state::is_input_item(item_at(item_views(o.main_screen.list_items@), o.main_screen.file_cursor as int))
}

/// What a key does in the main pane: in the reorder mode what that mode
/// does; on a text input, moving keys move and the others edit; elsewhere
/// command keys run their command and the others move.
pub open spec fn main_input_done(o: AppState, input: Key, max_y: i32, max_x: i32, n: AppState) -> bool {
    if o.main_screen.is_reordering_commits {
        reorder_input_done(o, input, max_y, max_x, n)
    } else if on_input(o) {
        if is_up_key(input) || is_down_key(input) {
            navigation_done(o, input, max_y, max_x, n)
        } else {
            crate::ui::commit_view::commit_input_done(o, input, max_y, max_x, n)
        }
    } else if is_main_command_key(input) {
        commands_done(o, input, max_y, n)
    } else {
        navigation_done(o, input, max_y, max_x, n)
    }
}

/// A key in the main pane: in the reorder mode it goes there; on a text
/// input the arrows up and down move and other keys edit; elsewhere a
/// command key runs its command and any other key moves.
pub fn handle_main_pane_input(state: &mut AppState, input: Key, max_y: i32, max_x: i32)
    ensures
        main_input_done(*old(state), input, max_y, max_x, *final(state)),
{
    if state.main_screen.is_reordering_commits {
        handle_reorder_mode_input(state, input, max_y, max_x);
        return;
    }
    if state.is_in_input_mode() {
        if is_vertical_navigation(&input) {
            handle_navigation(state, input, max_y, max_x);
        } else {
            commit_view::handle_commit_input(state, input, max_y, max_x);
        }
    } else if !handle_commands(state, &input, max_y) {
        handle_navigation(state, input, max_y, max_x);
    }
}

/// A key goes to the pane that has the keyboard.
pub fn handle_input(state: &mut AppState, input: Key, max_y: i32, max_x: i32)
    ensures
        old(state).focused_pane == FocusedPane::Main ==> main_input_done(*old(state), input, max_y, max_x, *final(state)),
        old(state).focused_pane == FocusedPane::Unstaged ==> unstaged_input_done(*old(state), input, max_y, max_x, *final(state)),
{
    match state.focused_pane {
        FocusedPane::Main => handle_main_pane_input(state, input, max_y, max_x),
        FocusedPane::Unstaged => handle_unstaged_pane_input(state, input, max_y, max_x),
    }
}

/// What a key pressed with Alt does to the text under the main cursor (see
/// [`handle_alt_input`]).
pub open spec fn alt_edited(o: AppState, input: Key, max_x: i32, n: AppState) -> bool {
    &&& n.main_screen.file_cursor == o.main_screen.file_cursor
    &&& n.actions == o.actions
    &&& n.running == o.running
    &&& o.main_screen.file_cursor >= o.main_screen.list_items@.len() ==> n == o
    &&& editing_at_cursor(o) ==> {
        let i = o.main_screen.file_cursor as int;
        &&& n == (AppState {
            main_screen: crate::app_state::MainScreenState { list_items: n.main_screen.list_items, ..o.main_screen },
            ..o
        })
        &&& match o.main_screen.list_items@[i]@ {
            ListItemView::EditingReorderCommit { hash, original_message, current_text, cursor, is_on_remote, is_fixup, .. } => {
                let (t2, c2) = commit_view::edit_text_alt(current_text, cursor, input);
                n.main_screen.list_items@[i]@ == (ListItemView::EditingReorderCommit {
                    hash, original_message, current_text: t2, cursor: c2,
                    scroll_offset: commit_view::scroll_for_prefix(t2, c2, max_x, " ● "@).0,
                    scroll_extra_space: commit_view::scroll_for_prefix(t2, c2, max_x, " ● "@).1,
                    is_on_remote, is_fixup,
                })
                && n.main_screen.list_items@.len() == o.main_screen.list_items@.len()
                && forall|j: int| 0 <= j < o.main_screen.list_items@.len() && j != i
                    ==> n.main_screen.list_items@[j] == o.main_screen.list_items@[j]
            },
            _ => true,
        }
    }
    &&& o.main_screen.file_cursor < o.main_screen.list_items@.len() && !editing_at_cursor(o)
        ==> commit_view::commit_alt_done(o, input, max_x, n)
}

/// A key pressed with Alt: it edits the text under the main cursor word by
/// word, a commit being renamed or the commit message.
pub fn handle_alt_input(state: &mut AppState, input: Key, max_y: i32, max_x: i32)
    ensures
        alt_edited(*old(state), input, max_x, *final(state)),
{
    if state.main_screen.file_cursor >= state.main_screen.list_items.len() {
        return;
    }
    let i = state.main_screen.file_cursor;
    let edited = match &state.main_screen.list_items[i] {
        ListItem::EditingReorderCommit { hash, original_message, current_text, cursor, is_on_remote, is_fixup, .. } => {
            let mut text = current_text.clone();
            let mut c = *cursor;
            commit_view::handle_generic_text_input_with_alt(&mut text, &mut c, input);
            let (offset, extra_space) = commit_view::compute_scroll_for_prefix(text.as_str(), c, max_x, " ● ");
            Some(ListItem::EditingReorderCommit {
                hash: hash.clone(),
                original_message: original_message.clone(),
                current_text: text,
                cursor: c,
                scroll_offset: offset,
                scroll_extra_space: extra_space,
                is_on_remote: *is_on_remote,
                is_fixup: *is_fixup,
            })
        },
        _ => None,
    };
    match edited {
        Some(item) => {
            state.main_screen.list_items[i] = item;
        },
        None => {
            commit_view::handle_commit_input_with_alt(state, input, max_x);
        },
    }
}

} // verus!
