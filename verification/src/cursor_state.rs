//! A snapshot of every cursor and scroll position, kept by undoable commands.
use crate::app_state::{item_at, min_of, sat_sub, AppState, FocusedPane};
use crate::ui::main_screen::{item_views, ListItemView};
use vstd::prelude::*;

verus! {

/// Where the cursors and scroll offsets of both panes stood.
#[derive(Clone, Copy, Debug, PartialEq, Eq, Structural)]
pub struct CursorState {
    pub focused_pane: FocusedPane,
    pub file_cursor: usize,
    pub line_cursor: usize,
    pub scroll: usize,
    pub file_list_scroll: usize,
    pub horizontal_scroll: usize,
    pub unstaged_cursor: usize,
    pub unstaged_scroll: usize,
    pub unstaged_diff_scroll: usize,
    pub unstaged_horizontal_scroll: usize,
}

/// The cursors of a state.
pub open spec fn cursor_of(s: AppState) -> CursorState {
    CursorState {
        focused_pane: s.focused_pane,
        file_cursor: s.main_screen.file_cursor,
        line_cursor: s.main_screen.line_cursor,
        scroll: s.main_screen.diff_scroll,
        file_list_scroll: s.main_screen.file_list_scroll,
        horizontal_scroll: s.main_screen.horizontal_scroll,
        unstaged_cursor: s.unstaged_pane.cursor,
        unstaged_scroll: s.unstaged_pane.scroll,
        unstaged_diff_scroll: s.unstaged_pane.diff_scroll,
        unstaged_horizontal_scroll: s.unstaged_pane.horizontal_scroll,
    }
}

/// The cursors `c` as they are restored into `s`: the file cursor at most two
/// past the staged files, the line cursor within the file it then stands on
/// (the first line when it stands on no file), the unstaged cursor at most
/// one past the changed files; the rest as they were saved.
pub open spec fn clamp_cursor(c: CursorState, s: AppState) -> CursorState {
    let fc = min_of(c.file_cursor as int, s.files@.len() + 2int) as usize;
    let lc: usize = match item_at(item_views(s.main_screen.list_items@), fc as int) {
        Some(ListItemView::File(f)) => min_of(c.line_cursor as int, sat_sub(f.lines.len() as int, 1)) as usize,
        _ => 0,
    };
    CursorState {
        file_cursor: fc,
        line_cursor: lc,
        unstaged_cursor: min_of(c.unstaged_cursor as int, s.unstaged_pane.unstaged_files@.len() + 1int) as usize,
        ..c
    }
}

impl CursorState {
    /// The cursors of `state`.
    pub fn from_app_state(state: &AppState) -> (r: Self)
        ensures
            r == cursor_of(*state),
    {
        CursorState {
            focused_pane: state.focused_pane,
            file_cursor: state.main_screen.file_cursor,
            line_cursor: state.main_screen.line_cursor,
            scroll: state.main_screen.diff_scroll,
            file_list_scroll: state.main_screen.file_list_scroll,
            horizontal_scroll: state.main_screen.horizontal_scroll,
            unstaged_cursor: state.unstaged_pane.cursor,
            unstaged_scroll: state.unstaged_pane.scroll,
            unstaged_diff_scroll: state.unstaged_pane.diff_scroll,
            unstaged_horizontal_scroll: state.unstaged_pane.horizontal_scroll,
        }
    }

    /// Puts these cursors back into `state`, kept within its lists.
    pub fn apply_to_app_state(&self, state: &mut AppState)
        ensures
            cursor_of(*final(state)) == clamp_cursor(*self, *old(state)),
            final(state).main_screen.list_items == old(state).main_screen.list_items,
            final(state).files == old(state).files,
            final(state).unstaged_pane.list_items == old(state).unstaged_pane.list_items,
            final(state).unstaged_pane.unstaged_files == old(state).unstaged_pane.unstaged_files,
            final(state).actions == old(state).actions,
            final(state).running == old(state).running,
            final(state).command_history == old(state).command_history,
            final(state).reorder_command_history == old(state).reorder_command_history,
    {
        state.focused_pane = self.focused_pane;
        let bound = state.files.len().saturating_add(2);
        state.main_screen.file_cursor = if self.file_cursor < bound { self.file_cursor } else { bound };
        let line = match state.current_main_file() {
            Some(file) => {
                let max_line = file.lines.len().saturating_sub(1);
                if self.line_cursor < max_line { self.line_cursor } else { max_line }
            },
            None => 0,
        };
        state.main_screen.line_cursor = line;
        state.main_screen.diff_scroll = self.scroll;
        state.main_screen.file_list_scroll = self.file_list_scroll;
        state.main_screen.horizontal_scroll = self.horizontal_scroll;
        let ubound = state.unstaged_pane.unstaged_files.len().saturating_add(1);
        state.unstaged_pane.cursor = if self.unstaged_cursor < ubound { self.unstaged_cursor } else { ubound };
        state.unstaged_pane.scroll = self.unstaged_scroll;
        state.unstaged_pane.diff_scroll = self.unstaged_diff_scroll;
        state.unstaged_pane.horizontal_scroll = self.unstaged_horizontal_scroll;
    }
}

/// Saving the cursors of a state and restoring them into that same state
/// changes nothing, as long as its cursors stand within its lists: the file
/// cursor at most two past the staged files, the line cursor within the file
/// under it (on the first line when no file is under it), the unstaged
/// cursor at most one past the changed files.
pub proof fn lemma_cursor_roundtrip(s: AppState)
    requires
        s.main_screen.file_cursor <= s.files@.len() + 2,
        s.unstaged_pane.cursor <= s.unstaged_pane.unstaged_files@.len() + 1,
        match item_at(item_views(s.main_screen.list_items@), s.main_screen.file_cursor as int) {
            Some(ListItemView::File(f)) => s.main_screen.line_cursor <= sat_sub(f.lines.len() as int, 1),
            _ => s.main_screen.line_cursor == 0,
        },
    ensures
        clamp_cursor(cursor_of(s), s) == cursor_of(s),
{
}

} // verus!
