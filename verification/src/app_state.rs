//! The whole state of the screen and the operations on it.
//!
//! The state never reads the repository itself: what it needs from outside
//! it asks for through [`UiAction`]s, which the caller performs in order,
//! handing the results back through the methods named in each action.
use crate::command::effect::{Effect, Observation, Probe, ProbeView};
use crate::command::git_commands::{
    CheckoutFileCommand, DeleteUntrackedFileCommand, DiscardFileCommand, IgnoreUntrackedFileCommand,
    StageAllCommand, StageUnstagedCommand, StageUntrackedCommand, UnstageAllCommand,
};
use crate::background::{last_about, Response};
use crate::command::{history_executed, history_redid, history_undid, stacks, AnyCommand, CommandHistory, CommandKind};
use crate::git::{self, output_text, reply_view, stdout_or_empty, parse_unstaged_files,
    parse_untracked_files, unstaged_names, untracked_names, GitOutputView};
use crate::ui::main_screen::is_binary;
use crate::cursor_state::{clamp_cursor, cursor_of, CursorState};
use crate::git::{commit_views, file_views, git_call, CommitInfo, CommitView, FileDiff, FileDiffView};
use crate::text::{
    chars_of, field, has_char, has_substring, is_digit, is_space, is_space_exec, split_field,
    starts_with, str_contains, str_starts_with, string_from_chars, trim, trim_spaces, views,
};
use crate::ui::main_screen::{
    clone_items, item_views, unstaged_item_views, ListItem, ListItemView, UnstagedItemView,
    UnstagedListItem,
};
use vstd::prelude::*;

verus! {

/// Which pane has the keyboard.
#[derive(Clone, Copy, Debug, PartialEq, Eq, Structural)]
pub enum FocusedPane {
    Main,
    Unstaged,
}

/// A file the user asked to open in an editor, at a line if one is known.
#[derive(Debug)]
pub struct EditorRequest {
    pub file_path: String,
    pub line_number: Option<usize>,
}

/// Cursors, scroll offsets, the commit message being written and the items
/// of the main pane.
#[derive(Debug)]
pub struct MainScreenState {
    pub diff_scroll: usize,
    pub file_list_scroll: usize,
    pub horizontal_scroll: usize,
    pub file_cursor: usize,
    pub line_cursor: usize,
    pub commit_message: String,
    pub commit_cursor: usize,
    pub commit_scroll_offset: usize,
    pub commit_scroll_extra_space: bool,
    pub amending_commit_hash: Option<String>,
    pub is_diff_cursor_active: bool,
    pub has_unstaged_changes: bool,
    pub list_items: Vec<ListItem>,
    pub is_reordering_commits: bool,
    pub original_list_items_for_reorder: Vec<ListItem>,
}

impl Default for MainScreenState {
    fn default() -> (r: Self)
        ensures
            r.diff_scroll == 0 && r.file_list_scroll == 0 && r.horizontal_scroll == 0,
            r.file_cursor == 0 && r.line_cursor == 0,
            r.commit_message@.len() == 0 && r.commit_cursor == 0,
            r.commit_scroll_offset == 0 && !r.commit_scroll_extra_space,
            r.amending_commit_hash is None,
            !r.is_diff_cursor_active && !r.has_unstaged_changes && !r.is_reordering_commits,
            r.list_items@.len() == 0 && r.original_list_items_for_reorder@.len() == 0,
    {
        MainScreenState {
            diff_scroll: 0,
            file_list_scroll: 0,
            horizontal_scroll: 0,
            file_cursor: 0,
            line_cursor: 0,
            commit_message: String::new(),
            commit_cursor: 0,
            commit_scroll_offset: 0,
            commit_scroll_extra_space: false,
            amending_commit_hash: None,
            is_diff_cursor_active: false,
            has_unstaged_changes: false,
            list_items: Vec::new(),
            is_reordering_commits: false,
            original_list_items_for_reorder: Vec::new(),
        }
    }
}

/// The unstaged and untracked files and the cursors of the unstaged pane.
#[derive(Debug)]
pub struct UnstagedPaneState {
    pub unstaged_files: Vec<FileDiff>,
    pub untracked_files: Vec<String>,
    pub cursor: usize,
    pub scroll: usize,
    pub diff_scroll: usize,
    pub horizontal_scroll: usize,
    pub is_diff_cursor_active: bool,
    pub list_items: Vec<UnstagedListItem>,
    /// The content of the untracked file under the cursor, as last read.
    pub preview: FilePreview,
}

/// What reading an untracked file gave, for showing it.
#[derive(Debug)]
pub enum FilePreview {
    /// Nothing was read.
    NotRead,
    /// The file could not be read, for this reason.
    Unreadable(String),
    /// The file holds a zero byte; it has this many bytes.
    Binary(usize),
    /// The file's text.
    Text(String),
}

/// The lines an untracked file shows: one line for a note, else its lines.
pub open spec fn preview_lines(p: FilePreview) -> nat {
    match p {
        FilePreview::NotRead => 0,
        FilePreview::Unreadable(_) => 1,
        FilePreview::Binary(_) => 1,
        FilePreview::Text(t) => crate::text::lines(t@).len(),
    }
}

impl FilePreview {
    /// How many lines the file shows.
    pub fn line_count(&self) -> (r: usize)
        ensures
            r == preview_lines(*self),
    {
        match self {
            FilePreview::NotRead => 0,
            FilePreview::Unreadable(_) => 1,
            FilePreview::Binary(_) => 1,
            FilePreview::Text(t) => crate::text::split_lines(t.as_str()).len(),
        }
    }
}

impl Default for UnstagedPaneState {
    fn default() -> (r: Self)
        ensures
            r.unstaged_files@.len() == 0 && r.untracked_files@.len() == 0,
            r.cursor == 0 && r.scroll == 0 && r.diff_scroll == 0 && r.horizontal_scroll == 0,
            !r.is_diff_cursor_active,
            r.list_items@.len() == 0,
    {
        UnstagedPaneState {
            unstaged_files: Vec::new(),
            untracked_files: Vec::new(),
            cursor: 0,
            scroll: 0,
            diff_scroll: 0,
            horizontal_scroll: 0,
            is_diff_cursor_active: false,
            list_items: Vec::new(),
            preview: FilePreview::NotRead,
        }
    }
}

/// A command to run, and what must be read before it can be made.
#[derive(Debug)]
pub enum CommandPlan {
    /// A command that needs nothing read.
    Ready(AnyCommand),
    /// Unstage everything: needs the staged diff.
    UnstageAll,
    /// Stage the files with unstaged changes: needs their names.
    StageUnstaged,
    /// Stage the untracked files: needs their names.
    StageUntracked,
    /// Stage everything: needs the unstaged diff and the untracked files.
    StageAll,
    /// Throw away every change to a staged file: needs its staged and its
    /// unstaged diff.
    DiscardFile { file_name: String, is_new: bool },
    /// Ignore an untracked file: needs the text of `.gitignore`.
    IgnoreUntrackedFile { file_name: String },
    /// Throw away a file's unstaged changes: needs them.
    CheckoutFile { file_name: String },
    /// Delete an untracked file: needs its content; nothing is done when it
    /// cannot be read or holds a zero byte.
    DeleteUntrackedFile { file_name: String },
}

/// What to adjust once a command has run and the state was refreshed.
#[derive(Clone, Copy, Debug, PartialEq, Eq, Structural)]
pub enum FollowUp {
    Nothing,
    /// Keep the unstaged pane's line cursor where it was, within the file,
    /// and scroll it into view.
    KeepUnstagedLine { old_line_cursor: usize, max_y: i32 },
    /// Keep the main pane's line cursor where it was, within the file, and
    /// scroll it into view.
    KeepMainLine { old_line_cursor: usize, max_y: i32 },
}

/// A commit the user asked for.
#[derive(Debug)]
pub enum CommitRequest {
    /// A new commit of the staged changes with this message.
    New { message: String },
    /// Fold the staged changes into an earlier commit and give it this message.
    Amend { hash: String, message: String },
    /// Give an earlier commit this message.
    Reword { hash: String, message: String },
}

/// What the screen asks of the outside world; the caller performs the
/// actions in order.
#[derive(Debug)]
pub enum UiAction {
    /// Read what the plan needs, make the command, run it with
    /// [`AppState::run_command`], perform its effects, refresh, then apply
    /// the follow-up with [`AppState::follow_up`].
    RunCommand { plan: CommandPlan, follow: FollowUp },
    /// Undo the last command with [`AppState::undo_command`], perform the
    /// effects, refresh, then [`AppState::restore_cursor`].
    Undo,
    /// Redo with [`AppState::redo_command`], likewise.
    Redo,
    /// Read the repository again and hand it to [`AppState::refresh_diff`].
    Refresh { reset_cursor: bool },
    /// Read this commit's diff and hand it to [`AppState::set_selected_commit_files`].
    LoadCommitDiff(String),
    /// Ask the background worker for this commit's diff; its answers go to
    /// [`AppState::poll_background`].
    RequestCommitDiff(String),
    /// Store this draft of the commit message.
    SaveCommitMessage(String),
    /// Forget the stored draft.
    DeleteCommitMessage,
    /// Make the commit, then report with [`AppState::commit_finished`].
    Commit(CommitRequest),
    /// Stage every change, read the staged diff and report whether it is
    /// empty with [`AppState::staged_after_commit`].
    StageAllAfterCommit,
}

/// What the repository holds, as read for a refresh.
#[derive(Debug)]
pub struct RepoSnapshot {
    /// The staged changes.
    pub files: Vec<FileDiff>,
    /// The local commits, newest first.
    pub previous_commits: Vec<CommitInfo>,
    /// The unstaged changes.
    pub unstaged_files: Vec<FileDiff>,
    /// The untracked files.
    pub untracked_files: Vec<String>,
}

/// Everything the screen shows and remembers.
#[derive(Debug)]
pub struct AppState {
    pub repo_path: String,
    pub main_screen: MainScreenState,
    pub unstaged_pane: UnstagedPaneState,
    pub running: bool,
    pub files: Vec<FileDiff>,
    pub command_history: CommandHistory,
    pub reorder_command_history: Option<CommandHistory>,
    pub previous_commits: Vec<CommitInfo>,
    pub selected_commit_files: Vec<FileDiff>,
    pub focused_pane: FocusedPane,
    pub editor_request: Option<EditorRequest>,
    pub error_message: Option<String>,
    /// When the selection last moved, in milliseconds of the caller's clock.
    pub last_interaction_time: Option<u64>,
    /// The time of the key being handled, in milliseconds of the caller's
    /// clock, which the caller sets before handing a key over.
    pub clock: u64,
    /// What the caller must do next, in order.
    pub actions: Vec<UiAction>,
}

/// The main list: the staged-changes header, the staged files, the commit
/// message input, then the previous commits.
pub open spec fn main_list(files: Seq<FileDiffView>, commits: Seq<CommitView>) -> Seq<ListItemView> {
    seq![ListItemView::StagedChangesHeader]
        + files.map_values(|f: FileDiffView| ListItemView::File(f))
        + seq![ListItemView::CommitMessageInput]
        + commits.map_values(|c: CommitView| ListItemView::PreviousCommitInfo {
            hash: c.hash,
            message: c.message,
            is_on_remote: c.is_on_remote,
            is_fixup: c.is_fixup,
        })
}

/// The unstaged list: its header and the changed files, then, when there are
/// any, the untracked files under their own header.
pub open spec fn unstaged_list(unstaged: Seq<FileDiffView>, untracked: Seq<Seq<char>>) -> Seq<UnstagedItemView> {
    seq![UnstagedItemView::UnstagedChangesHeader]
        + unstaged.map_values(|f: FileDiffView| UnstagedItemView::File(f))
        + if untracked.len() == 0 {
            Seq::empty()
        } else {
            seq![UnstagedItemView::UntrackedFilesHeader]
                + untracked.map_values(|n: Seq<char>| UnstagedItemView::UntrackedFile(n))
        }
}

/// The hash of a commit item, plain or being edited.
pub open spec fn item_hash(item: ListItemView) -> Option<Seq<char>> {
    match item {
        ListItemView::PreviousCommitInfo { hash, .. } => Some(hash),
        ListItemView::EditingReorderCommit { hash, .. } => Some(hash),
        _ => None,
    }
}

/// The item at `i`, if there is one.
pub open spec fn item_at(items: Seq<ListItemView>, i: int) -> Option<ListItemView> {
    if 0 <= i < items.len() { Some(items[i]) } else { None }
}

/// The item under the main cursor is a text input.
pub open spec fn is_input_item(item: Option<ListItemView>) -> bool {
    match item {
        Some(ListItemView::CommitMessageInput) => true,
        Some(ListItemView::AmendingCommitMessageInput { .. }) => true,
        Some(ListItemView::EditingReorderCommit { .. }) => true,
        _ => false,
    }
}

/// The height of a file list: a third of the screen, at least three rows,
/// at most one row per item.
pub open spec fn list_height(max_y: i32, total: nat) -> usize {
    let third = (max_y as usize) / 3;
    let h = if third < 3 { 3 } else { third };
    if h < total { h } else { total as usize }
}

/// `x - y`, or zero when `y` is larger.
pub open spec fn sat_sub(x: int, y: int) -> int {
    if x >= y { x - y } else { 0 }
}

/// `x`, but at most `y`.
pub open spec fn min_of(x: int, y: int) -> int {
    if x <= y { x } else { y }
}

impl AppState {
    /// The main list for these staged files and commits.
    pub fn build_main_screen_list_items(files: &Vec<FileDiff>, previous_commits: &Vec<CommitInfo>) -> (r: Vec<ListItem>)
        ensures
            item_views(r@) == main_list(file_views(files@), commit_views(previous_commits@)),
    {
        let ghost fv = file_views(files@);
        let ghost cv = commit_views(previous_commits@);
        let mut items: Vec<ListItem> = Vec::new();
        items.push(ListItem::StagedChangesHeader);
        let mut i: usize = 0;
        while i < files.len()
            invariant
                i <= files@.len(),
                fv == file_views(files@),
                item_views(items@) == seq![ListItemView::StagedChangesHeader]
                    + fv.subrange(0, i as int).map_values(|f: FileDiffView| ListItemView::File(f)),
            decreases files@.len() - i,
        {
            let ghost before = items@;
            items.push(ListItem::File(files[i].clone()));
            assert(fv.subrange(0, i + 1) =~= fv.subrange(0, i as int).push(fv[i as int]));
            assert(item_views(items@) =~= item_views(before).push(ListItemView::File(fv[i as int])));
            i = i + 1;
        }
        assert(fv.subrange(0, files@.len() as int) =~= fv);
        let ghost head = item_views(items@);
        items.push(ListItem::CommitMessageInput);
        let ghost head2 = item_views(items@);
        assert(head2 =~= head + seq![ListItemView::CommitMessageInput]);
        let mut j: usize = 0;
        while j < previous_commits.len()
            invariant
                j <= previous_commits@.len(),
                cv == commit_views(previous_commits@),
                item_views(items@) == head2 + cv.subrange(0, j as int).map_values(|c: CommitView| ListItemView::PreviousCommitInfo {
                    hash: c.hash,
                    message: c.message,
                    is_on_remote: c.is_on_remote,
                    is_fixup: c.is_fixup,
                }),
            decreases previous_commits@.len() - j,
        {
            let c = &previous_commits[j];
            let ghost before = items@;
            items.push(ListItem::PreviousCommitInfo {
                hash: c.hash.clone(),
                message: c.message.clone(),
                is_on_remote: c.is_on_remote,
                is_fixup: c.is_fixup,
            });
            assert(cv.subrange(0, j + 1) =~= cv.subrange(0, j as int).push(cv[j as int]));
            assert(item_views(items@) =~= item_views(before).push(ListItemView::PreviousCommitInfo {
                hash: cv[j as int].hash,
                message: cv[j as int].message,
                is_on_remote: cv[j as int].is_on_remote,
                is_fixup: cv[j as int].is_fixup,
            }));
            j = j + 1;
        }
        assert(cv.subrange(0, previous_commits@.len() as int) =~= cv);
        assert(item_views(items@) =~= main_list(fv, cv));
        items
    }

    /// The unstaged list for these changed and untracked files.
    pub fn build_unstaged_screen_list_items(unstaged_files: &Vec<FileDiff>, untracked_files: &Vec<String>)
        -> (r: Vec<UnstagedListItem>)
        ensures
            unstaged_item_views(r@) == unstaged_list(file_views(unstaged_files@), views(untracked_files@)),
    {
        let ghost fv = file_views(unstaged_files@);
        let ghost nv = views(untracked_files@);
        let mut items: Vec<UnstagedListItem> = Vec::new();
        items.push(UnstagedListItem::UnstagedChangesHeader);
        let mut i: usize = 0;
        while i < unstaged_files.len()
            invariant
                i <= unstaged_files@.len(),
                fv == file_views(unstaged_files@),
                unstaged_item_views(items@) == seq![UnstagedItemView::UnstagedChangesHeader]
                    + fv.subrange(0, i as int).map_values(|f: FileDiffView| UnstagedItemView::File(f)),
            decreases unstaged_files@.len() - i,
        {
            let ghost before = items@;
            items.push(UnstagedListItem::File(unstaged_files[i].clone()));
            assert(fv.subrange(0, i + 1) =~= fv.subrange(0, i as int).push(fv[i as int]));
            assert(unstaged_item_views(items@) =~= unstaged_item_views(before).push(UnstagedItemView::File(fv[i as int])));
            i = i + 1;
        }
        assert(fv.subrange(0, unstaged_files@.len() as int) =~= fv);
        if untracked_files.len() > 0 {
            let ghost head = unstaged_item_views(items@);
            items.push(UnstagedListItem::UntrackedFilesHeader);
            let ghost head2 = unstaged_item_views(items@);
            assert(head2 =~= head + seq![UnstagedItemView::UntrackedFilesHeader]);
            let mut j: usize = 0;
            while j < untracked_files.len()
                invariant
                    j <= untracked_files@.len(),
                    nv == views(untracked_files@),
                    unstaged_item_views(items@) == head2
                        + nv.subrange(0, j as int).map_values(|n: Seq<char>| UnstagedItemView::UntrackedFile(n)),
                decreases untracked_files@.len() - j,
            {
                let ghost before = items@;
                items.push(UnstagedListItem::UntrackedFile(untracked_files[j].clone()));
                assert(nv.subrange(0, j + 1) =~= nv.subrange(0, j as int).push(nv[j as int]));
                assert(unstaged_item_views(items@) =~= unstaged_item_views(before).push(UnstagedItemView::UntrackedFile(nv[j as int])));
                j = j + 1;
            }
            assert(nv.subrange(0, untracked_files@.len() as int) =~= nv);
        }
        assert(unstaged_item_views(items@) =~= unstaged_list(fv, nv));
        items
    }
}


/// The item shows a diff below the lists: a staged file or a commit.
pub open spec fn shows_diff(item: Option<ListItemView>) -> bool {
    match item {
        Some(ListItemView::File(_)) => true,
        Some(ListItemView::PreviousCommitInfo { .. }) => true,
        _ => false,
    }
}

/// One more action was asked for: to load the diff of the commit `hash`.
pub open spec fn asks_commit_diff(before: Seq<UiAction>, after: Seq<UiAction>, hash: Seq<char>) -> bool {
    &&& after.len() == before.len() + 1
    &&& after.drop_last() == before
    &&& after.last() matches UiAction::LoadCommitDiff(h) && h@ == hash
}

/// The hash of the commit under the main cursor, if one is there.
pub open spec fn selected_hash(s: AppState) -> Option<Seq<char>> {
    match item_at(item_views(s.main_screen.list_items@), s.main_screen.file_cursor as int) {
        Some(item) => item_hash(item),
        None => None,
    }
}

/// One more action was asked for.
pub open spec fn one_more_action(before: Seq<UiAction>, after: Seq<UiAction>) -> bool {
    after.len() == before.len() + 1 && after.drop_last() == before
}

impl AppState {
    /// The item under the main cursor.
    pub fn current_main_item(&self) -> (r: Option<&ListItem>)
        ensures
            match r {
                Some(it) => self.main_screen.file_cursor < self.main_screen.list_items@.len()
                    && *it == self.main_screen.list_items@[self.main_screen.file_cursor as int],
                None => self.main_screen.file_cursor >= self.main_screen.list_items@.len(),
            },
    {
        if self.main_screen.file_cursor < self.main_screen.list_items.len() {
            Some(&self.main_screen.list_items[self.main_screen.file_cursor])
        } else {
            None
        }
    }

    /// The staged file under the main cursor.
    pub fn current_main_file(&self) -> (r: Option<&FileDiff>)
        ensures
            match r {
                Some(f) => self.main_screen.file_cursor < self.main_screen.list_items@.len()
                    && self.main_screen.list_items@[self.main_screen.file_cursor as int] == ListItem::File(*f),
                None => !(item_at(item_views(self.main_screen.list_items@), self.main_screen.file_cursor as int)
                    matches Some(ListItemView::File(_))),
            },
    {
        match self.current_main_item() {
            Some(ListItem::File(f)) => Some(f),
            _ => None,
        }
    }

    /// The changed file under the unstaged cursor.
    pub fn get_unstaged_file(&self) -> (r: Option<&FileDiff>)
        ensures
            match r {
                Some(f) => self.unstaged_pane.cursor < self.unstaged_pane.list_items@.len()
                    && self.unstaged_pane.list_items@[self.unstaged_pane.cursor as int] == UnstagedListItem::File(*f),
                None => !(self.unstaged_pane.cursor < self.unstaged_pane.list_items@.len()
                    && self.unstaged_pane.list_items@[self.unstaged_pane.cursor as int] is File),
            },
    {
        if self.unstaged_pane.cursor < self.unstaged_pane.list_items.len() {
            match &self.unstaged_pane.list_items[self.unstaged_pane.cursor] {
                UnstagedListItem::File(f) => Some(f),
                _ => None,
            }
        } else {
            None
        }
    }

    /// The rows of the main list on a screen `max_y` rows high, and its
    /// number of items.
    pub fn main_header_height(&self, max_y: i32) -> (r: (usize, usize))
        ensures
            r.1 == self.main_screen.list_items@.len(),
            r.0 == list_height(max_y, self.main_screen.list_items@.len()),
    {
        let total = self.main_screen.list_items.len();
        let third = (max_y as usize) / 3;
        let h = if third < 3 { 3 } else { third };
        (if h < total { h } else { total }, total)
    }

    /// The rows of the unstaged list on a screen `max_y` rows high, and its
    /// number of items.
    pub fn unstaged_header_height(&self, max_y: i32) -> (r: (usize, usize))
        ensures
            r.1 == self.unstaged_pane.list_items@.len(),
            r.0 == list_height(max_y, self.unstaged_pane.list_items@.len()),
    {
        let total = self.unstaged_pane.list_items.len();
        let third = (max_y as usize) / 3;
        let h = if third < 3 { 3 } else { third };
        (if h < total { h } else { total }, total)
    }

    /// Whether the main cursor stands on a text input.
    pub fn is_in_input_mode(&self) -> (r: bool)
        ensures
            r == is_input_item(item_at(item_views(self.main_screen.list_items@), self.main_screen.file_cursor as int)),
    {
        match self.current_main_item() {
            Some(ListItem::CommitMessageInput) => true,
            Some(ListItem::AmendingCommitMessageInput { .. }) => true,
            Some(ListItem::EditingReorderCommit { .. }) => true,
            _ => false,
        }
    }

    /// The diff line the cursor is on: the line cursor when the main cursor
    /// stands on a file or a commit, else the first line.
    pub fn get_cursor_line_index(&self) -> (r: usize)
        ensures
            r == if shows_diff(item_at(item_views(self.main_screen.list_items@), self.main_screen.file_cursor as int)) {
                self.main_screen.line_cursor
            } else {
                0
            },
    {
        match self.current_main_item() {
            Some(ListItem::File(_)) => self.main_screen.line_cursor,
            Some(ListItem::PreviousCommitInfo { .. }) => self.main_screen.line_cursor,
            _ => 0,
        }
    }

    /// The hash of the commit under the main cursor, plain or being edited.
    pub fn get_selected_commit_hash(&self) -> (r: Option<String>)
        ensures
            match item_at(item_views(self.main_screen.list_items@), self.main_screen.file_cursor as int) {
                Some(item) => match item_hash(item) {
                    Some(h) => r matches Some(x) && x@ == h,
                    None => r is None,
                },
                None => r is None,
            },
    {
        match self.current_main_item() {
            Some(ListItem::PreviousCommitInfo { hash, .. }) => Some(hash.clone()),
            Some(ListItem::EditingReorderCommit { hash, .. }) => Some(hash.clone()),
            _ => None,
        }
    }

    /// Shows the diff of the commit under the cursor: asks for it to be
    /// loaded, or, when no commit is selected, shows none.
    pub fn update_selected_commit_diff(&mut self)
        ensures
            final(self).main_screen == old(self).main_screen,
            final(self).unstaged_pane == old(self).unstaged_pane,
            final(self).files == old(self).files,
            final(self).previous_commits == old(self).previous_commits,
            final(self).focused_pane == old(self).focused_pane,
            final(self).running == old(self).running,
            final(self).last_interaction_time == old(self).last_interaction_time,
            final(self).repo_path == old(self).repo_path,
            final(self).command_history == old(self).command_history,
            final(self).reorder_command_history == old(self).reorder_command_history,
            final(self).editor_request == old(self).editor_request,
            final(self).error_message == old(self).error_message,
            match selected_hash(*old(self)) {
                Some(h) => asks_commit_diff(old(self).actions@, final(self).actions@, h)
                    && final(self).selected_commit_files == old(self).selected_commit_files,
                None => final(self).actions@ == old(self).actions@ && final(self).selected_commit_files@.len() == 0,
            },
    {
        match self.get_selected_commit_hash() {
            Some(hash) => {
                self.actions.push(UiAction::LoadCommitDiff(hash));
                assert(self.actions@.drop_last() =~= old(self).actions@);
            },
            None => {
                self.selected_commit_files.clear();
            },
        }
    }

    /// Shows these files as the selected commit's diff.
    pub fn set_selected_commit_files(&mut self, files: Vec<FileDiff>)
        ensures
            final(self).selected_commit_files == files,
            final(self).main_screen == old(self).main_screen,
            final(self).unstaged_pane == old(self).unstaged_pane,
            final(self).actions == old(self).actions,
    {
        self.selected_commit_files = files;
    }

    /// Remembers that the selection moved at `now`, so that the selected
    /// commit's diff is loaded once the selection rests.
    pub fn debounce_diff_update(&mut self, now: u64)
        ensures
            *final(self) == (AppState { last_interaction_time: Some(now), ..*old(self) }),
    {
        self.last_interaction_time = Some(now);
    }

    /// When the selection has rested for more than 200 ms at `now`, asks the
    /// background worker for the selected commit's diff and stops waiting.
    /// Returns whether to draw again, which is never: the answer comes later.
    pub fn check_diff_update(&mut self, now: u64) -> (r: bool)
        ensures
            !r,
            final(self).main_screen == old(self).main_screen,
            (old(self).last_interaction_time matches Some(t) && sat_sub(now as int, t as int) > 200) ==> {
                &&& final(self).last_interaction_time is None
                &&& match selected_hash(*old(self)) {
                    Some(h) => one_more_action(old(self).actions@, final(self).actions@)
                        && (final(self).actions@.last() matches UiAction::RequestCommitDiff(x) && x@ == h),
                    None => final(self).actions@ == old(self).actions@,
                }
            },
            !(old(self).last_interaction_time matches Some(t) && sat_sub(now as int, t as int) > 200) ==> {
                &&& final(self).last_interaction_time == old(self).last_interaction_time
                &&& final(self).actions@ == old(self).actions@
            },
    {
        if let Some(last_time) = self.last_interaction_time {
            if now.saturating_sub(last_time) > 200 {
                if let Some(hash) = self.get_selected_commit_hash() {
                    self.actions.push(UiAction::RequestCommitDiff(hash));
                    assert(self.actions@.drop_last() =~= old(self).actions@);
                }
                self.last_interaction_time = None;
                return false;
            }
        }
        false
    }

    /// Takes the background worker's answers, in order: a diff that belongs
    /// to the commit still selected is shown, so the last such one stays.
    /// Returns whether one was.
    pub fn poll_background(&mut self, responses: Vec<Response>) -> (r: bool)
        ensures
            final(self).main_screen == old(self).main_screen,
            final(self).actions == old(self).actions,
            ({
                let found = match selected_hash(*old(self)) {
                    Some(h) => last_about(responses@, h),
                    None => None,
                };
                &&& r == found is Some
                &&& match found {
                    Some(k) => match responses@[k] {
                        Response::CommitDiff(_, files) => final(self).selected_commit_files == files,
                    },
                    None => final(self).selected_commit_files == old(self).selected_commit_files,
                }
            }),
    {
        let mut needs_render = false;
        let current = self.get_selected_commit_hash();
        let ghost sel = selected_hash(*self);
        let mut responses = responses;
        let ghost all = responses@;
        let ghost mut found: Option<int> = None;
        let mut i: usize = 0;
        let n = responses.len();
        while responses.len() > 0
            invariant
                n == all.len(),
                responses@ == all.subrange(i as int, n as int),
                i <= n,
                self.main_screen == old(self).main_screen,
                self.actions == old(self).actions,
                match current { Some(c) => sel == Some(c@), None => sel is None },
                found == match sel {
                    Some(h) => last_about(all.take(i as int), h),
                    None => None,
                },
                needs_render == found is Some,
                match found {
                    Some(k) => 0 <= k < i && match all[k] {
                        Response::CommitDiff(_, files) => self.selected_commit_files == files,
                    },
                    None => self.selected_commit_files == old(self).selected_commit_files,
                },
            decreases responses@.len(),
        {
            let response = responses.remove(0);
            assert(all[i as int] == response);
            assert(all.take(i + 1).drop_last() =~= all.take(i as int));
            assert(all.take(i + 1).last() == response);
            let Response::CommitDiff(hash, diff) = response;
            let matches = match &current {
                Some(c) => crate::text::str_equal(c.as_str(), hash.as_str()),
                None => false,
            };
            if matches {
                self.selected_commit_files = diff;
                needs_render = true;
                proof {
                    found = Some(i as int);
                }
            }
            assert(all.subrange(i + 1, n as int) =~= all.subrange(i as int, n as int).drop_first());
            i = i + 1;
        }
        assert(all.take(n as int) =~= all);
        needs_render
    }
}


impl AppState {
    /// The state for a repository whose staged changes are `files`, with the
    /// stored draft `commit_message`, its local commits (newest first), its
    /// unstaged changes and its untracked files. The cursor stands on the
    /// first staged file, or on the header when nothing is staged.
    pub fn new(repo_path: String, files: Vec<FileDiff>, commit_message: String, previous_commits: Vec<CommitInfo>,
        unstaged_files: Vec<FileDiff>, untracked_files: Vec<String>) -> (r: Self)
        ensures
            r.repo_path == repo_path,
            r.files == files,
            r.previous_commits == previous_commits,
            r.main_screen.commit_message == commit_message,
            r.main_screen.has_unstaged_changes == (unstaged_files@.len() > 0 || untracked_files@.len() > 0),
            item_views(r.main_screen.list_items@) == main_list(file_views(files@), commit_views(previous_commits@)),
            r.main_screen.file_cursor == if files@.len() > 0 { 1usize } else { 0usize },
            r.main_screen.line_cursor == 0 && r.main_screen.diff_scroll == 0,
            !r.main_screen.is_reordering_commits,
            r.unstaged_pane.unstaged_files == unstaged_files,
            r.unstaged_pane.untracked_files == untracked_files,
            unstaged_item_views(r.unstaged_pane.list_items@) == unstaged_list(file_views(unstaged_files@), views(untracked_files@)),
            r.unstaged_pane.cursor == 0,
            r.running,
            r.focused_pane == FocusedPane::Main,
            r.command_history.undo_stack@.len() == 0 && r.command_history.redo_stack@.len() == 0,
            r.reorder_command_history is None,
            r.selected_commit_files@.len() == 0,
            r.editor_request is None && r.error_message is None && r.last_interaction_time is None,
            r.actions@.len() == 0,
    {
        let has_unstaged_changes = unstaged_files.len() > 0 || untracked_files.len() > 0;
        let mut main_screen = MainScreenState::default();
        main_screen.commit_message = commit_message;
        main_screen.has_unstaged_changes = has_unstaged_changes;
        main_screen.list_items = Self::build_main_screen_list_items(&files, &previous_commits);
        main_screen.file_cursor = if files.len() > 0 { 1 } else { 0 };
        let mut unstaged_pane = UnstagedPaneState::default();
        unstaged_pane.list_items = Self::build_unstaged_screen_list_items(&unstaged_files, &untracked_files);
        unstaged_pane.unstaged_files = unstaged_files;
        unstaged_pane.untracked_files = untracked_files;
        let mut s = AppState {
            repo_path,
            main_screen,
            unstaged_pane,
            running: true,
            files,
            command_history: CommandHistory::new(),
            reorder_command_history: None,
            previous_commits,
            selected_commit_files: Vec::new(),
            focused_pane: FocusedPane::Main,
            editor_request: None,
            error_message: None,
            last_interaction_time: None,
            clock: 0,
            actions: Vec::new(),
        };
        assert(item_views(s.main_screen.list_items@)[0] == ListItemView::StagedChangesHeader);
        assert(s.files@.len() > 0 ==> item_views(s.main_screen.list_items@)[1] is File);
        s.update_selected_commit_diff();
        s
    }

    /// Takes what was read from the repository: the lists are rebuilt, the
    /// selected commit's diff is asked for again, and the cursors are kept
    /// where they were as far as the new lists allow. With `reset_cursor` the
    /// main cursor goes to the first item after the header instead; when
    /// nothing is staged it goes to the header.
    pub fn refresh_diff(&mut self, reset_cursor: bool, snapshot: RepoSnapshot)
        ensures
            final(self).files == snapshot.files,
            final(self).previous_commits == snapshot.previous_commits,
            final(self).main_screen.has_unstaged_changes
                == (snapshot.unstaged_files@.len() > 0 || snapshot.untracked_files@.len() > 0),
            item_views(final(self).main_screen.list_items@)
                == main_list(file_views(snapshot.files@), commit_views(snapshot.previous_commits@)),
            final(self).unstaged_pane.unstaged_files == snapshot.unstaged_files,
            final(self).unstaged_pane.untracked_files == snapshot.untracked_files,
            unstaged_item_views(final(self).unstaged_pane.list_items@)
                == unstaged_list(file_views(snapshot.unstaged_files@), views(snapshot.untracked_files@)),
            ({
                let items = item_views(final(self).main_screen.list_items@);
                match item_at(items, old(self).main_screen.file_cursor as int) {
                    Some(item) if item_hash(item) is Some => asks_commit_diff(old(self).actions@, final(self).actions@, item_hash(item)->0)
                        && final(self).selected_commit_files == old(self).selected_commit_files,
                    _ => final(self).actions@ == old(self).actions@ && final(self).selected_commit_files@.len() == 0,
                }
            }),
            reset_cursor ==> {
                &&& final(self).main_screen.file_cursor == (if final(self).main_screen.list_items@.len() > 1 { 1usize } else { 0usize })
                &&& final(self).main_screen.line_cursor == 0
                &&& final(self).main_screen.diff_scroll == 0
            },
            !reset_cursor && snapshot.files@.len() == 0 ==> {
                &&& final(self).main_screen.file_cursor == 0
                &&& final(self).main_screen.line_cursor == 0
                &&& final(self).main_screen.diff_scroll == 0
            },
            !reset_cursor && snapshot.files@.len() > 0 ==> {
                let fc = min_of(old(self).main_screen.file_cursor as int, final(self).main_screen.list_items@.len() - 1);
                &&& final(self).main_screen.file_cursor == fc
                &&& match item_at(item_views(final(self).main_screen.list_items@), fc) {
                    Some(ListItemView::File(f)) => {
                        &&& final(self).main_screen.line_cursor == min_of(old(self).main_screen.line_cursor as int, sat_sub(f.lines.len() as int, 1))
                        &&& final(self).main_screen.diff_scroll == min_of(old(self).main_screen.diff_scroll as int, sat_sub(f.lines.len() as int, 1))
                    },
                    _ => final(self).main_screen.line_cursor == 0 && final(self).main_screen.diff_scroll == 0,
                }
            },
            final(self).main_screen.file_list_scroll == old(self).main_screen.file_list_scroll,
            final(self).unstaged_pane.cursor
                == min_of(old(self).unstaged_pane.cursor as int, sat_sub(final(self).unstaged_pane.list_items@.len() as int, 1)),
            final(self).unstaged_pane.scroll == old(self).unstaged_pane.scroll,
            final(self).unstaged_pane.diff_scroll == old(self).unstaged_pane.diff_scroll,
            final(self).focused_pane == old(self).focused_pane,
            final(self).running == old(self).running,
            final(self).main_screen.is_reordering_commits == old(self).main_screen.is_reordering_commits,
            final(self).main_screen.commit_message == old(self).main_screen.commit_message,
    {
        let old_file_cursor = self.main_screen.file_cursor;
        let old_line_cursor = self.main_screen.line_cursor;
        let old_scroll = self.main_screen.diff_scroll;
        let old_unstaged_cursor = self.unstaged_pane.cursor;
        let RepoSnapshot { files, previous_commits, unstaged_files, untracked_files } = snapshot;

        self.main_screen.has_unstaged_changes = unstaged_files.len() > 0 || untracked_files.len() > 0;
        self.main_screen.list_items = Self::build_main_screen_list_items(&files, &previous_commits);
        self.unstaged_pane.list_items = Self::build_unstaged_screen_list_items(&unstaged_files, &untracked_files);
        self.files = files;
        self.previous_commits = previous_commits;
        self.unstaged_pane.unstaged_files = unstaged_files;
        self.unstaged_pane.untracked_files = untracked_files;

        self.update_selected_commit_diff();

        let n = self.main_screen.list_items.len();
        proof {
            assert(n >= 2);
        }
        if reset_cursor {
            self.main_screen.file_cursor = if n > 1 { 1 } else { 0 };
            self.main_screen.line_cursor = 0;
            self.main_screen.diff_scroll = 0;
        } else if self.files.len() == 0 {
            self.main_screen.file_cursor = 0;
            self.main_screen.line_cursor = 0;
            self.main_screen.diff_scroll = 0;
        } else {
            self.main_screen.file_cursor = if old_file_cursor < n - 1 { old_file_cursor } else { n - 1 };
            let max_line: Option<usize> = match self.current_main_item() {
                Some(ListItem::File(file)) => Some(file.lines.len().saturating_sub(1)),
                _ => None,
            };
            match max_line {
                Some(m) => {
                    self.main_screen.line_cursor = if old_line_cursor < m { old_line_cursor } else { m };
                    self.main_screen.diff_scroll = if old_scroll < m { old_scroll } else { m };
                },
                None => {
                    self.main_screen.line_cursor = 0;
                    self.main_screen.diff_scroll = 0;
                },
            }
        }
        let max_unstaged_cursor = self.unstaged_pane.list_items.len().saturating_sub(1);
        self.unstaged_pane.cursor = if old_unstaged_cursor < max_unstaged_cursor {
            old_unstaged_cursor
        } else {
            max_unstaged_cursor
        };
    }

    /// Asks for a command to be run; the state is refreshed afterwards.
    pub fn execute_and_refresh(&mut self, plan: CommandPlan)
        ensures
            one_more_action(old(self).actions@, final(self).actions@),
            final(self).actions@.last() == (UiAction::RunCommand { plan, follow: FollowUp::Nothing }),
            final(self).main_screen == old(self).main_screen,
            final(self).unstaged_pane == old(self).unstaged_pane,
            final(self).focused_pane == old(self).focused_pane,
            final(self).running == old(self).running,
    {
        self.actions.push(UiAction::RunCommand { plan, follow: FollowUp::Nothing });
        assert(self.actions@.drop_last() =~= old(self).actions@);
    }

    /// Runs a command through the history, with what was found for its probe,
    /// remembering the current cursors for its undo. Returns the effects to
    /// perform.
    pub fn run_command(&mut self, command: AnyCommand, observed: &Observation) -> (r: Vec<Effect>)
        ensures
            history_executed(stacks(old(self).command_history), stacks(final(self).command_history), command,
                cursor_of(*old(self)), old(self).main_screen.list_items@, final(self).main_screen.list_items@, *observed, r),
            *final(self) == (AppState {
                command_history: final(self).command_history,
                main_screen: MainScreenState { list_items: final(self).main_screen.list_items, ..old(self).main_screen },
                ..*old(self)
            }),
    {
        let cursor_state = CursorState::from_app_state(self);
        self.command_history.execute(command, cursor_state, &mut self.main_screen.list_items, observed)
    }

    /// Runs a command of the reorder mode on the main list, through the
    /// reorder history, when that mode is on.
    pub fn execute_reorder_command(&mut self, command: AnyCommand)
        ensures
            old(self).reorder_command_history is None ==> *final(self) == *old(self),
            final(self).reorder_command_history is Some == old(self).reorder_command_history is Some,
            *final(self) == (AppState {
                reorder_command_history: final(self).reorder_command_history,
                main_screen: MainScreenState { list_items: final(self).main_screen.list_items, ..old(self).main_screen },
                ..*old(self)
            }),
            old(self).reorder_command_history is Some ==> exists|effects: Vec<Effect>|
                #[trigger] history_executed(stacks(old(self).reorder_command_history->0),
                    stacks(final(self).reorder_command_history->0), command, cursor_of(*old(self)),
                    old(self).main_screen.list_items@, final(self).main_screen.list_items@, Observation::Nothing, effects),
            old(self).reorder_command_history is Some ==> (command.kind matches CommandKind::SwapCommit(c) ==> {
                let l = old(self).main_screen.list_items@;
                if c.index1 < l.len() && c.index2 < l.len() {
                    final(self).main_screen.list_items@ == crate::command::list_commands::swapped(l, c.index1 as int, c.index2 as int)
                } else {
                    final(self).main_screen.list_items@ == l
                }
            }),
    {
        let cursor_state = CursorState::from_app_state(self);
        match self.reorder_command_history.take() {
            Some(mut history) => {
                let ghost before = stacks(history);
                let ghost cmd = command;
                let ghost list = self.main_screen.list_items@;
                let effects = history.execute(command, cursor_state, &mut self.main_screen.list_items, &Observation::Nothing);
                assert(history_executed(before, stacks(history), cmd, cursor_state, list,
                    self.main_screen.list_items@, Observation::Nothing, effects));
                self.reorder_command_history = Some(history);
                assert(before == stacks(old(self).reorder_command_history->0));
                assert(cmd == command);
                assert(stacks(history) == stacks(self.reorder_command_history->0));
            },
            None => {},
        }
    }

    /// Undoes the last command, remembering the current cursors for a redo.
    /// Returns the cursors to restore once the state is refreshed, and the
    /// effects to perform.
    pub fn undo_command(&mut self, observed: &Observation) -> (r: (Option<CursorState>, Vec<Effect>))
        ensures
            history_undid(stacks(old(self).command_history), stacks(final(self).command_history), cursor_of(*old(self)),
                old(self).main_screen.list_items@, final(self).main_screen.list_items@, *observed, r),
            *final(self) == (AppState {
                command_history: final(self).command_history,
                main_screen: MainScreenState { list_items: final(self).main_screen.list_items, ..old(self).main_screen },
                ..*old(self)
            }),
    {
        let cursor_state = CursorState::from_app_state(self);
        self.command_history.undo(cursor_state, &mut self.main_screen.list_items, observed)
    }

    /// Redoes the last undone command, remembering the current cursors for
    /// an undo. Returns the cursors to restore once the state is refreshed,
    /// and the effects to perform.
    pub fn redo_command(&mut self, observed: &Observation) -> (r: (Option<CursorState>, Vec<Effect>))
        ensures
            history_redid(stacks(old(self).command_history), stacks(final(self).command_history), cursor_of(*old(self)),
                old(self).main_screen.list_items@, final(self).main_screen.list_items@, *observed, r),
            *final(self) == (AppState {
                command_history: final(self).command_history,
                main_screen: MainScreenState { list_items: final(self).main_screen.list_items, ..old(self).main_screen },
                ..*old(self)
            }),
    {
        let cursor_state = CursorState::from_app_state(self);
        self.command_history.redo(cursor_state, &mut self.main_screen.list_items, observed)
    }

    /// Puts back the cursors an undo or redo handed back, if any.
    pub fn restore_cursor(&mut self, cursor: Option<CursorState>)
        ensures
            match cursor {
                Some(c) => cursor_of(*final(self)) == clamp_cursor(c, *old(self)),
                None => *final(self) == *old(self),
            },
            final(self).main_screen.list_items == old(self).main_screen.list_items,
            final(self).actions == old(self).actions,
    {
        if let Some(c) = cursor {
            c.apply_to_app_state(self);
        }
    }

    /// Applies what was asked to be done after a command ran.
    pub fn follow_up(&mut self, follow: FollowUp)
        ensures
            final(self).main_screen.list_items == old(self).main_screen.list_items,
            final(self).main_screen.file_cursor == old(self).main_screen.file_cursor,
            final(self).actions == old(self).actions,
            follow == FollowUp::Nothing ==> *final(self) == *old(self),
            follow matches FollowUp::KeepUnstagedLine { old_line_cursor, max_y } ==> {
                match old(self).unstaged_pane.list_items@.len() > old(self).unstaged_pane.cursor {
                    true => match old(self).unstaged_pane.list_items@[old(self).unstaged_pane.cursor as int] {
                        UnstagedListItem::File(f) => {
                            let lc = min_of(old_line_cursor as int, sat_sub(f.lines@.len() as int, 1));
                            let content = sat_sub(max_y as usize as int,
                                list_height(max_y, old(self).unstaged_pane.list_items@.len()) + 1);
                            &&& final(self).main_screen.line_cursor == lc
                            &&& final(self).unstaged_pane.diff_scroll == if lc >= old(self).unstaged_pane.diff_scroll + content {
                                lc - content + 1
                            } else {
                                old(self).unstaged_pane.diff_scroll as int
                            }
                        },
                        _ => final(self).main_screen.line_cursor == 0 && final(self).unstaged_pane.diff_scroll == old(self).unstaged_pane.diff_scroll,
                    },
                    false => final(self).main_screen.line_cursor == 0 && final(self).unstaged_pane.diff_scroll == old(self).unstaged_pane.diff_scroll,
                }
            },
            follow matches FollowUp::KeepMainLine { old_line_cursor, max_y } ==> {
                match item_at(item_views(old(self).main_screen.list_items@), old(self).main_screen.file_cursor as int) {
                    Some(ListItemView::File(f)) => {
                        let lc = min_of(old_line_cursor as int, sat_sub(f.lines.len() as int, 1));
                        let content = sat_sub(max_y as usize as int, list_height(max_y, old(self).main_screen.list_items@.len()) as int);
                        &&& final(self).main_screen.line_cursor == lc
                        &&& final(self).main_screen.diff_scroll == if lc >= old(self).main_screen.diff_scroll + content {
                            lc - content + 1
                        } else {
                            old(self).main_screen.diff_scroll as int
                        }
                    },
                    _ => final(self).main_screen.line_cursor == old(self).main_screen.line_cursor
                        && final(self).main_screen.diff_scroll == old(self).main_screen.diff_scroll,
                }
            },
    {
        match follow {
            FollowUp::Nothing => {},
            FollowUp::KeepUnstagedLine { old_line_cursor, max_y } => {
                let lines_len: Option<usize> = match self.get_unstaged_file() {
                    Some(f) => Some(f.lines.len()),
                    None => None,
                };
                match lines_len {
                    Some(len) => {
                        let max_line = len.saturating_sub(1);
                        let lc = if old_line_cursor < max_line { old_line_cursor } else { max_line };
                        self.main_screen.line_cursor = lc;
                        let (file_list_height, _) = self.unstaged_header_height(max_y);
                        let content_height = (max_y as usize).saturating_sub(file_list_height + 1);
                        if content_height <= lc && lc - content_height >= self.unstaged_pane.diff_scroll {
                            self.unstaged_pane.diff_scroll = lc - content_height + 1;
                        }
                    },
                    None => {
                        self.main_screen.line_cursor = 0;
                    },
                }
            },
            FollowUp::KeepMainLine { old_line_cursor, max_y } => {
                let lines_len: Option<usize> = match self.current_main_file() {
                    Some(f) => Some(f.lines.len()),
                    None => None,
                };
                if let Some(len) = lines_len {
                    let max_line = len.saturating_sub(1);
                    let lc = if old_line_cursor < max_line { old_line_cursor } else { max_line };
                    self.main_screen.line_cursor = lc;
                    let header_height = self.main_header_height(max_y).0;
                    let content_height = (max_y as usize).saturating_sub(header_height);
                    if content_height <= lc && lc - content_height >= self.main_screen.diff_scroll {
                        self.main_screen.diff_scroll = lc - content_height + 1;
                    }
                }
            },
        }
    }
}


/// The answer of git found for the `i`-th read, if that read was a run of git.
pub open spec fn found_reply(found: Seq<Observation>, i: int) -> Option<GitOutputView> {
    if 0 <= i < found.len() {
        match found[i] {
            Observation::Git(reply) => reply_view(reply),
            _ => None,
        }
    } else {
        None
    }
}

/// The text found for the `i`-th read, if that read was of a file that exists.
pub open spec fn found_file(found: Seq<Observation>, i: int) -> Option<Seq<char>> {
    if 0 <= i < found.len() {
        match found[i] {
            Observation::File(Some(t)) => Some(t@),
            _ => None,
        }
    } else {
        None
    }
}

/// The first read found the bytes of a file that holds no zero byte.
pub open spec fn found_deletable(found: Seq<Observation>) -> bool {
    found.len() > 0 && match found[0] {
        Observation::Bytes(Some(b)) => !b@.contains(0u8),
        _ => false,
    }
}

/// The reads a plan needs, in order.
pub open spec fn plan_reads(plan: CommandPlan) -> Seq<ProbeView> {
    match plan {
        CommandPlan::Ready(_) => Seq::empty(),
        CommandPlan::UnstageAll => seq![ProbeView::Git(git_call(seq!["diff"@, "--staged"@]))],
        CommandPlan::StageUnstaged => seq![ProbeView::Git(git_call(seq!["diff"@, "--name-only"@]))],
        CommandPlan::StageUntracked => seq![ProbeView::Git(git_call(seq!["ls-files"@, "--others"@, "--exclude-standard"@]))],
        CommandPlan::StageAll => seq![
            ProbeView::Git(git_call(seq!["diff"@])),
            ProbeView::Git(git_call(seq!["ls-files"@, "--others"@, "--exclude-standard"@])),
        ],
        CommandPlan::DiscardFile { file_name, .. } => seq![
            ProbeView::Git(git_call(seq!["diff"@, "--staged"@, "--"@, file_name@])),
            ProbeView::Git(git_call(seq!["diff"@, "--"@, file_name@])),
        ],
        CommandPlan::IgnoreUntrackedFile { .. } => seq![ProbeView::ReadFile(".gitignore"@)],
        CommandPlan::CheckoutFile { file_name } => seq![ProbeView::Git(git_call(seq!["diff"@, "--"@, file_name@]))],
        CommandPlan::DeleteUntrackedFile { file_name } => seq![ProbeView::ReadBytes(file_name@)],
    }
}

/// The text found for the `i`-th read, when that read was a run of git.
fn found_text(found: &Vec<Observation>, i: usize) -> (r: String)
    ensures
        r@ == output_text(found_reply(found@, i as int)),
{
    if i < found.len() {
        match &found[i] {
            Observation::Git(reply) => stdout_or_empty(reply),
            _ => String::new(),
        }
    } else {
        String::new()
    }
}

impl CommandPlan {
    /// What must be read before the command can be made, in order.
    pub fn reads(&self) -> (r: Vec<Probe>)
        ensures
            r@.map_values(|p: Probe| p@) == plan_reads(*self),
    {
        let mut v: Vec<Probe> = Vec::new();
        match self {
            CommandPlan::Ready(_) => {},
            CommandPlan::UnstageAll => v.push(Probe::Git(git::get_staged_diff_patch())),
            CommandPlan::StageUnstaged => v.push(Probe::Git(git::get_unstaged_files())),
            CommandPlan::StageUntracked => v.push(Probe::Git(git::get_untracked_files())),
            CommandPlan::StageAll => {
                v.push(Probe::Git(git::get_unstaged_diff_patch()));
                v.push(Probe::Git(git::get_untracked_files()));
            },
            CommandPlan::DiscardFile { file_name, .. } => {
                v.push(Probe::Git(git::get_file_diff_patch(file_name.as_str())));
                v.push(Probe::Git(git::get_unstaged_file_diff_patch(file_name.as_str())));
            },
            CommandPlan::IgnoreUntrackedFile { .. } => v.push(Probe::ReadFile(git::owned(".gitignore"))),
            CommandPlan::CheckoutFile { file_name } => v.push(Probe::Git(git::get_unstaged_file_diff_patch(file_name.as_str()))),
            CommandPlan::DeleteUntrackedFile { file_name } => v.push(Probe::ReadBytes(file_name.clone())),
        }
        assert(v@.map_values(|p: Probe| p@) =~= plan_reads(*self));
        v
    }

    /// Makes the command from what was found for [`CommandPlan::reads`], in
    /// order (a read that went wrong counts as empty). Only the deletion of
    /// an untracked file can come to nothing: when the file could not be
    /// read or holds a zero byte.
    pub fn build(self, repo_path: String, found: Vec<Observation>) -> (r: Option<AnyCommand>)
        ensures
            r is None <==> (self matches CommandPlan::DeleteUntrackedFile { .. } && !found_deletable(found@)),
            !(self is Ready) ==> (r matches Some(c) ==> c.cursor_before_execute is None && c.cursor_before_undo is None),
            self matches CommandPlan::Ready(c) ==> r == Some(c),
            self is UnstageAll ==> (r matches Some(c) && c.kind matches CommandKind::UnstageAll(u)
                && u.repo_path == repo_path && u.patch() == output_text(found_reply(found@, 0))),
            self is StageUnstaged ==> (r matches Some(c) && c.kind matches CommandKind::StageUnstaged(u)
                && u.repo_path == repo_path && u.files() == unstaged_names(found_reply(found@, 0))),
            self is StageUntracked ==> (r matches Some(c) && c.kind matches CommandKind::StageUntracked(u)
                && u.repo_path == repo_path && u.files() == untracked_names(found_reply(found@, 0))),
            self is StageAll ==> (r matches Some(c) && c.kind matches CommandKind::StageAll(u)
                && u.repo_path == repo_path && u.patch() == output_text(found_reply(found@, 0))
                && u.untracked() == untracked_names(found_reply(found@, 1))),
            self matches CommandPlan::DiscardFile { file_name, is_new } ==> (r matches Some(c)
                && c.kind matches CommandKind::DiscardFile(u) && u.repo_path == repo_path && u.file_name == file_name
                && u.is_new_file() == is_new && u.staged_patch() == output_text(found_reply(found@, 0))
                && u.unstaged_patch() == output_text(found_reply(found@, 1))),
            self matches CommandPlan::IgnoreUntrackedFile { file_name } ==> (r matches Some(c)
                && c.kind matches CommandKind::IgnoreUntrackedFile(u) && u.repo_path == repo_path
                && u.file_name == file_name
                && u.was_empty_before() == crate::command::git_commands::ignore_file_was_empty(found_file(found@, 0))),
            self matches CommandPlan::CheckoutFile { file_name } ==> (r matches Some(c)
                && c.kind matches CommandKind::CheckoutFile(u) && u.repo_path == repo_path && u.file_name == file_name
                && u.patch@ == output_text(found_reply(found@, 0))),
            self matches CommandPlan::DeleteUntrackedFile { file_name } ==> ((r matches Some(c)
                ==> c.kind matches CommandKind::DeleteUntrackedFile(u) && u.repo_path == repo_path
                && u.file_name == file_name && (found@[0] matches Observation::Bytes(Some(b)) && u.content() == b@))),
    {
        match self {
            CommandPlan::Ready(c) => Some(c),
            CommandPlan::UnstageAll => {
                let patch = found_text(&found, 0);
                Some(AnyCommand::new(CommandKind::UnstageAll(UnstageAllCommand::new(repo_path, patch))))
            },
            CommandPlan::StageUnstaged => {
                let names = if found.len() > 0 {
                    match &found[0] {
                        Observation::Git(reply) => parse_unstaged_files(reply),
                        _ => Vec::new(),
                    }
                } else {
                    Vec::new()
                };
                Some(AnyCommand::new(CommandKind::StageUnstaged(StageUnstagedCommand::new(repo_path, names))))
            },
            CommandPlan::StageUntracked => {
                let names = if found.len() > 0 {
                    match &found[0] {
                        Observation::Git(reply) => parse_untracked_files(reply),
                        _ => Vec::new(),
                    }
                } else {
                    Vec::new()
                };
                Some(AnyCommand::new(CommandKind::StageUntracked(StageUntrackedCommand::new(repo_path, names))))
            },
            CommandPlan::StageAll => {
                let patch = found_text(&found, 0);
                let names = if found.len() > 1 {
                    match &found[1] {
                        Observation::Git(reply) => parse_untracked_files(reply),
                        _ => Vec::new(),
                    }
                } else {
                    Vec::new()
                };
                Some(AnyCommand::new(CommandKind::StageAll(StageAllCommand::new(repo_path, patch, names))))
            },
            CommandPlan::DiscardFile { file_name, is_new } => {
                let staged = found_text(&found, 0);
                let unstaged = found_text(&found, 1);
                Some(AnyCommand::new(CommandKind::DiscardFile(DiscardFileCommand::new(repo_path, file_name, staged,
                    unstaged, is_new))))
            },
            CommandPlan::IgnoreUntrackedFile { file_name } => {
                let text: Option<String> = if found.len() > 0 {
                    match &found[0] {
                        Observation::File(Some(t)) => Some(t.clone()),
                        _ => None,
                    }
                } else {
                    None
                };
                Some(AnyCommand::new(CommandKind::IgnoreUntrackedFile(IgnoreUntrackedFileCommand::new(repo_path, file_name, text))))
            },
            CommandPlan::CheckoutFile { file_name } => {
                let patch = found_text(&found, 0);
                Some(AnyCommand::new(CommandKind::CheckoutFile(CheckoutFileCommand::new(repo_path, file_name, patch))))
            },
            CommandPlan::DeleteUntrackedFile { file_name } => {
                let mut found = found;
                if found.len() == 0 {
                    return None;
                }
                let first = found.remove(0);
                match first {
                    Observation::Bytes(Some(content)) => {
                        if is_binary(&content) {
                            None
                        } else {
                            Some(AnyCommand::new(CommandKind::DeleteUntrackedFile(
                                DeleteUntrackedFileCommand::new(repo_path, file_name, content))))
                        }
                    },
                    _ => None,
                }
            },
        }
    }
}


// ---------------------------------------------------------------------------
// Jumping from the summary of a commit to a file's patch
// ---------------------------------------------------------------------------

/// A line of the summary `git show --stat` prints: `path | changes`, with
/// exactly one `'|'`, and after it a count of changes (`+` and `-` marks, a
/// binary note, or only digits and spaces).
pub open spec fn is_stat_line(line: Seq<char>) -> bool {
    match field(line, '|', 1) {
        Some(raw) => field(line, '|', 2) is None && {
            let right = trim_spaces(raw);
            ||| has_char(right, '+')
            ||| has_char(right, '-')
            ||| has_substring(right, "Bin"@)
            ||| (right.len() > 0 && forall|i: int| 0 <= i < right.len() ==> is_digit(#[trigger] right[i]) || is_space(right[i]))
        },
        None => false,
    }
}

/// The position of the first line from `from` on that starts a file's patch
/// (`diff --git `), or the number of lines when none does.
pub open spec fn patch_start_from(ls: Seq<Seq<char>>, from: int) -> int
    decreases ls.len() - from,
{
    if from < 0 || from >= ls.len() {
        ls.len() as int
    } else if starts_with(ls[from], "diff --git "@) {
        from
    } else {
        patch_start_from(ls, from + 1)
    }
}

/// How many of the first `k` lines are summary lines.
pub open spec fn stat_count(ls: Seq<Seq<char>>, k: int) -> nat
    decreases k,
{
    if k <= 0 {
        0
    } else if is_stat_line(ls[k - 1]) {
        stat_count(ls, k - 1) + 1
    } else {
        stat_count(ls, k - 1)
    }
}

/// The number of lines of the first `k` files, at most `usize::MAX`.
pub open spec fn lines_before(files: Seq<FileDiffView>, k: int) -> int
    decreases k,
{
    if k <= 0 {
        0
    } else {
        let s = lines_before(files, k - 1) + files[k - 1].lines.len();
        if s > usize::MAX { usize::MAX as int } else { s }
    }
}

/// Where the diff cursor goes from the summary line `line_index` of a
/// commit's diff (the files of which are `files`): the `k`-th summary line
/// leads to the `k`-th file's patch, the first of them to where the patches
/// begin. `None` when the line is no summary line before the patches, or
/// names a file that is not there.
pub open spec fn jump_target(files: Seq<FileDiffView>, line_index: int) -> Option<int> {
    if files.len() == 0 || line_index < 0 || line_index >= files[0].lines.len() {
        None
    } else {
        let ls = files[0].lines;
        let p = patch_start_from(ls, 0);
        if !(line_index < p && is_stat_line(ls[line_index])) {
            None
        } else {
            let k = stat_count(ls, line_index);
            if k == 0 {
                Some(if p < ls.len() { p } else { 0 })
            } else if k < files.len() {
                Some(lines_before(files, k as int))
            } else {
                None
            }
        }
    }
}

/// Whether `line` is a summary line.
fn is_stat_line_exec(line: &str) -> (r: bool)
    ensures
        r == is_stat_line(line@),
{
    let chars = chars_of(line);
    let raw = match split_field(&chars, '|', 1) {
        Some(v) => v,
        None => return false,
    };
    if split_field(&chars, '|', 2).is_some() {
        return false;
    }
    let right = trim(string_from_chars(&raw).as_str());
    let rc = chars_of(right.as_str());
    let mut plus = false;
    let mut minus = false;
    let mut counts_only = true;
    let mut i: usize = 0;
    while i < rc.len()
        invariant
            i <= rc@.len(),
            rc@ == right@,
            plus == exists|k: int| 0 <= k < i && rc@[k] == '+',
            minus == exists|k: int| 0 <= k < i && rc@[k] == '-',
            counts_only == forall|k: int| 0 <= k < i ==> is_digit(#[trigger] rc@[k]) || is_space(rc@[k]),
        decreases rc@.len() - i,
    {
        let c = rc[i];
        if c == '+' {
            plus = true;
        }
        if c == '-' {
            minus = true;
        }
        if !(('0' <= c && c <= '9') || is_space_exec(c)) {
            counts_only = false;
        }
        i = i + 1;
    }
    plus || minus || str_contains(right.as_str(), "Bin") || (rc.len() > 0 && counts_only)
}

/// The position of the first line that starts a file's patch, or the number
/// of lines.
fn find_patch_start(ls: &Vec<String>) -> (r: usize)
    ensures
        r as int == patch_start_from(views(ls@), 0),
{
    let ghost v = views(ls@);
    let mut i: usize = 0;
    while i < ls.len()
        invariant
            i <= ls@.len(),
            v == views(ls@),
            patch_start_from(v, i as int) == patch_start_from(v, 0),
        decreases ls@.len() - i,
    {
        if str_starts_with(ls[i].as_str(), "diff --git ") {
            return i;
        }
        i = i + 1;
    }
    i
}

/// How many of the first `k` lines are summary lines.
fn count_stat_lines(ls: &Vec<String>, k: usize) -> (r: usize)
    requires
        k <= ls@.len(),
    ensures
        r as nat == stat_count(views(ls@), k as int),
{
    let ghost v = views(ls@);
    let mut i: usize = 0;
    let mut n: usize = 0;
    while i < k
        invariant
            i <= k <= ls@.len(),
            v == views(ls@),
            n as nat == stat_count(v, i as int),
            n <= i,
        decreases k - i,
    {
        if is_stat_line_exec(ls[i].as_str()) {
            n = n + 1;
        }
        i = i + 1;
    }
    n
}

/// The number of lines of the first `k` files, at most `usize::MAX`.
pub fn count_lines_before(files: &Vec<FileDiff>, k: usize) -> (r: usize)
    requires
        k <= files@.len(),
    ensures
        r as int == lines_before(file_views(files@), k as int),
{
    let ghost fv = file_views(files@);
    let mut i: usize = 0;
    let mut total: usize = 0;
    while i < k
        invariant
            i <= k <= files@.len(),
            fv == file_views(files@),
            total as int == lines_before(fv, i as int),
        decreases k - i,
    {
        total = total.saturating_add(files[i].lines.len());
        i = i + 1;
    }
    total
}

impl AppState {
    /// On a summary line of the selected commit's diff, with the diff cursor
    /// active, moves the diff cursor and the view to the patch of the file
    /// the line names. Returns whether it moved.
    pub fn jump_to_file_in_diff(&mut self) -> (r: bool)
        ensures
            *final(self) == (AppState {
                main_screen: MainScreenState {
                    line_cursor: final(self).main_screen.line_cursor,
                    diff_scroll: final(self).main_screen.diff_scroll,
                    ..old(self).main_screen
                },
                ..*old(self)
            }),
            match (if old(self).main_screen.is_diff_cursor_active {
                jump_target(file_views(old(self).selected_commit_files@), old(self).main_screen.line_cursor as int)
            } else {
                None
            }) {
                Some(t) => r && final(self).main_screen.line_cursor == t && final(self).main_screen.diff_scroll == t,
                None => !r && final(self).main_screen.line_cursor == old(self).main_screen.line_cursor
                    && final(self).main_screen.diff_scroll == old(self).main_screen.diff_scroll,
            },
    {
        if !self.main_screen.is_diff_cursor_active {
            return false;
        }
        if self.selected_commit_files.len() == 0 {
            return false;
        }
        let line_index = self.main_screen.line_cursor;
        let ghost fv = file_views(self.selected_commit_files@);
        let first_len = self.selected_commit_files[0].lines.len();
        assert(fv[0].lines.len() == first_len);
        if line_index >= first_len {
            return false;
        }
        let p = find_patch_start(&self.selected_commit_files[0].lines);
        assert(views(self.selected_commit_files@[0].lines@) == fv[0].lines);
        if !(line_index < p && is_stat_line_exec(self.selected_commit_files[0].lines[line_index].as_str())) {
            return false;
        }
        let k = count_stat_lines(&self.selected_commit_files[0].lines, line_index);
        let target = if k == 0 {
            if p < first_len { p } else { 0 }
        } else if k < self.selected_commit_files.len() {
            count_lines_before(&self.selected_commit_files, k)
        } else {
            return false;
        };
        self.main_screen.line_cursor = target;
        self.main_screen.diff_scroll = target;
        true
    }
}


impl AppState {
    /// Takes the outcome of a commit the screen asked for (`new_commit`: a
    /// new commit rather than an amended or reworded one). A new commit that
    /// succeeded empties the message and forgets its stored draft. On an
    /// error the message is shown; on success the history is forgotten and
    /// everything is to be staged again.
    pub fn commit_finished(&mut self, new_commit: bool, result: Result<(), String>)
        ensures
            final(self).main_screen.list_items == old(self).main_screen.list_items,
            final(self).running == old(self).running,
            (new_commit && result is Ok) ==> {
                &&& final(self).main_screen.commit_message@.len() == 0
                &&& final(self).main_screen.commit_scroll_offset == 0
                &&& !final(self).main_screen.commit_scroll_extra_space
            },
            !(new_commit && result is Ok) ==> final(self).main_screen == old(self).main_screen,
            match result {
                Err(e) => {
                    &&& final(self).error_message matches Some(m) && m@ == "Error committing: "@ + e@
                    &&& final(self).actions@ == old(self).actions@
                    &&& final(self).command_history == old(self).command_history
                },
                Ok(_) => {
                    &&& final(self).error_message == old(self).error_message
                    &&& final(self).command_history.undo_stack@.len() == 0
                    &&& final(self).command_history.redo_stack@.len() == 0
                    &&& final(self).actions@.last() matches UiAction::StageAllAfterCommit
                    &&& if new_commit {
                        final(self).actions@.len() == old(self).actions@.len() + 2
                            && final(self).actions@[old(self).actions@.len() as int] matches UiAction::DeleteCommitMessage
                    } else {
                        final(self).actions@.len() == old(self).actions@.len() + 1
                    }
                    &&& final(self).actions@.subrange(0, old(self).actions@.len() as int) == old(self).actions@
                },
            },
    {
        match result {
            Ok(()) => {
                if new_commit {
                    self.actions.push(UiAction::DeleteCommitMessage);
                    self.main_screen.commit_message = String::new();
                    self.main_screen.commit_scroll_offset = 0;
                    self.main_screen.commit_scroll_extra_space = false;
                }
                self.command_history.clear();
                self.actions.push(UiAction::StageAllAfterCommit);
                assert(self.actions@.subrange(0, old(self).actions@.len() as int) =~= old(self).actions@);
            },
            Err(e) => {
                let mut m = git::owned("Error committing: ");
                crate::text::push_all(&mut m, e.as_str());
                self.error_message = Some(m);
                proof {
                    reveal_strlit("Error committing: ");
                }
            },
        }
    }

    /// After a commit everything was staged again: with nothing staged the
    /// program ends, else the screen is read again with the cursor reset.
    pub fn staged_after_commit(&mut self, staged_is_empty: bool)
        ensures
            staged_is_empty ==> !final(self).running && final(self).actions == old(self).actions,
            !staged_is_empty ==> final(self).running == old(self).running
                && one_more_action(old(self).actions@, final(self).actions@)
                && final(self).actions@.last() == (UiAction::Refresh { reset_cursor: true }),
            final(self).main_screen == old(self).main_screen,
    {
        if staged_is_empty {
            self.running = false;
        } else {
            self.actions.push(UiAction::Refresh { reset_cursor: true });
            assert(self.actions@.drop_last() =~= old(self).actions@);
        }
    }
}

} // verus!
