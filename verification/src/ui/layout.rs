//! What the screen shows, row by row: the rows of both lists with the colour
//! pair of each piece, where the caret stands, the title of the reorder
//! mode and the text of a file preview. Drawing them is left to the caller.
use crate::app_state::{list_height, min_of, sat_sub, AppState, FilePreview, FocusedPane};
use crate::git::{FileDiff, FileDiffView, FileStatus};
use crate::text::{decimal, lines, push_all, push_decimal, split_lines, string_push, views};
use crate::ui::commit_view::{build_display_line, display_line, fit_chars_from, str_display_width, str_width,
    truncate_to_width};
use crate::ui::main_screen::{main_item, ListItem, UnstagedListItem};
use crate::ui::scroll::sat_add;
use vstd::prelude::*;

verus! {

/// A run of text drawn in one colour pair.
pub struct Piece {
    pub text: String,
    pub pair: i16,
}

/// One row of a list as drawn: the colour pair the whole row is filled with
/// first, if any; the pieces drawn one after the other from its first
/// column; the column of the caret when the row is a text input.
pub struct Row {
    pub fill: Option<i16>,
    pub pieces: Vec<Piece>,
    pub caret: Option<usize>,
}

/// The mathematical content of a [`Row`].
pub struct RowView {
    pub fill: Option<i16>,
    pub pieces: Seq<(Seq<char>, i16)>,
    pub caret: Option<usize>,
}

/// The text and pair of each piece.
pub open spec fn piece_views(pieces: Seq<Piece>) -> Seq<(Seq<char>, i16)> {
    pieces.map_values(|p: Piece| (p.text@, p.pair))
}

impl View for Row {
    type V = RowView;

    open spec fn view(&self) -> RowView {
        RowView { fill: self.fill, pieces: piece_views(self.pieces@), caret: self.caret }
    }
}

/// The content of each row.
pub open spec fn row_views(rows: Seq<Row>) -> Seq<RowView> {
    rows.map_values(|r: Row| r@)
}

/// The pair of plain text, on the selected row or elsewhere.
pub open spec fn text_pair(selected: bool) -> i16 {
    if selected { 5 } else { 1 }
}

/// The pair of a file's status letter.
pub open spec fn status_pair(selected: bool) -> i16 {
    if selected { 6 } else { 2 }
}

/// The pair of a commit's mark: cyan when the commit is on a remote branch,
/// green otherwise.
pub open spec fn mark_pair(on_remote: bool, selected: bool) -> i16 {
    if on_remote {
        if selected { 8 } else { 4 }
    } else if selected {
        7
    } else {
        3
    }
}

/// The pair of the greyed text shown in an empty message input.
pub open spec fn placeholder_pair(selected: bool) -> i16 {
    if selected { 16 } else { 9 }
}

/// The selected row is filled with the selection colour first.
pub open spec fn fill_of(selected: bool) -> Option<i16> {
    if selected { Some(5i16) } else { None }
}

/// The letter that shows a file's status.
pub open spec fn status_letter(status: FileStatus) -> char {
    match status {
        FileStatus::Added => 'A',
        FileStatus::Modified => 'M',
        FileStatus::Renamed => 'R',
        FileStatus::Deleted => 'D',
    }
}

/// A row showing `text` alone.
pub open spec fn label_row(text: Seq<char>, selected: bool) -> RowView {
    RowView { fill: fill_of(selected), pieces: seq![(text, text_pair(selected))], caret: None }
}

/// The row of a file: its status letter, then its name (both names for a
/// renamed file).
pub open spec fn file_row(f: FileDiffView, selected: bool) -> RowView {
    let name = if f.status == FileStatus::Renamed {
        " "@ + f.old_file_name + " -> "@ + f.file_name
    } else {
        " "@ + f.file_name
    };
    RowView {
        fill: fill_of(selected),
        pieces: seq![("   "@, text_pair(selected)), (seq![status_letter(f.status)], status_pair(selected)),
            (name, text_pair(selected))],
        caret: None,
    }
}

/// The row of a commit: its mark, then `fixup!` for a fixup, else as much
/// of its message as fits after the mark in `max_x` columns.
pub open spec fn commit_row(message: Seq<char>, on_remote: bool, fixup: bool, selected: bool, max_x: i32) -> RowView {
    let text = if fixup {
        "fixup!"@
    } else {
        message.subrange(0, fit_chars_from(message, 0, sat_sub(max_x as usize as int, str_display_width(" ● "@) as int)) as int)
    };
    RowView {
        fill: fill_of(selected),
        pieces: seq![(" ● "@, mark_pair(on_remote, selected)), (text, text_pair(selected))],
        caret: None,
    }
}

/// The row of a one-line text input: `prefix`, then what
/// [`display_line`] shows of `text` in the columns left of `max_x`; the
/// caret after the prefix at the cursor's column, on the screen.
pub open spec fn editor_row(prefix: Seq<char>, text: Seq<char>, cursor: usize, selected: bool, max_x: i32,
    scroll_offset: usize, scroll_extra_space: bool) -> RowView {
    let columns: usize = if max_x < 0 { 0 } else { max_x as usize };
    let prefix_width = str_display_width(prefix);
    let shown = display_line(text, cursor, sat_sub(columns as int, prefix_width as int) as usize, scroll_offset,
        scroll_extra_space);
    RowView {
        fill: fill_of(selected),
        pieces: if shown.0.len() > 0 {
            seq![(prefix, text_pair(selected)), (shown.0, text_pair(selected))]
        } else {
            seq![(prefix, text_pair(selected))]
        },
        caret: Some(min_of(sat_add(prefix_width as int, shown.1 as int), sat_sub(columns as int, 1)) as usize),
    }
}

/// The message a message input shows, with the text shown while it is
/// empty: the amend message when the cursor stands on an amend input, else
/// the commit message.
pub open spec fn input_message(s: AppState) -> (Seq<char>, Seq<char>) {
    match main_item(s) {
        Some(ListItem::AmendingCommitMessageInput { message, .. }) => (message@, "Enter amend message..."@),
        _ => (s.main_screen.commit_message@, "Enter commit message..."@),
    }
}

/// The row of a message input: the greyed hint after the prefix when the
/// message is empty (the caret after the prefix), else the message as a
/// text input.
pub open spec fn message_input_row(s: AppState, selected: bool, max_x: i32) -> RowView {
    let (message, hint) = input_message(s);
    if message.len() == 0 {
        RowView {
            fill: fill_of(selected),
            pieces: seq![(" ○ "@, text_pair(selected)), (hint, placeholder_pair(selected))],
            caret: Some(str_display_width(" ○ "@)),
        }
    } else {
        editor_row(" ○ "@, message, s.main_screen.commit_cursor, selected, max_x,
            s.main_screen.commit_scroll_offset, s.main_screen.commit_scroll_extra_space)
    }
}

/// The row of item `index` of the main list. The commit message input shows
/// nothing but the selection while a commit is amended.
pub open spec fn main_row(s: AppState, index: int, max_x: i32) -> RowView {
    let selected = s.focused_pane == FocusedPane::Main && s.main_screen.file_cursor == index;
    match s.main_screen.list_items@[index] {
        ListItem::StagedChangesHeader => label_row(" Staged changes"@, selected),
        ListItem::File(f) => file_row(f@, selected),
        ListItem::CommitMessageInput => if s.main_screen.amending_commit_hash is None {
            message_input_row(s, selected, max_x)
        } else {
            RowView { fill: fill_of(selected), pieces: Seq::empty(), caret: None }
        },
        ListItem::PreviousCommitInfo { message, is_on_remote, is_fixup, .. } =>
            commit_row(message@, is_on_remote, is_fixup, selected, max_x),
        ListItem::AmendingCommitMessageInput { .. } => message_input_row(s, selected, max_x),
        ListItem::EditingReorderCommit { current_text, cursor, scroll_offset, scroll_extra_space, .. } =>
            editor_row(" ● "@, current_text@, cursor, selected, max_x, scroll_offset, scroll_extra_space),
    }
}

/// The row of item `index` of the unstaged list.
pub open spec fn unstaged_row(s: AppState, index: int) -> RowView {
    let selected = s.focused_pane == FocusedPane::Unstaged && s.unstaged_pane.cursor == index;
    match s.unstaged_pane.list_items@[index] {
        UnstagedListItem::UnstagedChangesHeader => label_row(" Unstaged changes"@, selected),
        UnstagedListItem::File(f) => file_row(f@, selected),
        UnstagedListItem::UntrackedFilesHeader => label_row(" Untracked files"@, selected),
        UnstagedListItem::UntrackedFile(name) => label_row("    ? "@ + name@, selected),
    }
}

/// How many items of a list of `total` fit in `height` rows from item
/// `scroll` on.
pub open spec fn visible_count(scroll: usize, height: usize, total: nat) -> nat {
    if scroll >= total {
        0
    } else {
        min_of(height as int, total - scroll) as nat
    }
}

/// The rows the main list shows on a screen `max_y` rows high and `max_x`
/// columns wide: a row per item from its scroll position on, as many as its
/// height allows.
pub open spec fn main_rows_of(s: AppState, max_y: i32, max_x: i32) -> Seq<RowView> {
    let total = s.main_screen.list_items@.len();
    let scroll = s.main_screen.file_list_scroll;
    Seq::new(visible_count(scroll, list_height(max_y, total), total), |i: int| main_row(s, scroll + i, max_x))
}

/// The rows the unstaged list shows on a screen `max_y` rows high.
pub open spec fn unstaged_rows_of(s: AppState, max_y: i32) -> Seq<RowView> {
    let total = s.unstaged_pane.list_items@.len();
    let scroll = s.unstaged_pane.scroll;
    Seq::new(visible_count(scroll, list_height(max_y, total), total), |i: int| unstaged_row(s, scroll + i))
}

/// The plain pieces of a file's row.
fn file_pieces(f: &FileDiff, selected: bool) -> (r: Vec<Piece>)
    ensures
        piece_views(r@) == file_row(f@, selected).pieces,
{
    let pair: i16 = if selected { 5 } else { 1 };
    let mut letter = String::new();
    let c = match f.status {
        FileStatus::Added => 'A',
        FileStatus::Modified => 'M',
        FileStatus::Renamed => 'R',
        FileStatus::Deleted => 'D',
    };
    string_push(&mut letter, c);
    let mut name = crate::git::owned(" ");
    let renamed = match f.status {
        FileStatus::Renamed => true,
        _ => false,
    };
    if renamed {
        push_all(&mut name, f.old_file_name.as_str());
        push_all(&mut name, " -> ");
    }
    push_all(&mut name, f.file_name.as_str());
    let mut v: Vec<Piece> = Vec::new();
    v.push(Piece { text: crate::git::owned("   "), pair });
    v.push(Piece { text: letter, pair: if selected { 6 } else { 2 } });
    v.push(Piece { text: name, pair });
    assert(piece_views(v@) =~= file_row(f@, selected).pieces);
    v
}

/// A row showing `text` alone.
fn label(text: String, selected: bool) -> (r: Row)
    ensures
        r@ == label_row(text@, selected),
{
    let mut v: Vec<Piece> = Vec::new();
    v.push(Piece { text, pair: if selected { 5 } else { 1 } });
    assert(piece_views(v@) =~= label_row(text@, selected).pieces);
    Row { fill: if selected { Some(5) } else { None }, pieces: v, caret: None }
}

/// The row of a one-line text input.
pub fn editor(prefix: &str, text: &str, cursor: usize, selected: bool, max_x: i32, scroll_offset: usize,
    scroll_extra_space: bool) -> (r: Row)
    ensures
        r@ == editor_row(prefix@, text@, cursor, selected, max_x, scroll_offset, scroll_extra_space),
{
    let pair: i16 = if selected { 5 } else { 1 };
    let columns: usize = if max_x < 0 { 0 } else { max_x as usize };
    let prefix_width = str_width(prefix);
    let available = columns.saturating_sub(prefix_width);
    let (shown, column) = build_display_line(text, cursor, available, scroll_offset, scroll_extra_space);
    let mut v: Vec<Piece> = Vec::new();
    v.push(Piece { text: crate::git::owned(prefix), pair });
    if !shown.as_str().is_empty() {
        v.push(Piece { text: shown, pair });
    }
    let at = prefix_width.saturating_add(column);
    let last = columns.saturating_sub(1);
    assert(piece_views(v@) =~= editor_row(prefix@, text@, cursor, selected, max_x, scroll_offset,
        scroll_extra_space).pieces);
    Row { fill: if selected { Some(5) } else { None }, pieces: v, caret: Some(if at < last { at } else { last }) }
}

/// The row of a message input.
fn message_input(state: &AppState, selected: bool, max_x: i32) -> (r: Row)
    ensures
        r@ == message_input_row(*state, selected, max_x),
{
    let (message, hint) = match state.current_main_item() {
        Some(ListItem::AmendingCommitMessageInput { message, .. }) => (message.as_str(), "Enter amend message..."),
        _ => (state.main_screen.commit_message.as_str(), "Enter commit message..."),
    };
    if message.is_empty() {
        let mut v: Vec<Piece> = Vec::new();
        v.push(Piece { text: crate::git::owned(" ○ "), pair: if selected { 5 } else { 1 } });
        v.push(Piece { text: crate::git::owned(hint), pair: if selected { 16 } else { 9 } });
        assert(piece_views(v@) =~= message_input_row(*state, selected, max_x).pieces);
        Row { fill: if selected { Some(5) } else { None }, pieces: v, caret: Some(str_width(" ○ ")) }
    } else {
        editor(" ○ ", message, state.main_screen.commit_cursor, selected, max_x,
            state.main_screen.commit_scroll_offset, state.main_screen.commit_scroll_extra_space)
    }
}

/// The row of item `index` of the main list.
pub fn main_row_at(state: &AppState, index: usize, max_x: i32) -> (r: Row)
    requires
        index < state.main_screen.list_items@.len(),
    ensures
        r@ == main_row(*state, index as int, max_x),
{
    let selected = match state.focused_pane {
        FocusedPane::Main => state.main_screen.file_cursor == index,
        FocusedPane::Unstaged => false,
    };
    let pair: i16 = if selected { 5 } else { 1 };
    let fill: Option<i16> = if selected { Some(5) } else { None };
    match &state.main_screen.list_items[index] {
        ListItem::StagedChangesHeader => label(crate::git::owned(" Staged changes"), selected),
        ListItem::File(f) => Row { fill, pieces: file_pieces(f, selected), caret: None },
        ListItem::CommitMessageInput => {
            if state.main_screen.amending_commit_hash.is_none() {
                message_input(state, selected, max_x)
            } else {
                let v: Vec<Piece> = Vec::new();
                assert(piece_views(v@) =~= Seq::empty());
                Row { fill, pieces: v, caret: None }
            }
        },
        ListItem::PreviousCommitInfo { message, is_on_remote, is_fixup, .. } => {
            let text = if *is_fixup {
                crate::git::owned("fixup!")
            } else {
                let available = (max_x as usize).saturating_sub(str_width(" ● "));
                truncate_to_width(message.as_str(), available)
            };
            let mark: i16 = if *is_on_remote {
                if selected { 8 } else { 4 }
            } else if selected {
                7
            } else {
                3
            };
            let mut v: Vec<Piece> = Vec::new();
            v.push(Piece { text: crate::git::owned(" ● "), pair: mark });
            v.push(Piece { text, pair });
            assert(piece_views(v@) =~= main_row(*state, index as int, max_x).pieces);
            Row { fill, pieces: v, caret: None }
        },
        ListItem::AmendingCommitMessageInput { .. } => message_input(state, selected, max_x),
        ListItem::EditingReorderCommit { current_text, cursor, scroll_offset, scroll_extra_space, .. } =>
            editor(" ● ", current_text.as_str(), *cursor, selected, max_x, *scroll_offset, *scroll_extra_space),
    }
}

/// The row of item `index` of the unstaged list.
pub fn unstaged_row_at(state: &AppState, index: usize) -> (r: Row)
    requires
        index < state.unstaged_pane.list_items@.len(),
    ensures
        r@ == unstaged_row(*state, index as int),
{
    let selected = match state.focused_pane {
        FocusedPane::Unstaged => state.unstaged_pane.cursor == index,
        FocusedPane::Main => false,
    };
    match &state.unstaged_pane.list_items[index] {
        UnstagedListItem::UnstagedChangesHeader => label(crate::git::owned(" Unstaged changes"), selected),
        UnstagedListItem::File(f) => Row {
            fill: if selected { Some(5) } else { None },
            pieces: file_pieces(f, selected),
            caret: None,
        },
        UnstagedListItem::UntrackedFilesHeader => label(crate::git::owned(" Untracked files"), selected),
        UnstagedListItem::UntrackedFile(name) => {
            let mut text = crate::git::owned("    ? ");
            push_all(&mut text, name.as_str());
            label(text, selected)
        },
    }
}

/// Adding a row adds its content.
proof fn lemma_row_views_push(rows: Seq<Row>, row: Row)
    ensures
        row_views(rows.push(row)) == row_views(rows).push(row@),
{
    assert(row_views(rows.push(row)) =~= row_views(rows).push(row@));
}

/// The rows the main list shows (see [`main_rows_of`]).
pub fn main_rows(state: &AppState, max_y: i32, max_x: i32) -> (r: Vec<Row>)
    ensures
        row_views(r@) == main_rows_of(*state, max_y, max_x),
{
    let (height, total) = state.main_header_height(max_y);
    let scroll = state.main_screen.file_list_scroll;
    let count: usize = if scroll >= total { 0 } else if height < total - scroll { height } else { total - scroll };
    let mut rows: Vec<Row> = Vec::new();
    let mut i: usize = 0;
    while i < count
        invariant
            i <= count,
            count == visible_count(scroll, height, total as nat),
            scroll == state.main_screen.file_list_scroll,
            total == state.main_screen.list_items@.len(),
            count > 0 ==> scroll + count <= total,
            row_views(rows@) == Seq::new(i as nat, |k: int| main_row(*state, scroll + k, max_x)),
        decreases count - i,
    {
        let row = main_row_at(state, scroll + i, max_x);
        proof {
            lemma_row_views_push(rows@, row);
        }
        rows.push(row);
        assert(row_views(rows@) =~= Seq::new((i + 1) as nat, |k: int| main_row(*state, scroll + k, max_x)));
        i = i + 1;
    }
    assert(row_views(rows@) =~= main_rows_of(*state, max_y, max_x));
    rows
}

/// The rows the unstaged list shows (see [`unstaged_rows_of`]).
pub fn unstaged_rows(state: &AppState, max_y: i32) -> (r: Vec<Row>)
    ensures
        row_views(r@) == unstaged_rows_of(*state, max_y),
{
    let (height, total) = state.unstaged_header_height(max_y);
    let scroll = state.unstaged_pane.scroll;
    let count: usize = if scroll >= total { 0 } else if height < total - scroll { height } else { total - scroll };
    let mut rows: Vec<Row> = Vec::new();
    let mut i: usize = 0;
    while i < count
        invariant
            i <= count,
            count == visible_count(scroll, height, total as nat),
            scroll == state.unstaged_pane.scroll,
            total == state.unstaged_pane.list_items@.len(),
            count > 0 ==> scroll + count <= total,
            row_views(rows@) == Seq::new(i as nat, |k: int| unstaged_row(*state, scroll + k)),
        decreases count - i,
    {
        let row = unstaged_row_at(state, scroll + i);
        proof {
            lemma_row_views_push(rows@, row);
        }
        rows.push(row);
        assert(row_views(rows@) =~= Seq::new((i + 1) as nat, |k: int| unstaged_row(*state, scroll + k)));
        i = i + 1;
    }
    assert(row_views(rows@) =~= unstaged_rows_of(*state, max_y));
    rows
}

/// The title shown at the top in the reorder mode.
pub open spec fn reorder_title() -> Seq<char> {
    " Commit Reordering (Up/Down: move, Enter: confirm, Esc/q: cancel) "@
}

/// The column where a text `len` characters long starts when it is centred
/// on a screen `max_x` columns wide (left of the screen when it is wider).
pub open spec fn centred_column(max_x: i32, len: int) -> int {
    let d = max_x - len;
    if d >= 0 { d / 2 } else { -((-d) / 2) }
}

/// Whether the unstaged list is shown above the main list: when there are
/// unstaged changes, outside the reorder mode.
pub open spec fn shows_unstaged(s: AppState) -> bool {
    s.main_screen.has_unstaged_changes && !s.main_screen.is_reordering_commits
}

/// The row the main list starts at: below the unstaged list when that is
/// shown.
pub open spec fn main_top_of(s: AppState, max_y: i32) -> usize {
    if shows_unstaged(s) { list_height(max_y, s.unstaged_pane.list_items@.len()) } else { 0 }
}

/// The row among `rows` of the last text input and the column of its caret.
pub open spec fn last_caret(rows: Seq<RowView>) -> Option<(int, int)>
    decreases rows.len(),
{
    if rows.len() == 0 {
        None
    } else if rows.last().caret is Some {
        Some((rows.len() - 1, rows.last().caret->0 as int))
    } else {
        last_caret(rows.drop_last())
    }
}

/// What the screen shows above the diff pane.
pub struct Screen {
    /// The rows of the unstaged list, from the top row; none when it is hidden.
    pub unstaged_rows: Vec<Row>,
    /// The row the main list starts at.
    pub main_top: usize,
    /// The rows of the main list.
    pub main_rows: Vec<Row>,
    /// The title of the reorder mode and the column it starts at, in that mode.
    pub title: Option<(String, i32)>,
    /// The row the diff pane starts at.
    pub diff_top: usize,
    /// The main row holding the caret and its column, when the main pane has
    /// the keyboard and shows a text input.
    pub caret: Option<(usize, usize)>,
    /// Whether the caret is shown: the main cursor stands on a text input.
    pub caret_shown: bool,
}

/// The caret of the last text input among `rows`.
fn find_caret(rows: &Vec<Row>) -> (r: Option<(usize, usize)>)
    ensures
        match r {
            Some((i, c)) => last_caret(row_views(rows@)) == Some((i as int, c as int)),
            None => last_caret(row_views(rows@)) is None,
        },
{
    let mut i: usize = rows.len();
    assert(rows@.take(i as int) =~= rows@);
    while i > 0
        invariant
            i <= rows@.len(),
            last_caret(row_views(rows@)) == last_caret(row_views(rows@.take(i as int))),
        decreases i,
    {
        let ghost shorter = rows@.take(i - 1);
        assert(row_views(rows@.take(i as int)).drop_last() =~= row_views(shorter));
        assert(row_views(rows@.take(i as int)).last() == rows@[i - 1]@);
        match rows[i - 1].caret {
            Some(c) => {
                return Some((i - 1, c));
            },
            None => {},
        }
        i = i - 1;
    }
    assert(row_views(rows@.take(0)) =~= Seq::<RowView>::empty());
    None
}

/// Lays out the screen for `state` on `max_y` rows and `max_x` columns.
pub fn screen(state: &AppState, max_y: i32, max_x: i32) -> (r: Screen)
    ensures
        row_views(r.unstaged_rows@) == if shows_unstaged(*state) {
            unstaged_rows_of(*state, max_y)
        } else {
            Seq::<RowView>::empty()
        },
        r.main_top == main_top_of(*state, max_y),
        row_views(r.main_rows@) == main_rows_of(*state, max_y, max_x),
        r.title is Some <==> state.main_screen.is_reordering_commits,
        r.title matches Some((t, c)) ==> t@ == reorder_title() && c as int == centred_column(max_x,
            reorder_title().len() as int),
        r.diff_top == sat_add(r.main_top as int, list_height(max_y, state.main_screen.list_items@.len()) as int),
        r.caret == if state.focused_pane == FocusedPane::Main {
            match last_caret(main_rows_of(*state, max_y, max_x)) {
                Some((i, c)) => Some((i as usize, c as usize)),
                None => None,
            }
        } else {
            None
        },
        r.caret_shown == crate::ui::update::in_input(*state),
{
    let shown = state.main_screen.has_unstaged_changes && !state.main_screen.is_reordering_commits;
    let unstaged = if shown { unstaged_rows(state, max_y) } else { Vec::new() };
    let main_top = if shown { state.unstaged_header_height(max_y).0 } else { 0 };
    let main = main_rows(state, max_y, max_x);
    let title = if state.main_screen.is_reordering_commits {
        let text = crate::git::owned(" Commit Reordering (Up/Down: move, Enter: confirm, Esc/q: cancel) ");
        proof {
            reveal_strlit(" Commit Reordering (Up/Down: move, Enter: confirm, Esc/q: cancel) ");
        }
        let d: i64 = max_x as i64 - 66;
        let column: i64 = if d >= 0 { d / 2 } else { -((-d) / 2) };
        Some((text, column as i32))
    } else {
        None
    };
    let diff_top = main_top.saturating_add(state.main_header_height(max_y).0);
    let caret = match state.focused_pane {
        FocusedPane::Main => find_caret(&main),
        FocusedPane::Unstaged => None,
    };
    Screen {
        unstaged_rows: unstaged,
        main_top,
        main_rows: main,
        title,
        diff_top,
        caret,
        caret_shown: state.is_in_input_mode(),
    }
}

/// What the diff pane shows.
pub enum DiffSource {
    /// Nothing.
    Nothing,
    /// The staged file under the main cursor.
    StagedFile,
    /// The files of the commit under the main cursor, as one diff.
    Commit,
    /// The changed file under the unstaged cursor.
    UnstagedFile,
    /// The preview of the untracked file under the unstaged cursor.
    UntrackedFile,
}

/// What the diff pane shows, how far it is scrolled down and sideways, the
/// line of the cursor and whether the cursor is active.
pub struct DiffPane {
    pub source: DiffSource,
    pub scroll: usize,
    pub horizontal_scroll: usize,
    pub cursor: usize,
    pub cursor_active: bool,
}

/// What the diff pane shows for `s`: for the main pane the diff of the file
/// or commit under its cursor, with its scroll positions; for the unstaged
/// pane that of the changed or untracked file under its cursor, with its
/// own scroll positions and the line cursor.
pub open spec fn diff_pane_of(s: AppState) -> DiffPane {
    match s.focused_pane {
        FocusedPane::Main => DiffPane {
            source: match main_item(s) {
                Some(ListItem::File(_)) => DiffSource::StagedFile,
                Some(ListItem::PreviousCommitInfo { .. }) => DiffSource::Commit,
                _ => DiffSource::Nothing,
            },
            scroll: s.main_screen.diff_scroll,
            horizontal_scroll: s.main_screen.horizontal_scroll,
            cursor: match main_item(s) {
                Some(ListItem::File(_)) => s.main_screen.line_cursor,
                Some(ListItem::PreviousCommitInfo { .. }) => s.main_screen.line_cursor,
                _ => 0,
            },
            cursor_active: s.main_screen.is_diff_cursor_active,
        },
        FocusedPane::Unstaged => DiffPane {
            source: if s.unstaged_pane.cursor < s.unstaged_pane.list_items@.len() {
                match s.unstaged_pane.list_items@[s.unstaged_pane.cursor as int] {
                    UnstagedListItem::File(_) => DiffSource::UnstagedFile,
                    UnstagedListItem::UntrackedFile(_) => DiffSource::UntrackedFile,
                    _ => DiffSource::Nothing,
                }
            } else {
                DiffSource::Nothing
            },
            scroll: s.unstaged_pane.diff_scroll,
            horizontal_scroll: s.unstaged_pane.horizontal_scroll,
            cursor: s.main_screen.line_cursor,
            cursor_active: s.unstaged_pane.is_diff_cursor_active,
        },
    }
}

/// Computes [`diff_pane_of`].
pub fn diff_pane(state: &AppState) -> (r: DiffPane)
    ensures
        r == diff_pane_of(*state),
{
    match state.focused_pane {
        FocusedPane::Main => {
            let source = match state.current_main_item() {
                Some(ListItem::File(_)) => DiffSource::StagedFile,
                Some(ListItem::PreviousCommitInfo { .. }) => DiffSource::Commit,
                _ => DiffSource::Nothing,
            };
            DiffPane {
                source,
                scroll: state.main_screen.diff_scroll,
                horizontal_scroll: state.main_screen.horizontal_scroll,
                cursor: state.get_cursor_line_index(),
                cursor_active: state.main_screen.is_diff_cursor_active,
            }
        },
        FocusedPane::Unstaged => {
            let source = if state.unstaged_pane.cursor < state.unstaged_pane.list_items.len() {
                match &state.unstaged_pane.list_items[state.unstaged_pane.cursor] {
                    UnstagedListItem::File(_) => DiffSource::UnstagedFile,
                    UnstagedListItem::UntrackedFile(_) => DiffSource::UntrackedFile,
                    _ => DiffSource::Nothing,
                }
            } else {
                DiffSource::Nothing
            };
            DiffPane {
                source,
                scroll: state.unstaged_pane.diff_scroll,
                horizontal_scroll: state.unstaged_pane.horizontal_scroll,
                cursor: state.main_screen.line_cursor,
                cursor_active: state.unstaged_pane.is_diff_cursor_active,
            }
        },
    }
}

/// The lines the preview of an untracked file shows: a note when it could
/// not be read or is binary, else each of its lines after a space.
pub open spec fn preview_text(p: FilePreview) -> Seq<Seq<char>> {
    match p {
        FilePreview::NotRead => Seq::empty(),
        FilePreview::Unreadable(e) => seq!["  Error reading file: "@ + e@],
        FilePreview::Binary(size) => seq!["  Binary file (size: "@ + decimal(size as nat) + " bytes)"@],
        FilePreview::Text(t) => lines(t@).map_values(|l: Seq<char>| " "@ + l),
    }
}

/// Builds [`preview_text`].
pub fn preview_lines_of(preview: &FilePreview) -> (r: Vec<String>)
    ensures
        views(r@) == preview_text(*preview),
{
    let mut out: Vec<String> = Vec::new();
    match preview {
        FilePreview::NotRead => {},
        FilePreview::Unreadable(e) => {
            let mut line = crate::git::owned("  Error reading file: ");
            push_all(&mut line, e.as_str());
            out.push(line);
        },
        FilePreview::Binary(size) => {
            let mut line = crate::git::owned("  Binary file (size: ");
            push_decimal(&mut line, *size);
            push_all(&mut line, " bytes)");
            out.push(line);
        },
        FilePreview::Text(t) => {
            let ls = split_lines(t.as_str());
            let mut i: usize = 0;
            while i < ls.len()
                invariant
                    i <= ls@.len(),
                    views(ls@) == lines(t@),
                    views(out@) == views(ls@).take(i as int).map_values(|l: Seq<char>| " "@ + l),
                decreases ls@.len() - i,
            {
                let mut line = crate::git::owned(" ");
                push_all(&mut line, ls[i].as_str());
                let ghost before = out@;
                out.push(line);
                assert(views(out@) =~= views(before).push(line@));
                assert(views(out@) =~= views(ls@).take(i + 1).map_values(|l: Seq<char>| " "@ + l));
                i = i + 1;
            }
            assert(views(ls@).take(i as int) =~= views(ls@));
        },
    }
    assert(views(out@) =~= preview_text(*preview));
    out
}

} // verus!
