//! The top-level handling of a key: the keys that work everywhere, and the
//! keys pressed with Alt, which reorder and rename commits.
use crate::app_state::{item_at, selected_hash, AppState, FocusedPane, MainScreenState, UiAction, UnstagedPaneState};
use crate::command::list_commands::SwapCommitCommand;
use crate::command::effect::{Effect, Observation};
use crate::command::{history_executed, stacks, AnyCommand, CommandHistory, CommandKind};
use crate::cursor_state::cursor_of;
use crate::ui::keyboard::Key;
use crate::ui::main_screen::{
    self, editing_at_cursor, item_views, reorder_started, ListItem, ListItemView, UnstagedListItem,
};
use vstd::prelude::*;

verus! {

/// The position of the first staged file with this name.
fn find_main_file(items: &Vec<ListItem>, name: &String) -> (r: Option<usize>)
    ensures
        match r {
            Some(k) => k < items@.len() && (items@[k as int] matches ListItem::File(f) && f.file_name@ == name@)
                && forall|j: int| 0 <= j < k ==> !(#[trigger] items@[j] matches ListItem::File(g) && g.file_name@ == name@),
            None => forall|j: int| 0 <= j < items@.len() ==> !(#[trigger] items@[j] matches ListItem::File(g) && g.file_name@ == name@),
        },
{
    let mut i: usize = 0;
    while i < items.len()
        invariant
            i <= items@.len(),
            forall|j: int| 0 <= j < i ==> !(#[trigger] items@[j] matches ListItem::File(g) && g.file_name@ == name@),
        decreases items@.len() - i,
    {
        if let ListItem::File(f) = &items[i] {
            if crate::text::str_equal(f.file_name.as_str(), name.as_str()) {
                return Some(i);
            }
        }
        i = i + 1;
    }
    None
}

/// An entry of the unstaged pane that shows the file `name`: a changed
/// file or an untracked one.
pub open spec fn names_file(it: UnstagedListItem, name: Seq<char>) -> bool {
    match it {
        UnstagedListItem::File(f) => f.file_name@ == name,
        UnstagedListItem::UntrackedFile(n) => n@ == name,
        _ => false,
    }
}

/// A staged file of the main list named `name`.
pub open spec fn is_main_file_named(it: ListItem, name: Seq<char>) -> bool {
    it matches ListItem::File(f) && f.file_name@ == name
}

/// The position of the first entry of the unstaged pane that shows this file.
fn find_unstaged_file(items: &Vec<UnstagedListItem>, name: &String) -> (r: Option<usize>)
    ensures
        match r {
            Some(k) => k < items@.len() && names_file(items@[k as int], name@)
                && forall|j: int| 0 <= j < k ==> !names_file(#[trigger] items@[j], name@),
            None => forall|j: int| 0 <= j < items@.len() ==> !names_file(#[trigger] items@[j], name@),
        },
{
    let mut i: usize = 0;
    while i < items.len()
        invariant
            i <= items@.len(),
            forall|j: int| 0 <= j < i ==> !names_file(#[trigger] items@[j], name@),
        decreases items@.len() - i,
    {
        let hit = match &items[i] {
            UnstagedListItem::File(f) => crate::text::str_equal(f.file_name.as_str(), name.as_str()),
            UnstagedListItem::UntrackedFile(n) => crate::text::str_equal(n.as_str(), name.as_str()),
            _ => false,
        };
        if hit {
            return Some(i);
        }
        i = i + 1;
    }
    None
}

/// The name of the file under the focused pane's cursor, if it is a
/// changed (or staged) file.
pub open spec fn file_under_cursor(s: AppState) -> Option<Seq<char>> {
    match s.focused_pane {
        FocusedPane::Main => if s.main_screen.file_cursor < s.main_screen.list_items@.len() {
            match s.main_screen.list_items@[s.main_screen.file_cursor as int] {
                ListItem::File(f) => Some(f.file_name@),
                _ => None,
            }
        } else {
            None
        },
        FocusedPane::Unstaged => if s.unstaged_pane.cursor < s.unstaged_pane.list_items@.len() {
            match s.unstaged_pane.list_items@[s.unstaged_pane.cursor as int] {
                UnstagedListItem::File(f) => Some(f.file_name@),
                _ => None,
            }
        } else {
            None
        },
    }
}

/// Where Tab leaves the cursors: the pane left keeps its cursor; the pane
/// entered puts its cursor on the first entry that shows the file under the
/// old cursor, and keeps it when there is none.
pub open spec fn tab_cursors(o: AppState, n: AppState) -> bool {
    &&& (o.focused_pane == FocusedPane::Main ==> n.main_screen.file_cursor == o.main_screen.file_cursor)
    &&& (o.focused_pane == FocusedPane::Unstaged ==> n.unstaged_pane.cursor == o.unstaged_pane.cursor)
    &&& (o.focused_pane == FocusedPane::Main ==> match file_under_cursor(o) {
            Some(name) => if exists|j: int| 0 <= j < o.unstaged_pane.list_items@.len()
                && names_file(#[trigger] o.unstaged_pane.list_items@[j], name) {
                let k = n.unstaged_pane.cursor as int;
                k < o.unstaged_pane.list_items@.len() && names_file(o.unstaged_pane.list_items@[k], name)
                    && forall|j: int| 0 <= j < k ==> !names_file(#[trigger] o.unstaged_pane.list_items@[j], name)
            } else {
                n.unstaged_pane.cursor == o.unstaged_pane.cursor
            },
            None => n.unstaged_pane.cursor == o.unstaged_pane.cursor,
        })
    &&& (o.focused_pane == FocusedPane::Unstaged ==> match file_under_cursor(o) {
            Some(name) => if exists|j: int| 0 <= j < o.main_screen.list_items@.len()
                && is_main_file_named(#[trigger] o.main_screen.list_items@[j], name) {
                let k = n.main_screen.file_cursor as int;
                k < o.main_screen.list_items@.len() && is_main_file_named(o.main_screen.list_items@[k], name)
                    && forall|j: int| 0 <= j < k ==> !is_main_file_named(#[trigger] o.main_screen.list_items@[j], name)
            } else {
                n.main_screen.file_cursor == o.main_screen.file_cursor
            },
            None => n.main_screen.file_cursor == o.main_screen.file_cursor,
        })
}

/// Tab moves the keyboard to the other pane, onto the same file when that
/// pane lists it (the first entry that shows it; in the unstaged pane an
/// untracked file counts too); otherwise that pane's cursor stays.
fn switch_pane(state: &mut AppState)
    ensures
        final(state).focused_pane != old(state).focused_pane,
        final(state).main_screen.list_items == old(state).main_screen.list_items,
        final(state).unstaged_pane.list_items == old(state).unstaged_pane.list_items,
        final(state).actions == old(state).actions,
        final(state).running == old(state).running,
        final(state).main_screen.has_unstaged_changes == old(state).main_screen.has_unstaged_changes,
        *final(state) == (AppState {
            focused_pane: final(state).focused_pane,
            main_screen: MainScreenState { file_cursor: final(state).main_screen.file_cursor, ..old(state).main_screen },
            unstaged_pane: UnstagedPaneState { cursor: final(state).unstaged_pane.cursor, ..old(state).unstaged_pane },
            ..*old(state)
        }),
        tab_cursors(*old(state), *final(state)),
{
    let path: Option<String> = match state.focused_pane {
        FocusedPane::Main => match state.current_main_file() {
            Some(f) => Some(f.file_name.clone()),
            None => None,
        },
        FocusedPane::Unstaged => match state.get_unstaged_file() {
            Some(f) => Some(f.file_name.clone()),
            None => None,
        },
    };
    state.focused_pane = match state.focused_pane {
        FocusedPane::Main => FocusedPane::Unstaged,
        FocusedPane::Unstaged => FocusedPane::Main,
    };
    if let Some(p) = path {
        match state.focused_pane {
            FocusedPane::Main => {
                if let Some(index) = find_main_file(&state.main_screen.list_items, &p) {
                    state.main_screen.file_cursor = index;
                }
            },
            FocusedPane::Unstaged => {
                if let Some(index) = find_unstaged_file(&state.unstaged_pane.list_items, &p) {
                    state.unstaged_pane.cursor = index;
                }
            },
        }
    }
}

/// Whether the cursor stands on a text input.
pub open spec fn in_input(s: AppState) -> bool {
    crate::app_state::is_input_item(item_at(item_views(s.main_screen.list_items@), s.main_screen.file_cursor as int))
}

/// Ends the program with the draft stored.
fn quit(state: &mut AppState)
    ensures
        !final(state).running,
        final(state).actions@ == old(state).actions@.push(UiAction::SaveCommitMessage(old(state).main_screen.commit_message)),
        *final(state) == (AppState { running: false, actions: final(state).actions, ..*old(state) }),
{
    let m = state.main_screen.commit_message.clone();
    state.actions.push(UiAction::SaveCommitMessage(m));
    state.running = false;
}

/// What the focused pane does with a key.
pub open spec fn key_handled(o: AppState, k: Key, max_y: i32, max_x: i32, n: AppState) -> bool {
    &&& (o.focused_pane == FocusedPane::Main ==> main_screen::main_input_done(o, k, max_y, max_x, n))
    &&& (o.focused_pane == FocusedPane::Unstaged ==> main_screen::unstaged_input_done(o, k, max_y, max_x, n))
}

/// The state with the keyboard taken from an unstaged pane that has
/// nothing to show.
pub open spec fn pane_checked(s: AppState) -> AppState {
    AppState {
        focused_pane: if !s.main_screen.has_unstaged_changes && s.focused_pane == FocusedPane::Unstaged {
            FocusedPane::Main
        } else {
            s.focused_pane
        },
        ..s
    }
}

/// A key that goes to the focused pane: not Tab, `<` or `>`, not Ctrl-C
/// outside the reorder mode, not `Q` outside text inputs.
pub open spec fn goes_to_pane(s: AppState, k: Key) -> bool {
    &&& k != Key::Character('\t') && k != Key::Character('<') && k != Key::Character('>')
    &&& !(k == Key::Character('\u{3}') && !s.main_screen.is_reordering_commits)
    &&& !(k == Key::Character('Q') && !in_input(s))
}

/// Handles a key, if one was read. The error shown is cleared first. Tab
/// switches panes outside text inputs, and in the commit message input
/// switches to amending the last commit; Ctrl-C ends the program (in the
/// reorder mode it goes to the list instead); `Q` ends it outside text
/// inputs; `<` and `>` undo and redo outside text inputs, which then ignore
/// them; any other key goes to the focused pane. The unstaged pane loses the
/// keyboard when it has nothing to show.
pub fn update_state(state: AppState, input: Option<Key>, max_y: i32, max_x: i32) -> (r: AppState)
    ensures
        r.error_message is None || input is Some,
        input is None ==> r == (AppState {
            error_message: None,
            focused_pane: if !state.main_screen.has_unstaged_changes && state.focused_pane == FocusedPane::Unstaged {
                FocusedPane::Main
            } else {
                state.focused_pane
            },
            ..state
        }),
        input == Some(Key::Character('\u{3}')) && !state.main_screen.is_reordering_commits ==> !r.running
            && r.actions@ == state.actions@.push(UiAction::SaveCommitMessage(state.main_screen.commit_message))
            && r == (AppState { running: false, actions: r.actions, error_message: None, ..state }),
        input == Some(Key::Character('Q')) && !in_input(state) ==> !r.running
            && r.actions@ == state.actions@.push(UiAction::SaveCommitMessage(state.main_screen.commit_message))
            && r == (AppState { running: false, actions: r.actions, error_message: None, ..state }),
        input == Some(Key::Character('<')) ==> if in_input(state) {
            r == pane_checked(AppState { error_message: None, ..state })
        } else {
            r.actions@ == state.actions@.push(UiAction::Undo)
                && r == (AppState { error_message: None, actions: r.actions, ..state })
        },
        input == Some(Key::Character('>')) ==> if in_input(state) {
            r == pane_checked(AppState { error_message: None, ..state })
        } else {
            r.actions@ == state.actions@.push(UiAction::Redo)
                && r == (AppState { error_message: None, actions: r.actions, ..state })
        },
        input is Some && goes_to_pane(state, input->0) ==> exists|mid: AppState|
            key_handled(AppState { error_message: None, ..state }, input->0, max_y, max_x, mid) && r == pane_checked(mid),
        input == Some(Key::Character('\t')) && in_input(state) ==> exists|mid: AppState|
            #[trigger] main_screen::tab_amend_done(AppState { error_message: None, ..state }, mid) && r == pane_checked(mid),
        input == Some(Key::Character('\t')) && !in_input(state) ==> r.main_screen.list_items == state.main_screen.list_items
            && r.actions == state.actions && tab_cursors(state, r)
            && r.focused_pane == (if state.focused_pane == FocusedPane::Main && state.main_screen.has_unstaged_changes {
                FocusedPane::Unstaged
            } else {
                FocusedPane::Main
            }),
{
    let mut state = state;
    state.error_message = None;
    let ghost cleared = state;
    if let Some(input) = input {
        match input {
            Key::Character('\t') => {
                if !state.is_in_input_mode() {
                    switch_pane(&mut state);
                } else {
                    main_screen::amend_from_message_input(&mut state);
                }
            },
            Key::Character('\u{3}') => {
                if state.main_screen.is_reordering_commits {
                    main_screen::handle_input(&mut state, input, max_y, max_x);
                } else {
                    quit(&mut state);
                    return state;
                }
            },
            Key::Character('Q') => {
                if !state.is_in_input_mode() {
                    quit(&mut state);
                    return state;
                } else {
                    main_screen::handle_input(&mut state, input, max_y, max_x);
                }
            },
            Key::Character('<') => {
                if !state.is_in_input_mode() {
                    state.actions.push(UiAction::Undo);
                    return state;
                }
            },
            Key::Character('>') => {
                if !state.is_in_input_mode() {
                    state.actions.push(UiAction::Redo);
                    return state;
                }
            },
            _ => {
                main_screen::handle_input(&mut state, input, max_y, max_x);
            },
        }
    }
    let ghost mid = state;
    if !state.main_screen.has_unstaged_changes && state.focused_pane == FocusedPane::Unstaged {
        state.focused_pane = FocusedPane::Main;
    }
    proof {
        if input is Some && goes_to_pane(cleared, input->0) {
            assert(key_handled(cleared, input->0, max_y, max_x, mid));
            assert(state == pane_checked(mid));
        }
    }
    state
}

/// The commits at `i` and `j` of the list may change places: both exist
/// and neither is on a remote branch.
pub open spec fn swappable(l: Seq<ListItem>, i: int, j: int) -> bool {
    0 <= i < l.len() && 0 <= j < l.len() && !item_on_remote(l[i]@) && !item_on_remote(l[j]@)
}

/// The swap of the commits at `c` and `other` of `s`'s list ran through the
/// reorder history `h`, giving `r`'s history and list.
pub open spec fn swap_recorded(h: CommandHistory, s: AppState, c: int, other: int, r: AppState) -> bool {
    exists|effects: Vec<Effect>| #[trigger] history_executed(stacks(h),
        stacks(r.reorder_command_history->0),
        (AnyCommand {
            kind: CommandKind::SwapCommit(SwapCommitCommand { index1: c as usize, index2: other as usize }),
            cursor_before_execute: None,
            cursor_before_undo: None,
        }),
        cursor_of(s), s.main_screen.list_items@, r.main_screen.list_items@, Observation::Nothing, effects)
}

/// `r` is `s` with the cursor at `other`, and only the list and the reorder
/// history possibly changed.
pub open spec fn moved_to(s: AppState, other: int, r: AppState) -> bool {
    r == (AppState {
        main_screen: MainScreenState {
            list_items: r.main_screen.list_items,
            file_cursor: other as usize,
            ..s.main_screen
        },
        reorder_command_history: r.reorder_command_history,
        ..s
    })
}

/// The commits at `c` and `other` changed places through the reorder
/// history, when there is one; without one the list stays.
pub open spec fn swapped_through_history(s: AppState, c: int, other: int, r: AppState) -> bool {
    match s.reorder_command_history {
        Some(h) => {
            &&& r.main_screen.list_items@ == crate::command::list_commands::swapped(s.main_screen.list_items@, c, other)
            &&& r.reorder_command_history is Some
            &&& swap_recorded(h, s, c, other, r)
        },
        None => r.main_screen.list_items == s.main_screen.list_items && r.reorder_command_history is None,
    }
}

/// In the reorder mode, Alt with an arrow moves the selected commit one
/// place up or down, when both commits may change places, through the
/// reorder history, and the cursor follows it; otherwise nothing changes.
pub open spec fn alt_moved(s: AppState, up: bool, r: AppState) -> bool {
    let c = s.main_screen.file_cursor as int;
    let other = if up { c - 1 } else { c + 1 };
    if swappable(s.main_screen.list_items@, c, other) {
        moved_to(s, other, r) && swapped_through_history(s, c, other, r)
    } else {
        r == s
    }
}

/// What a key with Alt does in the reorder mode: the arrows move the commit
/// under the cursor (see [`alt_moved`]), Enter starts renaming it, any
/// other key does nothing.
pub open spec fn reorder_alt_done(s: AppState, k: Key, n: AppState) -> bool {
    if k == Key::KeyUp {
        alt_moved(s, true, n)
    } else if k == Key::KeyDown {
        alt_moved(s, false, n)
    } else if k == Key::Character('\n') {
        renaming_started(s, s.main_screen.file_cursor, n)
    } else {
        n == s
    }
}

/// The main cursor stands on a plain commit.
pub open spec fn on_plain_commit(s: AppState) -> bool {
    main_screen::main_item(s) matches Some(ListItem::PreviousCommitInfo { .. })
}

/// What a key with Alt does (see [`update_state_with_alt`]): on a text input
/// it edits word by word; in the reorder mode see [`reorder_alt_done`]; on
/// a plain commit the arrows start the reorder mode and then move it, and
/// Enter starts the mode and renames it unless it is on a remote branch;
/// anything else does nothing.
pub open spec fn alt_key_done(o: AppState, input: Option<Key>, max_x: i32, n: AppState) -> bool {
    match input {
        None => n == o,
        Some(k) => if in_input(o) {
            main_screen::alt_edited(o, k, max_x, n)
        } else if o.main_screen.is_reordering_commits {
            reorder_alt_done(o, k, n)
        } else if on_plain_commit(o) && (k == Key::KeyUp || k == Key::KeyDown) {
            exists|mid: AppState| #[trigger] reorder_started(o, mid) && reorder_alt_done(mid, k, n)
        } else if on_plain_commit(o) && k == Key::Character('\n') && on_local_commit(o) {
            exists|mid: AppState| #[trigger] reorder_started(o, mid)
                && renaming_started(mid, mid.main_screen.file_cursor, n)
        } else {
            n == o
        },
    }
}

/// Whether an item is a commit on a remote branch.
pub open spec fn item_on_remote(item: ListItemView) -> bool {
    match item {
        ListItemView::PreviousCommitInfo { is_on_remote, .. } => is_on_remote,
        ListItemView::EditingReorderCommit { is_on_remote, .. } => is_on_remote,
        _ => false,
    }
}

/// Whether an item is a commit on a remote branch.
pub fn is_item_on_remote(item: &ListItem) -> (r: bool)
    ensures
        r == item_on_remote(item@),
{
    match item {
        ListItem::PreviousCommitInfo { is_on_remote, .. } => *is_on_remote,
        ListItem::EditingReorderCommit { is_on_remote, .. } => *is_on_remote,
        _ => false,
    }
}

/// Whether the commits at `i` and `j` may change places: both exist and
/// neither is on a remote branch.
fn can_swap(items: &Vec<ListItem>, i: usize, j: usize) -> (r: bool)
    ensures
        r == (i < items@.len() && j < items@.len() && !item_on_remote(items@[i as int]@) && !item_on_remote(items@[j as int]@)),
{
    i < items.len() && j < items.len() && !is_item_on_remote(&items[i]) && !is_item_on_remote(&items[j])
}

/// Renaming the commit at `i` started when it is a plain commit that is not
/// on a remote branch: its message became the text, with the cursor at its
/// end; nothing else changed.
pub open spec fn renaming_started(o: AppState, i: usize, n: AppState) -> bool {
    &&& n == (AppState {
        main_screen: crate::app_state::MainScreenState { list_items: n.main_screen.list_items, ..o.main_screen },
        ..o
    })
    &&& n.main_screen.list_items@.len() == o.main_screen.list_items@.len()
    &&& match (if i < o.main_screen.list_items@.len() { Some(o.main_screen.list_items@[i as int]@) } else { None }) {
        Some(ListItemView::PreviousCommitInfo { hash, message, is_on_remote, is_fixup }) if !is_on_remote =>
            item_views(n.main_screen.list_items@) == item_views(o.main_screen.list_items@).update(i as int,
                ListItemView::EditingReorderCommit {
                    hash,
                    original_message: message,
                    current_text: message,
                    cursor: message.len() as usize,
                    scroll_offset: 0,
                    scroll_extra_space: false,
                    is_on_remote,
                    is_fixup,
                }),
        _ => n.main_screen.list_items == o.main_screen.list_items,
    }
}

/// Starts renaming the commit at `i` (see [`renaming_started`]).
fn start_renaming(state: &mut AppState, i: usize)
    ensures
        renaming_started(*old(state), i, *final(state)),
{
    if i >= state.main_screen.list_items.len() {
        return;
    }
    let item = match &state.main_screen.list_items[i] {
        ListItem::PreviousCommitInfo { hash, message, is_on_remote, is_fixup } => {
            if !*is_on_remote {
                let count = crate::text::chars_of(message.as_str()).len();
                Some(ListItem::EditingReorderCommit {
                    hash: hash.clone(),
                    original_message: message.clone(),
                    current_text: message.clone(),
                    cursor: count,
                    scroll_offset: 0,
                    scroll_extra_space: false,
                    is_on_remote: *is_on_remote,
                    is_fixup: *is_fixup,
                })
            } else {
                None
            }
        },
        _ => None,
    };
    if let Some(it) = item {
        let ghost before = state.main_screen.list_items@;
        state.main_screen.list_items[i] = it;
        assert(item_views(state.main_screen.list_items@) =~= item_views(before).update(i as int, it@));
    }
}

/// The main cursor stands on a plain commit that is not on a remote branch.
pub open spec fn on_local_commit(s: AppState) -> bool {
    match item_at(item_views(s.main_screen.list_items@), s.main_screen.file_cursor as int) {
        Some(ListItemView::PreviousCommitInfo { is_on_remote, .. }) => !is_on_remote,
        _ => false,
    }
}

/// Moves the commit under the cursor one place up or down in the reorder
/// mode (see [`alt_moved`]).
fn move_with_alt(state: &mut AppState, up: bool)
    ensures
        alt_moved(*old(state), up, *final(state)),
{
    let cursor = state.main_screen.file_cursor;
    let n = state.main_screen.list_items.len();
    let ok = if up {
        cursor > 0 && can_swap(&state.main_screen.list_items, cursor, cursor - 1)
    } else {
        n > 0 && cursor < n - 1 && can_swap(&state.main_screen.list_items, cursor, cursor + 1)
    };
    if ok {
        let other = if up { cursor - 1 } else { cursor + 1 };
        let command = AnyCommand::new(CommandKind::SwapCommit(SwapCommitCommand::new(cursor, other)));
        assert(command == (AnyCommand {
            kind: CommandKind::SwapCommit(SwapCommitCommand { index1: cursor, index2: other }),
            cursor_before_execute: None,
            cursor_before_undo: None,
        }));
        let ghost c = cursor as int;
        let ghost o = if up { c - 1 } else { c + 1 };
        assert(cursor == c as usize);
        assert(other == o as usize);
        state.execute_reorder_command(command);
        state.main_screen.file_cursor = other;
        assert(moved_to(*old(state), o, *state));
        assert(old(state).reorder_command_history is Some
            ==> swap_recorded(old(state).reorder_command_history->0, *old(state), c, o, *state));
        assert(swapped_through_history(*old(state), c, o, *state));
        assert(alt_moved(*old(state), up, *state));
    }
}

/// Handles a key pressed with Alt. On a text input it edits word by word.
/// On a plain commit outside the reorder mode, up and down start that mode
/// (and then move the commit), Enter starts it and renames the commit unless
/// it is on a remote branch. In the reorder mode up and down move the commit
/// under the cursor past its neighbour (neither may be on a remote branch),
/// and Enter renames it.
pub fn update_state_with_alt(state: AppState, input: Option<Key>, max_y: i32, max_x: i32) -> (r: AppState)
    ensures
        alt_key_done(state, input, max_x, r),
        r.running == state.running,
        r.actions == state.actions,
        !in_input(state) && !state.main_screen.is_reordering_commits && on_local_commit(state)
            && (input == Some(Key::KeyUp) || input == Some(Key::KeyDown) || input == Some(Key::Character('\n')))
            ==> r.main_screen.is_reordering_commits,
{
    let ghost o = state;
    let mut state = state;
    let input = match input {
        Some(k) => k,
        None => return state,
    };
    if state.is_in_input_mode() {
        main_screen::handle_alt_input(&mut state, input, max_y, max_x);
        return state;
    }
    if !state.main_screen.is_reordering_commits {
        let on_commit = match state.current_main_item() {
            Some(ListItem::PreviousCommitInfo { .. }) => true,
            _ => false,
        };
        if on_commit {
            match input {
                Key::KeyUp | Key::KeyDown => {
                    main_screen::start_reorder_mode(&mut state);
                },
                Key::Character('\n') => {
                    let on_remote = match state.current_main_item() {
                        Some(item) => is_item_on_remote(item),
                        None => true,
                    };
                    if !on_remote {
                        main_screen::start_reorder_mode(&mut state);
                        let ghost mid = state;
                        let i = state.main_screen.file_cursor;
                        start_renaming(&mut state, i);
                        assert(reorder_started(o, mid) && renaming_started(mid, mid.main_screen.file_cursor, state));
                    }
                    return state;
                },
                _ => {},
            }
        }
    }
    let ghost mid = state;
    assert(o.main_screen.is_reordering_commits ==> mid == o);
    if state.main_screen.is_reordering_commits {
        match input {
            Key::KeyUp => move_with_alt(&mut state, true),
            Key::KeyDown => move_with_alt(&mut state, false),
            Key::Character('\n') => {
                let i = state.main_screen.file_cursor;
                start_renaming(&mut state, i);
            },
            _ => {},
        }
    }
    assert(mid.main_screen.is_reordering_commits ==> reorder_alt_done(mid, input, state));
    assert(!o.main_screen.is_reordering_commits && on_plain_commit(o) && (input == Key::KeyUp || input == Key::KeyDown)
        ==> reorder_started(o, mid));
    state
}

} // verus!
