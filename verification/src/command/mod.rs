//! Undoable commands and the history that undoes and redoes them.
//!
//! A command does not touch the repository itself: it says what must be
//! found out first (a [`effect::Probe`]), decides from what was found (an
//! [`effect::Observation`]) and returns the [`effect::Effect`]s the caller
//! performs in order. Commands of the reorder list change that list directly.
pub mod effect;
pub mod git_commands;
pub mod list_commands;
pub mod reorder_commits;

use crate::cursor_state::CursorState;
use crate::ui::main_screen::ListItem;
use effect::{Effect, Observation, Probe, ProbeView};
use git_commands::{
    ApplyPatchCommand, CheckoutFileCommand, DeleteUntrackedFileCommand, DiscardFileCommand,
    DiscardHunkCommand, DiscardUnstagedHunkCommand, IgnoreFileCommand,
    IgnoreUnstagedTrackedFileCommand, IgnoreUntrackedFileCommand, RemoveFileCommand,
    StageAllCommand, StageFileCommand, StagePatchCommand, StageUnstagedCommand,
    StageUntrackedCommand, UnstageAllCommand, UnstageFileCommand,
};
use list_commands::{can_toggle_fixup, flip_fixup, lemma_discard_undo_restores, lemma_fixup_undo_restores,
    lemma_swap_undo_restores, swapped, DiscardCommitCommand, FixupCommitCommand, SwapCommitCommand};
use reorder_commits::ReorderCommitsCommand;
use vstd::prelude::*;

verus! {

/// An action that can be undone and redone. Running it and undoing it hand
/// back the effects to perform; each remembers the cursors to restore.
pub trait Command {
    /// What must be found out before running.
    fn probe_execute(&self) -> Probe;

    /// What must be found out before undoing.
    fn probe_undo(&self) -> Probe;

    /// Runs the command; `None` means it refused and did nothing.
    fn execute(&mut self, list_items: &mut Vec<ListItem>, observed: &Observation) -> Option<Vec<Effect>>;

    /// Undoes the command.
    fn undo(&mut self, list_items: &mut Vec<ListItem>, observed: &Observation) -> Vec<Effect>;

    /// Remembers the cursors as they were before running.
    fn set_cursor_before_execute(&mut self, cursor: CursorState);

    /// Remembers the cursors as they were before undoing.
    fn set_cursor_before_undo(&mut self, cursor: CursorState);

    /// The cursors to restore after undoing.
    fn get_cursor_to_restore_on_undo(&self) -> Option<CursorState>;

    /// The cursors to restore after redoing.
    fn get_cursor_to_restore_on_redo(&self) -> Option<CursorState>;
}

/// Every kind of command.
#[derive(Debug)]
pub enum CommandKind {
    UnstageFile(UnstageFileCommand),
    IgnoreUnstagedTrackedFile(IgnoreUnstagedTrackedFileCommand),
    DeleteUntrackedFile(DeleteUntrackedFileCommand),
    IgnoreUntrackedFile(IgnoreUntrackedFileCommand),
    DiscardUnstagedHunk(DiscardUnstagedHunkCommand),
    UnstageAll(UnstageAllCommand),
    StageUnstaged(StageUnstagedCommand),
    StageUntracked(StageUntrackedCommand),
    StageFile(StageFileCommand),
    ApplyPatch(ApplyPatchCommand),
    StagePatch(StagePatchCommand),
    DiscardFile(DiscardFileCommand),
    DiscardHunk(DiscardHunkCommand),
    CheckoutFile(CheckoutFileCommand),
    IgnoreFile(IgnoreFileCommand),
    RemoveFile(RemoveFileCommand),
    StageAll(StageAllCommand),
    ReorderCommits(ReorderCommitsCommand),
    SwapCommit(SwapCommitCommand),
    FixupCommit(FixupCommitCommand),
    DiscardCommit(DiscardCommitCommand),
}

/// A command together with the cursors it remembers.
#[derive(Debug)]
pub struct AnyCommand {
    pub kind: CommandKind,
    pub cursor_before_execute: Option<CursorState>,
    pub cursor_before_undo: Option<CursorState>,
}

impl AnyCommand {
    /// Wraps a command that remembers no cursors yet.
    pub fn new(kind: CommandKind) -> (r: Self)
        ensures
            r.kind == kind,
            r.cursor_before_execute is None,
            r.cursor_before_undo is None,
    {
        AnyCommand { kind, cursor_before_execute: None, cursor_before_undo: None }
    }
}

/// The probe that running a command of kind `kind` needs.
pub open spec fn kind_execute_probe(kind: CommandKind) -> ProbeView {
    match kind {
        CommandKind::UnstageFile(c) => c.execute_probe(),
        CommandKind::IgnoreUnstagedTrackedFile(c) => c.execute_probe(),
        CommandKind::DeleteUntrackedFile(c) => c.execute_probe(),
        CommandKind::IgnoreUntrackedFile(c) => c.execute_probe(),
        CommandKind::DiscardUnstagedHunk(c) => c.execute_probe(),
        CommandKind::UnstageAll(c) => c.execute_probe(),
        CommandKind::StageUnstaged(c) => c.execute_probe(),
        CommandKind::StageUntracked(c) => c.execute_probe(),
        CommandKind::StageFile(c) => c.execute_probe(),
        CommandKind::ApplyPatch(c) => c.execute_probe(),
        CommandKind::StagePatch(c) => c.execute_probe(),
        CommandKind::DiscardFile(c) => c.execute_probe(),
        CommandKind::DiscardHunk(c) => c.execute_probe(),
        CommandKind::CheckoutFile(c) => c.execute_probe(),
        CommandKind::IgnoreFile(c) => c.execute_probe(),
        CommandKind::RemoveFile(c) => c.execute_probe(),
        CommandKind::StageAll(c) => c.execute_probe(),
        CommandKind::ReorderCommits(c) => c.execute_probe(),
        _ => ProbeView::Nothing,
    }
}

/// The probe that undoing a command of kind `kind` needs.
pub open spec fn kind_undo_probe(kind: CommandKind) -> ProbeView {
    match kind {
        CommandKind::UnstageFile(c) => c.undo_probe(),
        CommandKind::IgnoreUnstagedTrackedFile(c) => c.undo_probe(),
        CommandKind::DeleteUntrackedFile(c) => c.undo_probe(),
        CommandKind::IgnoreUntrackedFile(c) => c.undo_probe(),
        CommandKind::DiscardUnstagedHunk(c) => c.undo_probe(),
        CommandKind::UnstageAll(c) => c.undo_probe(),
        CommandKind::StageUnstaged(c) => c.undo_probe(),
        CommandKind::StageUntracked(c) => c.undo_probe(),
        CommandKind::StageFile(c) => c.undo_probe(),
        CommandKind::ApplyPatch(c) => c.undo_probe(),
        CommandKind::StagePatch(c) => c.undo_probe(),
        CommandKind::DiscardFile(c) => c.undo_probe(),
        CommandKind::DiscardHunk(c) => c.undo_probe(),
        CommandKind::CheckoutFile(c) => c.undo_probe(),
        CommandKind::IgnoreFile(c) => c.undo_probe(),
        CommandKind::RemoveFile(c) => c.undo_probe(),
        CommandKind::StageAll(c) => c.undo_probe(),
        CommandKind::ReorderCommits(c) => c.undo_probe(),
        _ => ProbeView::Nothing,
    }
}

/// Running a command of kind `kind` with `observed` found out turns it into
/// `after`, turns the reorder list `list` into `new_list` and hands back `r`.
/// Commands of the repository change neither themselves nor the list;
/// commands of the list hand back no effect when they run and `None` when
/// they refuse.
pub open spec fn kind_executes_to(kind: CommandKind, after: CommandKind, list: Seq<ListItem>,
    new_list: Seq<ListItem>, observed: Observation, r: Option<Vec<Effect>>) -> bool {
    match kind {
        CommandKind::UnstageFile(c) => c.executes_to(observed, r) && after == kind && new_list == list,
        CommandKind::IgnoreUnstagedTrackedFile(c) => c.executes_to(observed, r) && after == kind && new_list == list,
        CommandKind::DeleteUntrackedFile(c) => c.executes_to(observed, r) && after == kind && new_list == list,
        CommandKind::IgnoreUntrackedFile(c) => c.executes_to(observed, r) && after == kind && new_list == list,
        CommandKind::DiscardUnstagedHunk(c) => c.executes_to(observed, r) && after == kind && new_list == list,
        CommandKind::UnstageAll(c) => c.executes_to(observed, r) && after == kind && new_list == list,
        CommandKind::StageUnstaged(c) => c.executes_to(observed, r) && after == kind && new_list == list,
        CommandKind::StageUntracked(c) => c.executes_to(observed, r) && after == kind && new_list == list,
        CommandKind::StageFile(c) => c.executes_to(observed, r) && after == kind && new_list == list,
        CommandKind::ApplyPatch(c) => c.executes_to(observed, r) && after == kind && new_list == list,
        CommandKind::StagePatch(c) => c.executes_to(observed, r) && after == kind && new_list == list,
        CommandKind::DiscardFile(c) => c.executes_to(observed, r) && after == kind && new_list == list,
        CommandKind::DiscardHunk(c) => c.executes_to(observed, r) && after == kind && new_list == list,
        CommandKind::CheckoutFile(c) => c.executes_to(observed, r) && after == kind && new_list == list,
        CommandKind::IgnoreFile(c) => c.executes_to(observed, r) && after == kind && new_list == list,
        CommandKind::RemoveFile(c) => c.executes_to(observed, r) && after == kind && new_list == list,
        CommandKind::StageAll(c) => c.executes_to(observed, r) && after == kind && new_list == list,
        CommandKind::ReorderCommits(c) => c.executes_to(observed, r) && after == kind && new_list == list,
        CommandKind::SwapCommit(c) => {
            let ok = c.index1 < list.len() && c.index2 < list.len();
            &&& after == kind
            &&& (r is Some <==> ok)
            &&& (r matches Some(v) ==> v@.len() == 0)
            &&& new_list == if ok { swapped(list, c.index1 as int, c.index2 as int) } else { list }
        },
        CommandKind::FixupCommit(c) => {
            let ok = can_toggle_fixup(list, c.index as int);
            &&& after == kind
            &&& (r is Some <==> ok)
            &&& (r matches Some(v) ==> v@.len() == 0)
            &&& new_list == if ok { list.update(c.index as int, flip_fixup(list[c.index as int])) } else { list }
        },
        CommandKind::DiscardCommit(c) => {
            let ok = c.index < list.len();
            &&& (r is Some <==> ok)
            &&& (r matches Some(v) ==> v@.len() == 0)
            &&& after is DiscardCommit
            &&& after->DiscardCommit_0.index == c.index
            &&& ok ==> new_list == list.remove(c.index as int)
                && after->DiscardCommit_0.removed_item == Some(list[c.index as int])
            &&& !ok ==> new_list == list && after == kind
        },
    }
}

/// Undoing a command of kind `kind` with `observed` found out turns it into
/// `after`, turns the reorder list `list` into `new_list` and hands back `r`.
/// Commands of the list hand back no effect.
pub open spec fn kind_undoes_to(kind: CommandKind, after: CommandKind, list: Seq<ListItem>,
    new_list: Seq<ListItem>, observed: Observation, r: Vec<Effect>) -> bool {
    match kind {
        CommandKind::UnstageFile(c) => c.undoes_to(observed, r) && after == kind && new_list == list,
        CommandKind::IgnoreUnstagedTrackedFile(c) => c.undoes_to(observed, r) && after == kind && new_list == list,
        CommandKind::DeleteUntrackedFile(c) => c.undoes_to(observed, r) && after == kind && new_list == list,
        CommandKind::IgnoreUntrackedFile(c) => c.undoes_to(observed, r) && after == kind && new_list == list,
        CommandKind::DiscardUnstagedHunk(c) => c.undoes_to(observed, r) && after == kind && new_list == list,
        CommandKind::UnstageAll(c) => c.undoes_to(observed, r) && after == kind && new_list == list,
        CommandKind::StageUnstaged(c) => c.undoes_to(observed, r) && after == kind && new_list == list,
        CommandKind::StageUntracked(c) => c.undoes_to(observed, r) && after == kind && new_list == list,
        CommandKind::StageFile(c) => c.undoes_to(observed, r) && after == kind && new_list == list,
        CommandKind::ApplyPatch(c) => c.undoes_to(observed, r) && after == kind && new_list == list,
        CommandKind::StagePatch(c) => c.undoes_to(observed, r) && after == kind && new_list == list,
        CommandKind::DiscardFile(c) => c.undoes_to(observed, r) && after == kind && new_list == list,
        CommandKind::DiscardHunk(c) => c.undoes_to(observed, r) && after == kind && new_list == list,
        CommandKind::CheckoutFile(c) => c.undoes_to(observed, r) && after == kind && new_list == list,
        CommandKind::IgnoreFile(c) => c.undoes_to(observed, r) && after == kind && new_list == list,
        CommandKind::RemoveFile(c) => c.undoes_to(observed, r) && after == kind && new_list == list,
        CommandKind::StageAll(c) => c.undoes_to(observed, r) && after == kind && new_list == list,
        CommandKind::ReorderCommits(c) => c.undoes_to(observed, r) && after == kind && new_list == list,
        CommandKind::SwapCommit(c) => {
            let ok = c.index1 < list.len() && c.index2 < list.len();
            &&& after == kind
            &&& r@.len() == 0
            &&& new_list == if ok { swapped(list, c.index1 as int, c.index2 as int) } else { list }
        },
        CommandKind::FixupCommit(c) => {
            let ok = can_toggle_fixup(list, c.index as int);
            &&& after == kind
            &&& r@.len() == 0
            &&& new_list == if ok { list.update(c.index as int, flip_fixup(list[c.index as int])) } else { list }
        },
        CommandKind::DiscardCommit(c) => {
            let ok = c.removed_item is Some && c.index <= list.len();
            &&& r@.len() == 0
            &&& after is DiscardCommit
            &&& after->DiscardCommit_0.index == c.index
            &&& ok ==> new_list == list.insert(c.index as int, c.removed_item->0)
                && after->DiscardCommit_0.removed_item is None
            &&& !ok ==> new_list == list && after == kind
        },
    }
}

impl Command for AnyCommand {
    fn probe_execute(&self) -> (p: Probe)
        ensures
            p@ == kind_execute_probe(self.kind),
    {
        match &self.kind {
            CommandKind::UnstageFile(c) => c.probe_execute(),
            CommandKind::IgnoreUnstagedTrackedFile(c) => c.probe_execute(),
            CommandKind::DeleteUntrackedFile(c) => c.probe_execute(),
            CommandKind::IgnoreUntrackedFile(c) => c.probe_execute(),
            CommandKind::DiscardUnstagedHunk(c) => c.probe_execute(),
            CommandKind::UnstageAll(c) => c.probe_execute(),
            CommandKind::StageUnstaged(c) => c.probe_execute(),
            CommandKind::StageUntracked(c) => c.probe_execute(),
            CommandKind::StageFile(c) => c.probe_execute(),
            CommandKind::ApplyPatch(c) => c.probe_execute(),
            CommandKind::StagePatch(c) => c.probe_execute(),
            CommandKind::DiscardFile(c) => c.probe_execute(),
            CommandKind::DiscardHunk(c) => c.probe_execute(),
            CommandKind::CheckoutFile(c) => c.probe_execute(),
            CommandKind::IgnoreFile(c) => c.probe_execute(),
            CommandKind::RemoveFile(c) => c.probe_execute(),
            CommandKind::StageAll(c) => c.probe_execute(),
            CommandKind::ReorderCommits(c) => c.probe_execute(),
            CommandKind::SwapCommit(_) => Probe::Nothing,
            CommandKind::FixupCommit(_) => Probe::Nothing,
            CommandKind::DiscardCommit(_) => Probe::Nothing,
        }
    }

    fn probe_undo(&self) -> (p: Probe)
        ensures
            p@ == kind_undo_probe(self.kind),
    {
        match &self.kind {
            CommandKind::UnstageFile(c) => c.probe_undo(),
            CommandKind::IgnoreUnstagedTrackedFile(c) => c.probe_undo(),
            CommandKind::DeleteUntrackedFile(c) => c.probe_undo(),
            CommandKind::IgnoreUntrackedFile(c) => c.probe_undo(),
            CommandKind::DiscardUnstagedHunk(c) => c.probe_undo(),
            CommandKind::UnstageAll(c) => c.probe_undo(),
            CommandKind::StageUnstaged(c) => c.probe_undo(),
            CommandKind::StageUntracked(c) => c.probe_undo(),
            CommandKind::StageFile(c) => c.probe_undo(),
            CommandKind::ApplyPatch(c) => c.probe_undo(),
            CommandKind::StagePatch(c) => c.probe_undo(),
            CommandKind::DiscardFile(c) => c.probe_undo(),
            CommandKind::DiscardHunk(c) => c.probe_undo(),
            CommandKind::CheckoutFile(c) => c.probe_undo(),
            CommandKind::IgnoreFile(c) => c.probe_undo(),
            CommandKind::RemoveFile(c) => c.probe_undo(),
            CommandKind::StageAll(c) => c.probe_undo(),
            CommandKind::ReorderCommits(c) => c.probe_undo(),
            CommandKind::SwapCommit(_) => Probe::Nothing,
            CommandKind::FixupCommit(_) => Probe::Nothing,
            CommandKind::DiscardCommit(_) => Probe::Nothing,
        }
    }

    /// Runs the wrapped command; the remembered cursors stay.
    fn execute(&mut self, list_items: &mut Vec<ListItem>, observed: &Observation) -> (r: Option<Vec<Effect>>)
        ensures
            final(self).cursor_before_execute == old(self).cursor_before_execute,
            final(self).cursor_before_undo == old(self).cursor_before_undo,
            kind_executes_to(old(self).kind, final(self).kind, old(list_items)@, final(list_items)@, *observed, r),
    {
        match &mut self.kind {
            CommandKind::UnstageFile(c) => c.execute(observed),
            CommandKind::IgnoreUnstagedTrackedFile(c) => c.execute(observed),
            CommandKind::DeleteUntrackedFile(c) => c.execute(observed),
            CommandKind::IgnoreUntrackedFile(c) => c.execute(observed),
            CommandKind::DiscardUnstagedHunk(c) => c.execute(observed),
            CommandKind::UnstageAll(c) => c.execute(observed),
            CommandKind::StageUnstaged(c) => c.execute(observed),
            CommandKind::StageUntracked(c) => c.execute(observed),
            CommandKind::StageFile(c) => c.execute(observed),
            CommandKind::ApplyPatch(c) => c.execute(observed),
            CommandKind::StagePatch(c) => c.execute(observed),
            CommandKind::DiscardFile(c) => c.execute(observed),
            CommandKind::DiscardHunk(c) => c.execute(observed),
            CommandKind::CheckoutFile(c) => c.execute(observed),
            CommandKind::IgnoreFile(c) => c.execute(observed),
            CommandKind::RemoveFile(c) => c.execute(observed),
            CommandKind::StageAll(c) => c.execute(observed),
            CommandKind::ReorderCommits(c) => c.execute(observed),
            CommandKind::SwapCommit(c) => if c.execute(list_items) { Some(Vec::new()) } else { None },
            CommandKind::FixupCommit(c) => if c.execute(list_items) { Some(Vec::new()) } else { None },
            CommandKind::DiscardCommit(c) => if c.execute(list_items) { Some(Vec::new()) } else { None },
        }
    }

    /// Undoes the wrapped command; the remembered cursors stay.
    fn undo(&mut self, list_items: &mut Vec<ListItem>, observed: &Observation) -> (r: Vec<Effect>)
        ensures
            final(self).cursor_before_execute == old(self).cursor_before_execute,
            final(self).cursor_before_undo == old(self).cursor_before_undo,
            kind_undoes_to(old(self).kind, final(self).kind, old(list_items)@, final(list_items)@, *observed, r),
    {
        match &mut self.kind {
            CommandKind::UnstageFile(c) => c.undo(observed),
            CommandKind::IgnoreUnstagedTrackedFile(c) => c.undo(observed),
            CommandKind::DeleteUntrackedFile(c) => c.undo(observed),
            CommandKind::IgnoreUntrackedFile(c) => c.undo(observed),
            CommandKind::DiscardUnstagedHunk(c) => c.undo(observed),
            CommandKind::UnstageAll(c) => c.undo(observed),
            CommandKind::StageUnstaged(c) => c.undo(observed),
            CommandKind::StageUntracked(c) => c.undo(observed),
            CommandKind::StageFile(c) => c.undo(observed),
            CommandKind::ApplyPatch(c) => c.undo(observed),
            CommandKind::StagePatch(c) => c.undo(observed),
            CommandKind::DiscardFile(c) => c.undo(observed),
            CommandKind::DiscardHunk(c) => c.undo(observed),
            CommandKind::CheckoutFile(c) => c.undo(observed),
            CommandKind::IgnoreFile(c) => c.undo(observed),
            CommandKind::RemoveFile(c) => c.undo(observed),
            CommandKind::StageAll(c) => c.undo(observed),
            CommandKind::ReorderCommits(c) => c.undo(observed),
            CommandKind::SwapCommit(c) => {
                c.undo(list_items);
                Vec::new()
            },
            CommandKind::FixupCommit(c) => {
                c.undo(list_items);
                Vec::new()
            },
            CommandKind::DiscardCommit(c) => {
                c.undo(list_items);
                Vec::new()
            },
        }
    }

    fn set_cursor_before_execute(&mut self, cursor: CursorState)
        ensures
            final(self).cursor_before_execute == Some(cursor),
            final(self).cursor_before_undo == old(self).cursor_before_undo,
            final(self).kind == old(self).kind,
    {
        self.cursor_before_execute = Some(cursor);
    }

    fn set_cursor_before_undo(&mut self, cursor: CursorState)
        ensures
            final(self).cursor_before_undo == Some(cursor),
            final(self).cursor_before_execute == old(self).cursor_before_execute,
            final(self).kind == old(self).kind,
    {
        self.cursor_before_undo = Some(cursor);
    }

    fn get_cursor_to_restore_on_undo(&self) -> (r: Option<CursorState>)
        ensures
            r == self.cursor_before_execute,
    {
        self.cursor_before_execute
    }

    fn get_cursor_to_restore_on_redo(&self) -> (r: Option<CursorState>)
        ensures
            r == self.cursor_before_undo,
    {
        self.cursor_before_undo
    }
}

/// The stacks of commands that can be undone and redone.
#[derive(Debug)]
pub struct CommandHistory {
    pub undo_stack: Vec<AnyCommand>,
    pub redo_stack: Vec<AnyCommand>,
}

/// The undo and redo stacks of a history.
pub type Stacks = (Seq<AnyCommand>, Seq<AnyCommand>);

/// The stacks of a history.
pub open spec fn stacks(h: CommandHistory) -> Stacks {
    (h.undo_stack@, h.redo_stack@)
}

/// A command ran from `before` to `after` with the cursors `cursor`: it is
/// now the last on the undo stack, remembering `cursor` as the cursors from
/// before it ran, and nothing is left to redo.
pub open spec fn ran(before: Stacks, after: Stacks, cursor: CursorState) -> bool {
    &&& after.0.len() == before.0.len() + 1
    &&& after.0.drop_last() == before.0
    &&& after.0.last().cursor_before_execute == Some(cursor)
    &&& after.1.len() == 0
}

/// The last command was undone from `before` to `after` with the cursors
/// `cursor`, handing back `restored`: it moved to the redo stack, keeping
/// the cursors from before it ran (which are handed back) and remembering
/// `cursor` as those from before the undo.
pub open spec fn undone(before: Stacks, after: Stacks, cursor: CursorState, restored: Option<CursorState>) -> bool {
    &&& before.0.len() > 0
    &&& restored == before.0.last().cursor_before_execute
    &&& after.0 == before.0.drop_last()
    &&& after.1.len() == before.1.len() + 1
    &&& after.1.drop_last() == before.1
    &&& after.1.last().cursor_before_undo == Some(cursor)
    &&& after.1.last().cursor_before_execute == before.0.last().cursor_before_execute
}

/// The last undone command was run again from `before` to `after` with the
/// cursors `cursor`, handing back `restored`: it moved back to the undo
/// stack, keeping the cursors from before its undo (which are handed back)
/// and remembering `cursor` as those from before it ran.
pub open spec fn redone(before: Stacks, after: Stacks, cursor: CursorState, restored: Option<CursorState>) -> bool {
    &&& before.1.len() > 0
    &&& restored == before.1.last().cursor_before_undo
    &&& after.1 == before.1.drop_last()
    &&& after.0.len() == before.0.len() + 1
    &&& after.0.drop_last() == before.0
    &&& after.0.last().cursor_before_execute == Some(cursor)
    &&& after.0.last().cursor_before_undo == before.1.last().cursor_before_undo
}

/// `command` ran through the history with stacks `before`, now `after`,
/// with the cursors `cursor`, on the reorder list `list`, now `new_list`,
/// with `observed` found out, handing back `r`. When it agreed to run it is
/// the last on the undo stack, as it was after running, and nothing is left
/// to redo; when it refused nothing changed and there is nothing to perform.
pub open spec fn history_executed(before: Stacks, after: Stacks, command: AnyCommand, cursor: CursorState,
    list: Seq<ListItem>, new_list: Seq<ListItem>, observed: Observation, r: Vec<Effect>) -> bool {
    exists|kind_after: CommandKind, out: Option<Vec<Effect>>|
        #[trigger] kind_executes_to(command.kind, kind_after, list, new_list, observed, out)
        && match out {
            Some(v) => ran(before, after, cursor) && after.0.last().kind == kind_after
                && after.0.last().cursor_before_undo == command.cursor_before_undo && r == v,
            None => after == before && r@.len() == 0,
        }
}

/// The history with stacks `before` undid its last command, now `after`,
/// with the cursors `cursor`, on the reorder list `list`, now `new_list`,
/// with `observed` found out, handing back `r`: the cursors to restore and
/// the effects of the undo. With nothing to undo nothing changes.
pub open spec fn history_undid(before: Stacks, after: Stacks, cursor: CursorState, list: Seq<ListItem>,
    new_list: Seq<ListItem>, observed: Observation, r: (Option<CursorState>, Vec<Effect>)) -> bool {
    if before.0.len() == 0 {
        r.0 is None && r.1@.len() == 0 && after == before && new_list == list
    } else {
        undone(before, after, cursor, r.0)
            && kind_undoes_to(before.0.last().kind, after.1.last().kind, list, new_list, observed, r.1)
    }
}

/// The history with stacks `before` ran its last undone command again, now
/// `after`, with the cursors `cursor`, on the reorder list `list`, now
/// `new_list`, with `observed` found out, handing back `r`: the cursors to
/// restore and the effects of running it (none when it refused). With
/// nothing to redo nothing changes.
pub open spec fn history_redid(before: Stacks, after: Stacks, cursor: CursorState, list: Seq<ListItem>,
    new_list: Seq<ListItem>, observed: Observation, r: (Option<CursorState>, Vec<Effect>)) -> bool {
    if before.1.len() == 0 {
        r.0 is None && r.1@.len() == 0 && after == before && new_list == list
    } else {
        &&& redone(before, after, cursor, r.0)
        &&& exists|out: Option<Vec<Effect>>|
            #[trigger] kind_executes_to(before.1.last().kind, after.0.last().kind, list, new_list, observed, out)
            && r.1@ == match out { Some(v) => v@, None => Seq::<Effect>::empty() }
    }
}

impl CommandHistory {
    /// An empty history.
    pub fn new() -> (r: Self)
        ensures
            r.undo_stack@.len() == 0,
            r.redo_stack@.len() == 0,
    {
        CommandHistory { undo_stack: Vec::new(), redo_stack: Vec::new() }
    }

    /// Forgets every command.
    pub fn clear(&mut self)
        ensures
            final(self).undo_stack@.len() == 0,
            final(self).redo_stack@.len() == 0,
    {
        self.undo_stack.clear();
        self.redo_stack.clear();
    }

    /// Runs `command`, remembering `cursor_state` as the cursors to restore
    /// when it is undone. When it runs, it goes on the undo stack and the redo
    /// stack is emptied, and its effects are returned; when it refuses,
    /// nothing changes and there is nothing to perform.
    pub fn execute(&mut self, command: AnyCommand, cursor_state: CursorState,
        list_items: &mut Vec<ListItem>, observed: &Observation) -> (r: Vec<Effect>)
        ensures
            history_executed(stacks(*old(self)), stacks(*final(self)), command, cursor_state,
                old(list_items)@, final(list_items)@, *observed, r),
    {
        let mut command = command;
        command.set_cursor_before_execute(cursor_state);
        let ghost list_before = list_items@;
        let ghost kind_before = command.kind;
        let outcome = command.execute(list_items, observed);
        assert(kind_executes_to(kind_before, command.kind, list_before, list_items@, *observed, outcome));
        match outcome {
            Some(effects) => {
                self.undo_stack.push(command);
                self.redo_stack.clear();
                assert(self.undo_stack@.drop_last() =~= old(self).undo_stack@);
                assert(self.redo_stack@ =~= Seq::<AnyCommand>::empty());
                effects
            },
            None => Vec::new(),
        }
    }

    /// Undoes the most recent command: it moves to the redo stack, remembering
    /// `cursor_state` for a redo. Returns the cursors it remembered from
    /// before it ran, and the effects to perform. Nothing happens when there
    /// is nothing to undo.
    pub fn undo(&mut self, cursor_state: CursorState, list_items: &mut Vec<ListItem>,
        observed: &Observation) -> (r: (Option<CursorState>, Vec<Effect>))
        ensures
            history_undid(stacks(*old(self)), stacks(*final(self)), cursor_state,
                old(list_items)@, final(list_items)@, *observed, r),
    {
        match self.undo_stack.pop() {
            Some(command) => {
                let mut command = command;
                command.set_cursor_before_undo(cursor_state);
                let effects = command.undo(list_items, observed);
                let cursor_to_restore = command.get_cursor_to_restore_on_undo();
                self.redo_stack.push(command);
                assert(self.undo_stack@ =~= old(self).undo_stack@.drop_last());
                assert(self.redo_stack@.drop_last() =~= old(self).redo_stack@);
                (cursor_to_restore, effects)
            },
            None => (None, Vec::new()),
        }
    }

    /// Runs the most recently undone command again (whether or not it agrees
    /// to run, it goes back on the undo stack), remembering `cursor_state` for
    /// the next undo. Returns the cursors remembered when it was undone, and
    /// the effects to perform.
    pub fn redo(&mut self, cursor_state: CursorState, list_items: &mut Vec<ListItem>,
        observed: &Observation) -> (r: (Option<CursorState>, Vec<Effect>))
        ensures
            history_redid(stacks(*old(self)), stacks(*final(self)), cursor_state,
                old(list_items)@, final(list_items)@, *observed, r),
    {
        match self.redo_stack.pop() {
            Some(command) => {
                let mut command = command;
                let cursor_to_restore = command.get_cursor_to_restore_on_redo();
                command.set_cursor_before_execute(cursor_state);
                let ghost list_before = list_items@;
                let ghost kind_before = command.kind;
                let outcome = command.execute(list_items, observed);
                assert(kind_executes_to(kind_before, command.kind, list_before, list_items@, *observed, outcome));
                let effects = match outcome {
                    Some(effects) => effects,
                    None => Vec::new(),
                };
                self.undo_stack.push(command);
                assert(self.redo_stack@ =~= old(self).redo_stack@.drop_last());
                assert(self.undo_stack@.drop_last() =~= old(self).undo_stack@);
                (cursor_to_restore, effects)
            },
            None => (None, Vec::new()),
        }
    }
}

/// Undo and redo travel with their cursors: undoing right after a command
/// ran hands back the cursors from before it ran and leaves the undo stack as
/// it was before; redoing right after that hands back the cursors from
/// before the undo, puts the command back on the undo stack and leaves
/// nothing to redo.
pub proof fn lemma_undo_redo_round_trip(s0: Stacks, s1: Stacks, s2: Stacks, s3: Stacks,
    ran_with: CursorState, undone_with: CursorState, redone_with: CursorState,
    undo_restored: Option<CursorState>, redo_restored: Option<CursorState>)
    requires
        ran(s0, s1, ran_with),
        undone(s1, s2, undone_with, undo_restored),
        redone(s2, s3, redone_with, redo_restored),
    ensures
        undo_restored == Some(ran_with),
        redo_restored == Some(undone_with),
        s2.0 == s0.0,
        s2.1.len() == 1,
        s3.0.drop_last() == s0.0,
        s3.1.len() == 0,
        s3.0.last().cursor_before_execute == Some(redone_with),
        s3.0.last().cursor_before_undo == Some(undone_with),
{
}

/// Undoing a command of the reorder list right after it ran gives back the
/// list it ran on.
pub proof fn lemma_list_command_undo_restores(kind: CommandKind, after_run: CommandKind, after_undo: CommandKind,
    list: Seq<ListItem>, ran_list: Seq<ListItem>, undone_list: Seq<ListItem>,
    run_observed: Observation, undo_observed: Observation, run_effects: Option<Vec<Effect>>, undo_effects: Vec<Effect>)
    requires
        kind is SwapCommit || kind is FixupCommit || kind is DiscardCommit,
        kind_executes_to(kind, after_run, list, ran_list, run_observed, run_effects),
        run_effects is Some,
        kind_undoes_to(after_run, after_undo, ran_list, undone_list, undo_observed, undo_effects),
    ensures
        undone_list == list,
{
    match kind {
        CommandKind::SwapCommit(c) => {
            lemma_swap_undo_restores(list, c.index1 as int, c.index2 as int);
        },
        CommandKind::FixupCommit(c) => {
            lemma_fixup_undo_restores(list, c.index as int);
        },
        CommandKind::DiscardCommit(c) => {
            lemma_discard_undo_restores(list, c.index as int);
        },
        _ => {},
    }
}

} // verus!
