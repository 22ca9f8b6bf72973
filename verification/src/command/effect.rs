//! What a command asks of the outside world: the runs of git and the file
//! changes it performs, what it must find out first, and what was found.
use crate::git::{
    apply_patch_args, git_call, GitOutput, GitRequest, GitRequestView,
};
use crate::text::views;
use vstd::prelude::*;

verus! {

/// One change to the repository that a command performs. Paths are relative
/// to the repository's root.
#[derive(Debug)]
pub enum Effect {
    /// Run git; a failing exit status is ignored, but git not starting is an
    /// error that stops the program.
    Git(GitRequest),
    /// Run git; a failing exit status is an error that stops the program.
    GitMustSucceed(GitRequest),
    /// Run git and ignore every failure, even when it cannot be started.
    GitBestEffort(GitRequest),
    /// Stage every change, leaving out untracked files larger than the limit
    /// (none, with the largest limit).
    StageAllWithinSize(u64),
    /// Append `line` and a newline to the file at `path`, creating it if needed.
    AppendLine { path: String, line: String },
    /// Replace the file at `path` by `text`.
    WriteText { path: String, text: String },
    /// Replace the file at `path` by `bytes`.
    WriteBytes { path: String, bytes: Vec<u8> },
    /// Delete the file at `path`.
    RemoveFile { path: String },
}

/// The mathematical content of an [`Effect`].
pub enum EffectView {
    Git(GitRequestView),
    GitMustSucceed(GitRequestView),
    GitBestEffort(GitRequestView),
    StageAllWithinSize(u64),
    AppendLine { path: Seq<char>, line: Seq<char> },
    WriteText { path: Seq<char>, text: Seq<char> },
    WriteBytes { path: Seq<char>, bytes: Seq<u8> },
    RemoveFile { path: Seq<char> },
}

impl View for Effect {
    type V = EffectView;

    open spec fn view(&self) -> EffectView {
        match self {
            Effect::Git(r) => EffectView::Git(r@),
            Effect::GitMustSucceed(r) => EffectView::GitMustSucceed(r@),
            Effect::GitBestEffort(r) => EffectView::GitBestEffort(r@),
            Effect::StageAllWithinSize(n) => EffectView::StageAllWithinSize(*n),
            Effect::AppendLine { path, line } => EffectView::AppendLine { path: path@, line: line@ },
            Effect::WriteText { path, text } => EffectView::WriteText { path: path@, text: text@ },
            Effect::WriteBytes { path, bytes } => EffectView::WriteBytes { path: path@, bytes: bytes@ },
            Effect::RemoveFile { path } => EffectView::RemoveFile { path: path@ },
        }
    }
}

/// The views of a list of effects.
pub open spec fn effect_views(v: Seq<Effect>) -> Seq<EffectView> {
    v.map_values(|e: Effect| e@)
}

/// What must be found out before a command runs or is undone.
#[derive(Debug)]
pub enum Probe {
    /// Nothing.
    Nothing,
    /// The output of this run of git.
    Git(GitRequest),
    /// The text of the file at this path, if it exists.
    ReadFile(String),
    /// The bytes of the file at this path, if it can be read.
    ReadBytes(String),
    /// Whether rewriting the history as a reorder command describes succeeded.
    Reorder,
}

/// What was found out for a [`Probe`].
#[derive(Debug)]
pub enum Observation {
    Nothing,
    /// The run of git finished with this output, or could not be started.
    Git(Option<GitOutput>),
    /// The file held this text, or does not exist.
    File(Option<String>),
    /// The file held these bytes, or could not be read.
    Bytes(Option<Vec<u8>>),
    /// The history was rewritten, or the attempt failed and was rolled back.
    Reorder(bool),
}

/// The mathematical content of a [`Probe`].
pub enum ProbeView {
    Nothing,
    Git(GitRequestView),
    ReadFile(Seq<char>),
    ReadBytes(Seq<char>),
    Reorder,
}

impl View for Probe {
    type V = ProbeView;

    open spec fn view(&self) -> ProbeView {
        match self {
            Probe::Nothing => ProbeView::Nothing,
            Probe::Git(r) => ProbeView::Git(r@),
            Probe::ReadFile(p) => ProbeView::ReadFile(p@),
            Probe::ReadBytes(p) => ProbeView::ReadBytes(p@),
            Probe::Reorder => ProbeView::Reorder,
        }
    }
}

} // verus!
