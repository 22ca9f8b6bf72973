//! Git operations that take several runs of git, or file changes, one after
//! the other, each deciding on what the previous one gave. Each is a run
//! that says what it needs next (a [`FlowStep`]) and takes what came of it
//! (a [`FlowReply`]), until it is finished with its outcome.
use crate::git::{
    self, commit_views, file_views, git_call, owned, rebase_autosquash_call, CommitInfo, CommitView, FileDiff,
    FileDiffView, GitOutput, GitOutputView, GitRequest, GitRequestView,
};
use crate::text::{
    chars_of, lines, next_char, push_all, split_lines, string_from_range, trim, trim_spaces, views,
};
use crate::ui::main_screen::{join_path, joined_path};
use vstd::prelude::*;

verus! {

/// What a run needs next.
#[derive(Debug)]
pub enum FlowStep<T> {
    /// This run of git.
    Git(GitRequest),
    /// The file at `path` written with `text`, and made executable if asked.
    WriteFile { path: String, text: String, executable: bool },
    /// The file at `path` deleted.
    RemoveFile { path: String },
    /// The size in bytes of the file at `path` (a path inside the repository).
    FileSize { path: String },
    /// Nothing more: the run is over with this outcome.
    Finished(T),
}

/// What came of the step a run asked for.
#[derive(Debug)]
pub enum FlowReply {
    /// The run of git finished with this output, or could not be started
    /// for this reason.
    Git(Result<GitOutput, String>),
    /// The file was written or deleted, or this went wrong.
    Io(Result<(), String>),
    /// The file has this many bytes, or could not be looked at.
    Size(Result<u64, String>),
}

/// The mathematical content of a [`FlowReply`].
pub enum FlowReplyView {
    Git(Result<GitOutputView, Seq<char>>),
    Io(Result<(), Seq<char>>),
    Size(Result<u64, Seq<char>>),
}

impl View for FlowReply {
    type V = FlowReplyView;

    open spec fn view(&self) -> FlowReplyView {
        match self {
            FlowReply::Git(Ok(o)) => FlowReplyView::Git(Ok(o@)),
            FlowReply::Git(Err(e)) => FlowReplyView::Git(Err(e@)),
            FlowReply::Io(Ok(())) => FlowReplyView::Io(Ok(())),
            FlowReply::Io(Err(e)) => FlowReplyView::Io(Err(e@)),
            FlowReply::Size(Ok(n)) => FlowReplyView::Size(Ok(*n)),
            FlowReply::Size(Err(e)) => FlowReplyView::Size(Err(e@)),
        }
    }
}

/// The mathematical content of a [`FlowStep`], the outcome taken as `V`.
pub enum FlowStepView<V> {
    Git(GitRequestView),
    WriteFile { path: Seq<char>, text: Seq<char>, executable: bool },
    RemoveFile { path: Seq<char> },
    FileSize { path: Seq<char> },
    Finished(V),
}

/// The outcome of a run that gives nothing back: success, or an error text.
pub open spec fn unit_outcome(r: Result<(), String>) -> Result<(), Seq<char>> {
    match r {
        Ok(()) => Ok(()),
        Err(e) => Err(e@),
    }
}

/// The view of a step whose outcome is success or an error text.
pub open spec fn unit_step(s: FlowStep<Result<(), String>>) -> FlowStepView<Result<(), Seq<char>>> {
    match s {
        FlowStep::Git(r) => FlowStepView::Git(r@),
        FlowStep::WriteFile { path, text, executable } => FlowStepView::WriteFile { path: path@, text: text@, executable },
        FlowStep::RemoveFile { path } => FlowStepView::RemoveFile { path: path@ },
        FlowStep::FileSize { path } => FlowStepView::FileSize { path: path@ },
        FlowStep::Finished(r) => FlowStepView::Finished(unit_outcome(r)),
    }
}

/// The answer of git in a reply, when the reply is one.
pub open spec fn git_answer(r: FlowReplyView) -> Result<GitOutputView, Seq<char>> {
    match r {
        FlowReplyView::Git(a) => a,
        _ => Err(Seq::empty()),
    }
}

/// The answer of git in a reply, when the reply is one; anything else counts
/// as git not starting, with no reason.
fn git_answer_exec(reply: FlowReply) -> (r: Result<GitOutput, String>)
    ensures
        match r {
            Ok(o) => git_answer(reply@) == Ok::<GitOutputView, Seq<char>>(o@),
            Err(e) => git_answer(reply@) == Err::<GitOutputView, Seq<char>>(e@),
        },
{
    match reply {
        FlowReply::Git(a) => a,
        _ => Err(String::new()),
    }
}

// ---------------------------------------------------------------------------
// The local commits
// ---------------------------------------------------------------------------

/// A line of `git log --pretty=%h %s` split at its first space: the hash
/// before it and the subject after it (the whole line and nothing when there
/// is no space).
pub open spec fn split_once_space(line: Seq<char>) -> (Seq<char>, Seq<char>) {
    let k = next_char(line, 0, ' ');
    if k < line.len() {
        (line.subrange(0, k), line.subrange(k + 1, line.len() as int))
    } else {
        (line, Seq::empty())
    }
}

/// The commit a log line names, not marked as a fixup.
pub open spec fn commit_of_line(line: Seq<char>, on_remote: bool) -> CommitView {
    CommitView { hash: split_once_space(line).0, message: split_once_space(line).1, is_on_remote: on_remote, is_fixup: false }
}

/// Which run of git the reading of the local commits waits for.
#[derive(Clone, Copy, Debug, PartialEq, Eq, Structural)]
pub enum CommitsPhase {
    /// The log.
    AwaitLog,
    /// Whether the commit of this log line is on a remote branch.
    AwaitRemote(usize),
    /// Over.
    Done,
}

/// The mathematical content of a [`LocalCommitsRun`].
pub struct CommitsRunView {
    pub phase: CommitsPhase,
    pub lines: Seq<Seq<char>>,
    pub commits: Seq<CommitView>,
}

/// The view of a step of the reading of the local commits.
pub open spec fn commits_step(s: FlowStep<Result<Vec<CommitInfo>, String>>) -> FlowStepView<Result<Seq<CommitView>, Seq<char>>> {
    match s {
        FlowStep::Git(r) => FlowStepView::Git(r@),
        FlowStep::WriteFile { path, text, executable } => FlowStepView::WriteFile { path: path@, text: text@, executable },
        FlowStep::RemoveFile { path } => FlowStepView::RemoveFile { path: path@ },
        FlowStep::FileSize { path } => FlowStepView::FileSize { path: path@ },
        FlowStep::Finished(Ok(v)) => FlowStepView::Finished(Ok(commit_views(v@))),
        FlowStep::Finished(Err(e)) => FlowStepView::Finished(Err(e@)),
    }
}

/// Going on from log line `i`: lines without a hash give a commit at once
/// (never on a remote); at the first line with a hash, git is asked whether
/// that commit is on a remote branch; past the last line the commits are
/// the outcome.
pub open spec fn commits_advance(s: CommitsRunView, i: int) -> (CommitsRunView, FlowStepView<Result<Seq<CommitView>, Seq<char>>>)
    decreases s.lines.len() - i,
{
    if i < 0 || i >= s.lines.len() {
        (CommitsRunView { phase: CommitsPhase::Done, ..s }, FlowStepView::Finished(Ok(s.commits)))
    } else if split_once_space(s.lines[i]).0.len() == 0 {
        commits_advance(CommitsRunView { commits: s.commits.push(commit_of_line(s.lines[i], false)), ..s }, i + 1)
    } else {
        (CommitsRunView { phase: CommitsPhase::AwaitRemote(i as usize), ..s },
            FlowStepView::Git(git_call(seq!["branch"@, "-r"@, "--contains"@, split_once_space(s.lines[i]).0])))
    }
}

/// How the reading of the local commits goes on after `reply`: the log
/// failing to start is an error, a failing log gives no commits; each commit
/// is on a remote branch when git lists one, and the reading stops after the
/// first such commit.
pub open spec fn commits_next(s: CommitsRunView, reply: FlowReplyView)
    -> (CommitsRunView, FlowStepView<Result<Seq<CommitView>, Seq<char>>>)
{
    match s.phase {
        CommitsPhase::AwaitLog => match git_answer(reply) {
            Err(e) => (CommitsRunView { phase: CommitsPhase::Done, ..s }, FlowStepView::Finished(Err(e))),
            Ok(o) => if !o.success {
                (CommitsRunView { phase: CommitsPhase::Done, ..s }, FlowStepView::Finished(Ok(Seq::empty())))
            } else {
                commits_advance(CommitsRunView { lines: lines(o.stdout), commits: Seq::empty(), ..s }, 0)
            },
        },
        CommitsPhase::AwaitRemote(i) => if i >= s.lines.len() {
            (CommitsRunView { phase: CommitsPhase::Done, ..s }, FlowStepView::Finished(Ok(s.commits)))
        } else {
            match git_answer(reply) {
            Err(e) => (CommitsRunView { phase: CommitsPhase::Done, ..s }, FlowStepView::Finished(Err(e))),
            Ok(o) => {
                let remote = o.success && trim_spaces(o.stdout).len() > 0;
                let s2 = CommitsRunView { commits: s.commits.push(commit_of_line(s.lines[i as int], remote)), ..s };
                if remote {
                    (CommitsRunView { phase: CommitsPhase::Done, ..s2 }, FlowStepView::Finished(Ok(s2.commits)))
                } else {
                    commits_advance(s2, i + 1)
                }
            },
            }
        },
        CommitsPhase::Done => (s, FlowStepView::Finished(Ok(s.commits))),
    }
}

/// A reading of the local commits that has just begun.
pub open spec fn commits_start() -> CommitsRunView {
    CommitsRunView { phase: CommitsPhase::AwaitLog, lines: Seq::empty(), commits: Seq::empty() }
}

/// Reads the local commits, newest first, with whether each is on a remote
/// branch; the reading stops at the first commit that is.
#[derive(Debug)]
pub struct LocalCommitsRun {
    phase: CommitsPhase,
    lines: Vec<String>,
    commits: Vec<CommitInfo>,
}

impl View for LocalCommitsRun {
    type V = CommitsRunView;

    closed spec fn view(&self) -> CommitsRunView {
        CommitsRunView { phase: self.phase, lines: views(self.lines@), commits: commit_views(self.commits@) }
    }
}

/// A log line's hash and subject.
fn split_log_line(line: &str) -> (r: (String, String))
    ensures
        (r.0@, r.1@) == split_once_space(line@),
{
    let chars = chars_of(line);
    let k = crate::text::find_char(&chars, 0, ' ');
    if k < chars.len() {
        (string_from_range(&chars, 0, k), string_from_range(&chars, k + 1, chars.len()))
    } else {
        (string_from_range(&chars, 0, chars.len()), String::new())
    }
}

/// A copy of a list of commits.
fn clone_commits(v: &Vec<CommitInfo>) -> (r: Vec<CommitInfo>)
    ensures
        r@ == v@,
{
    let mut r: Vec<CommitInfo> = Vec::new();
    let mut i: usize = 0;
    while i < v.len()
        invariant
            i <= v@.len(),
            r@ == v@.subrange(0, i as int),
        decreases v@.len() - i,
    {
        r.push(v[i].clone());
        assert(v@.subrange(0, i + 1) == v@.subrange(0, i as int).push(v@[i as int]));
        i = i + 1;
    }
    assert(v@.subrange(0, v@.len() as int) == v@);
    r
}

impl LocalCommitsRun {
    /// Starts reading: `git log --pretty=%h %s`.
    pub fn begin() -> (r: (LocalCommitsRun, FlowStep<Result<Vec<CommitInfo>, String>>))
        ensures
            r.0@ == commits_start(),
            commits_step(r.1) == FlowStepView::<Result<Seq<CommitView>, Seq<char>>>::Git(git_call(seq!["log"@, "--pretty=%h %s"@])),
    {
        let run = LocalCommitsRun { phase: CommitsPhase::AwaitLog, lines: Vec::new(), commits: Vec::new() };
        assert(views(run.lines@) =~= Seq::<Seq<char>>::empty());
        assert(commit_views(run.commits@) =~= Seq::<CommitView>::empty());
        (run, FlowStep::Git(git::get_local_commits()))
    }

    /// Goes on from log line `i`.
    fn advance(&mut self, i: usize) -> (step: FlowStep<Result<Vec<CommitInfo>, String>>)
        ensures
            (final(self)@, commits_step(step)) == commits_advance(old(self)@, i as int),
        decreases old(self)@.lines.len() - i,
    {
        if i >= self.lines.len() {
            self.phase = CommitsPhase::Done;
            let mut out: Vec<CommitInfo> = Vec::new();
            std::mem::swap(&mut out, &mut self.commits);
            self.commits = clone_commits(&out);
            return FlowStep::Finished(Ok(out));
        }
        let (hash, message) = split_log_line(self.lines[i].as_str());
        assert(views(self.lines@)[i as int] == self.lines@[i as int]@);
        if hash.as_str().is_empty() {
            let ghost before = self.commits@;
            self.commits.push(CommitInfo { hash, message, is_on_remote: false, is_fixup: false });
            assert(commit_views(self.commits@) =~= commit_views(before).push(commit_of_line(self@.lines[i as int], false)));
            self.advance(i + 1)
        } else {
            let req = git::is_commit_on_remote(hash.as_str());
            self.phase = CommitsPhase::AwaitRemote(i);
            FlowStep::Git(req)
        }
    }

    /// Goes on after the log gave `reply`.
    fn after_log(&mut self, reply: FlowReply) -> (step: FlowStep<Result<Vec<CommitInfo>, String>>)
        requires
            old(self)@.phase == CommitsPhase::AwaitLog,
        ensures
            (final(self)@, commits_step(step)) == commits_next(old(self)@, reply@),
    {
        let ans = git_answer_exec(reply);
        match ans {
            Err(e) => {
                self.phase = CommitsPhase::Done;
                FlowStep::Finished(Err(e))
            },
            Ok(o) => {
                if !o.success {
                    self.phase = CommitsPhase::Done;
                    let out: Vec<CommitInfo> = Vec::new();
                    assert(commit_views(out@) =~= Seq::<CommitView>::empty());
                    FlowStep::Finished(Ok(out))
                } else {
                    self.lines = split_lines(o.stdout.as_str());
                    self.commits = Vec::new();
                    assert(commit_views(self.commits@) =~= Seq::<CommitView>::empty());
                    assert(self@ == CommitsRunView { lines: lines(o@.stdout), commits: Seq::empty(), ..old(self)@ });
                    self.advance(0)
                }
            },
        }
    }

    /// Goes on after git said whether the commit of line `i` is on a remote
    /// branch.
    fn after_remote(&mut self, i: usize, reply: FlowReply) -> (step: FlowStep<Result<Vec<CommitInfo>, String>>)
        requires
            old(self)@.phase == CommitsPhase::AwaitRemote(i),
        ensures
            (final(self)@, commits_step(step)) == commits_next(old(self)@, reply@),
    {
        if i >= self.lines.len() {
            self.phase = CommitsPhase::Done;
            return FlowStep::Finished(Ok(clone_commits(&self.commits)));
        }
        let ans = git_answer_exec(reply);
        match ans {
            Err(e) => {
                self.phase = CommitsPhase::Done;
                FlowStep::Finished(Err(e))
            },
            Ok(o) => {
                let remote = o.success && !trim(o.stdout.as_str()).as_str().is_empty();
                assert(remote == (o@.success && trim_spaces(o@.stdout).len() > 0));
                let (hash, message) = split_log_line(self.lines[i].as_str());
                assert(views(self.lines@)[i as int] == self.lines@[i as int]@);
                let ghost before = self.commits@;
                self.commits.push(CommitInfo { hash, message, is_on_remote: remote, is_fixup: false });
                assert(commit_views(self.commits@) =~= commit_views(before).push(commit_of_line(old(self)@.lines[i as int], remote)));
                if remote {
                    self.phase = CommitsPhase::Done;
                    FlowStep::Finished(Ok(clone_commits(&self.commits)))
                } else {
                    self.advance(i + 1)
                }
            },
        }
    }

    /// Goes on after the step this run asked for gave `reply`.
    pub fn resume(&mut self, reply: FlowReply) -> (step: FlowStep<Result<Vec<CommitInfo>, String>>)
        ensures
            (final(self)@, commits_step(step)) == commits_next(old(self)@, reply@),
    {
        match self.phase {
            CommitsPhase::AwaitLog => self.after_log(reply),
            CommitsPhase::AwaitRemote(i) => self.after_remote(i, reply),
            CommitsPhase::Done => FlowStep::Finished(Ok(clone_commits(&self.commits))),
        }
    }
}

// ---------------------------------------------------------------------------
// Runs whose outcome is success or an error text
// ---------------------------------------------------------------------------

/// A copy of an outcome.
fn clone_outcome(r: &Result<(), String>) -> (c: Result<(), String>)
    ensures
        unit_outcome(c) == unit_outcome(*r),
{
    match r {
        Ok(()) => Ok(()),
        Err(e) => Err(owned(e.as_str())),
    }
}

/// The message of a fixup commit that git refused to make.
pub open spec fn fixup_commit_failure(stderr: Seq<char>) -> Seq<char> {
    "git commit --fixup failed. This usually means there are no staged changes. Stderr: "@ + stderr
}

/// Builds [`fixup_commit_failure`].
fn fixup_commit_failure_text(stderr: &str) -> (r: String)
    ensures
        r@ == fixup_commit_failure(stderr@),
{
    let mut r = owned("git commit --fixup failed. This usually means there are no staged changes. Stderr: ");
    push_all(&mut r, stderr);
    r
}

/// The message of a fixup rebase that failed and was given up.
pub open spec fn fixup_rebase_failure() -> Seq<char> {
    "git rebase for fixup failed. Aborting."@
}

/// Which run of git the fixup of a commit waits for.
#[derive(Clone, Copy, Debug, PartialEq, Eq, Structural)]
pub enum FixupPhase {
    /// `git commit --no-edit --fixup`.
    AwaitCommit,
    /// `git rev-parse HASH^`.
    AwaitParent,
    /// The autosquash rebase.
    AwaitRebase,
    /// `git rebase --abort` after the rebase failed.
    AwaitAbort,
    /// Over.
    Done,
}

/// The mathematical content of a [`FixupRun`].
pub struct FixupRunView {
    pub phase: FixupPhase,
    pub hash: Seq<char>,
    pub outcome: Result<(), Seq<char>>,
}

/// The fixup run ends with `r`.
pub open spec fn fixup_end(s: FixupRunView, r: Result<(), Seq<char>>) -> (FixupRunView, FlowStepView<Result<(), Seq<char>>>) {
    (FixupRunView { phase: FixupPhase::Done, outcome: r, ..s }, FlowStepView::Finished(r))
}

/// How the fixup of a commit goes on after `reply`: git failing to start
/// ends it with that error; a refused fixup commit ends it with
/// [`fixup_commit_failure`]; the rebase starts at the commit itself, or at
/// the root when the commit has no parent; a failed rebase is aborted and
/// ends the run with [`fixup_rebase_failure`].
pub open spec fn fixup_next(s: FixupRunView, reply: FlowReplyView) -> (FixupRunView, FlowStepView<Result<(), Seq<char>>>) {
    match s.phase {
        FixupPhase::AwaitCommit => match git_answer(reply) {
            Err(e) => fixup_end(s, Err(e)),
            Ok(o) => if !o.success {
                fixup_end(s, Err(fixup_commit_failure(o.stderr)))
            } else {
                (FixupRunView { phase: FixupPhase::AwaitParent, ..s }, FlowStepView::Git(git_call(seq!["rev-parse"@, s.hash + "^"@])))
            },
        },
        FixupPhase::AwaitParent => match git_answer(reply) {
            Err(e) => fixup_end(s, Err(e)),
            Ok(o) => (FixupRunView { phase: FixupPhase::AwaitRebase, ..s },
                FlowStepView::Git(rebase_autosquash_call(if o.success { Some(s.hash) } else { None }))),
        },
        FixupPhase::AwaitRebase => match git_answer(reply) {
            Err(e) => fixup_end(s, Err(e)),
            Ok(o) => if o.success {
                fixup_end(s, Ok(()))
            } else {
                (FixupRunView { phase: FixupPhase::AwaitAbort, ..s }, FlowStepView::Git(git_call(seq!["rebase"@, "--abort"@])))
            },
        },
        FixupPhase::AwaitAbort => match git_answer(reply) {
            Err(e) => fixup_end(s, Err(e)),
            Ok(_) => fixup_end(s, Err(fixup_rebase_failure())),
        },
        FixupPhase::Done => (s, FlowStepView::Finished(s.outcome)),
    }
}

/// Folds the staged changes into an earlier commit: a fixup commit, then an
/// autosquash rebase.
#[derive(Debug)]
pub struct FixupRun {
    phase: FixupPhase,
    hash: String,
    outcome: Result<(), String>,
}

impl View for FixupRun {
    type V = FixupRunView;

    closed spec fn view(&self) -> FixupRunView {
        FixupRunView { phase: self.phase, hash: self.hash@, outcome: unit_outcome(self.outcome) }
    }
}

impl FixupRun {
    /// Starts folding the staged changes into commit `hash`:
    /// `git commit --no-edit --fixup HASH`.
    pub fn begin(hash: &str) -> (r: (FixupRun, FlowStep<Result<(), String>>))
        ensures
            r.0@ == (FixupRunView { phase: FixupPhase::AwaitCommit, hash: hash@, outcome: Ok(()) }),
            unit_step(r.1) == FlowStepView::<Result<(), Seq<char>>>::Git(git_call(seq!["commit"@, "--no-edit"@, "--fixup"@, hash@])),
    {
        (FixupRun { phase: FixupPhase::AwaitCommit, hash: owned(hash), outcome: Ok(()) },
            FlowStep::Git(git::commit_fixup_no_edit(hash)))
    }

    /// Ends the run with `r`.
    fn end(&mut self, r: Result<(), String>) -> (step: FlowStep<Result<(), String>>)
        ensures
            (final(self)@, unit_step(step)) == fixup_end(old(self)@, unit_outcome(r)),
    {
        self.phase = FixupPhase::Done;
        self.outcome = clone_outcome(&r);
        FlowStep::Finished(r)
    }

    /// Goes on after the step this run asked for gave `reply`.
    pub fn resume(&mut self, reply: FlowReply) -> (step: FlowStep<Result<(), String>>)
        ensures
            (final(self)@, unit_step(step)) == fixup_next(old(self)@, reply@),
    {
        match self.phase {
            FixupPhase::AwaitCommit => match git_answer_exec(reply) {
                Err(e) => self.end(Err(e)),
                Ok(o) => if !o.success {
                    self.end(Err(fixup_commit_failure_text(o.stderr.as_str())))
                } else {
                    self.phase = FixupPhase::AwaitParent;
                    FlowStep::Git(git::get_commit_parent(self.hash.as_str()))
                },
            },
            FixupPhase::AwaitParent => match git_answer_exec(reply) {
                Err(e) => self.end(Err(e)),
                Ok(o) => {
                    self.phase = FixupPhase::AwaitRebase;
                    if o.success {
                        FlowStep::Git(git::rebase_autosquash(Some(self.hash.as_str())))
                    } else {
                        FlowStep::Git(git::rebase_autosquash(None))
                    }
                },
            },
            FixupPhase::AwaitRebase => match git_answer_exec(reply) {
                Err(e) => self.end(Err(e)),
                Ok(o) => if o.success {
                    self.end(Ok(()))
                } else {
                    self.phase = FixupPhase::AwaitAbort;
                    FlowStep::Git(git::rebase_abort())
                },
            },
            FixupPhase::AwaitAbort => match git_answer_exec(reply) {
                Err(e) => self.end(Err(e)),
                Ok(_) => self.end(Err(owned("git rebase for fixup failed. Aborting."))),
            },
            FixupPhase::Done => FlowStep::Finished(clone_outcome(&self.outcome)),
        }
    }
}

// ---------------------------------------------------------------------------
// Staging everything
// ---------------------------------------------------------------------------

/// The size in a reply, when the reply is one.
pub open spec fn size_answer(r: FlowReplyView) -> Option<u64> {
    match r {
        FlowReplyView::Size(Ok(n)) => Some(n),
        _ => None,
    }
}

/// Which step the staging of everything waits for.
#[derive(Clone, Copy, Debug, PartialEq, Eq, Structural)]
pub enum AddAllPhase {
    /// `git add --update`.
    AwaitUpdate,
    /// The list of untracked files.
    AwaitList,
    /// The size of the untracked file of this line of the list.
    AwaitSize(usize),
    /// `git add` of the untracked file of this line of the list.
    AwaitStage(usize),
    /// Over.
    Done,
}

/// The mathematical content of an [`AddAllRun`].
pub struct AddAllRunView {
    pub phase: AddAllPhase,
    pub repo: Seq<char>,
    pub limit: u64,
    pub names: Seq<Seq<char>>,
    pub outcome: Result<(), Seq<char>>,
}

/// The staging of everything ends with `r`.
pub open spec fn add_all_end(s: AddAllRunView, r: Result<(), Seq<char>>) -> (AddAllRunView, FlowStepView<Result<(), Seq<char>>>) {
    (AddAllRunView { phase: AddAllPhase::Done, outcome: r, ..s }, FlowStepView::Finished(r))
}

/// Going on from line `i` of the list of untracked files: empty lines are
/// passed over; for the next name the size of its file is asked for; past
/// the last line the run has succeeded.
pub open spec fn add_all_advance(s: AddAllRunView, i: int) -> (AddAllRunView, FlowStepView<Result<(), Seq<char>>>)
    decreases s.names.len() - i,
{
    if i < 0 || i >= s.names.len() {
        add_all_end(s, Ok(()))
    } else if s.names[i].len() == 0 {
        add_all_advance(s, i + 1)
    } else {
        (AddAllRunView { phase: AddAllPhase::AwaitSize(i as usize), ..s },
            FlowStepView::FileSize { path: joined_path(s.repo, s.names[i]) })
    }
}

/// How the staging of everything goes on after `reply`: git failing to
/// start ends it with that error; a failing listing of untracked files ends
/// it with success; an untracked file is staged when its size is known and
/// at most the limit, and passed over otherwise.
pub open spec fn add_all_next(s: AddAllRunView, reply: FlowReplyView) -> (AddAllRunView, FlowStepView<Result<(), Seq<char>>>) {
    match s.phase {
        AddAllPhase::AwaitUpdate => match git_answer(reply) {
            Err(e) => add_all_end(s, Err(e)),
            Ok(_) => (AddAllRunView { phase: AddAllPhase::AwaitList, ..s },
                FlowStepView::Git(git_call(seq!["ls-files"@, "--others"@, "--exclude-standard"@]))),
        },
        AddAllPhase::AwaitList => match git_answer(reply) {
            Err(e) => add_all_end(s, Err(e)),
            Ok(o) => if !o.success {
                add_all_end(s, Ok(()))
            } else {
                add_all_advance(AddAllRunView { names: lines(o.stdout), ..s }, 0)
            },
        },
        AddAllPhase::AwaitSize(i) => if i >= s.names.len() {
            add_all_end(s, Ok(()))
        } else {
            match size_answer(reply) {
                Some(n) => if n <= s.limit {
                    (AddAllRunView { phase: AddAllPhase::AwaitStage(i), ..s },
                        FlowStepView::Git(git_call(seq!["add"@, s.names[i as int]])))
                } else {
                    add_all_advance(s, i + 1)
                },
                None => add_all_advance(s, i + 1),
            }
        },
        AddAllPhase::AwaitStage(i) => match git_answer(reply) {
            Err(e) => add_all_end(s, Err(e)),
            Ok(_) => add_all_advance(s, i + 1),
        },
        AddAllPhase::Done => (s, FlowStepView::Finished(s.outcome)),
    }
}

/// Stages every change: modified and deleted tracked files, and untracked
/// files of at most a size limit.
#[derive(Debug)]
pub struct AddAllRun {
    phase: AddAllPhase,
    repo: String,
    limit: u64,
    names: Vec<String>,
    outcome: Result<(), String>,
}

impl View for AddAllRun {
    type V = AddAllRunView;

    closed spec fn view(&self) -> AddAllRunView {
        AddAllRunView { phase: self.phase, repo: self.repo@, limit: self.limit, names: views(self.names@), outcome: unit_outcome(self.outcome) }
    }
}

impl AddAllRun {
    /// Starts staging everything in the repository at `repo`, untracked
    /// files up to `limit` bytes: `git add --update`.
    pub fn begin(repo: &str, limit: u64) -> (r: (AddAllRun, FlowStep<Result<(), String>>))
        ensures
            r.0@ == (AddAllRunView { phase: AddAllPhase::AwaitUpdate, repo: repo@, limit, names: Seq::empty(), outcome: Ok(()) }),
            unit_step(r.1) == FlowStepView::<Result<(), Seq<char>>>::Git(git_call(seq!["add"@, "--update"@])),
    {
        let run = AddAllRun { phase: AddAllPhase::AwaitUpdate, repo: owned(repo), limit, names: Vec::new(), outcome: Ok(()) };
        assert(views(run.names@) =~= Seq::<Seq<char>>::empty());
        (run, FlowStep::Git(git::add_update()))
    }

    /// Ends the run with `r`.
    fn end(&mut self, r: Result<(), String>) -> (step: FlowStep<Result<(), String>>)
        ensures
            (final(self)@, unit_step(step)) == add_all_end(old(self)@, unit_outcome(r)),
    {
        self.phase = AddAllPhase::Done;
        self.outcome = clone_outcome(&r);
        FlowStep::Finished(r)
    }

    /// Goes on from line `i` of the list.
    fn advance(&mut self, i: usize) -> (step: FlowStep<Result<(), String>>)
        ensures
            (final(self)@, unit_step(step)) == add_all_advance(old(self)@, i as int),
        decreases old(self)@.names.len() - i,
    {
        if i >= self.names.len() {
            return self.end(Ok(()));
        }
        assert(views(self.names@)[i as int] == self.names@[i as int]@);
        if self.names[i].as_str().is_empty() {
            self.advance(i + 1)
        } else {
            self.phase = AddAllPhase::AwaitSize(i);
            FlowStep::FileSize { path: join_path(self.repo.as_str(), self.names[i].as_str()) }
        }
    }

    /// Goes on after the step this run asked for gave `reply`.
    pub fn resume(&mut self, reply: FlowReply) -> (step: FlowStep<Result<(), String>>)
        ensures
            (final(self)@, unit_step(step)) == add_all_next(old(self)@, reply@),
    {
        match self.phase {
            AddAllPhase::AwaitUpdate => match git_answer_exec(reply) {
                Err(e) => self.end(Err(e)),
                Ok(_) => {
                    self.phase = AddAllPhase::AwaitList;
                    FlowStep::Git(git::get_untracked_files())
                },
            },
            AddAllPhase::AwaitList => match git_answer_exec(reply) {
                Err(e) => self.end(Err(e)),
                Ok(o) => if !o.success {
                    self.end(Ok(()))
                } else {
                    self.names = split_lines(o.stdout.as_str());
                    self.advance(0)
                },
            },
            AddAllPhase::AwaitSize(i) => {
                if i >= self.names.len() {
                    return self.end(Ok(()));
                }
                let small = match reply {
                    FlowReply::Size(Ok(n)) => n <= self.limit,
                    _ => false,
                };
                if small {
                    assert(views(self.names@)[i as int] == self.names@[i as int]@);
                    self.phase = AddAllPhase::AwaitStage(i);
                    FlowStep::Git(git::stage_file(self.names[i].as_str()))
                } else {
                    self.advance(i + 1)
                }
            },
            AddAllPhase::AwaitStage(i) => match git_answer_exec(reply) {
                Err(e) => self.end(Err(e)),
                Ok(_) => if i < self.names.len() {
                    self.advance(i + 1)
                } else {
                    self.advance(i)
                },
            },
            AddAllPhase::Done => FlowStep::Finished(clone_outcome(&self.outcome)),
        }
    }
}

// ---------------------------------------------------------------------------
// Rewording a commit
// ---------------------------------------------------------------------------

/// Whether a file change succeeded, when the reply is about one; anything
/// else counts as a failure with no reason.
pub open spec fn io_answer(r: FlowReplyView) -> Result<(), Seq<char>> {
    match r {
        FlowReplyView::Io(a) => a,
        _ => Err(Seq::empty()),
    }
}

/// Reads [`io_answer`].
fn io_answer_exec(reply: FlowReply) -> (r: Result<(), String>)
    ensures
        unit_outcome(r) == io_answer(reply@),
{
    match reply {
        FlowReply::Io(a) => a,
        _ => Err(String::new()),
    }
}

/// Where the new message waits while a commit is reworded.
pub open spec fn reword_message_path(repo: Seq<char>) -> Seq<char> {
    joined_path(repo, ".git/COMMIT_EDITMSG_TEMP"@)
}

/// The editor script that the rebase runs on the commit's message.
pub open spec fn reword_script_path(repo: Seq<char>) -> Seq<char> {
    joined_path(repo, ".git/reword_editor.sh"@)
}

/// The editor script: it copies the waiting message over the file it is
/// given.
pub open spec fn reword_script(message_path: Seq<char>) -> Seq<char> {
    "#!/bin/sh\ncp '"@ + message_path + "' \"$1\""@
}

/// The first seven characters of a hash (all of a shorter one).
pub open spec fn short_hash(hash: Seq<char>) -> Seq<char> {
    if hash.len() <= 7 { hash } else { hash.subrange(0, 7) }
}

/// The message of a reword rebase that failed and was given up.
pub open spec fn reword_failure(stderr: Seq<char>) -> Seq<char> {
    "git rebase for reword failed. Stderr: "@ + stderr + ". Aborting."@
}

/// Which step the rewording of a commit waits for.
#[derive(Clone, Copy, Debug, PartialEq, Eq, Structural)]
pub enum RewordPhase {
    /// Writing the new message.
    AwaitMessage,
    /// Writing the editor script.
    AwaitScript,
    /// `git rev-parse HASH^`.
    AwaitParent,
    /// The reword rebase.
    AwaitRebase,
    /// Deleting the message file.
    AwaitRemoveMessage,
    /// Deleting the editor script.
    AwaitRemoveScript,
    /// `git rebase --abort` after the rebase failed.
    AwaitAbort,
    /// Over.
    Done,
}

/// The mathematical content of a [`RewordRun`].
pub struct RewordRunView {
    pub phase: RewordPhase,
    pub repo: Seq<char>,
    pub hash: Seq<char>,
    pub rebase_succeeded: bool,
    pub rebase_stderr: Seq<char>,
    pub outcome: Result<(), Seq<char>>,
}

/// The rewording ends with `r`.
pub open spec fn reword_end(s: RewordRunView, r: Result<(), Seq<char>>) -> (RewordRunView, FlowStepView<Result<(), Seq<char>>>) {
    (RewordRunView { phase: RewordPhase::Done, outcome: r, ..s }, FlowStepView::Finished(r))
}

/// How the rewording of a commit goes on after `reply`: a file that cannot
/// be written, or git failing to start, ends it with that error; the rebase
/// starts at the commit's parent, or at the root when it has none; both
/// files are deleted after the rebase whatever came of their deletion; a
/// failed rebase is then aborted and ends the run with [`reword_failure`].
pub open spec fn reword_next(s: RewordRunView, reply: FlowReplyView) -> (RewordRunView, FlowStepView<Result<(), Seq<char>>>) {
    match s.phase {
        RewordPhase::AwaitMessage => match io_answer(reply) {
            Err(e) => reword_end(s, Err(e)),
            Ok(()) => (RewordRunView { phase: RewordPhase::AwaitScript, ..s },
                FlowStepView::WriteFile { path: reword_script_path(s.repo), text: reword_script(reword_message_path(s.repo)), executable: true }),
        },
        RewordPhase::AwaitScript => match io_answer(reply) {
            Err(e) => reword_end(s, Err(e)),
            Ok(()) => (RewordRunView { phase: RewordPhase::AwaitParent, ..s },
                FlowStepView::Git(git_call(seq!["rev-parse"@, s.hash + "^"@]))),
        },
        RewordPhase::AwaitParent => match git_answer(reply) {
            Err(e) => reword_end(s, Err(e)),
            Ok(o) => (RewordRunView { phase: RewordPhase::AwaitRebase, ..s },
                FlowStepView::Git(git::rebase_reword_call(if o.success { Some(trim_spaces(o.stdout)) } else { None },
                    short_hash(s.hash), reword_script_path(s.repo)))),
        },
        RewordPhase::AwaitRebase => match git_answer(reply) {
            Err(e) => reword_end(s, Err(e)),
            Ok(o) => (RewordRunView { phase: RewordPhase::AwaitRemoveMessage, rebase_succeeded: o.success, rebase_stderr: o.stderr, ..s },
                FlowStepView::RemoveFile { path: reword_message_path(s.repo) }),
        },
        RewordPhase::AwaitRemoveMessage => (RewordRunView { phase: RewordPhase::AwaitRemoveScript, ..s },
            FlowStepView::RemoveFile { path: reword_script_path(s.repo) }),
        RewordPhase::AwaitRemoveScript => if s.rebase_succeeded {
            reword_end(s, Ok(()))
        } else {
            (RewordRunView { phase: RewordPhase::AwaitAbort, ..s }, FlowStepView::Git(git_call(seq!["rebase"@, "--abort"@])))
        },
        RewordPhase::AwaitAbort => match git_answer(reply) {
            Err(e) => reword_end(s, Err(e)),
            Ok(_) => reword_end(s, Err(reword_failure(s.rebase_stderr))),
        },
        RewordPhase::Done => (s, FlowStepView::Finished(s.outcome)),
    }
}

/// A rewording of commit `hash` of the repository at `repo` that has just
/// begun.
pub open spec fn reword_start(repo: Seq<char>, hash: Seq<char>) -> RewordRunView {
    RewordRunView { phase: RewordPhase::AwaitMessage, repo, hash, rebase_succeeded: false, rebase_stderr: Seq::empty(), outcome: Ok(()) }
}

/// The first step of a rewording: the new message written where the editor
/// script will find it.
pub open spec fn reword_first_step(repo: Seq<char>, message: Seq<char>) -> FlowStepView<Result<(), Seq<char>>> {
    FlowStepView::WriteFile { path: reword_message_path(repo), text: message, executable: false }
}

/// Gives an earlier commit a new message, through an interactive rebase
/// whose editor writes that message.
#[derive(Debug)]
pub struct RewordRun {
    phase: RewordPhase,
    repo: String,
    hash: String,
    rebase_succeeded: bool,
    rebase_stderr: String,
    outcome: Result<(), String>,
}

impl View for RewordRun {
    type V = RewordRunView;

    closed spec fn view(&self) -> RewordRunView {
        RewordRunView {
            phase: self.phase,
            repo: self.repo@,
            hash: self.hash@,
            rebase_succeeded: self.rebase_succeeded,
            rebase_stderr: self.rebase_stderr@,
            outcome: unit_outcome(self.outcome),
        }
    }
}

/// Builds [`reword_message_path`].
fn reword_message_path_exec(repo: &str) -> (r: String)
    ensures
        r@ == reword_message_path(repo@),
{
    join_path(repo, ".git/COMMIT_EDITMSG_TEMP")
}

/// Builds [`reword_script_path`].
fn reword_script_path_exec(repo: &str) -> (r: String)
    ensures
        r@ == reword_script_path(repo@),
{
    join_path(repo, ".git/reword_editor.sh")
}

impl RewordRun {
    /// Starts giving commit `hash` of the repository at `repo` the message
    /// `message`: the message is written where the editor script will find
    /// it.
    pub fn begin(repo: &str, hash: &str, message: &str) -> (r: (RewordRun, FlowStep<Result<(), String>>))
        ensures
            r.0@ == reword_start(repo@, hash@),
            unit_step(r.1) == reword_first_step(repo@, message@),
    {
        let run = RewordRun { phase: RewordPhase::AwaitMessage, repo: owned(repo), hash: owned(hash),
            rebase_succeeded: false, rebase_stderr: String::new(), outcome: Ok(()) };
        (run, FlowStep::WriteFile { path: reword_message_path_exec(repo), text: owned(message), executable: false })
    }

    /// Ends the run with `r`.
    fn end(&mut self, r: Result<(), String>) -> (step: FlowStep<Result<(), String>>)
        ensures
            (final(self)@, unit_step(step)) == reword_end(old(self)@, unit_outcome(r)),
    {
        self.phase = RewordPhase::Done;
        self.outcome = clone_outcome(&r);
        FlowStep::Finished(r)
    }

    /// The rebase that rewords the commit, onto `parent` or from the root.
    fn rebase(&self, parent: Option<&str>) -> (r: GitRequest)
        ensures
            r@ == git::rebase_reword_call(match parent { Some(p) => Some(p@), None => None },
                short_hash(self@.hash), reword_script_path(self@.repo)),
    {
        let chars = chars_of(self.hash.as_str());
        let n: usize = if chars.len() <= 7 { chars.len() } else { 7 };
        let short = string_from_range(&chars, 0, n);
        assert(chars@.subrange(0, chars@.len() as int) == chars@);
        let script = reword_script_path_exec(self.repo.as_str());
        git::rebase_reword(parent, short.as_str(), script.as_str())
    }

    /// Goes on after the step this run asked for gave `reply`.
    pub fn resume(&mut self, reply: FlowReply) -> (step: FlowStep<Result<(), String>>)
        ensures
            (final(self)@, unit_step(step)) == reword_next(old(self)@, reply@),
    {
        match self.phase {
            RewordPhase::AwaitMessage => match io_answer_exec(reply) {
                Err(e) => self.end(Err(e)),
                Ok(()) => {
                    self.phase = RewordPhase::AwaitScript;
                    let message_path = reword_message_path_exec(self.repo.as_str());
                    let mut text = owned("#!/bin/sh\ncp '");
                    push_all(&mut text, message_path.as_str());
                    push_all(&mut text, "' \"$1\"");
                    FlowStep::WriteFile { path: reword_script_path_exec(self.repo.as_str()), text, executable: true }
                },
            },
            RewordPhase::AwaitScript => match io_answer_exec(reply) {
                Err(e) => self.end(Err(e)),
                Ok(()) => {
                    self.phase = RewordPhase::AwaitParent;
                    FlowStep::Git(git::get_commit_parent(self.hash.as_str()))
                },
            },
            RewordPhase::AwaitParent => match git_answer_exec(reply) {
                Err(e) => self.end(Err(e)),
                Ok(o) => {
                    let request = if o.success {
                        let parent = trim(o.stdout.as_str());
                        self.rebase(Some(parent.as_str()))
                    } else {
                        self.rebase(None)
                    };
                    self.phase = RewordPhase::AwaitRebase;
                    FlowStep::Git(request)
                },
            },
            RewordPhase::AwaitRebase => match git_answer_exec(reply) {
                Err(e) => self.end(Err(e)),
                Ok(o) => {
                    self.phase = RewordPhase::AwaitRemoveMessage;
                    self.rebase_succeeded = o.success;
                    self.rebase_stderr = o.stderr;
                    FlowStep::RemoveFile { path: reword_message_path_exec(self.repo.as_str()) }
                },
            },
            RewordPhase::AwaitRemoveMessage => {
                self.phase = RewordPhase::AwaitRemoveScript;
                FlowStep::RemoveFile { path: reword_script_path_exec(self.repo.as_str()) }
            },
            RewordPhase::AwaitRemoveScript => if self.rebase_succeeded {
                self.end(Ok(()))
            } else {
                self.phase = RewordPhase::AwaitAbort;
                FlowStep::Git(git::rebase_abort())
            },
            RewordPhase::AwaitAbort => match git_answer_exec(reply) {
                Err(e) => self.end(Err(e)),
                Ok(_) => {
                    let mut text = owned("git rebase for reword failed. Stderr: ");
                    push_all(&mut text, self.rebase_stderr.as_str());
                    push_all(&mut text, ". Aborting.");
                    self.end(Err(text))
                },
            },
            RewordPhase::Done => FlowStep::Finished(clone_outcome(&self.outcome)),
        }
    }
}

// ---------------------------------------------------------------------------
// Amending an earlier commit
// ---------------------------------------------------------------------------

/// A step of an inner run that is not its end, as a step of the run around
/// it.
pub open spec fn passed_on<V>(st: FlowStepView<V>) -> FlowStepView<Result<(), Seq<char>>> {
    match st {
        FlowStepView::Git(r) => FlowStepView::Git(r),
        FlowStepView::WriteFile { path, text, executable } => FlowStepView::WriteFile { path, text, executable },
        FlowStepView::RemoveFile { path } => FlowStepView::RemoveFile { path },
        FlowStepView::FileSize { path } => FlowStepView::FileSize { path },
        FlowStepView::Finished(_) => FlowStepView::Finished(Ok(())),
    }
}

/// Passes on a step of the reading of the commits that is not its end.
fn pass_on_commits_step(st: FlowStep<Result<Vec<CommitInfo>, String>>) -> (r: FlowStep<Result<(), String>>)
    requires
        !(st is Finished),
    ensures
        unit_step(r) == passed_on(commits_step(st)),
{
    match st {
        FlowStep::Git(r) => FlowStep::Git(r),
        FlowStep::WriteFile { path, text, executable } => FlowStep::WriteFile { path, text, executable },
        FlowStep::RemoveFile { path } => FlowStep::RemoveFile { path },
        FlowStep::FileSize { path } => FlowStep::FileSize { path },
        FlowStep::Finished(_) => FlowStep::Finished(Ok(())),
    }
}

/// The first `n` characters of `s` (all of a shorter one).
pub open spec fn take_chars(s: Seq<char>, n: nat) -> Seq<char> {
    if s.len() <= n { s } else { s.subrange(0, n as int) }
}

/// How long the hashes of the log are: that of the newest commit, or seven
/// when there is none.
pub open spec fn log_hash_len(commits: Seq<CommitView>) -> nat {
    if commits.len() > 0 { commits[0].hash.len() } else { 7 }
}

/// The position of the first commit of `v` from `from` on with this hash.
pub open spec fn commit_position(v: Seq<CommitView>, hash: Seq<char>, from: int) -> Option<int>
    decreases v.len() - from,
{
    if from < 0 || from >= v.len() {
        None
    } else if v[from].hash == hash {
        Some(from)
    } else {
        commit_position(v, hash, from + 1)
    }
}

/// Finds [`commit_position`] from the start.
fn commit_position_exec(v: &Vec<CommitInfo>, hash: &str) -> (r: Option<usize>)
    ensures
        match r {
            Some(k) => commit_position(commit_views(v@), hash@, 0) == Some(k as int),
            None => commit_position(commit_views(v@), hash@, 0) is None,
        },
{
    let ghost cv = commit_views(v@);
    let mut i: usize = 0;
    while i < v.len()
        invariant
            i <= v@.len(),
            cv == commit_views(v@),
            commit_position(cv, hash@, i as int) == commit_position(cv, hash@, 0),
        decreases v@.len() - i,
    {
        if crate::text::str_equal(v[i].hash.as_str(), hash) {
            return Some(i);
        }
        i = i + 1;
    }
    None
}

/// Which step the amending of an earlier commit waits for.
#[derive(Clone, Copy, Debug, PartialEq, Eq, Structural)]
pub enum AmendPhase {
    /// The reading of the commits before anything changes.
    ReadBefore,
    /// `git log -1 --pretty=%s TARGET`: the commit's present subject.
    AwaitSubject,
    /// `git commit --fixup TARGET`.
    AwaitFixupCommit,
    /// `git rev-parse TARGET^`.
    AwaitParent,
    /// The autosquash rebase.
    AwaitRebase,
    /// `git rebase --abort` after the rebase failed.
    AwaitAbort,
    /// The reading of the commits after the rebase.
    ReadAfter,
    /// The rewording of the rewritten commit.
    Rewording,
    /// Over.
    Done,
}

/// The mathematical content of an [`AmendRun`].
pub struct AmendRunView {
    pub phase: AmendPhase,
    pub repo: Seq<char>,
    pub target: Seq<char>,
    pub message: Seq<char>,
    pub index: usize,
    pub original: Seq<char>,
    pub commits: CommitsRunView,
    pub reword: RewordRunView,
    pub outcome: Result<(), Seq<char>>,
}

/// The amending ends with `r`.
pub open spec fn amend_end(s: AmendRunView, r: Result<(), Seq<char>>) -> (AmendRunView, FlowStepView<Result<(), Seq<char>>>) {
    (AmendRunView { phase: AmendPhase::Done, outcome: r, ..s }, FlowStepView::Finished(r))
}

/// The amending after the first reading of the commits gave `cs`: the
/// target is looked for among them by its hash cut to the log's length.
pub open spec fn amend_found(s: AmendRunView, cs: Seq<CommitView>) -> (AmendRunView, FlowStepView<Result<(), Seq<char>>>) {
    match commit_position(cs, take_chars(s.target, log_hash_len(cs)), 0) {
        None => amend_end(s, Err("Target commit not found in local history"@)),
        Some(k) => (AmendRunView { phase: AmendPhase::AwaitSubject, index: k as usize, ..s },
            FlowStepView::Git(git_call(seq!["log"@, "-1"@, "--pretty=%s"@, s.target]))),
    }
}

/// The amending after the second reading of the commits gave `cs`: the
/// commit at the target's old position is reworded.
pub open spec fn amend_reread(s: AmendRunView, cs: Seq<CommitView>) -> (AmendRunView, FlowStepView<Result<(), Seq<char>>>) {
    if s.index < cs.len() {
        (AmendRunView { phase: AmendPhase::Rewording, reword: reword_start(s.repo, cs[s.index as int].hash), ..s },
            reword_first_step(s.repo, s.message))
    } else {
        amend_end(s, Err("Rewritten commit not found after amend rebase"@))
    }
}

/// How the amending of an earlier commit goes on after `reply`: the staged
/// changes become a fixup commit squashed into the target by a rebase that
/// starts at the target's parent (or at the root); when the message differs
/// from the target's subject (both trimmed), the rewritten commit, found at
/// the target's old position in the log, is reworded. Errors end the run as
/// in the fixup and the rewording.
pub open spec fn amend_next(s: AmendRunView, reply: FlowReplyView) -> (AmendRunView, FlowStepView<Result<(), Seq<char>>>) {
    match s.phase {
        AmendPhase::ReadBefore => {
            let (c2, st) = commits_next(s.commits, reply);
            let s2 = AmendRunView { commits: c2, ..s };
            match st {
                FlowStepView::Finished(Err(e)) => amend_end(s2, Err(e)),
                FlowStepView::Finished(Ok(cs)) => amend_found(s2, cs),
                _ => (s2, passed_on(st)),
            }
        },
        AmendPhase::AwaitSubject => match git_answer(reply) {
            Err(e) => amend_end(s, Err(e)),
            Ok(o) => (AmendRunView { phase: AmendPhase::AwaitFixupCommit, original: o.stdout, ..s },
                FlowStepView::Git(git_call(seq!["commit"@, "--fixup"@, s.target]))),
        },
        AmendPhase::AwaitFixupCommit => match git_answer(reply) {
            Err(e) => amend_end(s, Err(e)),
            Ok(o) => if !o.success {
                amend_end(s, Err(fixup_commit_failure(o.stderr)))
            } else {
                (AmendRunView { phase: AmendPhase::AwaitParent, ..s }, FlowStepView::Git(git_call(seq!["rev-parse"@, s.target + "^"@])))
            },
        },
        AmendPhase::AwaitParent => match git_answer(reply) {
            Err(e) => amend_end(s, Err(e)),
            Ok(o) => (AmendRunView { phase: AmendPhase::AwaitRebase, ..s },
                FlowStepView::Git(rebase_autosquash_call(if o.success { Some(trim_spaces(o.stdout)) } else { None }))),
        },
        AmendPhase::AwaitRebase => match git_answer(reply) {
            Err(e) => amend_end(s, Err(e)),
            Ok(o) => if !o.success {
                (AmendRunView { phase: AmendPhase::AwaitAbort, ..s }, FlowStepView::Git(git_call(seq!["rebase"@, "--abort"@])))
            } else if trim_spaces(s.message) != trim_spaces(s.original) {
                (AmendRunView { phase: AmendPhase::ReadAfter, commits: commits_start(), ..s },
                    FlowStepView::Git(git_call(seq!["log"@, "--pretty=%h %s"@])))
            } else {
                amend_end(s, Ok(()))
            },
        },
        AmendPhase::AwaitAbort => match git_answer(reply) {
            Err(e) => amend_end(s, Err(e)),
            Ok(_) => amend_end(s, Err(fixup_rebase_failure())),
        },
        AmendPhase::ReadAfter => {
            let (c2, st) = commits_next(s.commits, reply);
            let s2 = AmendRunView { commits: c2, ..s };
            match st {
                FlowStepView::Finished(Err(e)) => amend_end(s2, Err(e)),
                FlowStepView::Finished(Ok(cs)) => amend_reread(s2, cs),
                _ => (s2, passed_on(st)),
            }
        },
        AmendPhase::Rewording => {
            let (r2, st) = reword_next(s.reword, reply);
            let s2 = AmendRunView { reword: r2, ..s };
            match st {
                FlowStepView::Finished(r) => amend_end(s2, r),
                _ => (s2, st),
            }
        },
        AmendPhase::Done => (s, FlowStepView::Finished(s.outcome)),
    }
}

/// An amending of commit `target` of the repository at `repo` with
/// `message` that has just begun.
pub open spec fn amend_start(repo: Seq<char>, target: Seq<char>, message: Seq<char>) -> AmendRunView {
    AmendRunView {
        phase: AmendPhase::ReadBefore,
        repo,
        target,
        message,
        index: 0,
        original: Seq::empty(),
        commits: commits_start(),
        reword: reword_start(Seq::empty(), Seq::empty()),
        outcome: Ok(()),
    }
}

/// Folds the staged changes into an earlier commit and gives it a new
/// message when the message changed.
#[derive(Debug)]
pub struct AmendRun {
    phase: AmendPhase,
    repo: String,
    target: String,
    message: String,
    index: usize,
    original: String,
    commits: LocalCommitsRun,
    reword: RewordRun,
    outcome: Result<(), String>,
}

impl View for AmendRun {
    type V = AmendRunView;

    closed spec fn view(&self) -> AmendRunView {
        AmendRunView {
            phase: self.phase,
            repo: self.repo@,
            target: self.target@,
            message: self.message@,
            index: self.index,
            original: self.original@,
            commits: self.commits@,
            reword: self.reword@,
            outcome: unit_outcome(self.outcome),
        }
    }
}

/// A rewording that has not begun.
fn idle_reword() -> (r: RewordRun)
    ensures
        r@ == reword_start(Seq::empty(), Seq::empty()),
{
    RewordRun { phase: RewordPhase::AwaitMessage, repo: String::new(), hash: String::new(),
        rebase_succeeded: false, rebase_stderr: String::new(), outcome: Ok(()) }
}

/// Builds [`take_chars`].
fn take_chars_exec(s: &str, n: usize) -> (r: String)
    ensures
        r@ == take_chars(s@, n as nat),
{
    let chars = chars_of(s);
    assert(chars@.subrange(0, chars@.len() as int) == chars@);
    if chars.len() <= n {
        string_from_range(&chars, 0, chars.len())
    } else {
        string_from_range(&chars, 0, n)
    }
}

impl AmendRun {
    /// Starts folding the staged changes into commit `target` of the
    /// repository at `repo`, with `message` as its message: the local
    /// commits are read first.
    pub fn begin(repo: &str, target: &str, message: &str) -> (r: (AmendRun, FlowStep<Result<(), String>>))
        ensures
            r.0@ == amend_start(repo@, target@, message@),
            unit_step(r.1) == FlowStepView::<Result<(), Seq<char>>>::Git(git_call(seq!["log"@, "--pretty=%h %s"@])),
    {
        let (commits, step) = LocalCommitsRun::begin();
        let run = AmendRun {
            phase: AmendPhase::ReadBefore,
            repo: owned(repo),
            target: owned(target),
            message: owned(message),
            index: 0,
            original: String::new(),
            commits,
            reword: idle_reword(),
            outcome: Ok(()),
        };
        (run, pass_on_commits_step(step))
    }

    /// Ends the run with `r`.
    fn end(&mut self, r: Result<(), String>) -> (step: FlowStep<Result<(), String>>)
        ensures
            (final(self)@, unit_step(step)) == amend_end(old(self)@, unit_outcome(r)),
    {
        self.phase = AmendPhase::Done;
        self.outcome = clone_outcome(&r);
        FlowStep::Finished(r)
    }

    /// Goes on after the first reading of the commits gave `cs`.
    fn found(&mut self, cs: Vec<CommitInfo>) -> (step: FlowStep<Result<(), String>>)
        ensures
            (final(self)@, unit_step(step)) == amend_found(old(self)@, commit_views(cs@)),
    {
        let n: usize = if cs.len() > 0 {
            assert(commit_views(cs@)[0] == cs@[0]@);
            chars_of(cs[0].hash.as_str()).len()
        } else {
            7
        };
        let short = take_chars_exec(self.target.as_str(), n);
        match commit_position_exec(&cs, short.as_str()) {
            None => self.end(Err(owned("Target commit not found in local history"))),
            Some(k) => {
                self.index = k;
                self.phase = AmendPhase::AwaitSubject;
                FlowStep::Git(git::commit_subject(self.target.as_str()))
            },
        }
    }

    /// Goes on after the second reading of the commits gave `cs`.
    fn reread(&mut self, cs: Vec<CommitInfo>) -> (step: FlowStep<Result<(), String>>)
        ensures
            (final(self)@, unit_step(step)) == amend_reread(old(self)@, commit_views(cs@)),
    {
        if self.index < cs.len() {
            assert(commit_views(cs@)[self.index as int] == cs@[self.index as int]@);
            let (run, step) = RewordRun::begin(self.repo.as_str(), cs[self.index].hash.as_str(), self.message.as_str());
            self.reword = run;
            self.phase = AmendPhase::Rewording;
            step
        } else {
            self.end(Err(owned("Rewritten commit not found after amend rebase")))
        }
    }

    /// Goes on while the commits are read.
    fn reading(&mut self, reply: FlowReply) -> (step: FlowStep<Result<(), String>>)
        requires
            old(self)@.phase == AmendPhase::ReadBefore || old(self)@.phase == AmendPhase::ReadAfter,
        ensures
            (final(self)@, unit_step(step)) == amend_next(old(self)@, reply@),
    {
        let st = self.commits.resume(reply);
        let before = self.phase == AmendPhase::ReadBefore;
        match st {
            FlowStep::Finished(Err(e)) => self.end(Err(e)),
            FlowStep::Finished(Ok(cs)) => if before {
                self.found(cs)
            } else {
                self.reread(cs)
            },
            _ => pass_on_commits_step(st),
        }
    }

    /// Goes on after the step this run asked for gave `reply`.
    pub fn resume(&mut self, reply: FlowReply) -> (step: FlowStep<Result<(), String>>)
        ensures
            (final(self)@, unit_step(step)) == amend_next(old(self)@, reply@),
    {
        match self.phase {
            AmendPhase::ReadBefore | AmendPhase::ReadAfter => self.reading(reply),
            AmendPhase::AwaitSubject => match git_answer_exec(reply) {
                Err(e) => self.end(Err(e)),
                Ok(o) => {
                    self.original = o.stdout;
                    self.phase = AmendPhase::AwaitFixupCommit;
                    FlowStep::Git(git::commit_fixup(self.target.as_str()))
                },
            },
            AmendPhase::AwaitFixupCommit => match git_answer_exec(reply) {
                Err(e) => self.end(Err(e)),
                Ok(o) => if !o.success {
                    self.end(Err(fixup_commit_failure_text(o.stderr.as_str())))
                } else {
                    self.phase = AmendPhase::AwaitParent;
                    FlowStep::Git(git::get_commit_parent(self.target.as_str()))
                },
            },
            AmendPhase::AwaitParent => match git_answer_exec(reply) {
                Err(e) => self.end(Err(e)),
                Ok(o) => {
                    self.phase = AmendPhase::AwaitRebase;
                    if o.success {
                        let parent = trim(o.stdout.as_str());
                        FlowStep::Git(git::rebase_autosquash(Some(parent.as_str())))
                    } else {
                        FlowStep::Git(git::rebase_autosquash(None))
                    }
                },
            },
            AmendPhase::AwaitRebase => match git_answer_exec(reply) {
                Err(e) => self.end(Err(e)),
                Ok(o) => if !o.success {
                    self.phase = AmendPhase::AwaitAbort;
                    FlowStep::Git(git::rebase_abort())
                } else {
                    let a = trim(self.message.as_str());
                    let b = trim(self.original.as_str());
                    if !crate::text::str_equal(a.as_str(), b.as_str()) {
                        let (commits, step) = LocalCommitsRun::begin();
                        self.commits = commits;
                        self.phase = AmendPhase::ReadAfter;
                        pass_on_commits_step(step)
                    } else {
                        self.end(Ok(()))
                    }
                },
            },
            AmendPhase::AwaitAbort => match git_answer_exec(reply) {
                Err(e) => self.end(Err(e)),
                Ok(_) => self.end(Err(owned("git rebase for fixup failed. Aborting."))),
            },
            AmendPhase::Rewording => {
                let st = self.reword.resume(reply);
                match st {
                    FlowStep::Finished(r) => self.end(r),
                    _ => st,
                }
            },
            AmendPhase::Done => FlowStep::Finished(clone_outcome(&self.outcome)),
        }
    }
}

// ---------------------------------------------------------------------------
// Starting: everything is staged when nothing is staged yet
// ---------------------------------------------------------------------------

/// Which step the start waits for.
#[derive(Clone, Copy, Debug, PartialEq, Eq, Structural)]
pub enum StartPhase {
    /// `git diff --staged`, to see whether anything is staged.
    AwaitStaged,
    /// A step of staging everything.
    Staging,
    /// `git diff --staged` again, for the files to show.
    AwaitDiff,
    /// Over.
    Done,
}

/// The mathematical content of a [`StartRun`].
pub struct StartRunView {
    pub phase: StartPhase,
    pub repo: Seq<char>,
    pub staging: AddAllRunView,
    pub outcome: Result<Seq<FileDiffView>, Seq<char>>,
}

/// The view of a step whose outcome is the staged files or an error text.
pub open spec fn files_step(s: FlowStep<Result<Vec<FileDiff>, String>>) -> FlowStepView<Result<Seq<FileDiffView>, Seq<char>>> {
    match s {
        FlowStep::Git(r) => FlowStepView::Git(r@),
        FlowStep::WriteFile { path, text, executable } => FlowStepView::WriteFile { path: path@, text: text@, executable },
        FlowStep::RemoveFile { path } => FlowStepView::RemoveFile { path: path@ },
        FlowStep::FileSize { path } => FlowStepView::FileSize { path: path@ },
        FlowStep::Finished(Ok(v)) => FlowStepView::Finished(Ok(file_views(v@))),
        FlowStep::Finished(Err(e)) => FlowStepView::Finished(Err(e@)),
    }
}

/// A step of the staging that is not its end, as a step of the start.
pub open spec fn relayed(st: FlowStepView<Result<(), Seq<char>>>) -> FlowStepView<Result<Seq<FileDiffView>, Seq<char>>> {
    match st {
        FlowStepView::Git(r) => FlowStepView::Git(r),
        FlowStepView::WriteFile { path, text, executable } => FlowStepView::WriteFile { path, text, executable },
        FlowStepView::RemoveFile { path } => FlowStepView::RemoveFile { path },
        FlowStepView::FileSize { path } => FlowStepView::FileSize { path },
        FlowStepView::Finished(_) => FlowStepView::Finished(Ok(Seq::empty())),
    }
}

/// The start ends with `r`.
pub open spec fn start_end(s: StartRunView, r: Result<Seq<FileDiffView>, Seq<char>>)
    -> (StartRunView, FlowStepView<Result<Seq<FileDiffView>, Seq<char>>>) {
    (StartRunView { phase: StartPhase::Done, outcome: r, ..s }, FlowStepView::Finished(r))
}

/// The start asks for the staged diff to show.
pub open spec fn start_diff(s: StartRunView) -> (StartRunView, FlowStepView<Result<Seq<FileDiffView>, Seq<char>>>) {
    (StartRunView { phase: StartPhase::AwaitDiff, ..s }, FlowStepView::Git(git_call(seq!["diff"@, "--staged"@])))
}

/// The start goes on after the staging asked for `st`: its success leads
/// to the staged diff, its failure ends the start, any other step is asked
/// for in turn.
pub open spec fn start_staging(s: StartRunView, st: FlowStepView<Result<(), Seq<char>>>)
    -> (StartRunView, FlowStepView<Result<Seq<FileDiffView>, Seq<char>>>) {
    match st {
        FlowStepView::Finished(Ok(())) => start_diff(s),
        FlowStepView::Finished(Err(e)) => start_end(s, Err(e)),
        _ => (StartRunView { phase: StartPhase::Staging, ..s }, relayed(st)),
    }
}

/// The staging of everything as it starts in the repository `repo`.
pub open spec fn staging_start(repo: Seq<char>) -> AddAllRunView {
    AddAllRunView { phase: AddAllPhase::AwaitUpdate, repo, limit: crate::git::ADD_ALL_SIZE_LIMIT,
        names: Seq::empty(), outcome: Ok(()) }
}

/// How the start goes on after `reply`: git failing to start ends it with
/// that error; when `git diff --staged` printed nothing, everything is
/// staged (see [`add_all_next`]) before the staged diff is read; otherwise
/// the staged diff is read at once. The files of that diff end the start.
pub open spec fn start_next(s: StartRunView, reply: FlowReplyView)
    -> (StartRunView, FlowStepView<Result<Seq<FileDiffView>, Seq<char>>>) {
    match s.phase {
        StartPhase::AwaitStaged => match git_answer(reply) {
            Err(e) => start_end(s, Err(e)),
            Ok(o) => if o.stdout.len() == 0 {
                start_staging(StartRunView { staging: staging_start(s.repo), ..s },
                    FlowStepView::Git(git_call(seq!["add"@, "--update"@])))
            } else {
                start_diff(s)
            },
        },
        StartPhase::Staging => {
            let (inner, st) = add_all_next(s.staging, reply);
            start_staging(StartRunView { staging: inner, ..s }, st)
        },
        StartPhase::AwaitDiff => start_end(s, Ok(crate::git::diff_answer(match git_answer(reply) {
            Ok(o) => Some(o),
            Err(_) => None,
        }))),
        StartPhase::Done => (s, FlowStepView::Finished(s.outcome)),
    }
}

/// The start of the program in a repository: when nothing is staged,
/// everything is staged first; then the staged files are read.
#[derive(Debug)]
pub struct StartRun {
    phase: StartPhase,
    repo: String,
    staging: AddAllRun,
    outcome: Result<Vec<FileDiff>, String>,
}

impl View for StartRun {
    type V = StartRunView;

    closed spec fn view(&self) -> StartRunView {
        StartRunView {
            phase: self.phase,
            repo: self.repo@,
            staging: self.staging@,
            outcome: match self.outcome {
                Ok(v) => Ok(file_views(v@)),
                Err(e) => Err(e@),
            },
        }
    }
}

/// A copy of a list of files.
fn clone_files(v: &Vec<FileDiff>) -> (r: Vec<FileDiff>)
    ensures
        file_views(r@) == file_views(v@),
{
    let mut r: Vec<FileDiff> = Vec::new();
    let mut i: usize = 0;
    while i < v.len()
        invariant
            i <= v@.len(),
            r@.len() == i,
            forall|k: int| 0 <= k < i ==> #[trigger] r@[k]@ == v@[k]@,
        decreases v@.len() - i,
    {
        r.push(v[i].clone());
        i = i + 1;
    }
    assert(file_views(r@) =~= file_views(v@));
    r
}

/// Passes on a step of the staging that is not its end.
fn relay(st: FlowStep<Result<(), String>>) -> (r: FlowStep<Result<Vec<FileDiff>, String>>)
    requires
        !(st is Finished),
    ensures
        files_step(r) == relayed(unit_step(st)),
{
    match st {
        FlowStep::Git(r) => FlowStep::Git(r),
        FlowStep::WriteFile { path, text, executable } => FlowStep::WriteFile { path, text, executable },
        FlowStep::RemoveFile { path } => FlowStep::RemoveFile { path },
        FlowStep::FileSize { path } => FlowStep::FileSize { path },
        FlowStep::Finished(_) => FlowStep::Finished(Ok(Vec::new())),
    }
}

impl StartRun {
    /// Starts in the repository at `repo`: `git diff --staged`.
    pub fn begin(repo: &str) -> (r: (StartRun, FlowStep<Result<Vec<FileDiff>, String>>))
        ensures
            r.0@.phase == StartPhase::AwaitStaged,
            r.0@.repo == repo@,
            files_step(r.1) == FlowStepView::<Result<Seq<FileDiffView>, Seq<char>>>::Git(
                git_call(seq!["diff"@, "--staged"@])),
    {
        let (staging, _) = AddAllRun::begin(repo, crate::git::ADD_ALL_SIZE_LIMIT);
        let run = StartRun { phase: StartPhase::AwaitStaged, repo: owned(repo), staging, outcome: Ok(Vec::new()) };
        (run, FlowStep::Git(crate::git::get_staged_diff_output()))
    }

    /// Ends the start with `r`.
    fn end(&mut self, r: Result<Vec<FileDiff>, String>) -> (step: FlowStep<Result<Vec<FileDiff>, String>>)
        ensures
            (final(self)@, files_step(step)) == start_end(old(self)@, match r {
                Ok(v) => Ok(file_views(v@)),
                Err(e) => Err(e@),
            }),
    {
        self.phase = StartPhase::Done;
        self.outcome = match &r {
            Ok(v) => Ok(clone_files(v)),
            Err(e) => Err(owned(e.as_str())),
        };
        FlowStep::Finished(r)
    }

    /// Goes on after the staging asked for `st`.
    fn after_staging(&mut self, st: FlowStep<Result<(), String>>) -> (step: FlowStep<Result<Vec<FileDiff>, String>>)
        ensures
            (final(self)@, files_step(step)) == start_staging(old(self)@, unit_step(st)),
    {
        match st {
            FlowStep::Finished(Ok(())) => {
                self.phase = StartPhase::AwaitDiff;
                FlowStep::Git(crate::git::get_diff())
            },
            FlowStep::Finished(Err(e)) => self.end(Err(e)),
            other => {
                self.phase = StartPhase::Staging;
                relay(other)
            },
        }
    }

    /// Goes on after the step this run asked for gave `reply`.
    pub fn resume(&mut self, reply: FlowReply) -> (step: FlowStep<Result<Vec<FileDiff>, String>>)
        ensures
            (final(self)@, files_step(step)) == start_next(old(self)@, reply@),
    {
        match self.phase {
            StartPhase::AwaitStaged => match git_answer_exec(reply) {
                Err(e) => self.end(Err(e)),
                Ok(o) => if o.stdout.as_str().is_empty() {
                    let (staging, first) = AddAllRun::begin(self.repo.as_str(), crate::git::ADD_ALL_SIZE_LIMIT);
                    self.staging = staging;
                    self.after_staging(first)
                } else {
                    self.phase = StartPhase::AwaitDiff;
                    FlowStep::Git(crate::git::get_diff())
                },
            },
            StartPhase::Staging => {
                let st = self.staging.resume(reply);
                self.after_staging(st)
            },
            StartPhase::AwaitDiff => {
                let answer = match git_answer_exec(reply) {
                    Ok(o) => Some(o),
                    Err(_) => None,
                };
                let files = crate::git::parse_diff_reply(&answer);
                self.end(Ok(files))
            },
            StartPhase::Done => match &self.outcome {
                Ok(v) => FlowStep::Finished(Ok(clone_files(v))),
                Err(e) => FlowStep::Finished(Err(owned(e.as_str()))),
            },
        }
    }
}

/// Everything is staged when, and only when, nothing was staged: once the
/// first `git diff --staged` answered, the start goes on staging everything
/// (`git add --update` first) when git printed nothing, and reads the staged
/// diff at once when it printed anything.
pub proof fn lemma_stages_only_when_nothing_staged(s: StartRunView, o: GitOutputView)
    requires
        s.phase == StartPhase::AwaitStaged,
    ensures
        o.stdout.len() == 0 ==> start_next(s, FlowReplyView::Git(Ok(o))) == (
            StartRunView { phase: StartPhase::Staging, staging: staging_start(s.repo), ..s },
            FlowStepView::<Result<Seq<FileDiffView>, Seq<char>>>::Git(git_call(seq!["add"@, "--update"@]))),
        o.stdout.len() > 0 ==> start_next(s, FlowReplyView::Git(Ok(o))) == (
            StartRunView { phase: StartPhase::AwaitDiff, ..s },
            FlowStepView::<Result<Seq<FileDiffView>, Seq<char>>>::Git(git_call(seq!["diff"@, "--staged"@]))),
{
}

/// Staging everything passes over no untracked file for its size: once the
/// size of a listed file is known, that file is staged next.
pub proof fn lemma_add_all_stages_every_size(s: AddAllRunView, i: usize, size: u64)
    requires
        s.limit == crate::git::ADD_ALL_SIZE_LIMIT,
        s.phase == AddAllPhase::AwaitSize(i),
        i < s.names.len(),
    ensures
        add_all_next(s, FlowReplyView::Size(Ok(size))) == (
            AddAllRunView { phase: AddAllPhase::AwaitStage(i), ..s },
            FlowStepView::<Result<(), Seq<char>>>::Git(git_call(seq!["add"@, s.names[i as int]]))),
{
}

} // verus!
