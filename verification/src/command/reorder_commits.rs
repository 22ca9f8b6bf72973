//! Rewriting the local history in a new order, with fixups and new messages.
use crate::command::effect::{effect_views, Effect, EffectView, Observation, Probe, ProbeView};
use crate::git::{
    self, commit_views, git_call, reply_view, succeeded, CommitInfo, CommitView, GitOutput,
    GitOutputView, GitRequest, GitRequestView,
};
use crate::text::{
    chars_of, field, has_substring, lines, push_all, push_signed_decimal,
    signed_decimal, split_field, split_lines, str_contains, str_equal, string_from_chars, trim,
    trim_spaces, views,
};
use vstd::prelude::*;

verus! {

/// Whether two lists hold the same commits (hash, message and both marks).
pub fn commits_equal(a: &Vec<CommitInfo>, b: &Vec<CommitInfo>) -> (r: bool)
    ensures
        r == (commit_views(a@) == commit_views(b@)),
{
    if a.len() != b.len() {
        assert(commit_views(a@).len() != commit_views(b@).len());
        return false;
    }
    let mut i: usize = 0;
    while i < a.len()
        invariant
            a@.len() == b@.len(),
            i <= a@.len(),
            forall|k: int| 0 <= k < i ==> a@[k]@ == b@[k]@,
        decreases a@.len() - i,
    {
        let x = &a[i];
        let y = &b[i];
        if !(str_equal(x.hash.as_str(), y.hash.as_str()) && str_equal(x.message.as_str(), y.message.as_str())
            && x.is_on_remote == y.is_on_remote && x.is_fixup == y.is_fixup) {
            assert(commit_views(a@)[i as int] != commit_views(b@)[i as int]);
            return false;
        }
        i = i + 1;
    }
    assert(commit_views(a@) =~= commit_views(b@));
    true
}

/// Moves the local commits into a new order. `original_commits` and
/// `reordered_commits` list commits newest first; a commit marked as fixup is
/// folded into the one before it in time, and a changed message is applied.
#[derive(Debug)]
pub struct ReorderCommitsCommand {
    pub repo_path: String,
    pub original_commits: Vec<CommitInfo>,
    pub reordered_commits: Vec<CommitInfo>,
}

/// The history must be rewritten: there are at least two commits and the new
/// order differs from the old one.
pub open spec fn needs_rewrite(original: Seq<CommitView>, reordered: Seq<CommitView>) -> bool {
    original.len() >= 2 && original != reordered
}

/// `git reset --hard HEAD@{1}`, which moves the branch back to where it was.
pub open spec fn reset_to_previous_head() -> EffectView {
    EffectView::GitBestEffort(git_call(seq!["reset"@, "--hard"@, "HEAD@{1}"@]))
}

impl ReorderCommitsCommand {
    /// Creates the command.
    pub fn new(repo_path: String, original_commits: Vec<CommitInfo>, reordered_commits: Vec<CommitInfo>) -> (r: Self)
        ensures
            r.repo_path == repo_path,
            r.original_commits == original_commits,
            r.reordered_commits == reordered_commits,
    {
        Self { repo_path, original_commits, reordered_commits }
    }

    /// The probe that running needs.
    pub open spec fn execute_probe(&self) -> ProbeView {
        if needs_rewrite(commit_views(self.original_commits@), commit_views(self.reordered_commits@)) {
                ProbeView::Reorder
            } else {
                ProbeView::Nothing
            }
    }

    /// The probe that undoing needs.
    pub open spec fn undo_probe(&self) -> ProbeView {
        ProbeView::Nothing
    }

    /// Running with `observed` found out hands back `r`.
    pub open spec fn executes_to(&self, observed: Observation, r: Option<Vec<Effect>>) -> bool {
        &&& (r is Some <==> (self.original_commits@.len() >= 2 && (
                commit_views(self.original_commits@) == commit_views(self.reordered_commits@)
                || observed == Observation::Reorder(true))))
        &&& (r matches Some(v) ==> v@.len() == 0)
    }

    /// Undoing with `observed` found out hands back `r`.
    pub open spec fn undoes_to(&self, observed: Observation, r: Vec<Effect>) -> bool {
        effect_views(r@) == seq![reset_to_previous_head()]
    }

    /// When the history must be rewritten, the caller first runs the rewrite
    /// (see `ReorderRun`) and reports whether it succeeded.
    pub fn probe_execute(&self) -> (p: Probe)
        ensures
            p@ == self.execute_probe(),
    {
        if self.original_commits.len() >= 2 && !commits_equal(&self.original_commits, &self.reordered_commits) {
            Probe::Reorder
        } else {
            Probe::Nothing
        }
    }

    /// Refuses with fewer than two commits; succeeds with nothing to do when
    /// the order is unchanged; else succeeds exactly when the rewrite did.
    pub fn execute(&mut self, observed: &Observation) -> (r: Option<Vec<Effect>>)
        ensures
            *final(self) == *old(self),
            old(self).executes_to(*observed, r),
    {
        if self.original_commits.len() < 2 {
            return None;
        }
        if commits_equal(&self.original_commits, &self.reordered_commits) {
            return Some(Vec::new());
        }
        match observed {
            Observation::Reorder(true) => Some(Vec::new()),
            _ => None,
        }
    }

    /// Nothing needs to be found out before undoing.
    pub fn probe_undo(&self) -> (p: Probe)
        ensures
            p@ == self.undo_probe(),
    {
        Probe::Nothing
    }

    /// Moves the branch back to where it was before the rewrite.
    pub fn undo(&mut self, observed: &Observation) -> (r: Vec<Effect>)
        ensures
            *final(self) == *old(self),
            old(self).undoes_to(*observed, r),
    {
        let mut v: Vec<Effect> = Vec::new();
        v.push(Effect::GitBestEffort(git::reset_hard("HEAD@{1}")));
        assert(effect_views(v@) =~= seq![reset_to_previous_head()]);
        v
    }
}


// ---------------------------------------------------------------------------
// Rewriting the history: the plan
// ---------------------------------------------------------------------------

/// The commits oldest first (lists hold them newest first).
pub open spec fn chrono(v: Seq<CommitView>) -> Seq<CommitView> {
    Seq::new(v.len(), |i: int| v[v.len() - 1 - i])
}

/// From position `i` on, the first position where `a` and `b` differ or one
/// of them ends.
pub open spec fn diverge_from(a: Seq<CommitView>, b: Seq<CommitView>, i: int) -> int
    decreases a.len() - i,
{
    if 0 <= i < a.len() && i < b.len() && a[i] == b[i] {
        diverge_from(a, b, i + 1)
    } else {
        i
    }
}

/// How many of the oldest commits the two orders share.
pub open spec fn shared_len(original: Seq<CommitView>, reordered: Seq<CommitView>) -> int {
    diverge_from(chrono(original), chrono(reordered), 0)
}

/// The newest commit that both orders share: the rebuilt history starts there,
/// or from nothing when they share none.
pub open spec fn plan_base(original: Seq<CommitView>, reordered: Seq<CommitView>) -> Option<Seq<char>> {
    let k = shared_len(original, reordered);
    if k == 0 {
        None
    } else {
        Some(chrono(original)[k - 1].hash)
    }
}

/// The commits to replay, oldest first: the new order after the shared ones.
pub open spec fn plan_picks(original: Seq<CommitView>, reordered: Seq<CommitView>) -> Seq<CommitView> {
    chrono(reordered).skip(shared_len(original, reordered))
}

/// `diverge_from` stops at a difference or at the end of a list, and the two
/// lists agree on every position before it.
pub proof fn lemma_diverge_from(a: Seq<CommitView>, b: Seq<CommitView>, i: int)
    requires
        0 <= i <= a.len(),
        i <= b.len(),
    ensures
        i <= diverge_from(a, b, i) <= a.len(),
        diverge_from(a, b, i) <= b.len(),
        forall|k: int| i <= k < diverge_from(a, b, i) ==> a[k] == b[k],
        diverge_from(a, b, i) < a.len() && diverge_from(a, b, i) < b.len()
            ==> a[diverge_from(a, b, i)] != b[diverge_from(a, b, i)],
    decreases a.len() - i,
{
    if i < a.len() && i < b.len() && a[i] == b[i] {
        lemma_diverge_from(a, b, i + 1);
    }
}

/// The two orders agree on their `shared_len` oldest commits and on no more:
/// replaying the planned picks on top of the base gives the new order.
pub proof fn lemma_plan_rebuilds_order(original: Seq<CommitView>, reordered: Seq<CommitView>)
    ensures
        0 <= shared_len(original, reordered) <= original.len(),
        shared_len(original, reordered) <= reordered.len(),
        chrono(reordered).take(shared_len(original, reordered))
            == chrono(original).take(shared_len(original, reordered)),
        chrono(reordered) == chrono(original).take(shared_len(original, reordered))
            + plan_picks(original, reordered),
        plan_base(original, reordered) is None <==> shared_len(original, reordered) == 0,
{
    let a = chrono(original);
    let b = chrono(reordered);
    lemma_diverge_from(a, b, 0);
    let k = shared_len(original, reordered);
    assert(b.take(k) =~= a.take(k));
    assert(b =~= a.take(k) + b.skip(k));
}

/// The first commit of `v` from position `from` on with this hash.
pub open spec fn first_with_hash(v: Seq<CommitView>, hash: Seq<char>, from: int) -> Option<CommitView>
    decreases v.len() - from,
{
    if from < 0 || from >= v.len() {
        None
    } else if v[from].hash == hash {
        Some(v[from])
    } else {
        first_with_hash(v, hash, from + 1)
    }
}

/// The replayed commit `c` carries a message other than the one it had.
pub open spec fn needs_new_message(original: Seq<CommitView>, c: CommitView) -> bool {
    match first_with_hash(original, c.hash, 0) {
        Some(o) => o.message != c.message,
        None => false,
    }
}

/// The note git prints when there was nothing to stash.
pub open spec fn nothing_stashed_note() -> Seq<char> {
    "No local changes to save"@
}

/// The message of the stash a reorder makes.
pub open spec fn stash_message() -> Seq<char> {
    "git-branchless-reorder-stash"@
}

/// The first of `ls` from position `from` on that contains `pattern`.
pub open spec fn first_line_with(ls: Seq<Seq<char>>, pattern: Seq<char>, from: int) -> Option<Seq<char>>
    decreases ls.len() - from,
{
    if from < 0 || from >= ls.len() {
        None
    } else if has_substring(ls[from], pattern) {
        Some(ls[from])
    } else {
        first_line_with(ls, pattern, from + 1)
    }
}

/// The name of the reorder's stash in the output of `git stash list`: what
/// comes before the first `':'` of the first line that mentions it.
pub open spec fn stash_ref(stash_list: Seq<char>) -> Option<Seq<char>> {
    match first_line_with(lines(stash_list), stash_message(), 0) {
        Some(line) => field(line, ':', 0),
        None => None,
    }
}

/// The name of the temporary branch for a run started at this time.
pub open spec fn temp_branch_name(timestamp: i64) -> Seq<char> {
    "reorder-temp-"@ + signed_decimal(timestamp as int)
}

// ---------------------------------------------------------------------------
// Rewriting the history: the run
// ---------------------------------------------------------------------------

/// Which run of git a reorder waits for.
#[derive(Clone, Copy, Debug, PartialEq, Eq, Structural)]
pub enum ReorderPhase {
    /// The name of the current branch.
    AwaitBranch,
    /// The stash of local changes.
    AwaitStash,
    /// The temporary branch, created at the base.
    AwaitCreateBranch,
    /// The switch to the temporary branch.
    AwaitCheckoutTemp,
    /// The deletion of the temporary branch after that switch failed.
    AwaitDeleteFailedTemp,
    /// The temporary branch without history, when no commit is shared.
    AwaitOrphan,
    /// The emptying of that branch's index and work tree.
    AwaitClearOrphan,
    /// The replay of the planned commit at this position.
    AwaitPick(usize),
    /// The changes of the fixup at this position, applied without a commit.
    AwaitPickNoCommit(usize),
    /// Those changes folded into the previous commit.
    AwaitAmendFixup(usize),
    /// The new message of the planned commit at this position.
    AwaitReword(usize),
    /// Rolling back: the cherry-pick in progress abandoned.
    AwaitAbortPick,
    /// Rolling back: the switch back to the original branch.
    AwaitRollbackCheckout,
    /// Rolling back: the deletion of the temporary branch.
    AwaitRollbackDelete,
    /// The switch back to the original branch once the history is rebuilt.
    AwaitReturn,
    /// The original branch moved onto the rebuilt history.
    AwaitReset,
    /// The deletion of the temporary branch.
    AwaitDeleteTemp,
    /// The list of stashes; the run then ends with the outcome.
    AwaitStashList(bool),
    /// The stash put back; the run then ends with the outcome.
    AwaitStashPop(bool),
    /// Over, with the outcome.
    Done(bool),
}

/// What a reorder asks for next: a run of git, or nothing more with the
/// outcome.
#[derive(Debug)]
pub enum ReorderStep {
    Run(GitRequest),
    Finished(bool),
}

/// The mathematical content of a [`ReorderStep`].
pub enum ReorderStepView {
    Run(GitRequestView),
    Finished(bool),
}

impl View for ReorderStep {
    type V = ReorderStepView;

    open spec fn view(&self) -> ReorderStepView {
        match self {
            ReorderStep::Run(r) => ReorderStepView::Run(r@),
            ReorderStep::Finished(b) => ReorderStepView::Finished(*b),
        }
    }
}

/// The mathematical content of a [`ReorderRun`].
pub struct ReorderRunView {
    pub original: Seq<CommitView>,
    pub reordered: Seq<CommitView>,
    pub temp_branch: Seq<char>,
    pub base: Option<Seq<char>>,
    pub to_pick: Seq<CommitView>,
    pub original_branch: Seq<char>,
    pub stashed: bool,
    pub phase: ReorderPhase,
}

/// A pick phase names a planned commit.
pub open spec fn reorder_wf(s: ReorderRunView) -> bool {
    s.to_pick.len() <= usize::MAX && match s.phase {
        ReorderPhase::AwaitPick(i) => i < s.to_pick.len(),
        ReorderPhase::AwaitPickNoCommit(i) => i < s.to_pick.len(),
        ReorderPhase::AwaitAmendFixup(i) => i < s.to_pick.len(),
        ReorderPhase::AwaitReword(i) => i < s.to_pick.len(),
        _ => true,
    }
}

/// The run in another phase.
pub open spec fn with_phase(s: ReorderRunView, phase: ReorderPhase) -> ReorderRunView {
    ReorderRunView { phase, ..s }
}

/// The run stops with `outcome`.
pub open spec fn stop(s: ReorderRunView, outcome: bool) -> (ReorderRunView, ReorderStepView) {
    (with_phase(s, ReorderPhase::Done(outcome)), ReorderStepView::Finished(outcome))
}

/// Ending with `outcome`: the stash, if one was made, is first looked up to be
/// put back.
pub open spec fn finish_spec(s: ReorderRunView, outcome: bool) -> (ReorderRunView, ReorderStepView) {
    if s.stashed {
        (with_phase(s, ReorderPhase::AwaitStashList(outcome)),
            ReorderStepView::Run(git_call(seq!["stash"@, "list"@])))
    } else {
        stop(s, outcome)
    }
}

/// Replaying the planned commit at position `i` (a fixup's changes without a
/// commit), or, past the last one, switching back to the original branch.
pub open spec fn pick_spec(s: ReorderRunView, i: int) -> (ReorderRunView, ReorderStepView) {
    if 0 <= i < s.to_pick.len() {
        let c = s.to_pick[i];
        if c.is_fixup {
            (with_phase(s, ReorderPhase::AwaitPickNoCommit(i as usize)),
                ReorderStepView::Run(git_call(seq!["cherry-pick"@, "--no-commit"@, c.hash])))
        } else {
            (with_phase(s, ReorderPhase::AwaitPick(i as usize)),
                ReorderStepView::Run(git_call(seq!["cherry-pick"@, "--allow-empty"@, c.hash])))
        }
    } else {
        (with_phase(s, ReorderPhase::AwaitReturn),
            ReorderStepView::Run(git_call(seq!["checkout"@, s.original_branch])))
    }
}

/// After the commit at position `i` was replayed: its new message if it has
/// one, else the next commit.
pub open spec fn after_pick_spec(s: ReorderRunView, i: int) -> (ReorderRunView, ReorderStepView) {
    let c = s.to_pick[i];
    if needs_new_message(s.original, c) {
        (with_phase(s, ReorderPhase::AwaitReword(i as usize)),
            ReorderStepView::Run(git_call(seq!["commit"@, "--amend"@, "--allow-empty"@, "-m"@, c.message])))
    } else {
        pick_spec(s, i + 1)
    }
}

/// A replay failed: abandon the cherry-pick, go back to the original branch,
/// delete the temporary one and end with failure.
pub open spec fn rollback_spec(s: ReorderRunView) -> (ReorderRunView, ReorderStepView) {
    (with_phase(s, ReorderPhase::AwaitAbortPick),
        ReorderStepView::Run(git_call(seq!["cherry-pick"@, "--abort"@])))
}

/// How the run goes on after the git run it waited for gave `reply`
/// (`None`: git could not be started).
pub open spec fn reorder_next(s: ReorderRunView, reply: Option<GitOutputView>) -> (ReorderRunView, ReorderStepView) {
    match s.phase {
        ReorderPhase::AwaitBranch => {
            if succeeded(reply) {
                (ReorderRunView { phase: ReorderPhase::AwaitStash, original_branch: trim_spaces(reply->0.stdout), ..s },
                    ReorderStepView::Run(git_call(seq!["stash"@, "push"@, "-u"@, "-m"@, stash_message()])))
            } else {
                stop(s, false)
            }
        },
        ReorderPhase::AwaitStash => {
            match reply {
                None => stop(s, false),
                Some(o) => {
                    let s2 = ReorderRunView { stashed: !has_substring(o.stdout, nothing_stashed_note()), ..s };
                    match s.base {
                        Some(h) => (with_phase(s2, ReorderPhase::AwaitCreateBranch),
                            ReorderStepView::Run(git_call(seq!["branch"@, s.temp_branch, h]))),
                        None => (with_phase(s2, ReorderPhase::AwaitOrphan),
                            ReorderStepView::Run(git_call(seq!["checkout"@, "--orphan"@, s.temp_branch]))),
                    }
                },
            }
        },
        ReorderPhase::AwaitCreateBranch => {
            if succeeded(reply) {
                (with_phase(s, ReorderPhase::AwaitCheckoutTemp),
                    ReorderStepView::Run(git_call(seq!["checkout"@, s.temp_branch])))
            } else {
                finish_spec(s, false)
            }
        },
        ReorderPhase::AwaitCheckoutTemp => {
            if succeeded(reply) {
                pick_spec(s, 0)
            } else {
                (with_phase(s, ReorderPhase::AwaitDeleteFailedTemp),
                    ReorderStepView::Run(git_call(seq!["branch"@, "-D"@, s.temp_branch])))
            }
        },
        ReorderPhase::AwaitDeleteFailedTemp => finish_spec(s, false),
        ReorderPhase::AwaitOrphan => {
            if succeeded(reply) {
                (with_phase(s, ReorderPhase::AwaitClearOrphan),
                    ReorderStepView::Run(git_call(seq!["rm"@, "-rf"@, "."@])))
            } else {
                finish_spec(s, false)
            }
        },
        ReorderPhase::AwaitClearOrphan => {
            if reply is Some {
                pick_spec(s, 0)
            } else {
                finish_spec(s, false)
            }
        },
        ReorderPhase::AwaitPick(i) => {
            if succeeded(reply) { after_pick_spec(s, i as int) } else { rollback_spec(s) }
        },
        ReorderPhase::AwaitPickNoCommit(i) => {
            if succeeded(reply) {
                (with_phase(s, ReorderPhase::AwaitAmendFixup(i)),
                    ReorderStepView::Run(git_call(seq!["commit"@, "--amend"@, "--no-edit"@, "--allow-empty"@])))
            } else {
                rollback_spec(s)
            }
        },
        ReorderPhase::AwaitAmendFixup(i) => {
            if succeeded(reply) { after_pick_spec(s, i as int) } else { rollback_spec(s) }
        },
        ReorderPhase::AwaitReword(i) => {
            if succeeded(reply) { pick_spec(s, i + 1) } else { rollback_spec(s) }
        },
        ReorderPhase::AwaitAbortPick => (with_phase(s, ReorderPhase::AwaitRollbackCheckout),
            ReorderStepView::Run(git_call(seq!["checkout"@, s.original_branch]))),
        ReorderPhase::AwaitRollbackCheckout => (with_phase(s, ReorderPhase::AwaitRollbackDelete),
            ReorderStepView::Run(git_call(seq!["branch"@, "-D"@, s.temp_branch]))),
        ReorderPhase::AwaitRollbackDelete => finish_spec(s, false),
        ReorderPhase::AwaitReturn => {
            if succeeded(reply) {
                (with_phase(s, ReorderPhase::AwaitReset),
                    ReorderStepView::Run(git_call(seq!["reset"@, "--hard"@, s.temp_branch])))
            } else {
                stop(s, false)
            }
        },
        ReorderPhase::AwaitReset => {
            if succeeded(reply) {
                (with_phase(s, ReorderPhase::AwaitDeleteTemp),
                    ReorderStepView::Run(git_call(seq!["branch"@, "-D"@, s.temp_branch])))
            } else {
                stop(s, false)
            }
        },
        ReorderPhase::AwaitDeleteTemp => finish_spec(s, true),
        ReorderPhase::AwaitStashList(outcome) => {
            match reply {
                Some(o) => match stash_ref(o.stdout) {
                    Some(name) => (with_phase(s, ReorderPhase::AwaitStashPop(outcome)),
                        ReorderStepView::Run(git_call(seq!["stash"@, "pop"@, name]))),
                    None => stop(s, outcome),
                },
                None => stop(s, outcome),
            }
        },
        ReorderPhase::AwaitStashPop(outcome) => stop(s, outcome),
        ReorderPhase::Done(outcome) => (s, ReorderStepView::Finished(outcome)),
    }
}

/// How the run starts: with fewer than two commits it fails at once, with an
/// unchanged order it succeeds at once, else it asks for the current branch.
pub open spec fn reorder_begin(original: Seq<CommitView>, reordered: Seq<CommitView>, timestamp: i64)
    -> (ReorderRunView, ReorderStepView)
{
    let s = ReorderRunView {
        original,
        reordered,
        temp_branch: temp_branch_name(timestamp),
        base: plan_base(original, reordered),
        to_pick: plan_picks(original, reordered),
        original_branch: Seq::empty(),
        stashed: false,
        phase: ReorderPhase::AwaitBranch,
    };
    if original.len() < 2 {
        stop(s, false)
    } else if original == reordered {
        stop(s, true)
    } else {
        (s, ReorderStepView::Run(git_call(seq!["rev-parse"@, "--abbrev-ref"@, "HEAD"@])))
    }
}

/// An upper bound on the runs of git still to come.
pub open spec fn reorder_measure(s: ReorderRunView) -> nat {
    let p = s.to_pick.len() as int;
    let m: int = match s.phase {
        ReorderPhase::AwaitBranch => 4 * p + 12,
        ReorderPhase::AwaitStash => 4 * p + 11,
        ReorderPhase::AwaitCreateBranch => 4 * p + 10,
        ReorderPhase::AwaitOrphan => 4 * p + 10,
        ReorderPhase::AwaitCheckoutTemp => 4 * p + 9,
        ReorderPhase::AwaitClearOrphan => 4 * p + 9,
        ReorderPhase::AwaitPickNoCommit(i) => 4 * (p - i) + 8,
        ReorderPhase::AwaitAmendFixup(i) => 4 * (p - i) + 7,
        ReorderPhase::AwaitPick(i) => 4 * (p - i) + 7,
        ReorderPhase::AwaitReword(i) => 4 * (p - i) + 6,
        ReorderPhase::AwaitAbortPick => 5,
        ReorderPhase::AwaitReturn => 5,
        ReorderPhase::AwaitRollbackCheckout => 4,
        ReorderPhase::AwaitReset => 4,
        ReorderPhase::AwaitRollbackDelete => 3,
        ReorderPhase::AwaitDeleteFailedTemp => 3,
        ReorderPhase::AwaitDeleteTemp => 3,
        ReorderPhase::AwaitStashList(_) => 2,
        ReorderPhase::AwaitStashPop(_) => 1,
        ReorderPhase::Done(_) => 0,
    };
    if m < 0 { 0 } else { m as nat }
}

/// A reorder run always ends: every step either finishes it, leaving it
/// over, or asks for one more run of git and brings it strictly closer to its
/// end. From the start, a run with `p` commits to replay makes at most
/// `4 * p + 12` runs of git.
pub proof fn lemma_reorder_progress(s: ReorderRunView, reply: Option<GitOutputView>)
    requires
        reorder_wf(s),
    ensures
        reorder_wf(reorder_next(s, reply).0),
        reorder_next(s, reply).1 is Run ==> reorder_measure(reorder_next(s, reply).0) < reorder_measure(s),
        reorder_next(s, reply).1 is Finished ==> reorder_next(s, reply).0.phase is Done,
        reorder_next(s, reply).0.to_pick == s.to_pick,
{
    match s.phase {
        ReorderPhase::AwaitPick(i) => {
            assert(reorder_measure(pick_spec(s, i + 1).0) < reorder_measure(s));
        },
        ReorderPhase::AwaitAmendFixup(i) => {
            assert(reorder_measure(pick_spec(s, i + 1).0) < reorder_measure(s));
        },
        ReorderPhase::AwaitReword(i) => {
            assert(reorder_measure(pick_spec(s, i + 1).0) < reorder_measure(s));
        },
        _ => {},
    }
}


/// Whether two commits agree on hash, message and both marks.
fn commit_eq(a: &CommitInfo, b: &CommitInfo) -> (r: bool)
    ensures
        r == (a@ == b@),
{
    str_equal(a.hash.as_str(), b.hash.as_str()) && str_equal(a.message.as_str(), b.message.as_str())
        && a.is_on_remote == b.is_on_remote && a.is_fixup == b.is_fixup
}

/// The position of the first commit of `v` with this hash.
fn find_hash(v: &Vec<CommitInfo>, hash: &str) -> (r: Option<usize>)
    ensures
        match r {
            Some(k) => k < v@.len() && first_with_hash(commit_views(v@), hash@, 0) == Some(v@[k as int]@),
            None => first_with_hash(commit_views(v@), hash@, 0) is None,
        },
{
    let ghost cv = commit_views(v@);
    let mut i: usize = 0;
    while i < v.len()
        invariant
            i <= v@.len(),
            cv == commit_views(v@),
            first_with_hash(cv, hash@, i as int) == first_with_hash(cv, hash@, 0),
        decreases v@.len() - i,
    {
        if str_equal(v[i].hash.as_str(), hash) {
            return Some(i);
        }
        i = i + 1;
    }
    None
}

/// The name of the reorder's stash in the output of `git stash list`.
fn find_stash_ref(stash_list: &str) -> (r: Option<String>)
    ensures
        match r {
            Some(x) => stash_ref(stash_list@) == Some(x@),
            None => stash_ref(stash_list@) is None,
        },
{
    let ls = split_lines(stash_list);
    let mut i: usize = 0;
    while i < ls.len()
        invariant
            i <= ls@.len(),
            views(ls@) == lines(stash_list@),
            first_line_with(lines(stash_list@), stash_message(), i as int)
                == first_line_with(lines(stash_list@), stash_message(), 0),
        decreases ls@.len() - i,
    {
        assert(views(ls@)[i as int] == ls@[i as int]@);
        if str_contains(ls[i].as_str(), "git-branchless-reorder-stash") {
            let chars = chars_of(ls[i].as_str());
            return match split_field(&chars, ':', 0) {
                Some(name) => Some(string_from_chars(&name)),
                None => None,
            };
        }
        i = i + 1;
    }
    None
}

/// Calls `chrono::Utc::now().timestamp()`: the seconds since the Unix epoch
/// on this machine's clock. Nothing is claimed of the value.
#[verifier::external_body]
fn unix_timestamp() -> (t: i64) {
    chrono::Utc::now().timestamp()
}

/// A rewrite of the local history into a new order, one run of git at a
/// time: the caller performs each requested run in the repository and hands
/// what came back to [`ReorderRun::resume`], until the run is finished.
///
/// The commits both orders share at the old end of the history stay; the
/// others are replayed in the new order on a temporary branch (a fixup's
/// changes are folded into the commit before it, a changed message is
/// applied), and the original branch is then moved onto that branch. Local
/// changes are stashed for the time of the rewrite; when a replay fails,
/// everything is rolled back.
#[derive(Debug)]
pub struct ReorderRun {
    original_commits: Vec<CommitInfo>,
    reordered_commits: Vec<CommitInfo>,
    temp_branch: String,
    base: Option<String>,
    to_pick: Vec<CommitInfo>,
    original_branch: String,
    stashed: bool,
    phase: ReorderPhase,
}

impl View for ReorderRun {
    type V = ReorderRunView;

    closed spec fn view(&self) -> ReorderRunView {
        ReorderRunView {
            original: commit_views(self.original_commits@),
            reordered: commit_views(self.reordered_commits@),
            temp_branch: self.temp_branch@,
            base: match self.base {
                Some(b) => Some(b@),
                None => None,
            },
            to_pick: commit_views(self.to_pick@),
            original_branch: self.original_branch@,
            stashed: self.stashed,
            phase: self.phase,
        }
    }
}

impl ReorderRun {
    #[verifier::type_invariant]
    spec fn inv(&self) -> bool {
        reorder_wf(self@)
    }

    /// Starts a run that names its temporary branch after `timestamp`.
    pub fn begin_at(original_commits: Vec<CommitInfo>, reordered_commits: Vec<CommitInfo>, timestamp: i64)
        -> (r: (ReorderRun, ReorderStep))
        ensures
            (r.0@, r.1@) == reorder_begin(commit_views(original_commits@), commit_views(reordered_commits@), timestamp),
    {
        let ghost ov = commit_views(original_commits@);
        let ghost rv = commit_views(reordered_commits@);
        let mut temp_branch = git::owned("reorder-temp-");
        push_signed_decimal(&mut temp_branch, timestamp);

        let n: usize = original_commits.len();
        let m: usize = reordered_commits.len();
        let mut k: usize = 0;
        proof {
            lemma_diverge_from(chrono(ov), chrono(rv), 0);
        }
        while k < n && k < m && commit_eq(&original_commits[n - 1 - k], &reordered_commits[m - 1 - k])
            invariant
                n == original_commits@.len(),
                m == reordered_commits@.len(),
                ov == commit_views(original_commits@),
                rv == commit_views(reordered_commits@),
                k <= n,
                k <= m,
                diverge_from(chrono(ov), chrono(rv), k as int) == diverge_from(chrono(ov), chrono(rv), 0),
            decreases n - k,
        {
            assert(chrono(ov)[k as int] == ov[n - 1 - k]);
            assert(chrono(rv)[k as int] == rv[m - 1 - k]);
            k = k + 1;
        }
        assert(k as int == shared_len(ov, rv)) by {
            if k < n && k < m {
                assert(chrono(ov)[k as int] == ov[n - 1 - k]);
                assert(chrono(rv)[k as int] == rv[m - 1 - k]);
            }
        }
        let base: Option<String> = if k == 0 {
            None
        } else {
            assert(chrono(ov)[k - 1] == ov[n - k]);
            Some(original_commits[n - k].hash.clone())
        };
        let mut to_pick: Vec<CommitInfo> = Vec::new();
        let mut j: usize = k;
        while j < m
            invariant
                m == reordered_commits@.len(),
                rv == commit_views(reordered_commits@),
                k <= j <= m,
                commit_views(to_pick@) == chrono(rv).subrange(k as int, j as int),
            decreases m - j,
        {
            let c = reordered_commits[m - 1 - j].clone();
            let ghost before = to_pick@;
            to_pick.push(c);
            assert(commit_views(to_pick@) =~= commit_views(before).push(c@));
            assert(chrono(rv).subrange(k as int, j + 1) =~= chrono(rv).subrange(k as int, j as int).push(chrono(rv)[j as int]));
            j = j + 1;
        }
        assert(chrono(rv).subrange(k as int, m as int) =~= chrono(rv).skip(k as int));
        let p: usize = to_pick.len();
        let phase = if n < 2 {
            ReorderPhase::Done(false)
        } else if commits_equal(&original_commits, &reordered_commits) {
            ReorderPhase::Done(true)
        } else {
            ReorderPhase::AwaitBranch
        };
        let step = if n < 2 {
            ReorderStep::Finished(false)
        } else if phase == ReorderPhase::Done(true) {
            ReorderStep::Finished(true)
        } else {
            ReorderStep::Run(git::get_current_branch_name())
        };
        let run = ReorderRun {
            original_commits,
            reordered_commits,
            temp_branch,
            base,
            to_pick,
            original_branch: String::new(),
            stashed: false,
            phase,
        };
        proof {
            reveal_strlit("reorder-temp-");
        }
        (run, step)
    }

    /// Starts a run whose temporary branch is named after the current time.
    pub fn begin(original_commits: Vec<CommitInfo>, reordered_commits: Vec<CommitInfo>) -> (r: (ReorderRun, ReorderStep))
        ensures
            exists|t: i64| (r.0@, r.1@) == reorder_begin(commit_views(original_commits@), commit_views(reordered_commits@), t),
    {
        let t = unix_timestamp();
        let r = Self::begin_at(original_commits, reordered_commits, t);
        assert((r.0@, r.1@) == reorder_begin(commit_views(original_commits@), commit_views(reordered_commits@), t));
        r
    }

    /// Which run of git this run waits for, or that it is over.
    pub fn phase(&self) -> (p: ReorderPhase)
        ensures
            p == self@.phase,
    {
        self.phase
    }

    /// Ends the run with `outcome`.
    fn end_with(&mut self, outcome: bool) -> (step: ReorderStep)
        ensures
            (final(self)@, step@) == stop(old(self)@, outcome),
    {
        proof {
            use_type_invariant(&*self);
        }
        self.phase = ReorderPhase::Done(outcome);
        ReorderStep::Finished(outcome)
    }

    /// Ends the run with `outcome`, first putting the stash back if one was made.
    fn finish(&mut self, outcome: bool) -> (step: ReorderStep)
        ensures
            (final(self)@, step@) == finish_spec(old(self)@, outcome),
    {
        proof {
            use_type_invariant(&*self);
        }
        if self.stashed {
            self.phase = ReorderPhase::AwaitStashList(outcome);
            ReorderStep::Run(git::pop_stash())
        } else {
            self.end_with(outcome)
        }
    }

    /// Replays the planned commit at position `i`, or switches back to the
    /// original branch past the last one.
    fn pick(&mut self, i: usize) -> (step: ReorderStep)
        ensures
            (final(self)@, step@) == pick_spec(old(self)@, i as int),
    {
        proof {
            use_type_invariant(&*self);
        }
        if i < self.to_pick.len() {
            let ghost c = self.to_pick@[i as int];
            assert(commit_views(self.to_pick@)[i as int] == c@);
            if self.to_pick[i].is_fixup {
                let req = git::cherry_pick_no_commit(self.to_pick[i].hash.as_str());
                self.phase = ReorderPhase::AwaitPickNoCommit(i);
                ReorderStep::Run(req)
            } else {
                let req = git::cherry_pick(self.to_pick[i].hash.as_str());
                self.phase = ReorderPhase::AwaitPick(i);
                ReorderStep::Run(req)
            }
        } else {
            let req = git::checkout_branch(self.original_branch.as_str());
            self.phase = ReorderPhase::AwaitReturn;
            ReorderStep::Run(req)
        }
    }

    /// After the commit at position `i` was replayed: gives it its new
    /// message if it has one, else goes on with the next.
    fn after_pick(&mut self, i: usize) -> (step: ReorderStep)
        requires
            i < old(self)@.to_pick.len(),
        ensures
            (final(self)@, step@) == after_pick_spec(old(self)@, i as int),
    {
        proof {
            use_type_invariant(&*self);
        }
        let ghost c = self.to_pick@[i as int];
        assert(commit_views(self.to_pick@)[i as int] == c@);
        let reword = match find_hash(&self.original_commits, self.to_pick[i].hash.as_str()) {
            Some(k) => !str_equal(self.original_commits[k].message.as_str(), self.to_pick[i].message.as_str()),
            None => false,
        };
        if reword {
            let req = git::commit_amend_with_message(self.to_pick[i].message.as_str());
            self.phase = ReorderPhase::AwaitReword(i);
            ReorderStep::Run(req)
        } else {
            self.pick(i + 1)
        }
    }

    /// A replay failed: starts the rollback.
    fn rollback(&mut self) -> (step: ReorderStep)
        ensures
            (final(self)@, step@) == rollback_spec(old(self)@),
    {
        proof {
            use_type_invariant(&*self);
        }
        self.phase = ReorderPhase::AwaitAbortPick;
        ReorderStep::Run(git::cherry_pick_abort())
    }

    /// Goes on after the run of git that this run waited for gave `reply`
    /// (`None`: git could not be started), and says what comes next.
    pub fn resume(&mut self, reply: Option<GitOutput>) -> (step: ReorderStep)
        ensures
            (final(self)@, step@) == reorder_next(old(self)@, reply_view(reply)),
    {
        proof {
            use_type_invariant(&*self);
        }
        let ok = match &reply {
            Some(o) => o.success,
            None => false,
        };
        match self.phase {
            ReorderPhase::AwaitBranch => {
                if ok {
                    let branch = match &reply {
                        Some(o) => trim(o.stdout.as_str()),
                        None => String::new(),
                    };
                    self.original_branch = branch;
                    self.phase = ReorderPhase::AwaitStash;
                    ReorderStep::Run(git::stash_unstaged_changes())
                } else {
                    self.end_with(false)
                }
            },
            ReorderPhase::AwaitStash => {
                match &reply {
                    None => self.end_with(false),
                    Some(o) => {
                        self.stashed = !str_contains(o.stdout.as_str(), "No local changes to save");
                        let req = match &self.base {
                            Some(h) => git::create_branch_at(self.temp_branch.as_str(), h.as_str()),
                            None => git::checkout_orphan_branch(self.temp_branch.as_str()),
                        };
                        self.phase = if self.base.is_some() {
                            ReorderPhase::AwaitCreateBranch
                        } else {
                            ReorderPhase::AwaitOrphan
                        };
                        ReorderStep::Run(req)
                    },
                }
            },
            ReorderPhase::AwaitCreateBranch => {
                if ok {
                    let req = git::checkout_branch(self.temp_branch.as_str());
                    self.phase = ReorderPhase::AwaitCheckoutTemp;
                    ReorderStep::Run(req)
                } else {
                    self.finish(false)
                }
            },
            ReorderPhase::AwaitCheckoutTemp => {
                if ok {
                    self.pick(0)
                } else {
                    let req = git::delete_branch(self.temp_branch.as_str(), true);
                    self.phase = ReorderPhase::AwaitDeleteFailedTemp;
                    ReorderStep::Run(req)
                }
            },
            ReorderPhase::AwaitDeleteFailedTemp => self.finish(false),
            ReorderPhase::AwaitOrphan => {
                if ok {
                    self.phase = ReorderPhase::AwaitClearOrphan;
                    ReorderStep::Run(git::remove_everything())
                } else {
                    self.finish(false)
                }
            },
            ReorderPhase::AwaitClearOrphan => {
                if reply.is_some() {
                    self.pick(0)
                } else {
                    self.finish(false)
                }
            },
            ReorderPhase::AwaitPick(i) => {
                if ok { self.after_pick(i) } else { self.rollback() }
            },
            ReorderPhase::AwaitPickNoCommit(i) => {
                if ok {
                    self.phase = ReorderPhase::AwaitAmendFixup(i);
                    ReorderStep::Run(git::commit_amend_no_edit())
                } else {
                    self.rollback()
                }
            },
            ReorderPhase::AwaitAmendFixup(i) => {
                if ok { self.after_pick(i) } else { self.rollback() }
            },
            ReorderPhase::AwaitReword(i) => {
                if ok { self.pick(i + 1) } else { self.rollback() }
            },
            ReorderPhase::AwaitAbortPick => {
                let req = git::checkout_branch(self.original_branch.as_str());
                self.phase = ReorderPhase::AwaitRollbackCheckout;
                ReorderStep::Run(req)
            },
            ReorderPhase::AwaitRollbackCheckout => {
                let req = git::delete_branch(self.temp_branch.as_str(), true);
                self.phase = ReorderPhase::AwaitRollbackDelete;
                ReorderStep::Run(req)
            },
            ReorderPhase::AwaitRollbackDelete => self.finish(false),
            ReorderPhase::AwaitReturn => {
                if ok {
                    let req = git::reset_hard(self.temp_branch.as_str());
                    self.phase = ReorderPhase::AwaitReset;
                    ReorderStep::Run(req)
                } else {
                    self.end_with(false)
                }
            },
            ReorderPhase::AwaitReset => {
                if ok {
                    let req = git::delete_branch(self.temp_branch.as_str(), true);
                    self.phase = ReorderPhase::AwaitDeleteTemp;
                    ReorderStep::Run(req)
                } else {
                    self.end_with(false)
                }
            },
            ReorderPhase::AwaitDeleteTemp => self.finish(true),
            ReorderPhase::AwaitStashList(outcome) => {
                let name = match &reply {
                    Some(o) => find_stash_ref(o.stdout.as_str()),
                    None => None,
                };
                match name {
                    Some(n) => {
                        let req = git::pop_stash_ref(n.as_str());
                        self.phase = ReorderPhase::AwaitStashPop(outcome);
                        ReorderStep::Run(req)
                    },
                    None => self.end_with(outcome),
                }
            },
            ReorderPhase::AwaitStashPop(outcome) => self.end_with(outcome),
            ReorderPhase::Done(outcome) => ReorderStep::Finished(outcome),
        }
    }
}

} // verus!
