//! Commands that change the index, the work tree or `.gitignore`. Each one
//! says what to run; the caller performs the returned effects in order.
use crate::command::effect::{effect_views, Effect, EffectView, Observation, Probe, ProbeView};
use crate::git::{
    self, apply_patch_call, git_call, GitOutput,
};
use crate::text::{join, lines, split_lines, trim, trim_spaces, views, chars_of, trim_char, trim_matches};
use vstd::prelude::*;

verus! {

/// The path of the ignore file, relative to the repository.
pub open spec fn gitignore() -> Seq<char> {
    ".gitignore"@
}

/// A run of git whose failing status is ignored.
pub open spec fn run(r: crate::git::GitRequestView) -> EffectView {
    EffectView::Git(r)
}

/// A run of git that must succeed.
pub open spec fn run_checked(r: crate::git::GitRequestView) -> EffectView {
    EffectView::GitMustSucceed(r)
}

/// `git add FILE`.
pub open spec fn stage_call(f: Seq<char>) -> crate::git::GitRequestView {
    git_call(seq!["add"@, f])
}

/// `git reset HEAD -- FILE`.
pub open spec fn unstage_call(f: Seq<char>) -> crate::git::GitRequestView {
    git_call(seq!["reset"@, "HEAD"@, "--"@, f])
}

/// `git rm --cached PATH`.
pub open spec fn rm_cached_call(f: Seq<char>) -> crate::git::GitRequestView {
    git_call(seq!["rm"@, "--cached"@, f])
}

/// `git checkout -- FILE`.
pub open spec fn checkout_call(f: Seq<char>) -> crate::git::GitRequestView {
    git_call(seq!["checkout"@, "--"@, f])
}

/// The lines of an ignore file that stay when `name` is taken out: every
/// line that is not blank and differs from `name`.
pub open spec fn kept_ignore_lines(ls: Seq<Seq<char>>, name: Seq<char>) -> Seq<Seq<char>>
    decreases ls.len(),
{
    if ls.len() == 0 {
        Seq::empty()
    } else {
        let rest = kept_ignore_lines(ls.drop_last(), name);
        let l = ls.last();
        if trim_spaces(l).len() > 0 && l != name {
            rest.push(l)
        } else {
            rest
        }
    }
}

/// The ignore file's text without the entry `name` (and without blank lines),
/// lines joined by newlines with no final newline.
pub open spec fn without_ignore_entry(content: Seq<char>, name: Seq<char>) -> Seq<char> {
    join(kept_ignore_lines(lines(content), name), "\n"@)
}

/// The kept lines are lines of `ls` that are not blank and differ from
/// `name`, and every such line of `ls` is kept.
proof fn lemma_kept_ignore_lines(ls: Seq<Seq<char>>, name: Seq<char>)
    ensures
        forall|k: int| 0 <= k < kept_ignore_lines(ls, name).len() ==> {
            let l = #[trigger] kept_ignore_lines(ls, name)[k];
            l != name && trim_spaces(l).len() > 0 && ls.contains(l)
        },
        forall|j: int| 0 <= j < ls.len() && trim_spaces(ls[j]).len() > 0 && ls[j] != name
            ==> kept_ignore_lines(ls, name).contains(#[trigger] ls[j]),
        kept_ignore_lines(ls, name) == ls.filter(|l: Seq<char>| trim_spaces(l).len() > 0 && l != name),
    decreases ls.len(),
{
    if ls.len() > 0 {
        let rest = ls.drop_last();
        let kr = kept_ignore_lines(rest, name);
        let ks = kept_ignore_lines(ls, name);
        lemma_kept_ignore_lines(rest, name);
        let keep = |l: Seq<char>| trim_spaces(l).len() > 0 && l != name;
        reveal(Seq::filter);
        assert(kr == rest.filter(keep));
        assert(ls.filter(keep) == (if keep(ls.last()) { rest.filter(keep).push(ls.last()) } else { rest.filter(keep) }));
        assert(ks == ls.filter(keep));
        assert forall|k: int| 0 <= k < ks.len() implies {
            let l = #[trigger] ks[k];
            l != name && trim_spaces(l).len() > 0 && ls.contains(l)
        } by {
            if k < kr.len() {
                assert(ks[k] == kr[k]);
                let l = kr[k];
                assert(rest.contains(l));
                let w = choose|w: int| 0 <= w < rest.len() && rest[w] == l;
                assert(ls[w] == l);
            } else {
                assert(ks[k] == ls.last());
                assert(ls[ls.len() - 1] == ls.last());
            }
        }
        assert forall|j: int| 0 <= j < ls.len() && trim_spaces(ls[j]).len() > 0 && ls[j] != name
            implies ks.contains(#[trigger] ls[j]) by {
            if j < rest.len() {
                assert(rest[j] == ls[j]);
                assert(kr.contains(rest[j]));
                let w = choose|w: int| 0 <= w < kr.len() && kr[w] == rest[j];
                assert(ks[w] == kr[w]);
            } else {
                assert(ls[j] == ls.last());
                assert(ks[ks.len() - 1] == ls.last());
            }
        }
    } else {
        reveal(Seq::filter);
        assert(ls.filter(|l: Seq<char>| trim_spaces(l).len() > 0 && l != name) =~= Seq::<Seq<char>>::empty());
    }
}

/// Taking the entry `name` out of an ignore file's text `content` leaves the
/// kept lines joined by newlines, where no kept line equals `name` or is
/// blank, each kept line is a line of `content`, and every non-blank line of
/// `content` other than `name` is kept, in the order and number in which
/// `content` holds them.
pub proof fn lemma_ignore_entry_taken_out(content: Seq<char>, name: Seq<char>)
    ensures
        ({
            let ls = lines(content);
            let ks = kept_ignore_lines(ls, name);
            &&& without_ignore_entry(content, name) == join(ks, "\n"@)
            &&& forall|k: int| 0 <= k < ks.len() ==> #[trigger] ks[k] != name && trim_spaces(ks[k]).len() > 0 && ls.contains(ks[k])
            &&& forall|j: int| 0 <= j < ls.len() && trim_spaces(ls[j]).len() > 0 && ls[j] != name ==> ks.contains(#[trigger] ls[j])
            &&& ks == ls.filter(|l: Seq<char>| trim_spaces(l).len() > 0 && l != name)
        }),
{
    lemma_kept_ignore_lines(lines(content), name);
}

/// Computes the ignore file's text without the entry `name`.
pub fn remove_ignore_entry(content: &str, name: &str) -> (r: String)
    ensures
        r@ == without_ignore_entry(content@, name@),
{
    let ls = split_lines(content);
    let ghost vs = views(ls@);
    let mut kept: Vec<String> = Vec::new();
    let mut i: usize = 0;
    while i < ls.len()
        invariant
            i <= ls@.len(),
            vs == views(ls@),
            vs == lines(content@),
            views(kept@) == kept_ignore_lines(vs.subrange(0, i as int), name@),
        decreases ls@.len() - i,
    {
        let line = &ls[i];
        let t = trim(line.as_str());
        let same = crate::text::str_equal(line.as_str(), name);
        assert(vs.subrange(0, i + 1).drop_last() == vs.subrange(0, i as int));
        assert(vs.subrange(0, i + 1).last() == line@);
        if !t.as_str().is_empty() && !same {
            let ghost before = kept@;
            kept.push(line.clone());
            assert(views(kept@) =~= views(before).push(line@));
        }
        i = i + 1;
    }
    assert(vs.subrange(0, vs.len() as int) == vs);
    let mut r = String::new();
    let mut j: usize = 0;
    let ghost ks = views(kept@);
    while j < kept.len()
        invariant
            j <= kept@.len(),
            ks == views(kept@),
            r@ == join(ks.subrange(0, j as int), "\n"@),
        decreases kept@.len() - j,
    {
        assert(ks.subrange(0, j + 1).drop_last() == ks.subrange(0, j as int));
        assert(ks.subrange(0, j + 1).last() == kept@[j as int]@);
        if j > 0 {
            crate::text::push_all(&mut r, "\n");
        }
        crate::text::push_all(&mut r, kept[j].as_str());
        assert(r@ =~= join(ks.subrange(0, j + 1), "\n"@));
        j = j + 1;
    }
    assert(ks.subrange(0, ks.len() as int) == ks);
    r
}

/// The effects that rewrite the ignore file after taking out `name`, given
/// its text if it exists: delete it (and then run `on_empty`) when nothing
/// stays, else write what stays with a final newline and stage it.
pub open spec fn rewrite_ignore_effects(content: Option<Seq<char>>, name: Seq<char>, on_empty: Seq<EffectView>) -> Seq<EffectView> {
    match content {
        None => Seq::empty(),
        Some(c) => {
            let kept = without_ignore_entry(c, name);
            if kept.len() == 0 {
                seq![EffectView::RemoveFile { path: gitignore() }] + on_empty
            } else {
                seq![
                    EffectView::WriteText { path: gitignore(), text: kept + "\n"@ },
                    run(stage_call(gitignore())),
                ]
            }
        },
    }
}

/// The text found for a probe of the ignore file.
pub open spec fn observed_file(o: Observation) -> Option<Seq<char>> {
    match o {
        Observation::File(Some(t)) => Some(t@),
        _ => None,
    }
}

/// Builds the effects that rewrite the ignore file, as `rewrite_ignore_effects` says.
fn rewrite_ignore(observed: &Observation, name: &str, on_empty: Vec<Effect>) -> (r: Vec<Effect>)
    ensures
        effect_views(r@) == rewrite_ignore_effects(observed_file(*observed), name@, effect_views(on_empty@)),
{
    let mut r: Vec<Effect> = Vec::new();
    match observed {
        Observation::File(Some(content)) => {
            let kept = remove_ignore_entry(content.as_str(), name);
            if kept.as_str().is_empty() {
                r.push(Effect::RemoveFile { path: git::owned(".gitignore") });
                let mut rest = on_empty;
                r.append(&mut rest);
                assert(effect_views(r@) =~= seq![EffectView::RemoveFile { path: gitignore() }] + effect_views(on_empty@));
            } else {
                let mut text = kept;
                crate::text::push_all(&mut text, "\n");
                r.push(Effect::WriteText { path: git::owned(".gitignore"), text });
                r.push(Effect::Git(git::stage_path(".gitignore")));
                assert(effect_views(r@) =~= rewrite_ignore_effects(observed_file(*observed), name@, effect_views(on_empty@)));
            }
        },
        _ => {
            assert(effect_views(r@) =~= Seq::<EffectView>::empty());
        },
    }
    r
}

/// Whether a run of `git diff --quiet -- FILE` reported unstaged changes;
/// when git could not be run, the file is taken to have some.
pub open spec fn reports_unstaged_changes(o: Observation) -> bool {
    match o {
        Observation::Git(Some(out)) => out.code == Some(1i32),
        _ => true,
    }
}

/// Reads the answer to `git diff --quiet -- FILE`.
pub fn parse_has_unstaged_changes_in_file(observed: &Observation) -> (r: bool)
    ensures
        r == reports_unstaged_changes(*observed),
{
    match observed {
        Observation::Git(Some(out)) => match out.code {
            Some(c) => c == 1,
            None => false,
        },
        _ => true,
    }
}


/// Unstages one staged file; undoing stages it again.
#[derive(Debug)]
pub struct UnstageFileCommand {
    pub repo_path: String,
    pub file_name: String,
}

impl UnstageFileCommand {
    /// Creates the command.
    pub fn new(repo_path: String, file_name: String) -> (r: Self)
        ensures
            r.repo_path == repo_path,
            r.file_name == file_name,
    {
        Self { repo_path, file_name }
    }


    /// The probe that running needs.
    pub open spec fn execute_probe(&self) -> ProbeView {
        ProbeView::Nothing
    }

    /// The probe that undoing needs.
    pub open spec fn undo_probe(&self) -> ProbeView {
        ProbeView::Nothing
    }

    /// Running with `observed` found out hands back `r`.
    pub open spec fn executes_to(&self, observed: Observation, r: Option<Vec<Effect>>) -> bool {
        r matches Some(v) && effect_views(v@) == seq![run(unstage_call(self.file_name@))]
    }

    /// Undoing with `observed` found out hands back `r`.
    pub open spec fn undoes_to(&self, observed: Observation, r: Vec<Effect>) -> bool {
        effect_views(r@) == seq![run(stage_call(self.file_name@))]
    }

    /// Nothing needs to be found out before running.
    pub fn probe_execute(&self) -> (p: Probe)
        ensures
            p@ == self.execute_probe(),
    {
        Probe::Nothing
    }

    /// Unstages the file: `git reset HEAD -- FILE`.
    pub fn execute(&mut self, observed: &Observation) -> (r: Option<Vec<Effect>>)
        ensures
            *final(self) == *old(self),
            old(self).executes_to(*observed, r),
    {
        let mut v: Vec<Effect> = Vec::new();
        v.push(Effect::Git(git::unstage_file(self.file_name.as_str())));
        assert(effect_views(v@) =~= seq![run(unstage_call(self.file_name@))]);
        Some(v)
    }

    /// Nothing needs to be found out before undoing.
    pub fn probe_undo(&self) -> (p: Probe)
        ensures
            p@ == self.undo_probe(),
    {
        Probe::Nothing
    }

    /// Stages the file again: `git add FILE`.
    pub fn undo(&mut self, observed: &Observation) -> (r: Vec<Effect>)
        ensures
            *final(self) == *old(self),
            old(self).undoes_to(*observed, r),
    {
        let mut v: Vec<Effect> = Vec::new();
        v.push(Effect::Git(git::stage_file(self.file_name.as_str())));
        assert(effect_views(v@) =~= seq![run(stage_call(self.file_name@))]);
        v
    }
}


/// Stages one file; undoing unstages it.
#[derive(Debug)]
pub struct StageFileCommand {
    pub repo_path: String,
    pub file_name: String,
}

impl StageFileCommand {
    /// Creates the command.
    pub fn new(repo_path: String, file_name: String) -> (r: Self)
        ensures
            r.repo_path == repo_path,
            r.file_name == file_name,
    {
        Self { repo_path, file_name }
    }


    /// The probe that running needs.
    pub open spec fn execute_probe(&self) -> ProbeView {
        ProbeView::Nothing
    }

    /// The probe that undoing needs.
    pub open spec fn undo_probe(&self) -> ProbeView {
        ProbeView::Nothing
    }

    /// Running with `observed` found out hands back `r`.
    pub open spec fn executes_to(&self, observed: Observation, r: Option<Vec<Effect>>) -> bool {
        r matches Some(v) && effect_views(v@) == seq![run(stage_call(self.file_name@))]
    }

    /// Undoing with `observed` found out hands back `r`.
    pub open spec fn undoes_to(&self, observed: Observation, r: Vec<Effect>) -> bool {
        effect_views(r@) == seq![run(unstage_call(self.file_name@))]
    }

    /// Nothing needs to be found out before running.
    pub fn probe_execute(&self) -> (p: Probe)
        ensures
            p@ == self.execute_probe(),
    {
        Probe::Nothing
    }

    /// Stages the file: `git add FILE`.
    pub fn execute(&mut self, observed: &Observation) -> (r: Option<Vec<Effect>>)
        ensures
            *final(self) == *old(self),
            old(self).executes_to(*observed, r),
    {
        let mut v: Vec<Effect> = Vec::new();
        v.push(Effect::Git(git::stage_file(self.file_name.as_str())));
        assert(effect_views(v@) =~= seq![run(stage_call(self.file_name@))]);
        Some(v)
    }

    /// Nothing needs to be found out before undoing.
    pub fn probe_undo(&self) -> (p: Probe)
        ensures
            p@ == self.undo_probe(),
    {
        Probe::Nothing
    }

    /// Unstages the file: `git reset HEAD -- FILE`.
    pub fn undo(&mut self, observed: &Observation) -> (r: Vec<Effect>)
        ensures
            *final(self) == *old(self),
            old(self).undoes_to(*observed, r),
    {
        let mut v: Vec<Effect> = Vec::new();
        v.push(Effect::Git(git::unstage_file(self.file_name.as_str())));
        assert(effect_views(v@) =~= seq![run(unstage_call(self.file_name@))]);
        v
    }
}


/// Throws away one unstaged hunk of the work tree; undoing applies it again.
#[derive(Debug)]
pub struct DiscardUnstagedHunkCommand {
    pub repo_path: String,
    pub patch: String,
}

impl DiscardUnstagedHunkCommand {
    /// Creates the command.
    pub fn new(repo_path: String, patch: String) -> (r: Self)
        ensures
            r.repo_path == repo_path,
            r.patch == patch,
    {
        Self { repo_path, patch }
    }


    /// The probe that running needs.
    pub open spec fn execute_probe(&self) -> ProbeView {
        ProbeView::Nothing
    }

    /// The probe that undoing needs.
    pub open spec fn undo_probe(&self) -> ProbeView {
        ProbeView::Nothing
    }

    /// Running with `observed` found out hands back `r`.
    pub open spec fn executes_to(&self, observed: Observation, r: Option<Vec<Effect>>) -> bool {
        r matches Some(v) && effect_views(v@) == seq![run_checked(apply_patch_call(self.patch@, true, false))]
    }

    /// Undoing with `observed` found out hands back `r`.
    pub open spec fn undoes_to(&self, observed: Observation, r: Vec<Effect>) -> bool {
        effect_views(r@) == seq![run_checked(apply_patch_call(self.patch@, false, false))]
    }

    /// Nothing needs to be found out before running.
    pub fn probe_execute(&self) -> (p: Probe)
        ensures
            p@ == self.execute_probe(),
    {
        Probe::Nothing
    }

    /// Applies the hunk's patch in reverse to the work tree.
    pub fn execute(&mut self, observed: &Observation) -> (r: Option<Vec<Effect>>)
        ensures
            *final(self) == *old(self),
            old(self).executes_to(*observed, r),
    {
        let mut v: Vec<Effect> = Vec::new();
        v.push(Effect::GitMustSucceed(git::apply_patch(self.patch.as_str(), true, false)));
        assert(effect_views(v@) =~= seq![run_checked(apply_patch_call(self.patch@, true, false))]);
        Some(v)
    }

    /// Nothing needs to be found out before undoing.
    pub fn probe_undo(&self) -> (p: Probe)
        ensures
            p@ == self.undo_probe(),
    {
        Probe::Nothing
    }

    /// Applies the hunk's patch to the work tree.
    pub fn undo(&mut self, observed: &Observation) -> (r: Vec<Effect>)
        ensures
            *final(self) == *old(self),
            old(self).undoes_to(*observed, r),
    {
        let mut v: Vec<Effect> = Vec::new();
        v.push(Effect::GitMustSucceed(git::apply_patch(self.patch.as_str(), false, false)));
        assert(effect_views(v@) =~= seq![run_checked(apply_patch_call(self.patch@, false, false))]);
        v
    }
}


/// Unstages the changes of a patch; undoing stages them again.
#[derive(Debug)]
pub struct ApplyPatchCommand {
    pub repo_path: String,
    pub patch: String,
}

impl ApplyPatchCommand {
    /// Creates the command.
    pub fn new(repo_path: String, patch: String) -> (r: Self)
        ensures
            r.repo_path == repo_path,
            r.patch == patch,
    {
        Self { repo_path, patch }
    }


    /// The probe that running needs.
    pub open spec fn execute_probe(&self) -> ProbeView {
        ProbeView::Nothing
    }

    /// The probe that undoing needs.
    pub open spec fn undo_probe(&self) -> ProbeView {
        ProbeView::Nothing
    }

    /// Running with `observed` found out hands back `r`.
    pub open spec fn executes_to(&self, observed: Observation, r: Option<Vec<Effect>>) -> bool {
        r matches Some(v) && effect_views(v@) == seq![run_checked(apply_patch_call(self.patch@, true, true))]
    }

    /// Undoing with `observed` found out hands back `r`.
    pub open spec fn undoes_to(&self, observed: Observation, r: Vec<Effect>) -> bool {
        effect_views(r@) == seq![run_checked(apply_patch_call(self.patch@, false, true))]
    }

    /// Nothing needs to be found out before running.
    pub fn probe_execute(&self) -> (p: Probe)
        ensures
            p@ == self.execute_probe(),
    {
        Probe::Nothing
    }

    /// Applies the patch in reverse to the index.
    pub fn execute(&mut self, observed: &Observation) -> (r: Option<Vec<Effect>>)
        ensures
            *final(self) == *old(self),
            old(self).executes_to(*observed, r),
    {
        let mut v: Vec<Effect> = Vec::new();
        v.push(Effect::GitMustSucceed(git::apply_patch(self.patch.as_str(), true, true)));
        assert(effect_views(v@) =~= seq![run_checked(apply_patch_call(self.patch@, true, true))]);
        Some(v)
    }

    /// Nothing needs to be found out before undoing.
    pub fn probe_undo(&self) -> (p: Probe)
        ensures
            p@ == self.undo_probe(),
    {
        Probe::Nothing
    }

    /// Applies the patch to the index.
    pub fn undo(&mut self, observed: &Observation) -> (r: Vec<Effect>)
        ensures
            *final(self) == *old(self),
            old(self).undoes_to(*observed, r),
    {
        let mut v: Vec<Effect> = Vec::new();
        v.push(Effect::GitMustSucceed(git::apply_patch(self.patch.as_str(), false, true)));
        assert(effect_views(v@) =~= seq![run_checked(apply_patch_call(self.patch@, false, true))]);
        v
    }
}


/// Stages the changes of a patch; undoing unstages them.
#[derive(Debug)]
pub struct StagePatchCommand {
    pub repo_path: String,
    pub patch: String,
}

impl StagePatchCommand {
    /// Creates the command.
    pub fn new(repo_path: String, patch: String) -> (r: Self)
        ensures
            r.repo_path == repo_path,
            r.patch == patch,
    {
        Self { repo_path, patch }
    }


    /// The probe that running needs.
    pub open spec fn execute_probe(&self) -> ProbeView {
        ProbeView::Nothing
    }

    /// The probe that undoing needs.
    pub open spec fn undo_probe(&self) -> ProbeView {
        ProbeView::Nothing
    }

    /// Running with `observed` found out hands back `r`.
    pub open spec fn executes_to(&self, observed: Observation, r: Option<Vec<Effect>>) -> bool {
        r matches Some(v) && effect_views(v@) == seq![run_checked(apply_patch_call(self.patch@, false, true))]
    }

    /// Undoing with `observed` found out hands back `r`.
    pub open spec fn undoes_to(&self, observed: Observation, r: Vec<Effect>) -> bool {
        effect_views(r@) == seq![run_checked(apply_patch_call(self.patch@, true, true))]
    }

    /// Nothing needs to be found out before running.
    pub fn probe_execute(&self) -> (p: Probe)
        ensures
            p@ == self.execute_probe(),
    {
        Probe::Nothing
    }

    /// Applies the patch to the index.
    pub fn execute(&mut self, observed: &Observation) -> (r: Option<Vec<Effect>>)
        ensures
            *final(self) == *old(self),
            old(self).executes_to(*observed, r),
    {
        let mut v: Vec<Effect> = Vec::new();
        v.push(Effect::GitMustSucceed(git::apply_patch(self.patch.as_str(), false, true)));
        assert(effect_views(v@) =~= seq![run_checked(apply_patch_call(self.patch@, false, true))]);
        Some(v)
    }

    /// Nothing needs to be found out before undoing.
    pub fn probe_undo(&self) -> (p: Probe)
        ensures
            p@ == self.undo_probe(),
    {
        Probe::Nothing
    }

    /// Applies the patch in reverse to the index.
    pub fn undo(&mut self, observed: &Observation) -> (r: Vec<Effect>)
        ensures
            *final(self) == *old(self),
            old(self).undoes_to(*observed, r),
    {
        let mut v: Vec<Effect> = Vec::new();
        v.push(Effect::GitMustSucceed(git::apply_patch(self.patch.as_str(), true, true)));
        assert(effect_views(v@) =~= seq![run_checked(apply_patch_call(self.patch@, true, true))]);
        v
    }
}


/// Takes a tracked file out of version control by adding it to `.gitignore`;
/// undoing takes the entry out again and restores the file's unstaged state.
#[derive(Debug)]
pub struct IgnoreUnstagedTrackedFileCommand {
    pub repo_path: String,
    pub file_name: String,
}

/// The effects that add `name` to the ignore file, stage it, and then run `then`.
pub open spec fn ignore_effects(name: Seq<char>, then: Seq<EffectView>) -> Seq<EffectView> {
    seq![
        EffectView::AppendLine { path: gitignore(), line: name },
        run(stage_call(gitignore())),
    ] + then
}

/// Builds the effects that add `name` to the ignore file and stage it.
fn ignore_entry_effects(name: &str) -> (v: Vec<Effect>)
    ensures
        effect_views(v@) == ignore_effects(name@, Seq::empty()),
{
    let mut v: Vec<Effect> = Vec::new();
    v.push(Effect::AppendLine { path: git::owned(".gitignore"), line: git::owned(name) });
    v.push(Effect::Git(git::stage_path(".gitignore")));
    assert(effect_views(v@) =~= ignore_effects(name@, Seq::empty()));
    v
}

/// The ignore file is read before undoing an ignore command.
pub open spec fn read_gitignore_probe() -> ProbeView {
    ProbeView::ReadFile(gitignore())
}

fn read_gitignore() -> (p: Probe)
    ensures
        p@ == read_gitignore_probe(),
{
    Probe::ReadFile(git::owned(".gitignore"))
}

impl IgnoreUnstagedTrackedFileCommand {
    /// Creates the command.
    pub fn new(repo_path: String, file_name: String) -> (r: Self)
        ensures
            r.repo_path == repo_path,
            r.file_name == file_name,
    {
        Self { repo_path, file_name }
    }

    /// The probe that running needs.
    pub open spec fn execute_probe(&self) -> ProbeView {
        ProbeView::Nothing
    }

    /// The probe that undoing needs.
    pub open spec fn undo_probe(&self) -> ProbeView {
        read_gitignore_probe()
    }

    /// Running with `observed` found out hands back `r`.
    pub open spec fn executes_to(&self, observed: Observation, r: Option<Vec<Effect>>) -> bool {
        r matches Some(v) && effect_views(v@) == ignore_effects(self.file_name@, seq![run(rm_cached_call(self.file_name@))])
    }

    /// Undoing with `observed` found out hands back `r`.
    pub open spec fn undoes_to(&self, observed: Observation, r: Vec<Effect>) -> bool {
        effect_views(r@) == rewrite_ignore_effects(observed_file(observed), self.file_name@, seq![run(rm_cached_call(gitignore()))])
                + seq![run(stage_call(self.file_name@)), run(unstage_call(self.file_name@))]
    }

    /// Nothing needs to be found out before running.
    pub fn probe_execute(&self) -> (p: Probe)
        ensures
            p@ == self.execute_probe(),
    {
        Probe::Nothing
    }

    /// Appends the file to `.gitignore`, stages `.gitignore` and removes the
    /// file from the index.
    pub fn execute(&mut self, observed: &Observation) -> (r: Option<Vec<Effect>>)
        ensures
            *final(self) == *old(self),
            old(self).executes_to(*observed, r),
    {
        let mut v = ignore_entry_effects(self.file_name.as_str());
        let ghost before = v@;
        v.push(Effect::Git(git::rm_cached(self.file_name.as_str())));
        assert(effect_views(v@) =~= effect_views(before).push(run(rm_cached_call(self.file_name@))));
        Some(v)
    }

    /// The text of `.gitignore` is needed to undo.
    pub fn probe_undo(&self) -> (p: Probe)
        ensures
            p@ == self.undo_probe(),
    {
        read_gitignore()
    }

    /// Takes the entry out of `.gitignore` (deleting it and removing it from
    /// the index when nothing stays, else rewriting and staging it), then
    /// stages and unstages the file so that it is tracked again.
    pub fn undo(&mut self, observed: &Observation) -> (r: Vec<Effect>)
        ensures
            *final(self) == *old(self),
            old(self).undoes_to(*observed, r),
    {
        let mut on_empty: Vec<Effect> = Vec::new();
        on_empty.push(Effect::Git(git::rm_cached(".gitignore")));
        assert(effect_views(on_empty@) =~= seq![run(rm_cached_call(gitignore()))]);
        let mut v = rewrite_ignore(observed, self.file_name.as_str(), on_empty);
        let ghost before = v@;
        v.push(Effect::Git(git::stage_file(self.file_name.as_str())));
        v.push(Effect::Git(git::unstage_file(self.file_name.as_str())));
        assert(effect_views(v@) =~= effect_views(before) + seq![run(stage_call(self.file_name@)), run(unstage_call(self.file_name@))]);
        v
    }
}

/// Deletes an untracked file; undoing writes its content back.
#[derive(Debug)]
pub struct DeleteUntrackedFileCommand {
    pub repo_path: String,
    pub file_name: String,
    pub content: Vec<u8>,
}

impl DeleteUntrackedFileCommand {
    /// Creates the command; `content` is the file's content, kept for undo.
    pub fn new(repo_path: String, file_name: String, content: Vec<u8>) -> (r: Self)
        ensures
            r.repo_path == repo_path,
            r.file_name == file_name,
            r.content() == content@,
    {
        Self { repo_path, file_name, content }
    }

    /// The content kept for undo.
    pub closed spec fn content(&self) -> Seq<u8> {
        self.content@
    }

    /// The probe that running needs.
    pub open spec fn execute_probe(&self) -> ProbeView {
        ProbeView::Nothing
    }

    /// The probe that undoing needs.
    pub open spec fn undo_probe(&self) -> ProbeView {
        ProbeView::Nothing
    }

    /// Running with `observed` found out hands back `r`.
    pub open spec fn executes_to(&self, observed: Observation, r: Option<Vec<Effect>>) -> bool {
        r matches Some(v) && effect_views(v@) == seq![EffectView::RemoveFile { path: self.file_name@ }]
    }

    /// Undoing with `observed` found out hands back `r`.
    pub open spec fn undoes_to(&self, observed: Observation, r: Vec<Effect>) -> bool {
        effect_views(r@) == seq![EffectView::WriteBytes { path: self.file_name@, bytes: self.content() }]
    }

    /// Nothing needs to be found out before running.
    pub fn probe_execute(&self) -> (p: Probe)
        ensures
            p@ == self.execute_probe(),
    {
        Probe::Nothing
    }

    /// Deletes the file.
    pub fn execute(&mut self, observed: &Observation) -> (r: Option<Vec<Effect>>)
        ensures
            *final(self) == *old(self),
            old(self).executes_to(*observed, r),
    {
        let mut v: Vec<Effect> = Vec::new();
        v.push(Effect::RemoveFile { path: self.file_name.clone() });
        assert(effect_views(v@) =~= seq![EffectView::RemoveFile { path: self.file_name@ }]);
        Some(v)
    }

    /// Nothing needs to be found out before undoing.
    pub fn probe_undo(&self) -> (p: Probe)
        ensures
            p@ == self.undo_probe(),
    {
        Probe::Nothing
    }

    /// Writes the kept content back to the file.
    pub fn undo(&mut self, observed: &Observation) -> (r: Vec<Effect>)
        ensures
            *final(self) == *old(self),
            old(self).undoes_to(*observed, r),
    {
        let mut v: Vec<Effect> = Vec::new();
        v.push(Effect::WriteBytes { path: self.file_name.clone(), bytes: self.content.clone() });
        assert(effect_views(v@) =~= seq![EffectView::WriteBytes { path: self.file_name@, bytes: self.content@ }]);
        v
    }
}

/// Ignores an untracked file by adding it to `.gitignore`; undoing takes the
/// entry out again.
#[derive(Debug)]
pub struct IgnoreUntrackedFileCommand {
    pub repo_path: String,
    pub file_name: String,
    pub was_empty_before: bool,
}

/// An ignore file counts as empty when it is missing, unreadable or blank.
pub open spec fn ignore_file_was_empty(content: Option<Seq<char>>) -> bool {
    match content {
        None => true,
        Some(c) => trim_spaces(c).len() == 0,
    }
}

impl IgnoreUntrackedFileCommand {
    /// Creates the command; `gitignore` is the text of `.gitignore` when it
    /// exists and can be read.
    pub fn new(repo_path: String, file_name: String, gitignore: Option<String>) -> (r: Self)
        ensures
            r.repo_path == repo_path,
            r.file_name == file_name,
            r.was_empty_before() == ignore_file_was_empty(match gitignore { Some(t) => Some(t@), None => None }),
    {
        let was_empty_before = match &gitignore {
            None => true,
            Some(t) => trim(t.as_str()).as_str().is_empty(),
        };
        Self { repo_path, file_name, was_empty_before }
    }

    /// Whether `.gitignore` was empty when the command was made.
    pub closed spec fn was_empty_before(&self) -> bool {
        self.was_empty_before
    }

    /// The probe that running needs.
    pub open spec fn execute_probe(&self) -> ProbeView {
        ProbeView::Nothing
    }

    /// The probe that undoing needs.
    pub open spec fn undo_probe(&self) -> ProbeView {
        read_gitignore_probe()
    }

    /// Running with `observed` found out hands back `r`.
    pub open spec fn executes_to(&self, observed: Observation, r: Option<Vec<Effect>>) -> bool {
        r matches Some(v) && effect_views(v@) == ignore_effects(self.file_name@, Seq::empty())
    }

    /// Undoing with `observed` found out hands back `r`.
    pub open spec fn undoes_to(&self, observed: Observation, r: Vec<Effect>) -> bool {
        effect_views(r@) == rewrite_ignore_effects(observed_file(observed), self.file_name@,
                if self.was_empty_before() { Seq::empty() } else { seq![run(rm_cached_call(gitignore()))] })
    }

    /// Nothing needs to be found out before running.
    pub fn probe_execute(&self) -> (p: Probe)
        ensures
            p@ == self.execute_probe(),
    {
        Probe::Nothing
    }

    /// Appends the file to `.gitignore` and stages `.gitignore`.
    pub fn execute(&mut self, observed: &Observation) -> (r: Option<Vec<Effect>>)
        ensures
            *final(self) == *old(self),
            old(self).executes_to(*observed, r),
    {
        Some(ignore_entry_effects(self.file_name.as_str()))
    }

    /// The text of `.gitignore` is needed to undo.
    pub fn probe_undo(&self) -> (p: Probe)
        ensures
            p@ == self.undo_probe(),
    {
        read_gitignore()
    }

    /// Takes the entry out of `.gitignore`: when nothing stays the file is
    /// deleted, and also removed from the index unless it was empty before.
    pub fn undo(&mut self, observed: &Observation) -> (r: Vec<Effect>)
        ensures
            *final(self) == *old(self),
            old(self).undoes_to(*observed, r),
    {
        let mut on_empty: Vec<Effect> = Vec::new();
        if !self.was_empty_before {
            on_empty.push(Effect::Git(git::rm_cached(".gitignore")));
        }
        assert(effect_views(on_empty@) =~= (if self.was_empty_before { Seq::empty() } else { seq![run(rm_cached_call(gitignore()))] }));
        rewrite_ignore(observed, self.file_name.as_str(), on_empty)
    }
}

/// Unstages everything; undoing applies the staged changes again.
#[derive(Debug)]
pub struct UnstageAllCommand {
    pub repo_path: String,
    pub patch: String,
}

impl UnstageAllCommand {
    /// Creates the command; `patch` is the staged diff (`git diff --staged`),
    /// empty when it could not be read.
    pub fn new(repo_path: String, patch: String) -> (r: Self)
        ensures
            r.repo_path == repo_path,
            r.patch() == patch@,
    {
        Self { repo_path, patch }
    }

    /// The staged changes kept for undo.
    pub closed spec fn patch(&self) -> Seq<char> {
        self.patch@
    }

    /// The probe that running needs.
    pub open spec fn execute_probe(&self) -> ProbeView {
        ProbeView::Nothing
    }

    /// The probe that undoing needs.
    pub open spec fn undo_probe(&self) -> ProbeView {
        ProbeView::Nothing
    }

    /// Running with `observed` found out hands back `r`.
    pub open spec fn executes_to(&self, observed: Observation, r: Option<Vec<Effect>>) -> bool {
        r matches Some(v) && effect_views(v@) == seq![run(git_call(seq!["reset"@, "HEAD"@, "."@]))]
    }

    /// Undoing with `observed` found out hands back `r`.
    pub open spec fn undoes_to(&self, observed: Observation, r: Vec<Effect>) -> bool {
        effect_views(r@) == if self.patch().len() == 0 { Seq::empty() } else {
                seq![run_checked(apply_patch_call(self.patch(), false, true))]
            }
    }

    /// Nothing needs to be found out before running.
    pub fn probe_execute(&self) -> (p: Probe)
        ensures
            p@ == self.execute_probe(),
    {
        Probe::Nothing
    }

    /// Unstages everything: `git reset HEAD .`.
    pub fn execute(&mut self, observed: &Observation) -> (r: Option<Vec<Effect>>)
        ensures
            *final(self) == *old(self),
            old(self).executes_to(*observed, r),
    {
        let mut v: Vec<Effect> = Vec::new();
        v.push(Effect::Git(git::unstage_all()));
        assert(effect_views(v@) =~= seq![run(git_call(seq!["reset"@, "HEAD"@, "."@]))]);
        Some(v)
    }

    /// Nothing needs to be found out before undoing.
    pub fn probe_undo(&self) -> (p: Probe)
        ensures
            p@ == self.undo_probe(),
    {
        Probe::Nothing
    }

    /// Applies the kept staged diff to the index, unless it is empty.
    pub fn undo(&mut self, observed: &Observation) -> (r: Vec<Effect>)
        ensures
            *final(self) == *old(self),
            old(self).undoes_to(*observed, r),
    {
        let mut v: Vec<Effect> = Vec::new();
        if !self.patch.as_str().is_empty() {
            v.push(Effect::GitMustSucceed(git::apply_patch(self.patch.as_str(), false, true)));
        }
        assert(effect_views(v@) =~= if self.patch@.len() == 0 { Seq::empty() } else {
            seq![run_checked(apply_patch_call(self.patch@, false, true))]
        });
        v
    }
}

/// The runs of `call` on each of `files`, in order.
pub open spec fn each_file(files: Seq<Seq<char>>, call: spec_fn(Seq<char>) -> crate::git::GitRequestView) -> Seq<EffectView> {
    files.map_values(|f: Seq<char>| run(call(f)))
}

/// Which git call a per-file effect list runs.
#[derive(Clone, Copy)]
enum FileCall {
    Stage,
    Unstage,
    RemoveCached,
}

spec fn file_call_spec(c: FileCall) -> spec_fn(Seq<char>) -> crate::git::GitRequestView {
    match c {
        FileCall::Stage => |f: Seq<char>| stage_call(f),
        FileCall::Unstage => |f: Seq<char>| unstage_call(f),
        FileCall::RemoveCached => |f: Seq<char>| rm_cached_call(f),
    }
}

/// Builds one run of git per file.
fn per_file(files: &Vec<String>, call: FileCall) -> (v: Vec<Effect>)
    ensures
        effect_views(v@) == each_file(views(files@), file_call_spec(call)),
{
    let mut v: Vec<Effect> = Vec::new();
    let mut i: usize = 0;
    while i < files.len()
        invariant
            i <= files@.len(),
            effect_views(v@) == each_file(views(files@).subrange(0, i as int), file_call_spec(call)),
        decreases files@.len() - i,
    {
        let f = files[i].as_str();
        let r = match call {
            FileCall::Stage => git::stage_file(f),
            FileCall::Unstage => git::unstage_file(f),
            FileCall::RemoveCached => git::rm_cached(f),
        };
        assert(r@ == (file_call_spec(call))(files@[i as int]@));
        assert(views(files@).subrange(0, i + 1) == views(files@).subrange(0, i as int).push(files@[i as int]@));
        let ghost before = v@;
        v.push(Effect::Git(r));
        assert(effect_views(v@) =~= effect_views(before).push(run(r@)));
        assert(effect_views(v@) =~= each_file(views(files@).subrange(0, i + 1), file_call_spec(call)));
        i = i + 1;
    }
    assert(views(files@).subrange(0, files@.len() as int) =~= views(files@));
    v
}

/// Stages every tracked file with unstaged changes; undoing unstages them.
#[derive(Debug)]
pub struct StageUnstagedCommand {
    pub repo_path: String,
    pub files_to_stage: Vec<String>,
}

impl StageUnstagedCommand {
    /// Creates the command; `files_to_stage` lists the files with unstaged
    /// changes (`git diff --name-only`), empty when they could not be read.
    pub fn new(repo_path: String, files_to_stage: Vec<String>) -> (r: Self)
        ensures
            r.repo_path == repo_path,
            r.files() == views(files_to_stage@),
    {
        Self { repo_path, files_to_stage }
    }

    /// The files this command stages.
    pub closed spec fn files(&self) -> Seq<Seq<char>> {
        views(self.files_to_stage@)
    }

    /// The probe that running needs.
    pub open spec fn execute_probe(&self) -> ProbeView {
        ProbeView::Nothing
    }

    /// The probe that undoing needs.
    pub open spec fn undo_probe(&self) -> ProbeView {
        ProbeView::Nothing
    }

    /// Running with `observed` found out hands back `r`.
    pub open spec fn executes_to(&self, observed: Observation, r: Option<Vec<Effect>>) -> bool {
        r matches Some(v) && effect_views(v@) == each_file(self.files(), |f: Seq<char>| stage_call(f))
    }

    /// Undoing with `observed` found out hands back `r`.
    pub open spec fn undoes_to(&self, observed: Observation, r: Vec<Effect>) -> bool {
        effect_views(r@) == each_file(self.files(), |f: Seq<char>| unstage_call(f))
    }

    /// Nothing needs to be found out before running.
    pub fn probe_execute(&self) -> (p: Probe)
        ensures
            p@ == self.execute_probe(),
    {
        Probe::Nothing
    }

    /// Stages each file: `git add FILE`.
    pub fn execute(&mut self, observed: &Observation) -> (r: Option<Vec<Effect>>)
        ensures
            *final(self) == *old(self),
            old(self).executes_to(*observed, r),
    {
        Some(per_file(&self.files_to_stage, FileCall::Stage))
    }

    /// Nothing needs to be found out before undoing.
    pub fn probe_undo(&self) -> (p: Probe)
        ensures
            p@ == self.undo_probe(),
    {
        Probe::Nothing
    }

    /// Unstages each file: `git reset HEAD -- FILE`.
    pub fn undo(&mut self, observed: &Observation) -> (r: Vec<Effect>)
        ensures
            *final(self) == *old(self),
            old(self).undoes_to(*observed, r),
    {
        per_file(&self.files_to_stage, FileCall::Unstage)
    }
}

/// Stages every untracked file; undoing takes them out of the index again.
#[derive(Debug)]
pub struct StageUntrackedCommand {
    pub repo_path: String,
    pub untracked_files: Vec<String>,
}

impl StageUntrackedCommand {
    /// Creates the command; `untracked_files` lists the untracked files,
    /// empty when they could not be read.
    pub fn new(repo_path: String, untracked_files: Vec<String>) -> (r: Self)
        ensures
            r.repo_path == repo_path,
            r.files() == views(untracked_files@),
    {
        Self { repo_path, untracked_files }
    }

    /// The files this command stages.
    pub closed spec fn files(&self) -> Seq<Seq<char>> {
        views(self.untracked_files@)
    }

    /// The probe that running needs.
    pub open spec fn execute_probe(&self) -> ProbeView {
        ProbeView::Nothing
    }

    /// The probe that undoing needs.
    pub open spec fn undo_probe(&self) -> ProbeView {
        ProbeView::Nothing
    }

    /// Running with `observed` found out hands back `r`.
    pub open spec fn executes_to(&self, observed: Observation, r: Option<Vec<Effect>>) -> bool {
        r matches Some(v) && effect_views(v@) == each_file(self.files(), |f: Seq<char>| stage_call(f))
    }

    /// Undoing with `observed` found out hands back `r`.
    pub open spec fn undoes_to(&self, observed: Observation, r: Vec<Effect>) -> bool {
        effect_views(r@) == each_file(self.files(), |f: Seq<char>| rm_cached_call(f))
    }

    /// Nothing needs to be found out before running.
    pub fn probe_execute(&self) -> (p: Probe)
        ensures
            p@ == self.execute_probe(),
    {
        Probe::Nothing
    }

    /// Stages each file: `git add FILE`.
    pub fn execute(&mut self, observed: &Observation) -> (r: Option<Vec<Effect>>)
        ensures
            *final(self) == *old(self),
            old(self).executes_to(*observed, r),
    {
        Some(per_file(&self.untracked_files, FileCall::Stage))
    }

    /// Nothing needs to be found out before undoing.
    pub fn probe_undo(&self) -> (p: Probe)
        ensures
            p@ == self.undo_probe(),
    {
        Probe::Nothing
    }

    /// Removes each file from the index: `git rm --cached FILE`.
    pub fn undo(&mut self, observed: &Observation) -> (r: Vec<Effect>)
        ensures
            *final(self) == *old(self),
            old(self).undoes_to(*observed, r),
    {
        per_file(&self.untracked_files, FileCall::RemoveCached)
    }
}

/// Throws away all changes of a staged file (or deletes a staged new file);
/// undoing applies the staged changes again.
#[derive(Debug)]
pub struct DiscardFileCommand {
    pub repo_path: String,
    pub file_name: String,
    pub staged_patch: String,
    pub unstaged_patch: String,
    pub is_new_file: bool,
}

impl DiscardFileCommand {
    /// Creates the command; `staged_patch` is the file's staged diff
    /// (`git diff --staged -- FILE`) and `unstaged_patch` its unstaged diff
    /// (`git diff -- FILE`), each empty when it could not be read.
    pub fn new(repo_path: String, file_name: String, staged_patch: String, unstaged_patch: String,
        is_new_file: bool) -> (r: Self)
        ensures
            r.repo_path == repo_path,
            r.file_name == file_name,
            r.staged_patch() == staged_patch@,
            r.unstaged_patch() == unstaged_patch@,
            r.is_new_file() == is_new_file,
    {
        Self { repo_path, file_name, staged_patch, unstaged_patch, is_new_file }
    }

    /// The file's staged changes, kept for undo.
    pub closed spec fn staged_patch(&self) -> Seq<char> {
        self.staged_patch@
    }

    /// The file's unstaged changes, kept for undo.
    pub closed spec fn unstaged_patch(&self) -> Seq<char> {
        self.unstaged_patch@
    }

    /// Whether the file is new.
    pub closed spec fn is_new_file(&self) -> bool {
        self.is_new_file
    }

    /// The probe that running needs.
    pub open spec fn execute_probe(&self) -> ProbeView {
        ProbeView::Nothing
    }

    /// The probe that undoing needs.
    pub open spec fn undo_probe(&self) -> ProbeView {
        ProbeView::Nothing
    }

    /// Running with `observed` found out hands back `r`: all of the file's
    /// changes, staged and unstaged, are thrown away.
    pub open spec fn executes_to(&self, observed: Observation, r: Option<Vec<Effect>>) -> bool {
        r matches Some(v) && effect_views(v@) == if self.is_new_file() {
            seq![run(rm_cached_call(self.file_name@)), EffectView::RemoveFile { path: self.file_name@ }]
        } else {
            seq![run(unstage_call(self.file_name@)), run(checkout_call(self.file_name@))]
        }
    }

    /// Undoing with `observed` found out hands back `r`: the staged changes
    /// go back to the index and the work tree, then the unstaged changes go
    /// back to the work tree (when there were any).
    pub open spec fn undoes_to(&self, observed: Observation, r: Vec<Effect>) -> bool {
        effect_views(r@) == (if self.is_new_file() {
                seq![run_checked(apply_patch_call(self.staged_patch(), false, true)), run(checkout_call(self.file_name@))]
            } else {
                seq![run_checked(apply_patch_call(self.staged_patch(), false, false)),
                    run_checked(apply_patch_call(self.staged_patch(), false, true))]
            }) + (if self.unstaged_patch().len() == 0 {
                Seq::empty()
            } else {
                seq![run_checked(apply_patch_call(self.unstaged_patch(), false, false))]
            })
    }

    /// Nothing needs to be found out before running.
    pub fn probe_execute(&self) -> (p: Probe)
        ensures
            p@ == self.execute_probe(),
    {
        Probe::Nothing
    }

    /// Throws away every change to the file: a new file is removed from the
    /// index and deleted; any other file is unstaged and checked out.
    pub fn execute(&mut self, observed: &Observation) -> (r: Option<Vec<Effect>>)
        ensures
            *final(self) == *old(self),
            old(self).executes_to(*observed, r),
    {
        let mut v: Vec<Effect> = Vec::new();
        if self.is_new_file {
            v.push(Effect::Git(git::rm_cached(self.file_name.as_str())));
            v.push(Effect::RemoveFile { path: self.file_name.clone() });
        } else {
            v.push(Effect::Git(git::unstage_file(self.file_name.as_str())));
            v.push(Effect::Git(git::checkout_file(self.file_name.as_str())));
        }
        assert(effect_views(v@) =~= if self.is_new_file {
            seq![run(rm_cached_call(self.file_name@)), EffectView::RemoveFile { path: self.file_name@ }]
        } else {
            seq![run(unstage_call(self.file_name@)), run(checkout_call(self.file_name@))]
        });
        Some(v)
    }

    /// Nothing needs to be found out before undoing.
    pub fn probe_undo(&self) -> (p: Probe)
        ensures
            p@ == self.undo_probe(),
    {
        Probe::Nothing
    }

    /// A new file: applies the staged diff to the index and checks the file
    /// out. Any other file: applies it to the work tree and to the index.
    /// Then the unstaged diff, if any, is applied to the work tree.
    pub fn undo(&mut self, observed: &Observation) -> (r: Vec<Effect>)
        ensures
            *final(self) == *old(self),
            old(self).undoes_to(*observed, r),
    {
        let mut v: Vec<Effect> = Vec::new();
        if self.is_new_file {
            v.push(Effect::GitMustSucceed(git::apply_patch(self.staged_patch.as_str(), false, true)));
            v.push(Effect::Git(git::checkout_file(self.file_name.as_str())));
        } else {
            v.push(Effect::GitMustSucceed(git::apply_patch(self.staged_patch.as_str(), false, false)));
            v.push(Effect::GitMustSucceed(git::apply_patch(self.staged_patch.as_str(), false, true)));
        }
        if !self.unstaged_patch.as_str().is_empty() {
            v.push(Effect::GitMustSucceed(git::apply_patch(self.unstaged_patch.as_str(), false, false)));
        }
        assert(effect_views(v@) =~= (if self.is_new_file {
                seq![run_checked(apply_patch_call(self.staged_patch@, false, true)), run(checkout_call(self.file_name@))]
            } else {
                seq![run_checked(apply_patch_call(self.staged_patch@, false, false)),
                    run_checked(apply_patch_call(self.staged_patch@, false, true))]
            }) + (if self.unstaged_patch@.len() == 0 {
                Seq::<EffectView>::empty()
            } else {
                seq![run_checked(apply_patch_call(self.unstaged_patch@, false, false))]
            }));
        v
    }
}

/// The pattern of the first line of a patch, capturing the old file name.
pub open spec fn patch_name_pattern() -> Seq<char> {
    "^diff --git a/(\"[^\"]+\"|\\S+)"@
}

/// The file a patch is about: group 1 of `patch_name_pattern` on the patch's
/// first line, without surrounding quotes.
pub open spec fn spec_file_name_from_patch(patch: Seq<char>) -> Option<Seq<char>> {
    let ls = lines(patch);
    if ls.len() == 0 {
        None
    } else {
        match crate::git::regex_group(patch_name_pattern(), ls[0], 1) {
            Some(g) => Some(trim_char(g, '"')),
            None => None,
        }
    }
}

/// Reads the name of the file a patch is about.
pub fn get_file_name_from_patch(patch: &str) -> (r: Option<String>)
    ensures
        match r {
            Some(n) => spec_file_name_from_patch(patch@) == Some(n@),
            None => spec_file_name_from_patch(patch@) is None,
        },
{
    let ls = split_lines(patch);
    if ls.len() == 0 {
        return None;
    }
    assert(views(ls@)[0] == ls@[0]@);
    match git::capture_group("^diff --git a/(\"[^\"]+\"|\\S+)", ls[0].as_str(), 1) {
        Some(g) => Some(trim_matches(g.as_str(), '"')),
        None => None,
    }
}

/// Throws away a staged hunk from both the index and the work tree; undoing
/// applies it to both again.
#[derive(Debug)]
pub struct DiscardHunkCommand {
    pub repo_path: String,
    pub patch: String,
}

impl DiscardHunkCommand {
    /// Creates the command.
    pub fn new(repo_path: String, patch: String) -> (r: Self)
        ensures
            r.repo_path == repo_path,
            r.patch == patch,
    {
        Self { repo_path, patch }
    }

    /// The probe that running needs.
    pub open spec fn execute_probe(&self) -> ProbeView {
        match spec_file_name_from_patch(self.patch@) {
                Some(n) => ProbeView::Git(git_call(seq!["diff"@, "--quiet"@, "--"@, n])),
                None => ProbeView::Nothing,
            }
    }

    /// The probe that undoing needs.
    pub open spec fn undo_probe(&self) -> ProbeView {
        ProbeView::Nothing
    }

    /// Running with `observed` found out hands back `r`.
    pub open spec fn executes_to(&self, observed: Observation, r: Option<Vec<Effect>>) -> bool {
        &&& (spec_file_name_from_patch(self.patch@) is Some && reports_unstaged_changes(observed) ==> r is None)
        &&& (!(spec_file_name_from_patch(self.patch@) is Some && reports_unstaged_changes(observed)) ==>
                (r matches Some(v) && effect_views(v@) == seq![
                    run_checked(apply_patch_call(self.patch@, true, true)),
                    run_checked(apply_patch_call(self.patch@, true, false)),
                ]))
    }

    /// Undoing with `observed` found out hands back `r`.
    pub open spec fn undoes_to(&self, observed: Observation, r: Vec<Effect>) -> bool {
        effect_views(r@) == seq![
                run_checked(apply_patch_call(self.patch@, false, false)),
                run_checked(apply_patch_call(self.patch@, false, true)),
            ]
    }

    /// When the patch names its file, whether that file has unstaged changes
    /// must be found out first.
    pub fn probe_execute(&self) -> (p: Probe)
        ensures
            p@ == self.execute_probe(),
    {
        match get_file_name_from_patch(self.patch.as_str()) {
            Some(n) => Probe::Git(git::has_unstaged_changes_in_file(n.as_str())),
            None => Probe::Nothing,
        }
    }

    /// Refuses when the patch names a file that has unstaged changes (or that
    /// could not be checked); else applies the patch in reverse to the index
    /// and then to the work tree.
    pub fn execute(&mut self, observed: &Observation) -> (r: Option<Vec<Effect>>)
        ensures
            *final(self) == *old(self),
            old(self).executes_to(*observed, r),
    {
        if get_file_name_from_patch(self.patch.as_str()).is_some() {
            if parse_has_unstaged_changes_in_file(observed) {
                return None;
            }
        }
        let mut v: Vec<Effect> = Vec::new();
        v.push(Effect::GitMustSucceed(git::apply_patch(self.patch.as_str(), true, true)));
        v.push(Effect::GitMustSucceed(git::apply_patch(self.patch.as_str(), true, false)));
        assert(effect_views(v@) =~= seq![
            run_checked(apply_patch_call(self.patch@, true, true)),
            run_checked(apply_patch_call(self.patch@, true, false)),
        ]);
        Some(v)
    }

    /// Nothing needs to be found out before undoing.
    pub fn probe_undo(&self) -> (p: Probe)
        ensures
            p@ == self.undo_probe(),
    {
        Probe::Nothing
    }

    /// Applies the patch to the work tree and then to the index.
    pub fn undo(&mut self, observed: &Observation) -> (r: Vec<Effect>)
        ensures
            *final(self) == *old(self),
            old(self).undoes_to(*observed, r),
    {
        let mut v: Vec<Effect> = Vec::new();
        v.push(Effect::GitMustSucceed(git::apply_patch(self.patch.as_str(), false, false)));
        v.push(Effect::GitMustSucceed(git::apply_patch(self.patch.as_str(), false, true)));
        assert(effect_views(v@) =~= seq![
            run_checked(apply_patch_call(self.patch@, false, false)),
            run_checked(apply_patch_call(self.patch@, false, true)),
        ]);
        v
    }
}

/// Throws away a file's unstaged changes; undoing applies them again.
#[derive(Debug)]
pub struct CheckoutFileCommand {
    pub repo_path: String,
    pub file_name: String,
    pub patch: String,
}

impl CheckoutFileCommand {
    /// Creates the command; `patch` holds the file's unstaged changes.
    pub fn new(repo_path: String, file_name: String, patch: String) -> (r: Self)
        ensures
            r.repo_path == repo_path,
            r.file_name == file_name,
            r.patch == patch,
    {
        Self { repo_path, file_name, patch }
    }

    /// The probe that running needs.
    pub open spec fn execute_probe(&self) -> ProbeView {
        ProbeView::Nothing
    }

    /// The probe that undoing needs.
    pub open spec fn undo_probe(&self) -> ProbeView {
        ProbeView::Nothing
    }

    /// Running with `observed` found out hands back `r`.
    pub open spec fn executes_to(&self, observed: Observation, r: Option<Vec<Effect>>) -> bool {
        r matches Some(v) && effect_views(v@) == seq![run(checkout_call(self.file_name@))]
    }

    /// Undoing with `observed` found out hands back `r`.
    pub open spec fn undoes_to(&self, observed: Observation, r: Vec<Effect>) -> bool {
        effect_views(r@) == seq![run_checked(apply_patch_call(self.patch@, false, false))]
    }

    /// Nothing needs to be found out before running.
    pub fn probe_execute(&self) -> (p: Probe)
        ensures
            p@ == self.execute_probe(),
    {
        Probe::Nothing
    }

    /// Checks the file out: `git checkout -- FILE`.
    pub fn execute(&mut self, observed: &Observation) -> (r: Option<Vec<Effect>>)
        ensures
            *final(self) == *old(self),
            old(self).executes_to(*observed, r),
    {
        let mut v: Vec<Effect> = Vec::new();
        v.push(Effect::Git(git::checkout_file(self.file_name.as_str())));
        assert(effect_views(v@) =~= seq![run(checkout_call(self.file_name@))]);
        Some(v)
    }

    /// Nothing needs to be found out before undoing.
    pub fn probe_undo(&self) -> (p: Probe)
        ensures
            p@ == self.undo_probe(),
    {
        Probe::Nothing
    }

    /// Applies the kept changes to the work tree.
    pub fn undo(&mut self, observed: &Observation) -> (r: Vec<Effect>)
        ensures
            *final(self) == *old(self),
            old(self).undoes_to(*observed, r),
    {
        let mut v: Vec<Effect> = Vec::new();
        v.push(Effect::GitMustSucceed(git::apply_patch(self.patch.as_str(), false, false)));
        assert(effect_views(v@) =~= seq![run_checked(apply_patch_call(self.patch@, false, false))]);
        v
    }
}

/// Ignores a staged file: adds it to `.gitignore` and takes it out of the
/// index; undoing takes the entry out and stages the file again.
#[derive(Debug)]
pub struct IgnoreFileCommand {
    pub repo_path: String,
    pub file_name: String,
}

impl IgnoreFileCommand {
    /// Creates the command.
    pub fn new(repo_path: String, file_name: String) -> (r: Self)
        ensures
            r.repo_path == repo_path,
            r.file_name == file_name,
    {
        Self { repo_path, file_name }
    }

    /// The probe that running needs.
    pub open spec fn execute_probe(&self) -> ProbeView {
        ProbeView::Nothing
    }

    /// The probe that undoing needs.
    pub open spec fn undo_probe(&self) -> ProbeView {
        read_gitignore_probe()
    }

    /// Running with `observed` found out hands back `r`.
    pub open spec fn executes_to(&self, observed: Observation, r: Option<Vec<Effect>>) -> bool {
        r matches Some(v) && effect_views(v@) == ignore_effects(self.file_name@, seq![run(rm_cached_call(self.file_name@))])
    }

    /// Undoing with `observed` found out hands back `r`.
    pub open spec fn undoes_to(&self, observed: Observation, r: Vec<Effect>) -> bool {
        effect_views(r@) == rewrite_ignore_effects(observed_file(observed), self.file_name@, seq![run(git_call(seq!["rm"@, gitignore()]))])
                + seq![run(stage_call(self.file_name@))]
    }

    /// Nothing needs to be found out before running.
    pub fn probe_execute(&self) -> (p: Probe)
        ensures
            p@ == self.execute_probe(),
    {
        Probe::Nothing
    }

    /// Appends the file to `.gitignore`, stages `.gitignore` and removes the
    /// file from the index.
    pub fn execute(&mut self, observed: &Observation) -> (r: Option<Vec<Effect>>)
        ensures
            *final(self) == *old(self),
            old(self).executes_to(*observed, r),
    {
        let mut v = ignore_entry_effects(self.file_name.as_str());
        let ghost before = v@;
        v.push(Effect::Git(git::rm_cached(self.file_name.as_str())));
        assert(effect_views(v@) =~= effect_views(before).push(run(rm_cached_call(self.file_name@))));
        Some(v)
    }

    /// The text of `.gitignore` is needed to undo.
    pub fn probe_undo(&self) -> (p: Probe)
        ensures
            p@ == self.undo_probe(),
    {
        read_gitignore()
    }

    /// Takes the entry out of `.gitignore` (deleting it with `git rm` when
    /// nothing stays, else rewriting and staging it), then stages the file.
    pub fn undo(&mut self, observed: &Observation) -> (r: Vec<Effect>)
        ensures
            *final(self) == *old(self),
            old(self).undoes_to(*observed, r),
    {
        let mut on_empty: Vec<Effect> = Vec::new();
        on_empty.push(Effect::Git(git::rm_file_from_index(".gitignore")));
        assert(effect_views(on_empty@) =~= seq![run(git_call(seq!["rm"@, gitignore()]))]);
        let mut v = rewrite_ignore(observed, self.file_name.as_str(), on_empty);
        let ghost before = v@;
        v.push(Effect::Git(git::stage_file(self.file_name.as_str())));
        assert(effect_views(v@) =~= effect_views(before) + seq![run(stage_call(self.file_name@))]);
        v
    }
}

/// Removes a staged file with `git rm -f`; undoing applies its changes again
/// and stages it.
#[derive(Debug)]
pub struct RemoveFileCommand {
    pub repo_path: String,
    pub file_name: String,
    pub patch: String,
}

impl RemoveFileCommand {
    /// Creates the command; `patch` holds the changes to restore on undo.
    pub fn new(repo_path: String, file_name: String, patch: String) -> (r: Self)
        ensures
            r.repo_path == repo_path,
            r.file_name == file_name,
            r.patch == patch,
    {
        Self { repo_path, file_name, patch }
    }

    /// The probe that running needs.
    pub open spec fn execute_probe(&self) -> ProbeView {
        ProbeView::Nothing
    }

    /// The probe that undoing needs.
    pub open spec fn undo_probe(&self) -> ProbeView {
        ProbeView::Nothing
    }

    /// Running with `observed` found out hands back `r`.
    pub open spec fn executes_to(&self, observed: Observation, r: Option<Vec<Effect>>) -> bool {
        r matches Some(v) && effect_views(v@) == seq![run(git_call(seq!["rm"@, "-f"@, self.file_name@]))]
    }

    /// Undoing with `observed` found out hands back `r`.
    pub open spec fn undoes_to(&self, observed: Observation, r: Vec<Effect>) -> bool {
        effect_views(r@) == seq![run_checked(apply_patch_call(self.patch@, false, false)), run(stage_call(self.file_name@))]
    }

    /// Nothing needs to be found out before running.
    pub fn probe_execute(&self) -> (p: Probe)
        ensures
            p@ == self.execute_probe(),
    {
        Probe::Nothing
    }

    /// Removes the file: `git rm -f FILE`.
    pub fn execute(&mut self, observed: &Observation) -> (r: Option<Vec<Effect>>)
        ensures
            *final(self) == *old(self),
            old(self).executes_to(*observed, r),
    {
        let mut v: Vec<Effect> = Vec::new();
        v.push(Effect::Git(git::rm_file(self.file_name.as_str())));
        assert(effect_views(v@) =~= seq![run(git_call(seq!["rm"@, "-f"@, self.file_name@]))]);
        Some(v)
    }

    /// Nothing needs to be found out before undoing.
    pub fn probe_undo(&self) -> (p: Probe)
        ensures
            p@ == self.undo_probe(),
    {
        Probe::Nothing
    }

    /// Applies the kept changes to the work tree and stages the file.
    pub fn undo(&mut self, observed: &Observation) -> (r: Vec<Effect>)
        ensures
            *final(self) == *old(self),
            old(self).undoes_to(*observed, r),
    {
        let mut v: Vec<Effect> = Vec::new();
        v.push(Effect::GitMustSucceed(git::apply_patch(self.patch.as_str(), false, false)));
        v.push(Effect::Git(git::stage_file(self.file_name.as_str())));
        assert(effect_views(v@) =~= seq![run_checked(apply_patch_call(self.patch@, false, false)), run(stage_call(self.file_name@))]);
        v
    }
}

/// The size limit under which staging everything runs: the largest size a
/// file can have, so that every untracked file is staged.
pub open spec fn add_all_limit() -> u64 {
    18446744073709551615u64
}

/// Stages every change, untracked files of any size included; undoing takes the
/// untracked files out of the index and unstages the other changes.
#[derive(Debug)]
pub struct StageAllCommand {
    pub repo_path: String,
    pub patch: String,
    pub untracked_files: Vec<String>,
}

impl StageAllCommand {
    /// Creates the command; `patch` is the unstaged diff (`git diff`) and
    /// `untracked_files` the untracked files, each empty when unreadable.
    pub fn new(repo_path: String, patch: String, untracked_files: Vec<String>) -> (r: Self)
        ensures
            r.repo_path == repo_path,
            r.patch() == patch@,
            r.untracked() == views(untracked_files@),
    {
        Self { repo_path, patch, untracked_files }
    }

    /// The unstaged changes kept for undo.
    pub closed spec fn patch(&self) -> Seq<char> {
        self.patch@
    }

    /// The untracked files kept for undo.
    pub closed spec fn untracked(&self) -> Seq<Seq<char>> {
        views(self.untracked_files@)
    }

    /// The probe that running needs.
    pub open spec fn execute_probe(&self) -> ProbeView {
        ProbeView::Nothing
    }

    /// The probe that undoing needs.
    pub open spec fn undo_probe(&self) -> ProbeView {
        ProbeView::Nothing
    }

    /// Running with `observed` found out hands back `r`.
    pub open spec fn executes_to(&self, observed: Observation, r: Option<Vec<Effect>>) -> bool {
        r matches Some(v) && effect_views(v@) == seq![EffectView::StageAllWithinSize(add_all_limit())]
    }

    /// Undoing with `observed` found out hands back `r`.
    pub open spec fn undoes_to(&self, observed: Observation, r: Vec<Effect>) -> bool {
        effect_views(r@) == each_file(self.untracked(), |f: Seq<char>| rm_cached_call(f))
                + if self.patch().len() == 0 { Seq::empty() } else {
                    seq![run_checked(apply_patch_call(self.patch(), true, true))]
                }
    }

    /// Nothing needs to be found out before running.
    pub fn probe_execute(&self) -> (p: Probe)
        ensures
            p@ == self.execute_probe(),
    {
        Probe::Nothing
    }

    /// Stages everything, as `git::add_all` does.
    pub fn execute(&mut self, observed: &Observation) -> (r: Option<Vec<Effect>>)
        ensures
            *final(self) == *old(self),
            old(self).executes_to(*observed, r),
    {
        let mut v: Vec<Effect> = Vec::new();
        v.push(Effect::StageAllWithinSize(18446744073709551615));
        assert(effect_views(v@) =~= seq![EffectView::StageAllWithinSize(add_all_limit())]);
        Some(v)
    }

    /// Nothing needs to be found out before undoing.
    pub fn probe_undo(&self) -> (p: Probe)
        ensures
            p@ == self.undo_probe(),
    {
        Probe::Nothing
    }

    /// Removes each formerly untracked file from the index, then applies the
    /// kept diff in reverse to the index unless it is empty.
    pub fn undo(&mut self, observed: &Observation) -> (r: Vec<Effect>)
        ensures
            *final(self) == *old(self),
            old(self).undoes_to(*observed, r),
    {
        let mut v = per_file(&self.untracked_files, FileCall::RemoveCached);
        let ghost before = v@;
        if !self.patch.as_str().is_empty() {
            v.push(Effect::GitMustSucceed(git::apply_patch(self.patch.as_str(), true, true)));
        }
        assert(effect_views(v@) =~= effect_views(before) + if self.patch@.len() == 0 { Seq::empty() } else {
            seq![run_checked(apply_patch_call(self.patch@, true, true))]
        });
        v
    }
}

} // verus!
