use git_full_commit::command::effect::{Effect, Observation, Probe};
use git_full_commit::command::git_commands::{
    ApplyPatchCommand, CheckoutFileCommand, StageAllCommand, StageFileCommand, StagePatchCommand,
    StageUnstagedCommand, StageUntrackedCommand, UnstageAllCommand, UnstageFileCommand,
};
use git_full_commit::app_state::FocusedPane;
use git_full_commit::command::list_commands::{FixupCommitCommand, SwapCommitCommand};
use git_full_commit::command::{AnyCommand, CommandHistory, CommandKind};
use git_full_commit::cursor_state::CursorState;
use git_full_commit::command::reorder_commits::{ReorderCommitsCommand, ReorderRun, ReorderStep};
use git_full_commit::git::{CommitInfo, GitOutput, GitRequest};
use git_full_commit::ui::main_screen::ListItem;

const REPO: &str = "/tmp/repo";

/// The arguments of a run of git after the `-c core.quotepath=false` that
/// every run starts with.
fn args(r: &GitRequest) -> Vec<String> {
    assert_eq!(r.args[0], "-c");
    assert_eq!(r.args[1], "core.quotepath=false");
    r.args[2..].to_vec()
}

fn strs(v: &[&str]) -> Vec<String> {
    v.iter().map(|s| s.to_string()).collect()
}

/// A run of git whose failure is ignored, with these arguments.
fn assert_git(e: &Effect, expected: &[&str]) {
    match e {
        Effect::Git(r) => {
            assert_eq!(args(r), strs(expected));
            assert!(r.stdin.is_none());
        }
        other => panic!("expected a run of git, got {:?}", other),
    }
}

/// A run of `git apply` that must succeed, with these arguments and patch.
fn assert_apply(e: &Effect, expected: &[&str], patch: &str) {
    match e {
        Effect::GitMustSucceed(r) => {
            assert_eq!(args(r), strs(expected));
            assert_eq!(r.stdin.as_deref(), Some(patch));
        }
        other => panic!("expected git apply, got {:?}", other),
    }
}

fn ok_output(stdout: &str) -> Option<GitOutput> {
    Some(GitOutput { success: true, code: Some(0), stdout: stdout.to_string(), stderr: String::new() })
}

fn failed_output(stderr: &str) -> Option<GitOutput> {
    Some(GitOutput { success: false, code: Some(1), stdout: String::new(), stderr: stderr.to_string() })
}

fn commit(hash: &str, message: &str) -> CommitInfo {
    CommitInfo { hash: hash.to_string(), message: message.to_string(), is_on_remote: false, is_fixup: false }
}

const MODIFIED_PATCH: &str = "diff --git a/test.txt b/test.txt\nindex c0d0fb4..83db48f 100644\n--- a/test.txt\n+++ b/test.txt\n@@ -2,0 +3 @@ line2\n+line3\n";

#[test]
fn test_apply_patch_to_unstage() {
    let mut command = ApplyPatchCommand::new(REPO.to_string(), MODIFIED_PATCH.to_string());
    assert!(matches!(command.probe_execute(), Probe::Nothing));
    let effects = command.execute(&Observation::Nothing).unwrap();
    assert_eq!(effects.len(), 1);
    assert_apply(&effects[0], &["apply", "--cached", "--reverse", "--unidiff-zero", "-"], MODIFIED_PATCH);

    let effects = command.undo(&Observation::Nothing);
    assert_eq!(effects.len(), 1);
    assert_apply(&effects[0], &["apply", "--cached", "--unidiff-zero", "-"], MODIFIED_PATCH);

    let effects = command.execute(&Observation::Nothing).unwrap();
    assert_apply(&effects[0], &["apply", "--cached", "--reverse", "--unidiff-zero", "-"], MODIFIED_PATCH);
}

#[test]
fn test_checkout_file() {
    let mut command = CheckoutFileCommand::new(REPO.to_string(), "test.txt".to_string(), MODIFIED_PATCH.to_string());
    let effects = command.execute(&Observation::Nothing).unwrap();
    assert_eq!(effects.len(), 1);
    assert_git(&effects[0], &["checkout", "--", "test.txt"]);

    let effects = command.undo(&Observation::Nothing);
    assert_eq!(effects.len(), 1);
    assert_apply(&effects[0], &["apply", "--unidiff-zero", "-"], MODIFIED_PATCH);

    let effects = command.execute(&Observation::Nothing).unwrap();
    assert_git(&effects[0], &["checkout", "--", "test.txt"]);
}

fn dummy_commit_item(message: &str, is_fixup: bool) -> ListItem {
    ListItem::PreviousCommitInfo { hash: String::new(), message: message.to_string(), is_on_remote: false, is_fixup }
}

fn is_fixup_at(list: &[ListItem], index: usize) -> bool {
    if let ListItem::PreviousCommitInfo { is_fixup, .. } = &list[index] {
        *is_fixup
    } else {
        panic!("Expected a commit item at index {index}");
    }
}

#[test]
fn test_fixup_commit_command() {
    let mut list_items = vec![
        dummy_commit_item("third", false),
        dummy_commit_item("second", false),
        dummy_commit_item("first", false),
    ];
    let target_index = 1;
    assert!(!is_fixup_at(&list_items, target_index));

    let mut command = FixupCommitCommand::new(target_index);
    assert!(command.execute(&mut list_items));
    assert!(is_fixup_at(&list_items, target_index));

    let mut command = FixupCommitCommand::new(target_index);
    command.undo(&mut list_items);
    assert!(!is_fixup_at(&list_items, target_index));
}

#[test]
fn test_fixup_commit_command_on_root_commit() {
    let mut list_items = vec![dummy_commit_item("second", false), dummy_commit_item("first", false)];
    let target_index = 1;
    assert!(!is_fixup_at(&list_items, target_index));

    let mut command = FixupCommitCommand::new(target_index);
    assert!(!command.execute(&mut list_items));
    assert!(!is_fixup_at(&list_items, target_index));
}

/// Drives a reorder run, answering each run of git with the next reply, and
/// gives back the arguments of every run asked for and the outcome.
fn drive_reorder(run: &mut ReorderRun, first: ReorderStep, replies: Vec<Option<GitOutput>>) -> (Vec<Vec<String>>, bool) {
    let mut asked = Vec::new();
    let mut step = first;
    let mut replies = replies.into_iter();
    loop {
        match step {
            ReorderStep::Finished(outcome) => {
                assert!(replies.next().is_none(), "the run ended before every reply was used");
                return (asked, outcome);
            }
            ReorderStep::Run(r) => {
                asked.push(args(&r));
                let reply = replies.next().expect("the run asked for more than was scripted");
                step = run.resume(reply);
            }
        }
    }
}

#[test]
fn test_reorder_commits_no_commits() {
    let mut command = ReorderCommitsCommand::new(REPO.to_string(), vec![], vec![]);
    assert!(matches!(command.probe_execute(), Probe::Nothing));
    assert!(command.execute(&Observation::Nothing).is_none());
    let (_, step) = ReorderRun::begin_at(vec![], vec![], 1);
    assert!(matches!(step, ReorderStep::Finished(false)));
}

#[test]
fn test_reorder_commits_one_commit() {
    let log = vec![commit("aaaaaaa", "first")];
    let mut command = ReorderCommitsCommand::new(REPO.to_string(), log.clone(), log.clone());
    assert!(command.execute(&Observation::Nothing).is_none());
    let (_, step) = ReorderRun::begin_at(log.clone(), log, 1);
    assert!(matches!(step, ReorderStep::Finished(false)));
}

#[test]
fn test_reorder_commits_same_order() {
    let log = vec![commit("bbbbbbb", "second"), commit("aaaaaaa", "first")];
    let mut command = ReorderCommitsCommand::new(REPO.to_string(), log.clone(), log.clone());
    assert!(matches!(command.probe_execute(), Probe::Nothing));
    let effects = command.execute(&Observation::Nothing).unwrap();
    assert!(effects.is_empty());
    let (_, step) = ReorderRun::begin_at(log.clone(), log, 1);
    assert!(matches!(step, ReorderStep::Finished(true)));
}

#[test]
fn test_reorder_commits_git_error() {
    let log = vec![commit("ccccccc", "third"), commit("bbbbbbb", "second"), commit("aaaaaaa", "first")];
    let mut reordered = log.clone();
    reordered.swap(0, 1);
    let mut command = ReorderCommitsCommand::new(REPO.to_string(), log.clone(), reordered.clone());
    assert!(matches!(command.probe_execute(), Probe::Reorder));

    let (mut run, step) = ReorderRun::begin_at(log, reordered, 42);
    let (asked, outcome) = drive_reorder(&mut run, step, vec![
        ok_output("main\n"),
        ok_output("No local changes to save\n"),
        ok_output(""),
        ok_output(""),
        failed_output("error: could not apply ccccccc... third"),
        ok_output(""),
        ok_output(""),
        ok_output(""),
    ]);
    assert_eq!(asked, vec![
        strs(&["rev-parse", "--abbrev-ref", "HEAD"]),
        strs(&["stash", "push", "-u", "-m", "git-branchless-reorder-stash"]),
        strs(&["branch", "reorder-temp-42", "aaaaaaa"]),
        strs(&["checkout", "reorder-temp-42"]),
        strs(&["cherry-pick", "--allow-empty", "ccccccc"]),
        strs(&["cherry-pick", "--abort"]),
        strs(&["checkout", "main"]),
        strs(&["branch", "-D", "reorder-temp-42"]),
    ]);
    assert!(!outcome);
    assert!(command.execute(&Observation::Reorder(outcome)).is_none());
}

#[test]
fn test_reorder_commits_successfully() {
    let log = vec![commit("ccccccc", "third"), commit("bbbbbbb", "second"), commit("aaaaaaa", "first")];
    let mut reordered = log.clone();
    reordered.swap(0, 1);
    let (mut run, step) = ReorderRun::begin_at(log.clone(), reordered.clone(), 7);
    let (asked, outcome) = drive_reorder(&mut run, step, vec![
        ok_output("main\n"),
        ok_output("No local changes to save\n"),
        ok_output(""),
        ok_output(""),
        ok_output(""),
        ok_output(""),
        ok_output(""),
        ok_output(""),
        ok_output(""),
    ]);
    assert_eq!(asked, vec![
        strs(&["rev-parse", "--abbrev-ref", "HEAD"]),
        strs(&["stash", "push", "-u", "-m", "git-branchless-reorder-stash"]),
        strs(&["branch", "reorder-temp-7", "aaaaaaa"]),
        strs(&["checkout", "reorder-temp-7"]),
        strs(&["cherry-pick", "--allow-empty", "ccccccc"]),
        strs(&["cherry-pick", "--allow-empty", "bbbbbbb"]),
        strs(&["checkout", "main"]),
        strs(&["reset", "--hard", "reorder-temp-7"]),
        strs(&["branch", "-D", "reorder-temp-7"]),
    ]);
    assert!(outcome);
    let mut command = ReorderCommitsCommand::new(REPO.to_string(), log, reordered);
    assert!(command.execute(&Observation::Reorder(outcome)).unwrap().is_empty());
    let undo = command.undo(&Observation::Nothing);
    assert_eq!(undo.len(), 1);
    match &undo[0] {
        Effect::GitBestEffort(r) => assert_eq!(args(r), strs(&["reset", "--hard", "HEAD@{1}"])),
        other => panic!("unexpected {:?}", other),
    }
}

#[test]
fn test_reorder_commits_with_unstaged_changes() {
    let log = vec![commit("bbbbbbb", "second"), commit("aaaaaaa", "first")];
    let mut reordered = log.clone();
    reordered.swap(0, 1);
    let (mut run, step) = ReorderRun::begin_at(log, reordered, 9);
    let (asked, outcome) = drive_reorder(&mut run, step, vec![
        ok_output("main\n"),
        ok_output("Saved working directory and index state On main: git-branchless-reorder-stash\n"),
        ok_output(""),
        ok_output(""),
        ok_output(""),
        ok_output(""),
        ok_output(""),
        ok_output(""),
        ok_output(""),
        ok_output("stash@{0}: On main: git-branchless-reorder-stash\n"),
        ok_output(""),
    ]);
    assert_eq!(asked, vec![
        strs(&["rev-parse", "--abbrev-ref", "HEAD"]),
        strs(&["stash", "push", "-u", "-m", "git-branchless-reorder-stash"]),
        strs(&["checkout", "--orphan", "reorder-temp-9"]),
        strs(&["rm", "-rf", "."]),
        strs(&["cherry-pick", "--allow-empty", "bbbbbbb"]),
        strs(&["cherry-pick", "--allow-empty", "aaaaaaa"]),
        strs(&["checkout", "main"]),
        strs(&["reset", "--hard", "reorder-temp-9"]),
        strs(&["branch", "-D", "reorder-temp-9"]),
        strs(&["stash", "list"]),
        strs(&["stash", "pop", "stash@{0}"]),
    ]);
    assert!(outcome);
}

#[test]
fn test_reorder_commits_with_fixup() {
    let log = vec![commit("ccccccc", "third"), commit("bbbbbbb", "second"), commit("aaaaaaa", "first")];
    let mut reordered = log.clone();
    reordered[1].is_fixup = true;
    let (mut run, step) = ReorderRun::begin_at(log, reordered, 3);
    let (asked, outcome) = drive_reorder(&mut run, step, vec![
        ok_output("main\n"),
        ok_output("No local changes to save\n"),
        ok_output(""),
        ok_output(""),
        ok_output(""),
        ok_output(""),
        ok_output(""),
        ok_output(""),
        ok_output(""),
        ok_output(""),
    ]);
    assert_eq!(asked, vec![
        strs(&["rev-parse", "--abbrev-ref", "HEAD"]),
        strs(&["stash", "push", "-u", "-m", "git-branchless-reorder-stash"]),
        strs(&["branch", "reorder-temp-3", "aaaaaaa"]),
        strs(&["checkout", "reorder-temp-3"]),
        strs(&["cherry-pick", "--no-commit", "bbbbbbb"]),
        strs(&["commit", "--amend", "--no-edit", "--allow-empty"]),
        strs(&["cherry-pick", "--allow-empty", "ccccccc"]),
        strs(&["checkout", "main"]),
        strs(&["reset", "--hard", "reorder-temp-3"]),
        strs(&["branch", "-D", "reorder-temp-3"]),
    ]);
    assert!(outcome);
}

#[test]
fn test_reorder_commits_with_message_change() {
    let original = vec![commit("2222222", "commit 2"), commit("1111111", "commit 1"), commit("0000000", "commit 0")];
    let mut reordered = original.clone();
    reordered.swap(0, 1);
    reordered.iter_mut().find(|c| c.message == "commit 1").unwrap().message = "new message".to_string();
    let (mut run, step) = ReorderRun::begin_at(original.clone(), reordered.clone(), 5);
    let (asked, outcome) = drive_reorder(&mut run, step, vec![
        ok_output("main\n"),
        ok_output("No local changes to save\n"),
        ok_output(""),
        ok_output(""),
        ok_output(""),
        ok_output(""),
        ok_output(""),
        ok_output(""),
        ok_output(""),
        ok_output(""),
    ]);
    assert_eq!(asked, vec![
        strs(&["rev-parse", "--abbrev-ref", "HEAD"]),
        strs(&["stash", "push", "-u", "-m", "git-branchless-reorder-stash"]),
        strs(&["branch", "reorder-temp-5", "0000000"]),
        strs(&["checkout", "reorder-temp-5"]),
        strs(&["cherry-pick", "--allow-empty", "2222222"]),
        strs(&["cherry-pick", "--allow-empty", "1111111"]),
        strs(&["commit", "--amend", "--allow-empty", "-m", "new message"]),
        strs(&["checkout", "main"]),
        strs(&["reset", "--hard", "reorder-temp-5"]),
        strs(&["branch", "-D", "reorder-temp-5"]),
    ]);
    assert!(outcome);
    let mut command = ReorderCommitsCommand::new(REPO.to_string(), original, reordered);
    assert!(command.execute(&Observation::Reorder(true)).is_some());
}

const TWO_FILES_PATCH: &str = "diff --git a/file1.txt b/file1.txt\n--- a/file1.txt\n+++ b/file1.txt\n@@ -1 +1 @@\n-content1\n+content1 more\ndiff --git a/file2.txt b/file2.txt\n--- a/file2.txt\n+++ b/file2.txt\n@@ -1 +1 @@\n-content2\n+content2 more\n";

fn assert_stage_all_execute(command: &mut StageAllCommand) {
    let effects = command.execute(&Observation::Nothing).unwrap();
    assert_eq!(effects.len(), 1);
    assert!(matches!(effects[0], Effect::StageAllWithinSize(u64::MAX)));
}

#[test]
fn test_stage_all_modified_only() {
    let mut command = StageAllCommand::new(REPO.to_string(), TWO_FILES_PATCH.to_string(), vec![]);
    assert_stage_all_execute(&mut command);
    let undo = command.undo(&Observation::Nothing);
    assert_eq!(undo.len(), 1);
    assert_apply(&undo[0], &["apply", "--cached", "--reverse", "--unidiff-zero", "-"], TWO_FILES_PATCH);
    assert_stage_all_execute(&mut command);
}

#[test]
fn test_stage_all_untracked_only() {
    let mut command = StageAllCommand::new(REPO.to_string(), String::new(), strs(&["file1.txt", "file2.txt"]));
    assert_stage_all_execute(&mut command);
    let undo = command.undo(&Observation::Nothing);
    assert_eq!(undo.len(), 2);
    assert_git(&undo[0], &["rm", "--cached", "file1.txt"]);
    assert_git(&undo[1], &["rm", "--cached", "file2.txt"]);
}

#[test]
fn test_stage_all_mixed_statuses() {
    let patch = "diff --git a/modified.txt b/modified.txt\n--- a/modified.txt\n+++ b/modified.txt\n@@ -1 +1 @@\n-initial\n+initial changes\n";
    let mut command = StageAllCommand::new(REPO.to_string(), patch.to_string(), strs(&["untracked.txt"]));
    assert_stage_all_execute(&mut command);
    let undo = command.undo(&Observation::Nothing);
    assert_eq!(undo.len(), 2);
    assert_git(&undo[0], &["rm", "--cached", "untracked.txt"]);
    assert_apply(&undo[1], &["apply", "--cached", "--reverse", "--unidiff-zero", "-"], patch);
}

#[test]
fn test_stage_all_with_no_changes() {
    let mut command = StageAllCommand::new(REPO.to_string(), String::new(), vec![]);
    assert_stage_all_execute(&mut command);
    assert!(command.undo(&Observation::Nothing).is_empty());
}

fn assert_stage_file_cycle(file_name: &str) {
    let mut command = StageFileCommand::new(REPO.to_string(), file_name.to_string());
    let effects = command.execute(&Observation::Nothing).unwrap();
    assert_eq!(effects.len(), 1);
    assert_git(&effects[0], &["add", file_name]);
    let undo = command.undo(&Observation::Nothing);
    assert_eq!(undo.len(), 1);
    assert_git(&undo[0], &["reset", "HEAD", "--", file_name]);
    let effects = command.execute(&Observation::Nothing).unwrap();
    assert_git(&effects[0], &["add", file_name]);
}

#[test]
fn test_stage_modified_file() {
    assert_stage_file_cycle("test.txt");
}

#[test]
fn test_stage_untracked_file() {
    assert_stage_file_cycle("test.txt");
}

#[test]
fn test_stage_already_staged_file() {
    let mut command = StageFileCommand::new(REPO.to_string(), "test.txt".to_string());
    let effects = command.execute(&Observation::Nothing).unwrap();
    assert_git(&effects[0], &["add", "test.txt"]);
    // Undoing unstages the file whatever its state before.
    let undo = command.undo(&Observation::Nothing);
    assert_git(&undo[0], &["reset", "HEAD", "--", "test.txt"]);
}

#[test]
fn test_stage_patch() {
    let patch = "diff --git a/test.txt b/test.txt\n--- a/test.txt\n+++ b/test.txt\n@@ -2,0 +3 @@ line2\n+line3\n";
    let mut command = StagePatchCommand::new(REPO.to_string(), patch.to_string());
    let effects = command.execute(&Observation::Nothing).unwrap();
    assert_eq!(effects.len(), 1);
    assert_apply(&effects[0], &["apply", "--cached", "--unidiff-zero", "-"], patch);
    let undo = command.undo(&Observation::Nothing);
    assert_eq!(undo.len(), 1);
    assert_apply(&undo[0], &["apply", "--cached", "--reverse", "--unidiff-zero", "-"], patch);
    let effects = command.execute(&Observation::Nothing).unwrap();
    assert_apply(&effects[0], &["apply", "--cached", "--unidiff-zero", "-"], patch);
}

#[test]
fn test_stage_unstaged_files() {
    let mut command = StageUnstagedCommand::new(REPO.to_string(), strs(&["file1.txt", "file2.txt"]));
    let effects = command.execute(&Observation::Nothing).unwrap();
    assert_eq!(effects.len(), 2);
    assert_git(&effects[0], &["add", "file1.txt"]);
    assert_git(&effects[1], &["add", "file2.txt"]);
    let undo = command.undo(&Observation::Nothing);
    assert_eq!(undo.len(), 2);
    assert_git(&undo[0], &["reset", "HEAD", "--", "file1.txt"]);
    assert_git(&undo[1], &["reset", "HEAD", "--", "file2.txt"]);
    let effects = command.execute(&Observation::Nothing).unwrap();
    assert_eq!(effects.len(), 2);
}

#[test]
fn test_stage_unstaged_with_untracked_files_present() {
    // `git diff --name-only` lists tracked files only, so the untracked file
    // is not among the files to stage.
    let mut command = StageUnstagedCommand::new(REPO.to_string(), strs(&["modified.txt"]));
    let effects = command.execute(&Observation::Nothing).unwrap();
    assert_eq!(effects.len(), 1);
    assert_git(&effects[0], &["add", "modified.txt"]);
    let undo = command.undo(&Observation::Nothing);
    assert_eq!(undo.len(), 1);
    assert_git(&undo[0], &["reset", "HEAD", "--", "modified.txt"]);
}

#[test]
fn test_stage_unstaged_with_no_unstaged_files() {
    let mut command = StageUnstagedCommand::new(REPO.to_string(), vec![]);
    assert!(command.execute(&Observation::Nothing).unwrap().is_empty());
    assert!(command.undo(&Observation::Nothing).is_empty());
}

#[test]
fn test_stage_untracked_files() {
    let mut command = StageUntrackedCommand::new(REPO.to_string(), strs(&["file1.txt", "file2.txt"]));
    let effects = command.execute(&Observation::Nothing).unwrap();
    assert_eq!(effects.len(), 2);
    assert_git(&effects[0], &["add", "file1.txt"]);
    assert_git(&effects[1], &["add", "file2.txt"]);
    let undo = command.undo(&Observation::Nothing);
    assert_eq!(undo.len(), 2);
    assert_git(&undo[0], &["rm", "--cached", "file1.txt"]);
    assert_git(&undo[1], &["rm", "--cached", "file2.txt"]);
    let effects = command.execute(&Observation::Nothing).unwrap();
    assert_eq!(effects.len(), 2);
}

#[test]
fn test_stage_untracked_with_modified_files_present() {
    let mut command = StageUntrackedCommand::new(REPO.to_string(), strs(&["untracked.txt"]));
    let effects = command.execute(&Observation::Nothing).unwrap();
    assert_eq!(effects.len(), 1);
    assert_git(&effects[0], &["add", "untracked.txt"]);
    let undo = command.undo(&Observation::Nothing);
    assert_git(&undo[0], &["rm", "--cached", "untracked.txt"]);
}

#[test]
fn test_stage_untracked_with_no_untracked_files() {
    let mut command = StageUntrackedCommand::new(REPO.to_string(), vec![]);
    assert!(command.execute(&Observation::Nothing).unwrap().is_empty());
    assert!(command.undo(&Observation::Nothing).is_empty());
}

#[test]
fn test_unstage_all_simple() {
    let patch = "diff --git a/file1.txt b/file1.txt\nnew file mode 100644\n--- /dev/null\n+++ b/file1.txt\n@@ -0,0 +1 @@\n+content1\n";
    let mut command = UnstageAllCommand::new(REPO.to_string(), patch.to_string());
    let effects = command.execute(&Observation::Nothing).unwrap();
    assert_eq!(effects.len(), 1);
    assert_git(&effects[0], &["reset", "HEAD", "."]);
    let undo = command.undo(&Observation::Nothing);
    assert_eq!(undo.len(), 1);
    assert_apply(&undo[0], &["apply", "--cached", "--unidiff-zero", "-"], patch);
    let effects = command.execute(&Observation::Nothing).unwrap();
    assert_git(&effects[0], &["reset", "HEAD", "."]);
}

#[test]
fn test_unstage_all_with_mixed_staged_changes() {
    let patch = "diff --git a/modified.txt b/modified.txt\n--- a/modified.txt\n+++ b/modified.txt\n@@ -1 +1 @@\n-initial\n+initial changes\ndiff --git a/new.txt b/new.txt\nnew file mode 100644\n--- /dev/null\n+++ b/new.txt\n@@ -0,0 +1 @@\n+new\n";
    let mut command = UnstageAllCommand::new(REPO.to_string(), patch.to_string());
    let effects = command.execute(&Observation::Nothing).unwrap();
    assert_git(&effects[0], &["reset", "HEAD", "."]);
    let undo = command.undo(&Observation::Nothing);
    assert_apply(&undo[0], &["apply", "--cached", "--unidiff-zero", "-"], patch);
}

#[test]
fn test_unstage_all_with_no_staged_changes() {
    let mut command = UnstageAllCommand::new(REPO.to_string(), String::new());
    let effects = command.execute(&Observation::Nothing).unwrap();
    assert_git(&effects[0], &["reset", "HEAD", "."]);
    assert!(command.undo(&Observation::Nothing).is_empty());
}

fn assert_unstage_file_cycle(file_name: &str) {
    let mut command = UnstageFileCommand::new(REPO.to_string(), file_name.to_string());
    let effects = command.execute(&Observation::Nothing).unwrap();
    assert_eq!(effects.len(), 1);
    assert_git(&effects[0], &["reset", "HEAD", "--", file_name]);
    let undo = command.undo(&Observation::Nothing);
    assert_eq!(undo.len(), 1);
    assert_git(&undo[0], &["add", file_name]);
    let effects = command.execute(&Observation::Nothing).unwrap();
    assert_git(&effects[0], &["reset", "HEAD", "--", file_name]);
}

#[test]
fn test_unstage_staged_file() {
    assert_unstage_file_cycle("test.txt");
}

#[test]
fn test_unstage_file_with_unstaged_changes() {
    assert_unstage_file_cycle("test.txt");
}

#[test]
fn test_unstage_file_that_is_not_staged() {
    let mut command = UnstageFileCommand::new(REPO.to_string(), "test.txt".to_string());
    let effects = command.execute(&Observation::Nothing).unwrap();
    assert_git(&effects[0], &["reset", "HEAD", "--", "test.txt"]);
}

fn cursor_at(file_cursor: usize) -> CursorState {
    CursorState {
        focused_pane: FocusedPane::Main,
        file_cursor,
        line_cursor: 0,
        scroll: 0,
        file_list_scroll: 0,
        horizontal_scroll: 0,
        unstaged_cursor: 0,
        unstaged_scroll: 0,
        unstaged_diff_scroll: 0,
        unstaged_horizontal_scroll: 0,
    }
}

fn list_messages(list: &[ListItem]) -> Vec<String> {
    list.iter()
        .map(|i| match i {
            ListItem::PreviousCommitInfo { message, .. } => message.clone(),
            _ => String::new(),
        })
        .collect()
}

#[test]
fn undo_and_redo_travel_with_their_cursors() {
    let mut history = CommandHistory::new();
    let mut list = vec![dummy_commit_item("a", false), dummy_commit_item("b", false), dummy_commit_item("c", false)];
    let swap = AnyCommand::new(CommandKind::SwapCommit(SwapCommitCommand::new(0, 1)));
    let effects = history.execute(swap, cursor_at(1), &mut list, &Observation::Nothing);
    assert!(effects.is_empty());
    assert_eq!(list_messages(&list), vec!["b", "a", "c"]);
    assert_eq!((history.undo_stack.len(), history.redo_stack.len()), (1, 0));
    // Undoing hands back the cursors from before the swap and restores the list.
    let (restored, effects) = history.undo(cursor_at(2), &mut list, &Observation::Nothing);
    assert!(effects.is_empty());
    assert_eq!(restored, Some(cursor_at(1)));
    assert_eq!(list_messages(&list), vec!["a", "b", "c"]);
    assert_eq!((history.undo_stack.len(), history.redo_stack.len()), (0, 1));
    // Redoing hands back the cursors from before the undo.
    let (restored, _) = history.redo(cursor_at(0), &mut list, &Observation::Nothing);
    assert_eq!(restored, Some(cursor_at(2)));
    assert_eq!(list_messages(&list), vec!["b", "a", "c"]);
    assert_eq!((history.undo_stack.len(), history.redo_stack.len()), (1, 0));
    // A refused command leaves the history alone.
    let bad = AnyCommand::new(CommandKind::SwapCommit(SwapCommitCommand::new(0, 7)));
    history.execute(bad, cursor_at(0), &mut list, &Observation::Nothing);
    assert_eq!((history.undo_stack.len(), history.redo_stack.len()), (1, 0));
    assert_eq!(list_messages(&list), vec!["b", "a", "c"]);
}
