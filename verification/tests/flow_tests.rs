use git_full_commit::git::{
    add_all, add_all_with_size_limit, amend_commit_with_staged_changes, fixup_and_rebase_autosquash,
    parse_has_unstaged_changes, reword_commit, CommitInfo, GitOutput, GitRequest,
};
use git_full_commit::git_flows::{FlowReply, FlowStep, LocalCommitsRun, StartRun};

/// The arguments of a run of git after the `-c core.quotepath=false` prefix.
fn args(r: &GitRequest) -> Vec<String> {
    assert_eq!(r.args[0], "-c");
    assert_eq!(r.args[1], "core.quotepath=false");
    r.args[2..].to_vec()
}

fn strs(v: &[&str]) -> Vec<String> {
    v.iter().map(|s| s.to_string()).collect()
}

fn git_ok(stdout: &str) -> FlowReply {
    FlowReply::Git(Ok(GitOutput { success: true, code: Some(0), stdout: stdout.to_string(), stderr: String::new() }))
}

fn git_failed(stderr: &str) -> FlowReply {
    FlowReply::Git(Ok(GitOutput { success: false, code: Some(1), stdout: String::new(), stderr: stderr.to_string() }))
}

/// One step a run asked for, written as a line for comparison.
fn describe<T: std::fmt::Debug>(step: &FlowStep<T>) -> String {
    match step {
        FlowStep::Git(r) => {
            let mut s = format!("git {}", args(r).join(" "));
            for (k, v) in &r.env {
                s.push_str(&format!(" [{}={}]", k, v));
            }
            s
        }
        FlowStep::WriteFile { path, text, executable } => format!("write {} {:?} {}", path, text, executable),
        FlowStep::RemoveFile { path } => format!("remove {}", path),
        FlowStep::FileSize { path } => format!("size {}", path),
        FlowStep::Finished(o) => format!("finished {:?}", o),
    }
}

/// Drives a run with `resume`, answering each step with the next reply, and
/// gives back every step it asked for, its last (finished) step included.
fn drive<T: std::fmt::Debug>(
    first: FlowStep<T>,
    replies: Vec<FlowReply>,
    mut resume: impl FnMut(FlowReply) -> FlowStep<T>,
) -> Vec<String> {
    let mut seen = vec![describe(&first)];
    let mut step = first;
    for reply in replies {
        assert!(!matches!(step, FlowStep::Finished(_)), "the run ended before every reply was used");
        step = resume(reply);
        seen.push(describe(&step));
    }
    assert!(matches!(step, FlowStep::Finished(_)), "the run is not over");
    seen
}

#[test]
fn local_commits_stop_at_the_first_commit_on_a_remote() {
    let (mut run, first) = LocalCommitsRun::begin();
    let mut last = None;
    let seen = drive(first, vec![
        git_ok("ccccccc third\nbbbbbbb second commit\naaaaaaa first\n"),
        git_ok(""),
        git_ok("  origin/main\n"),
    ], |r| {
        let s = run.resume(r);
        if let FlowStep::Finished(Ok(v)) = &s {
            last = Some(v.clone());
        }
        s
    });
    assert_eq!(seen[0], "git log --pretty=%h %s");
    assert_eq!(seen[1], "git branch -r --contains ccccccc");
    assert_eq!(seen[2], "git branch -r --contains bbbbbbb");
    let commits: Vec<CommitInfo> = last.unwrap();
    assert_eq!(commits.len(), 2);
    assert_eq!(commits[0].hash, "ccccccc");
    assert_eq!(commits[0].message, "third");
    assert!(!commits[0].is_on_remote);
    assert_eq!(commits[1].message, "second commit");
    assert!(commits[1].is_on_remote);
    assert!(!commits[1].is_fixup);
}

#[test]
fn local_commits_of_a_failing_log_are_none() {
    let (mut run, _) = LocalCommitsRun::begin();
    match run.resume(git_failed("fatal: your current branch does not have any commits yet")) {
        FlowStep::Finished(Ok(v)) => assert!(v.is_empty()),
        other => panic!("unexpected {:?}", other),
    }
}

#[test]
fn local_commits_error_when_git_cannot_start() {
    let (mut run, _) = LocalCommitsRun::begin();
    match run.resume(FlowReply::Git(Err("no git".to_string()))) {
        FlowStep::Finished(Err(e)) => assert_eq!(e, "no git"),
        other => panic!("unexpected {:?}", other),
    }
}

#[test]
fn fixup_runs_commit_then_autosquash_rebase() {
    let (mut run, first) = fixup_and_rebase_autosquash("abc1234");
    let seen = drive(first, vec![git_ok(""), git_ok("0123456789\n"), git_ok("")], |r| run.resume(r));
    assert_eq!(seen, vec![
        "git commit --no-edit --fixup abc1234",
        "git rev-parse abc1234^",
        "git rebase -i --autosquash --autostash abc1234 [GIT_SEQUENCE_EDITOR=true]",
        "finished Ok(())",
    ]);
}

#[test]
fn fixup_of_the_root_commit_rebases_from_the_root() {
    let (mut run, first) = fixup_and_rebase_autosquash("abc1234");
    let seen = drive(first, vec![git_ok(""), git_failed("unknown revision"), git_ok("")], |r| run.resume(r));
    assert_eq!(seen[2], "git rebase -i --autosquash --autostash --root [GIT_SEQUENCE_EDITOR=true]");
}

#[test]
fn fixup_without_staged_changes_fails_with_git_error() {
    let (mut run, first) = fixup_and_rebase_autosquash("abc1234");
    let seen = drive(first, vec![git_failed("nothing to commit")], |r| run.resume(r));
    assert_eq!(seen[1], format!("finished {:?}", Err::<(), String>(
        "git commit --fixup failed. This usually means there are no staged changes. Stderr: nothing to commit".to_string())));
}

#[test]
fn failed_fixup_rebase_is_aborted() {
    let (mut run, first) = fixup_and_rebase_autosquash("abc1234");
    let seen = drive(first, vec![git_ok(""), git_ok("p\n"), git_failed("conflict"), git_ok("")], |r| run.resume(r));
    assert_eq!(seen[3], "git rebase --abort");
    assert_eq!(seen[4], format!("finished {:?}", Err::<(), String>("git rebase for fixup failed. Aborting.".to_string())));
}

#[test]
fn add_all_stages_small_untracked_files_only() {
    let (mut run, first) = add_all_with_size_limit("/repo", 10);
    let seen = drive(first, vec![
        git_ok(""),
        git_ok("small.txt\n\nbig.bin\ngone.txt\n"),
        FlowReply::Size(Ok(10)),
        git_ok(""),
        FlowReply::Size(Ok(11)),
        FlowReply::Size(Err("No such file".to_string())),
    ], |r| run.resume(r));
    assert_eq!(seen, vec![
        "git add --update",
        "git ls-files --others --exclude-standard",
        "size /repo/small.txt",
        "git add small.txt",
        "size /repo/big.bin",
        "size /repo/gone.txt",
        "finished Ok(())",
    ]);
}

#[test]
fn add_all_stages_untracked_files_of_any_size() {
    let (mut run, first) = add_all("/repo/");
    let seen = drive(first, vec![
        git_ok(""),
        git_ok("a\nhuge.bin\n"),
        FlowReply::Size(Ok(100 * 1024 * 1024 + 1)),
        git_ok(""),
        FlowReply::Size(Ok(u64::MAX)),
        git_ok(""),
    ], |r| run.resume(r));
    assert_eq!(seen[2], "size /repo/a");
    assert_eq!(seen[3], "git add a");
    assert_eq!(seen[4], "size /repo/huge.bin");
    assert_eq!(seen[5], "git add huge.bin");
    assert_eq!(seen[6], "finished Ok(())");
}

#[test]
fn add_all_ends_quietly_when_listing_fails() {
    let (mut run, first) = add_all("/repo");
    let seen = drive(first, vec![git_ok(""), git_failed("")], |r| run.resume(r));
    assert_eq!(seen[2], "finished Ok(())");
}

#[test]
fn reword_writes_files_rebases_and_cleans_up() {
    let (mut run, first) = reword_commit("/repo", "0123456789abcdef", "New subject");
    let seen = drive(first, vec![
        FlowReply::Io(Ok(())),
        FlowReply::Io(Ok(())),
        git_ok("fedcba9876\n"),
        git_ok(""),
        FlowReply::Io(Ok(())),
        FlowReply::Io(Err("gone".to_string())),
    ], |r| run.resume(r));
    assert_eq!(seen, vec![
        "write /repo/.git/COMMIT_EDITMSG_TEMP \"New subject\" false".to_string(),
        "write /repo/.git/reword_editor.sh \"#!/bin/sh\\ncp '/repo/.git/COMMIT_EDITMSG_TEMP' \\\"$1\\\"\" true".to_string(),
        "git rev-parse 0123456789abcdef^".to_string(),
        "git rebase -i --autostash fedcba9876 [GIT_SEQUENCE_EDITOR=sed -i -e 's/^pick 0123456/reword 0123456/'] [GIT_EDITOR=/repo/.git/reword_editor.sh]".to_string(),
        "remove /repo/.git/COMMIT_EDITMSG_TEMP".to_string(),
        "remove /repo/.git/reword_editor.sh".to_string(),
        "finished Ok(())".to_string(),
    ]);
}

#[test]
fn failed_reword_rebase_is_aborted_after_cleanup() {
    let (mut run, first) = reword_commit("/repo", "abc", "m");
    let seen = drive(first, vec![
        FlowReply::Io(Ok(())),
        FlowReply::Io(Ok(())),
        git_failed(""),
        git_failed("could not apply"),
        FlowReply::Io(Ok(())),
        FlowReply::Io(Ok(())),
        git_ok(""),
    ], |r| run.resume(r));
    assert_eq!(seen[3], "git rebase -i --autostash --root [GIT_SEQUENCE_EDITOR=sed -i -e 's/^pick abc/reword abc/'] [GIT_EDITOR=/repo/.git/reword_editor.sh]");
    assert_eq!(seen[6], "git rebase --abort");
    assert_eq!(seen[7], format!("finished {:?}", Err::<(), String>(
        "git rebase for reword failed. Stderr: could not apply. Aborting.".to_string())));
}

#[test]
fn reword_stops_when_the_message_cannot_be_written() {
    let (mut run, first) = reword_commit("/repo", "abc", "m");
    let seen = drive(first, vec![FlowReply::Io(Err("read-only".to_string()))], |r| run.resume(r));
    assert_eq!(seen[1], format!("finished {:?}", Err::<(), String>("read-only".to_string())));
}

#[test]
fn amend_with_a_new_message_rewords_the_rewritten_commit() {
    let (mut run, first) = amend_commit_with_staged_changes("/repo", "bbbbbbbbbbbb", "second, amended");
    let seen = drive(first, vec![
        git_ok("ccccccc third\nbbbbbbb second\naaaaaaa first\n"),
        git_ok(""),
        git_ok(""),
        git_ok(""),
        git_ok("second\n"),
        git_ok(""),
        git_ok("aaaaaaaaaaaa\n"),
        git_ok(""),
        git_ok("ddddddd third\neeeeeee second\naaaaaaa first\n"),
        git_ok(""),
        git_ok(""),
        git_ok(""),
        FlowReply::Io(Ok(())),
        FlowReply::Io(Ok(())),
        git_ok("aaaaaaaaaaaa\n"),
        git_ok(""),
        FlowReply::Io(Ok(())),
        FlowReply::Io(Ok(())),
    ], |r| run.resume(r));
    assert_eq!(seen, vec![
        "git log --pretty=%h %s".to_string(),
        "git branch -r --contains ccccccc".to_string(),
        "git branch -r --contains bbbbbbb".to_string(),
        "git branch -r --contains aaaaaaa".to_string(),
        "git log -1 --pretty=%s bbbbbbbbbbbb".to_string(),
        "git commit --fixup bbbbbbbbbbbb".to_string(),
        "git rev-parse bbbbbbbbbbbb^".to_string(),
        "git rebase -i --autosquash --autostash aaaaaaaaaaaa [GIT_SEQUENCE_EDITOR=true]".to_string(),
        "git log --pretty=%h %s".to_string(),
        "git branch -r --contains ddddddd".to_string(),
        "git branch -r --contains eeeeeee".to_string(),
        "git branch -r --contains aaaaaaa".to_string(),
        "write /repo/.git/COMMIT_EDITMSG_TEMP \"second, amended\" false".to_string(),
        "write /repo/.git/reword_editor.sh \"#!/bin/sh\\ncp '/repo/.git/COMMIT_EDITMSG_TEMP' \\\"$1\\\"\" true".to_string(),
        "git rev-parse eeeeeee^".to_string(),
        "git rebase -i --autostash aaaaaaaaaaaa [GIT_SEQUENCE_EDITOR=sed -i -e 's/^pick eeeeeee/reword eeeeeee/'] [GIT_EDITOR=/repo/.git/reword_editor.sh]".to_string(),
        "remove /repo/.git/COMMIT_EDITMSG_TEMP".to_string(),
        "remove /repo/.git/reword_editor.sh".to_string(),
        "finished Ok(())".to_string(),
    ]);
}

#[test]
fn amend_with_the_same_message_only_squashes() {
    let (mut run, first) = amend_commit_with_staged_changes("/repo", "aaaaaaa", "  first  ");
    let seen = drive(first, vec![
        git_ok("aaaaaaa first\n"),
        git_ok(""),
        git_ok("first\n"),
        git_ok(""),
        git_failed("unknown revision"),
        git_ok(""),
    ], |r| run.resume(r));
    assert_eq!(seen[5], "git rebase -i --autosquash --autostash --root [GIT_SEQUENCE_EDITOR=true]");
    assert_eq!(seen[6], "finished Ok(())");
}

#[test]
fn amend_of_an_unknown_commit_fails() {
    let (mut run, first) = amend_commit_with_staged_changes("/repo", "fffffff", "x");
    let seen = drive(first, vec![git_ok("aaaaaaa first\n"), git_ok("")], |r| run.resume(r));
    assert_eq!(seen[2], format!("finished {:?}", Err::<(), String>("Target commit not found in local history".to_string())));
}

#[test]
fn status_lines_tell_of_unstaged_changes() {
    let out = |s: &str, ok: bool| Some(GitOutput { success: ok, code: None, stdout: s.to_string(), stderr: String::new() });
    assert_eq!(parse_has_unstaged_changes(&out("M  staged.txt\nA  new.txt\n", true)), Some(false));
    assert_eq!(parse_has_unstaged_changes(&out("M  staged.txt\n M changed.txt\n", true)), Some(true));
    assert_eq!(parse_has_unstaged_changes(&out("?? untracked.txt\n", true)), Some(true));
    assert_eq!(parse_has_unstaged_changes(&out("?? untracked.txt\n", false)), Some(false));
    assert_eq!(parse_has_unstaged_changes(&out("", true)), Some(false));
    assert_eq!(parse_has_unstaged_changes(&None), None);
}

const STAGED_DIFF: &str = "diff --git a/a.txt b/a.txt\nindex 0000000..1111111 100644\n--- a/a.txt\n+++ b/a.txt\n@@ -1 +1 @@\n-old\n+new\n";

fn finished_files(step: FlowStep<Result<Vec<git_full_commit::git::FileDiff>, String>>) -> Vec<String> {
    match step {
        FlowStep::Finished(Ok(files)) => files.iter().map(|f| f.file_name.clone()).collect(),
        other => panic!("not finished with files: {}", describe(&other)),
    }
}

#[test]
fn start_stages_everything_when_nothing_is_staged() {
    let (mut run, first) = StartRun::begin("/repo");
    let mut seen = vec![describe(&first)];
    // Nothing is staged: everything is staged first.
    for reply in [git_ok(""), git_ok(""), git_ok("")] {
        seen.push(describe(&run.resume(reply)));
    }
    assert_eq!(seen, vec![
        "git diff --staged",
        "git add --update",
        "git ls-files --others --exclude-standard",
        "git diff --staged",
    ]);
    assert_eq!(finished_files(run.resume(git_ok(STAGED_DIFF))), vec!["a.txt"]);
}

#[test]
fn start_keeps_what_is_already_staged() {
    let (mut run, first) = StartRun::begin("/repo");
    assert_eq!(describe(&first), "git diff --staged");
    assert_eq!(describe(&run.resume(git_ok(STAGED_DIFF))), "git diff --staged");
    assert_eq!(finished_files(run.resume(git_ok(STAGED_DIFF))), vec!["a.txt"]);
}

#[test]
fn start_fails_when_git_cannot_start() {
    let (mut run, _) = StartRun::begin("/repo");
    match run.resume(FlowReply::Git(Err("no git".to_string()))) {
        FlowStep::Finished(Err(e)) => assert_eq!(e, "no git"),
        other => panic!("expected a failure: {}", describe(&other)),
    }
    let (mut run, _) = StartRun::begin("/repo");
    run.resume(git_ok(""));
    match run.resume(FlowReply::Git(Err("cannot add".to_string()))) {
        FlowStep::Finished(Err(e)) => assert_eq!(e, "cannot add"),
        other => panic!("expected a failure: {}", describe(&other)),
    }
}
