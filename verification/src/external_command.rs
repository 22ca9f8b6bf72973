//! Which editor opens a file, and how it is told the line to show.
use crate::git::owned;
use crate::text::{decimal, has_substring, push_all, push_decimal, str_contains};
use vstd::prelude::*;

verus! {

/// The arguments that make VS Code open `path` at `line`: `-g PATH:LINE`,
/// or just the path.
pub open spec fn code_args(path: Seq<char>, line: Option<usize>) -> Seq<Seq<char>> {
    match line {
        Some(l) => seq!["-g"@, path + ":"@ + decimal(l as nat)],
        None => seq![path],
    }
}

/// The arguments that make a terminal editor (vi and the like) open `path`
/// at `line`: `+LINE PATH`, or just the path.
pub open spec fn terminal_args(path: Seq<char>, line: Option<usize>) -> Seq<Seq<char>> {
    match line {
        Some(l) => seq!["+"@ + decimal(l as nat), path],
        None => seq![path],
    }
}

/// The program and arguments that open `path` at `line`: VS Code when the
/// `code` command works; else the editor `$EDITOR` names (told the line the
/// way VS Code is when its name contains `code`); else `open` on macOS and
/// `vi` elsewhere. `editor` is `$EDITOR` when it is set to a non-empty
/// value.
pub open spec fn editor_invocation(code_available: bool, editor: Option<Seq<char>>, on_macos: bool,
    path: Seq<char>, line: Option<usize>) -> (Seq<char>, Seq<Seq<char>>)
{
    if code_available {
        ("code"@, code_args(path, line))
    } else {
        match editor {
            Some(e) => if has_substring(e, "code"@) {
                (e, code_args(path, line))
            } else {
                (e, terminal_args(path, line))
            },
            None => if on_macos {
                ("open"@, seq![path])
            } else {
                ("vi"@, terminal_args(path, line))
            },
        }
    }
}

/// Builds [`code_args`].
fn code_args_exec(path: &str, line: Option<usize>) -> (r: Vec<String>)
    ensures
        crate::text::views(r@) == code_args(path@, line),
{
    let mut v: Vec<String> = Vec::new();
    match line {
        Some(l) => {
            v.push(owned("-g"));
            let mut target = owned(path);
            push_all(&mut target, ":");
            push_decimal(&mut target, l);
            v.push(target);
        },
        None => v.push(owned(path)),
    }
    assert(crate::text::views(v@) =~= code_args(path@, line));
    v
}

/// Builds [`terminal_args`].
fn terminal_args_exec(path: &str, line: Option<usize>) -> (r: Vec<String>)
    ensures
        crate::text::views(r@) == terminal_args(path@, line),
{
    let mut v: Vec<String> = Vec::new();
    if let Some(l) = line {
        let mut jump = owned("+");
        push_decimal(&mut jump, l);
        v.push(jump);
    }
    v.push(owned(path));
    assert(crate::text::views(v@) =~= terminal_args(path@, line));
    v
}

/// The program and arguments that open `file_path` at `line_number`, as
/// [`editor_invocation`] says.
pub fn editor_command(code_available: bool, editor: Option<&str>, on_macos: bool, file_path: &str,
    line_number: Option<usize>) -> (r: (String, Vec<String>))
    ensures
        (r.0@, crate::text::views(r.1@)) == editor_invocation(code_available,
            match editor { Some(e) => Some(e@), None => None }, on_macos, file_path@, line_number),
{
    if code_available {
        return (owned("code"), code_args_exec(file_path, line_number));
    }
    match editor {
        Some(e) => if str_contains(e, "code") {
            (owned(e), code_args_exec(file_path, line_number))
        } else {
            (owned(e), terminal_args_exec(file_path, line_number))
        },
        None => if on_macos {
            let mut v: Vec<String> = Vec::new();
            v.push(owned(file_path));
            assert(crate::text::views(v@) =~= seq![file_path@]);
            (owned("open"), v)
        } else {
            (owned("vi"), terminal_args_exec(file_path, line_number))
        },
    }
}

} // verus!
