//! Where the parser puts hunks: each one is a run of its file's lines that
//! starts at an `@@ ` header, carries the line numbers of
//! [`spec_line_numbers`], and follows the hunks before it without overlap.
use crate::git::{
    parse_finish, parse_lines, parse_step, parse_with_headers, record_line, set_status,
    spec_line_numbers, spec_parse_diff, finish_hunk, header_of, with_pending_hunk, FileDiffView,
    hunk_header_number, FileStatus, HunkView, ParseState,
};
use crate::text::{lines, starts_with};
use vstd::prelude::*;

verus! {

/// The index just past the last line of `h` in its file's lines.
pub open spec fn hunk_end(h: HunkView) -> int {
    h.start_line + h.lines.len()
}

/// `h` is the run `ls[start_line .. hunk_end]` and begins with its `@@ ` header.
pub open spec fn hunk_lies_in(h: HunkView, ls: Seq<Seq<char>>) -> bool {
    &&& h.lines.len() > 0
    &&& starts_with(h.lines[0], "@@ "@)
    &&& hunk_end(h) <= ls.len()
    &&& ls.subrange(h.start_line as int, hunk_end(h)) == h.lines
}

/// `h` carries the line numbers that its lines and start lines give.
pub open spec fn hunk_numbered(h: HunkView) -> bool {
    h.line_numbers == spec_line_numbers(h.lines, h.old_start, h.new_start)
}

/// Each hunk ends at or before the start of every later one.
pub open spec fn hunks_in_order(hs: Seq<HunkView>) -> bool {
    forall|j: int, k: int| 0 <= j < k < hs.len() ==> hunk_end(#[trigger] hs[j]) <= (#[trigger] hs[k]).start_line
}

/// The hunks `hs` lie in `ls`, are numbered, and come in order.
pub open spec fn hunks_placed(hs: Seq<HunkView>, ls: Seq<Seq<char>>) -> bool {
    &&& forall|j: int| 0 <= j < hs.len() ==> hunk_lies_in(#[trigger] hs[j], ls) && hunk_numbered(hs[j])
    &&& hunks_in_order(hs)
}

/// The hunks of file `f` are placed in its own lines.
pub open spec fn file_hunks_placed(f: FileDiffView) -> bool {
    hunks_placed(f.hunks, f.lines)
}

/// A status line (`new file mode`, `deleted file mode`, `rename from`).
pub open spec fn is_status_line(line: Seq<char>) -> bool {
    ||| starts_with(line, "new file mode"@)
    ||| starts_with(line, "deleted file mode"@)
    ||| starts_with(line, "rename from"@)
}

/// A line that `git diff` never writes where the parser would meet it: a
/// status line inside a hunk, or a hunk header before the first file header.
pub open spec fn misplaced_line(st: ParseState, line: Seq<char>, header: Option<(Seq<char>, Seq<char>)>) -> bool {
    &&& header is None
    &&& if is_status_line(line) {
        st.current_hunk is Some
    } else {
        starts_with(line, "@@ "@) && st.current_file is None
    }
}

/// No line of `ls` is misplaced where the parser reads it.
pub open spec fn reads_cleanly(ls: Seq<Seq<char>>, hs: Seq<Option<(Seq<char>, Seq<char>)>>) -> bool {
    forall|k: int| 0 <= k < ls.len() ==> !#[trigger] misplaced_line(parse_lines(ls.take(k), hs.take(k)), ls[k], hs[k])
}

/// What holds of the parser between two lines.
pub open spec fn parse_inv(st: ParseState) -> bool {
    &&& forall|i: int| 0 <= i < st.files.len() ==> file_hunks_placed(#[trigger] st.files[i])
    &&& st.current_file is None ==> st.current_hunk is None
    &&& st.current_file is Some ==> hunks_placed(st.current_file->0.hunks, st.file_lines)
    &&& st.current_hunk is Some ==> open_hunk_placed(st.current_hunk->0, st.current_file->0.hunks, st.file_lines)
}

/// The open hunk `h` lies in `ls`, reaches its end, and follows the finished hunks `done`.
pub open spec fn open_hunk_placed(h: HunkView, done: Seq<HunkView>, ls: Seq<Seq<char>>) -> bool {
    &&& hunk_lies_in(h, ls)
    &&& hunk_end(h) == ls.len()
    &&& forall|j: int| 0 <= j < done.len() ==> hunk_end(#[trigger] done[j]) <= h.start_line
}

proof fn lemma_lies_in_push(h: HunkView, ls: Seq<Seq<char>>, line: Seq<char>)
    requires
        hunk_lies_in(h, ls),
    ensures
        hunk_lies_in(h, ls.push(line)),
{
    assert(ls.push(line).subrange(h.start_line as int, hunk_end(h)) =~= ls.subrange(h.start_line as int, hunk_end(h)));
}

proof fn lemma_placed_push(hs: Seq<HunkView>, ls: Seq<Seq<char>>, line: Seq<char>)
    requires
        hunks_placed(hs, ls),
    ensures
        hunks_placed(hs, ls.push(line)),
{
    assert forall|j: int| 0 <= j < hs.len() implies hunk_lies_in(#[trigger] hs[j], ls.push(line)) by {
        lemma_lies_in_push(hs[j], ls, line);
    }
}

/// Appending the finished open hunk keeps the hunks placed.
proof fn lemma_placed_with_pending(f: FileDiffView, h: Option<HunkView>, ls: Seq<Seq<char>>)
    requires
        hunks_placed(f.hunks, ls),
        h is Some ==> open_hunk_placed(h->0, f.hunks, ls),
    ensures
        hunks_placed(with_pending_hunk(f, h).hunks, ls),
        forall|j: int| 0 <= j < with_pending_hunk(f, h).hunks.len() ==> hunk_end(#[trigger] with_pending_hunk(f, h).hunks[j]) <= ls.len(),
{
    if h is Some {
        let g = finish_hunk(h->0);
        let hs = f.hunks.push(g);
        assert(with_pending_hunk(f, h).hunks == hs);
        assert forall|j: int| 0 <= j < hs.len() implies hunk_lies_in(#[trigger] hs[j], ls) && hunk_numbered(hs[j]) by {
            if j < f.hunks.len() {
                assert(hs[j] == f.hunks[j]);
            }
        }
        assert forall|j: int, k: int| 0 <= j < k < hs.len() implies hunk_end(#[trigger] hs[j]) <= (#[trigger] hs[k]).start_line by {
            if k < f.hunks.len() {
                assert(hs[j] == f.hunks[j] && hs[k] == f.hunks[k]);
            } else {
                assert(hs[j] == f.hunks[j]);
            }
        }
    }
    let hs = with_pending_hunk(f, h).hunks;
    assert forall|j: int| 0 <= j < hs.len() implies hunk_end(#[trigger] hs[j]) <= ls.len() by {
        assert(hunk_lies_in(hs[j], ls));
    }
}

/// Closing the open file gives a file whose hunks are placed.
proof fn lemma_closed_file_placed(st: ParseState)
    requires
        parse_inv(st),
        st.current_file is Some,
    ensures
        file_hunks_placed(FileDiffView { lines: st.file_lines, ..with_pending_hunk(st.current_file->0, st.current_hunk) }),
{
    lemma_placed_with_pending(st.current_file->0, st.current_hunk, st.file_lines);
}

proof fn lemma_files_push(files: Seq<FileDiffView>, f: FileDiffView)
    requires
        forall|i: int| 0 <= i < files.len() ==> file_hunks_placed(#[trigger] files[i]),
        file_hunks_placed(f),
    ensures
        forall|i: int| 0 <= i < files.push(f).len() ==> file_hunks_placed(#[trigger] files.push(f)[i]),
{
    assert forall|i: int| 0 <= i < files.push(f).len() implies file_hunks_placed(#[trigger] files.push(f)[i]) by {
        if i < files.len() {
            assert(files.push(f)[i] == files[i]);
        }
    }
}

/// Recording a line outside any hunk keeps the invariant.
proof fn lemma_record_outside_hunk(st: ParseState, line: Seq<char>)
    requires
        parse_inv(st),
        st.current_hunk is None,
    ensures
        parse_inv(record_line(st, line)),
{
    if st.current_file is Some {
        lemma_placed_push(st.current_file->0.hunks, st.file_lines, line);
    }
}

/// A file header closes the open file and opens a new one.
proof fn lemma_step_header(st: ParseState, line: Seq<char>, header: Option<(Seq<char>, Seq<char>)>)
    requires
        parse_inv(st),
        header is Some,
    ensures
        parse_inv(parse_step(st, line, header)),
{
    let files = match st.current_file {
        Some(f) => st.files.push(FileDiffView { lines: st.file_lines, ..with_pending_hunk(f, st.current_hunk) }),
        None => st.files,
    };
    if st.current_file is Some {
        lemma_closed_file_placed(st);
        lemma_files_push(st.files, FileDiffView { lines: st.file_lines, ..with_pending_hunk(st.current_file->0, st.current_hunk) });
    }
    let file = FileDiffView {
        file_name: (header->0).1,
        old_file_name: (header->0).0,
        hunks: Seq::empty(),
        lines: Seq::empty(),
        status: FileStatus::Modified,
    };
    let file_lines = if files.len() == 0 { st.header_lines } else { Seq::empty() };
    let header_lines = if files.len() == 0 { Seq::empty() } else { st.header_lines };
    let mid = ParseState { files, current_file: Some(file), current_hunk: None, file_lines, header_lines };
    assert(parse_inv(mid));
    lemma_record_outside_hunk(mid, line);
    assert(parse_step(st, line, header) == record_line(mid, line));
}

/// A hunk header finishes the open hunk and opens a new one.
proof fn lemma_step_hunk_header(st: ParseState, line: Seq<char>)
    requires
        parse_inv(st),
        st.current_file is Some,
        starts_with(line, "@@ "@),
        st.file_lines.len() <= usize::MAX,
    ensures
        parse_inv(record_line(ParseState {
            current_file: match (st.current_hunk, st.current_file) {
                (Some(h), Some(f)) => Some(with_pending_hunk(f, Some(h))),
                _ => st.current_file,
            },
            current_hunk: Some(HunkView {
                start_line: st.file_lines.len() as usize,
                lines: seq![line],
                old_start: hunk_header_number(line, 1, '-'),
                new_start: hunk_header_number(line, 2, '+'),
                line_numbers: Seq::empty(),
            }),
            ..st
        }, line)),
{
    let f = st.current_file->0;
    let ls = st.file_lines;
    let done = with_pending_hunk(f, st.current_hunk);
    lemma_placed_with_pending(f, st.current_hunk, ls);
    let file = match (st.current_hunk, st.current_file) {
        (Some(h), Some(f)) => Some(with_pending_hunk(f, Some(h))),
        _ => st.current_file,
    };
    assert(file == Some(done));
    let h = HunkView {
        start_line: ls.len() as usize,
        lines: seq![line],
        old_start: hunk_header_number(line, 1, '-'),
        new_start: hunk_header_number(line, 2, '+'),
        line_numbers: Seq::empty(),
    };
    let ls2 = ls.push(line);
    lemma_placed_push(done.hunks, ls, line);
    assert(ls2.subrange(h.start_line as int, hunk_end(h)) =~= h.lines);
    assert(open_hunk_placed(h, done.hunks, ls2));
}

/// A line inside the open hunk extends it.
proof fn lemma_step_hunk_line(st: ParseState, line: Seq<char>)
    requires
        parse_inv(st),
        st.current_hunk is Some,
    ensures
        parse_inv(record_line(ParseState {
            current_hunk: Some(HunkView { lines: st.current_hunk->0.lines.push(line), ..st.current_hunk->0 }),
            ..st
        }, line)),
{
    let h = st.current_hunk->0;
    let f = st.current_file->0;
    let ls = st.file_lines;
    let h2 = HunkView { lines: h.lines.push(line), ..h };
    let ls2 = ls.push(line);
    lemma_placed_push(f.hunks, ls, line);
    assert(ls2.subrange(h2.start_line as int, hunk_end(h2)) =~= ls.subrange(h.start_line as int, hunk_end(h)).push(line));
    assert(h2.lines[0] == h.lines[0]);
    assert(open_hunk_placed(h2, f.hunks, ls2));
}

/// Reading one line that is not misplaced keeps the invariant.
proof fn lemma_step_keeps_inv(st: ParseState, line: Seq<char>, header: Option<(Seq<char>, Seq<char>)>)
    requires
        parse_inv(st),
        !misplaced_line(st, line, header),
        st.file_lines.len() <= usize::MAX,
    ensures
        parse_inv(parse_step(st, line, header)),
{
    if header is Some {
        lemma_step_header(st, line, header);
    } else if starts_with(line, "new file mode"@) || starts_with(line, "deleted file mode"@) || starts_with(line, "rename from"@) {
        let status = if starts_with(line, "new file mode"@) {
            FileStatus::Added
        } else if starts_with(line, "deleted file mode"@) {
            FileStatus::Deleted
        } else {
            FileStatus::Renamed
        };
        assert(parse_inv(set_status(st, status)));
        lemma_record_outside_hunk(set_status(st, status), line);
        assert(parse_step(st, line, header) == record_line(set_status(st, status), line));
    } else if starts_with(line, "@@ "@) {
        lemma_step_hunk_header(st, line);
    } else if st.current_hunk is Some {
        lemma_step_hunk_line(st, line);
    } else {
        lemma_record_outside_hunk(st, line);
    }
}

/// After the first `n` lines the invariant holds and no kept line list is
/// longer than `n`.
proof fn lemma_prefix_inv(ls: Seq<Seq<char>>, hs: Seq<Option<(Seq<char>, Seq<char>)>>, n: int)
    requires
        hs.len() == ls.len(),
        0 <= n <= ls.len(),
        ls.len() <= usize::MAX,
        reads_cleanly(ls, hs),
    ensures
        parse_inv(parse_lines(ls.take(n), hs.take(n))),
        parse_lines(ls.take(n), hs.take(n)).file_lines.len() <= n,
        parse_lines(ls.take(n), hs.take(n)).header_lines.len() <= n,
    decreases n,
{
    if n > 0 {
        lemma_prefix_inv(ls, hs, n - 1);
        let st = parse_lines(ls.take(n - 1), hs.take(n - 1));
        assert(ls.take(n).drop_last() =~= ls.take(n - 1));
        assert(hs.take(n).drop_last() =~= hs.take(n - 1));
        assert(ls.take(n).last() == ls[n - 1]);
        assert(hs.take(n).last() == hs[n - 1]);
        assert(!misplaced_line(parse_lines(ls.take(n - 1), hs.take(n - 1)), ls[n - 1], hs[n - 1]));
        lemma_step_keeps_inv(st, ls[n - 1], hs[n - 1]);
        assert(parse_lines(ls.take(n), hs.take(n)) == parse_step(st, ls[n - 1], hs[n - 1]));
    } else {
        assert(ls.take(0).len() == 0);
    }
}

/// Every hunk that the parser reads from the lines `ls` (with `hs` holding
/// each line's file-header match) lies within its file's lines, starting at
/// its `start_line` with an `@@ ` header; its line numbers are those that
/// [`spec_line_numbers`] gives; and each hunk ends before the next begins.
/// Lines that `git diff` never writes where the parser would meet them
/// (see [`misplaced_line`]) are left out.
pub proof fn lemma_parsed_hunks_lie_in_their_files(ls: Seq<Seq<char>>, hs: Seq<Option<(Seq<char>, Seq<char>)>>)
    requires
        hs.len() == ls.len(),
        ls.len() <= usize::MAX,
        reads_cleanly(ls, hs),
    ensures
        forall|i: int| 0 <= i < parse_with_headers(ls, hs).len() ==> file_hunks_placed(#[trigger] parse_with_headers(ls, hs)[i]),
{
    lemma_prefix_inv(ls, hs, ls.len() as int);
    assert(ls.take(ls.len() as int) =~= ls);
    assert(hs.take(hs.len() as int) =~= hs);
    let st = parse_lines(ls, hs);
    if st.current_file is Some {
        lemma_closed_file_placed(st);
        lemma_files_push(st.files, FileDiffView { lines: st.file_lines, ..with_pending_hunk(st.current_file->0, st.current_hunk) });
    } else if st.header_lines.len() > 0 {
        let f = FileDiffView {
            file_name: Seq::empty(),
            old_file_name: Seq::empty(),
            hunks: Seq::empty(),
            lines: st.header_lines,
            status: FileStatus::Modified,
        };
        lemma_files_push(st.files, f);
    }
    assert(parse_with_headers(ls, hs) == parse_finish(st));
}

/// The hunk law for the output of `git diff` as [`spec_parse_diff`] reads it.
pub proof fn lemma_diff_hunks_lie_in_their_files(diff: Seq<char>)
    requires
        lines(diff).len() <= usize::MAX,
        reads_cleanly(lines(diff), lines(diff).map_values(|l: Seq<char>| header_of(l))),
    ensures
        forall|i: int| 0 <= i < spec_parse_diff(diff).len() ==> file_hunks_placed(#[trigger] spec_parse_diff(diff)[i]),
{
    lemma_parsed_hunks_lie_in_their_files(lines(diff), lines(diff).map_values(|l: Seq<char>| header_of(l)));
}

} // verus!
