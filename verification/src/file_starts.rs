//! Where files begin in a parsed diff, and where a jump from a commit's
//! summary line lands in the joined view of its files.
use crate::app_state::{jump_target, lines_before, patch_start_from, stat_count};
use crate::git::{
    header_of, parse_finish, parse_lines, parse_step, record_line, set_status, spec_parse_diff,
    with_pending_hunk, hunk_header_number, FileDiffView, FileStatus, HunkView, ParseState,
};
use crate::text::{lines, starts_with};
use crate::ui::diff_view::joined_lines;
use vstd::prelude::*;

verus! {

/// `f` has lines, and its first line is one where the file header pattern matched.
pub open spec fn begins_with_header(f: FileDiffView) -> bool {
    f.lines.len() > 0 && header_of(f.lines[0]) is Some
}

/// What holds of the parser between two lines: every finished file but the
/// first begins with its header line, and so does the open one when it is
/// not the first.
pub open spec fn starts_inv(st: ParseState) -> bool {
    &&& forall|i: int| 1 <= i < st.files.len() ==> begins_with_header(#[trigger] st.files[i])
    &&& st.current_file is None ==> st.files.len() == 0
    &&& (st.current_file is Some && st.files.len() >= 1) ==> st.file_lines.len() > 0 && header_of(st.file_lines[0]) is Some
}

proof fn lemma_record_keeps_starts(st: ParseState, line: Seq<char>)
    requires
        starts_inv(st),
    ensures
        starts_inv(record_line(st, line)),
{
    if st.current_file is Some && st.file_lines.len() > 0 {
        assert(st.file_lines.push(line)[0] == st.file_lines[0]);
    }
}

/// The open file of `st` as closing it leaves it.
pub open spec fn closed_file(st: ParseState) -> FileDiffView {
    FileDiffView { lines: st.file_lines, ..with_pending_hunk(st.current_file->0, st.current_hunk) }
}

/// The open file, closed, begins with its header line when it is not the first.
proof fn lemma_close_keeps_starts(st: ParseState)
    requires
        starts_inv(st),
        st.current_file is Some,
    ensures
        forall|i: int| 1 <= i < st.files.len() + 1 ==> begins_with_header(#[trigger] st.files.push(closed_file(st))[i]),
{
    let closed = closed_file(st);
    assert forall|i: int| 1 <= i < st.files.len() + 1 implies begins_with_header(#[trigger] st.files.push(closed)[i]) by {
        if i < st.files.len() {
            assert(st.files.push(closed)[i] == st.files[i]);
        }
    }
}

/// Reading a line, with the header match that the line itself gives, keeps the invariant.
proof fn lemma_step_keeps_starts(st: ParseState, line: Seq<char>)
    requires
        starts_inv(st),
    ensures
        starts_inv(parse_step(st, line, header_of(line))),
{
    let header = header_of(line);
    if header is Some {
        let files = match st.current_file {
            Some(f) => st.files.push(FileDiffView { lines: st.file_lines, ..with_pending_hunk(f, st.current_hunk) }),
            None => st.files,
        };
        if st.current_file is Some {
            lemma_close_keeps_starts(st);
        }
        let hunk = if st.current_file is Some { None } else { st.current_hunk };
        let file = FileDiffView {
            file_name: (header->0).1,
            old_file_name: (header->0).0,
            hunks: Seq::empty(),
            lines: Seq::empty(),
            status: FileStatus::Modified,
        };
        let file_lines = if files.len() == 0 { st.header_lines } else { Seq::empty() };
        let header_lines = if files.len() == 0 { Seq::empty() } else { st.header_lines };
        let mid = ParseState { files, current_file: Some(file), current_hunk: hunk, file_lines, header_lines };
        assert(parse_step(st, line, header) == record_line(mid, line));
        if files.len() >= 1 {
            assert(record_line(mid, line).file_lines =~= seq![line]);
        }
    } else if starts_with(line, "new file mode"@) || starts_with(line, "deleted file mode"@) || starts_with(line, "rename from"@) {
        let status = if starts_with(line, "new file mode"@) {
            FileStatus::Added
        } else if starts_with(line, "deleted file mode"@) {
            FileStatus::Deleted
        } else {
            FileStatus::Renamed
        };
        assert(starts_inv(set_status(st, status)));
        lemma_record_keeps_starts(set_status(st, status), line);
        assert(parse_step(st, line, header) == record_line(set_status(st, status), line));
    } else if starts_with(line, "@@ "@) {
        let file = match (st.current_hunk, st.current_file) {
            (Some(h), Some(f)) => Some(with_pending_hunk(f, Some(h))),
            _ => st.current_file,
        };
        let hunk = HunkView {
            start_line: st.file_lines.len() as usize,
            lines: seq![line],
            old_start: hunk_header_number(line, 1, '-'),
            new_start: hunk_header_number(line, 2, '+'),
            line_numbers: Seq::empty(),
        };
        let mid = ParseState { current_file: file, current_hunk: Some(hunk), ..st };
        assert(starts_inv(mid));
        lemma_record_keeps_starts(mid, line);
    } else {
        match st.current_hunk {
            Some(h) => {
                let mid = ParseState { current_hunk: Some(HunkView { lines: h.lines.push(line), ..h }), ..st };
                assert(starts_inv(mid));
                lemma_record_keeps_starts(mid, line);
            },
            None => lemma_record_keeps_starts(st, line),
        }
    }
}

proof fn lemma_prefix_starts(ls: Seq<Seq<char>>, n: int)
    requires
        0 <= n <= ls.len(),
    ensures
        starts_inv(parse_lines(ls.take(n), ls.map_values(|l: Seq<char>| header_of(l)).take(n))),
    decreases n,
{
    let hs = ls.map_values(|l: Seq<char>| header_of(l));
    if n > 0 {
        lemma_prefix_starts(ls, n - 1);
        assert(ls.take(n).drop_last() =~= ls.take(n - 1));
        assert(hs.take(n).drop_last() =~= hs.take(n - 1));
        assert(hs.take(n).last() == header_of(ls[n - 1]));
        lemma_step_keeps_starts(parse_lines(ls.take(n - 1), hs.take(n - 1)), ls[n - 1]);
    }
}

/// In the files that [`spec_parse_diff`] reads, every file after the first
/// begins with the line where the file header pattern found it.
pub proof fn lemma_later_files_begin_with_their_header(diff: Seq<char>)
    ensures
        forall|i: int| 1 <= i < spec_parse_diff(diff).len() ==> begins_with_header(#[trigger] spec_parse_diff(diff)[i]),
{
    let ls = lines(diff);
    let hs = ls.map_values(|l: Seq<char>| header_of(l));
    lemma_prefix_starts(ls, ls.len() as int);
    assert(ls.take(ls.len() as int) =~= ls);
    assert(hs.take(hs.len() as int) =~= hs);
    let st = parse_lines(ls, hs);
    if st.current_file is Some {
        lemma_close_keeps_starts(st);
    }
    assert(spec_parse_diff(diff) == parse_finish(st));
}

/// The joined lines of the first `m` files are the start of the joined lines of all.
proof fn lemma_joined_prefix(files: Seq<FileDiffView>, m: int)
    requires
        0 <= m <= files.len(),
    ensures
        joined_lines(files.take(m)).len() <= joined_lines(files).len(),
        forall|i: int| 0 <= i < joined_lines(files.take(m)).len() ==> joined_lines(files)[i] == #[trigger] joined_lines(files.take(m))[i],
    decreases files.len(),
{
    if m == files.len() {
        assert(files.take(m) =~= files);
    } else {
        let rest = files.drop_last();
        assert(files.take(m) =~= rest.take(m));
        lemma_joined_prefix(rest, m);
        assert(joined_lines(files) == joined_lines(rest) + files.last().lines);
    }
}

/// The joined lines of the first `k + 1` files: those of the first `k`, then file `k`'s.
proof fn lemma_joined_take_next(files: Seq<FileDiffView>, k: int)
    requires
        0 <= k < files.len(),
    ensures
        joined_lines(files.take(k + 1)) == joined_lines(files.take(k)) + files[k].lines,
{
    assert(files.take(k + 1).drop_last() =~= files.take(k));
    assert(files.take(k + 1).last() == files[k]);
}

/// Without saturation, [`lines_before`] counts the joined lines of the first `k` files.
proof fn lemma_lines_before_counts(files: Seq<FileDiffView>, k: int)
    requires
        0 <= k <= files.len(),
        joined_lines(files.take(k)).len() <= usize::MAX,
    ensures
        lines_before(files, k) == joined_lines(files.take(k)).len(),
    decreases k,
{
    if k > 0 {
        lemma_joined_take_next(files, k - 1);
        lemma_lines_before_counts(files, k - 1);
    } else {
        assert(files.take(0) =~= Seq::<FileDiffView>::empty());
    }
}

/// The first line from `from` on that starts a patch does start with `diff --git `.
proof fn lemma_patch_start_is_header(ls: Seq<Seq<char>>, from: int)
    requires
        0 <= from,
        patch_start_from(ls, from) < ls.len(),
    ensures
        from <= patch_start_from(ls, from),
        starts_with(ls[patch_start_from(ls, from)], "diff --git "@),
    decreases ls.len() - from,
{
    if from < ls.len() && !starts_with(ls[from], "diff --git "@) {
        lemma_patch_start_is_header(ls, from + 1);
    }
}

/// A jump from a summary line of a commit's diff lands, in the joined view of
/// the commit's files, on a file's header line: from the first summary line
/// on the first `diff --git ` line; from the `k`-th (`k >= 1`) on the first
/// line of file `k`, where the file header pattern matched. Left out: a
/// first file with no `diff --git ` line (the jump then goes to line 0), and
/// views longer than a `usize` can count.
pub proof fn lemma_summary_jump_lands_on_a_file_header(diff: Seq<char>, line_index: int)
    requires
        jump_target(spec_parse_diff(diff), line_index) is Some,
        joined_lines(spec_parse_diff(diff)).len() <= usize::MAX,
        patch_start_from(spec_parse_diff(diff)[0].lines, 0) < spec_parse_diff(diff)[0].lines.len(),
    ensures
        ({
            let files = spec_parse_diff(diff);
            let t = jump_target(files, line_index)->0;
            let k = stat_count(files[0].lines, line_index) as int;
            &&& 0 <= t < joined_lines(files).len()
            &&& k == 0 ==> starts_with(joined_lines(files)[t], "diff --git "@)
            &&& k >= 1 ==> t == joined_lines(files.take(k)).len() && joined_lines(files)[t] == files[k].lines[0]
                && header_of(joined_lines(files)[t]) is Some
        }),
{
    let files = spec_parse_diff(diff);
    let ls = files[0].lines;
    let t = jump_target(files, line_index)->0;
    let k = stat_count(ls, line_index) as int;
    if k == 0 {
        lemma_patch_start_is_header(ls, 0);
        lemma_joined_prefix(files, 1);
        lemma_joined_take_next(files, 0);
        assert(files.take(0) =~= Seq::<FileDiffView>::empty());
        assert(joined_lines(files.take(1)) =~= ls);
        assert(joined_lines(files)[t] == joined_lines(files.take(1))[t]);
    } else {
        lemma_later_files_begin_with_their_header(diff);
        assert(begins_with_header(files[k]));
        lemma_joined_prefix(files, k + 1);
        lemma_joined_take_next(files, k);
        lemma_lines_before_counts(files, k);
        let before = joined_lines(files.take(k));
        assert(joined_lines(files.take(k + 1))[before.len() as int] == files[k].lines[0]);
        assert(joined_lines(files)[t] == joined_lines(files.take(k + 1))[t]);
    }
}

} // verus!
