//! What the diff pane shows of a file: which lines go on which rows, the
//! line numbers beside them, the word-level highlighting of changed lines,
//! and what is left of each piece of a line after scrolling sideways.
use crate::git::{file_views, FileDiff, FileDiffView, FileStatus, Hunk, HunkView};
use crate::ui::scroll::sat_add;
use crate::text::{
    chars_of, lines, next_char, split_lines, starts_with, str_starts_with, string_from_range, trim, trim_spaces, views,
};
use crate::ui::commit_view::{char_width, col_width, prefix_widths_for, width_prefix};
use vstd::prelude::*;

verus! {

// ---------------------------------------------------------------------------
// Scrolling a line sideways
// ---------------------------------------------------------------------------

/// The first position, from `k` on, at which the characters before it take
/// at least `offset` columns.
pub open spec fn scroll_start(cs: Seq<char>, offset: usize, k: int) -> Option<int>
    decreases cs.len() - k,
{
    if k < 0 || k >= cs.len() {
        None
    } else if width_prefix(cs, k) >= offset {
        Some(k)
    } else {
        scroll_start(cs, offset, k + 1)
    }
}

/// What is left of a line scrolled `offset` columns to the right: the
/// characters from the first one that starts at or after that column, or
/// nothing when there is none.
pub open spec fn scrolled_text(cs: Seq<char>, offset: usize) -> Seq<char> {
    if offset == 0 {
        cs
    } else {
        match scroll_start(cs, offset, 0) {
            Some(k) => cs.subrange(k, cs.len() as int),
            None => Seq::empty(),
        }
    }
}

/// The part of `full_line` that is shown after scrolling `scroll_offset`
/// columns to the right.
pub fn get_scrolled_line(full_line: &str, scroll_offset: usize) -> (r: String)
    ensures
        r@ == scrolled_text(full_line@, scroll_offset),
{
    let chars = chars_of(full_line);
    if scroll_offset == 0 {
        assert(chars@.subrange(0, chars@.len() as int) == chars@);
        return string_from_range(&chars, 0, chars.len());
    }
    let widths = prefix_widths_for(&chars);
    let mut k: usize = 0;
    while k < chars.len()
        invariant
            k <= chars@.len(),
            chars@ == full_line@,
            scroll_offset != 0,
            widths@.len() == chars@.len() + 1,
            forall|i: int| 0 <= i <= chars@.len() ==> #[trigger] widths@[i] == width_prefix(chars@, i),
            scroll_start(chars@, scroll_offset, k as int) == scroll_start(chars@, scroll_offset, 0),
        decreases chars@.len() - k,
    {
        if widths[k] >= scroll_offset {
            return string_from_range(&chars, k, chars.len());
        }
        k = k + 1;
    }
    String::new()
}

// ---------------------------------------------------------------------------
// Word-level differences
// ---------------------------------------------------------------------------

/// A line of text with word-level differences: its pieces in order, each
/// with whether it changed.
#[derive(Debug, PartialEq)]
pub struct WordDiffLine(pub Vec<(String, bool)>);

/// The pieces of a [`WordDiffLine`].
pub type WordLine = Seq<(Seq<char>, bool)>;

/// The views of a line's pieces.
pub open spec fn piece_views(v: Seq<(String, bool)>) -> WordLine {
    v.map_values(|p: (String, bool)| (p.0@, p.1))
}

impl View for WordDiffLine {
    type V = WordLine;

    open spec fn view(&self) -> WordLine {
        piece_views(self.0@)
    }
}

/// The views of a list of word-diff lines.
pub open spec fn word_line_views(v: Seq<WordDiffLine>) -> Seq<WordLine> {
    v.map_values(|l: WordDiffLine| l@)
}

/// Every line of `text` as one unchanged piece.
pub open spec fn plain_lines(text: Seq<char>) -> Seq<WordLine> {
    lines(text).map_values(|l: Seq<char>| seq![(l, false)])
}

/// The changes of the word diff that `similar` computes between `old` and
/// `new` (its unicode word tokenization), in order: each with whether it
/// belongs to the old text, whether it belongs to the new one (both for an
/// unchanged token), and its text.
pub uninterp spec fn unicode_word_changes(old: Seq<char>, new: Seq<char>) -> Seq<(bool, bool, Seq<char>)>;

/// The views of a list of changes.
pub open spec fn change_views(v: Seq<(bool, bool, String)>) -> Seq<(bool, bool, Seq<char>)> {
    v.map_values(|c: (bool, bool, String)| (c.0, c.1, c.2@))
}

/// Calls `TextDiff::from_unicode_words(old, new).iter_all_changes()`
/// (similar). Trusted: the changes are those the crate computes from the two
/// texts, named `unicode_word_changes`; a deleted token is in the old text
/// only, an inserted one in the new text only, an equal one in both.
#[verifier::external_body]
fn word_changes(old: &str, new: &str) -> (r: Vec<(bool, bool, String)>)
    ensures
        change_views(r@) == unicode_word_changes(old@, new@),
{
    similar::TextDiff::from_unicode_words(old, new)
        .iter_all_changes()
        .map(|c| match c.tag() {
            similar::ChangeTag::Delete => (true, false, c.value().to_string()),
            similar::ChangeTag::Insert => (false, true, c.value().to_string()),
            similar::ChangeTag::Equal => (true, true, c.value().to_string()),
        })
        .collect()
}

/// The pieces of one side of a word diff: the changes that belong to the
/// old side (`new_side` false) or the new side, each marked as changed when
/// it is not on the other side too.
pub open spec fn side_pieces(changes: Seq<(bool, bool, Seq<char>)>, new_side: bool) -> WordLine
    decreases changes.len(),
{
    if changes.len() == 0 {
        Seq::empty()
    } else {
        let c = changes.last();
        let rest = side_pieces(changes.drop_last(), new_side);
        let (mine, theirs) = if new_side { (c.1, c.0) } else { (c.0, c.1) };
        if mine { rest.push((c.2, !theirs)) } else { rest }
    }
}

/// Lines being assembled from pieces: the finished lines and the line under
/// way.
pub type Assembly = (Seq<WordLine>, WordLine);

/// Feeds the text of one piece into an assembly: every newline ends the
/// line under way; the text between newlines joins that line when it is not
/// empty.
pub open spec fn feed_text(a: Assembly, text: Seq<char>, changed: bool) -> Assembly
    decreases text.len(),
{
    let k = next_char(text, 0, '\n');
    if k < text.len() {
        let content = text.subrange(0, k);
        let current = if content.len() > 0 { a.1.push((content, changed)) } else { a.1 };
        proof {
            crate::text::lemma_next_char_bounds(text, 0, '\n');
        }
        feed_text((a.0.push(current), Seq::empty()), text.subrange(k + 1, text.len() as int), changed)
    } else if text.len() > 0 {
        (a.0, a.1.push((text, changed)))
    } else {
        a
    }
}

/// Feeds the pieces in order.
pub open spec fn feed_pieces(a: Assembly, pieces: WordLine) -> Assembly
    decreases pieces.len(),
{
    if pieces.len() == 0 {
        a
    } else {
        feed_text(feed_pieces(a, pieces.drop_last()), pieces.last().0, pieces.last().1)
    }
}

/// The lines the pieces of one side make: each newline ends a line, and a
/// last line with pieces counts too.
pub open spec fn assemble(pieces: WordLine) -> Seq<WordLine> {
    let a = feed_pieces((Seq::empty(), Seq::empty()), pieces);
    if a.1.len() > 0 { a.0.push(a.1) } else { a.0 }
}

/// The word-level lines of both sides of a word diff.
pub open spec fn lines_of_changes(changes: Seq<(bool, bool, Seq<char>)>) -> (Seq<WordLine>, Seq<WordLine>) {
    (assemble(side_pieces(changes, false)), assemble(side_pieces(changes, true)))
}

/// The word-level lines of an old and a new text: plain lines when either
/// text is blank or the two are not similar enough, else the lines of
/// their word diff.
pub open spec fn word_diffs(old: Seq<char>, new: Seq<char>, similar_enough: bool) -> (Seq<WordLine>, Seq<WordLine>) {
    if trim_spaces(old).len() == 0 || trim_spaces(new).len() == 0 || !similar_enough {
        (plain_lines(old), plain_lines(new))
    } else {
        lines_of_changes(unicode_word_changes(old, new))
    }
}

/// Every line of `text` as one unchanged piece.
pub fn plain_word_lines(text: &str) -> (r: Vec<WordDiffLine>)
    ensures
        word_line_views(r@) == plain_lines(text@),
{
    let ls = split_lines(text);
    let mut out: Vec<WordDiffLine> = Vec::new();
    let mut i: usize = 0;
    while i < ls.len()
        invariant
            i <= ls@.len(),
            views(ls@) == lines(text@),
            word_line_views(out@) == plain_lines(text@).subrange(0, i as int),
        decreases ls@.len() - i,
    {
        let mut pieces: Vec<(String, bool)> = Vec::new();
        pieces.push((crate::git::owned(ls[i].as_str()), false));
        assert(piece_views(pieces@) =~= seq![(ls@[i as int]@, false)]);
        let ghost before = out@;
        out.push(WordDiffLine(pieces));
        assert(word_line_views(out@) =~= word_line_views(before).push(seq![(ls@[i as int]@, false)]));
        assert(views(ls@)[i as int] == ls@[i as int]@);
        assert(plain_lines(text@).subrange(0, i + 1) =~= plain_lines(text@).subrange(0, i as int).push(seq![(ls@[i as int]@, false)]));
        i = i + 1;
    }
    assert(plain_lines(text@).subrange(0, ls@.len() as int) =~= plain_lines(text@));
    out
}

/// Looking for a character in a tail of a text is looking for it in the
/// text from where the tail starts.
proof fn lemma_next_char_shift(s: Seq<char>, pos: int, from: int, c: char)
    requires
        0 <= pos <= s.len(),
        0 <= from <= s.len() - pos,
    ensures
        next_char(s.subrange(pos, s.len() as int), from, c) == next_char(s, pos + from, c) - pos,
    decreases s.len() - pos - from,
{
    if from < s.len() - pos {
        lemma_next_char_shift(s, pos, from + 1, c);
    }
}

/// Feeds the text `chars[pos..]` of one piece into the assembly held in
/// `done` and `current`.
fn feed_text_exec(done: &mut Vec<WordDiffLine>, current: &mut Vec<(String, bool)>, chars: &Vec<char>, changed: bool)
    ensures
        (word_line_views(final(done)@), piece_views(final(current)@))
            == feed_text((word_line_views(old(done)@), piece_views(old(current)@)), chars@, changed),
{
    let mut pos: usize = 0;
    assert(chars@.subrange(0, chars@.len() as int) =~= chars@);
    while pos < chars.len()
        invariant
            pos <= chars@.len(),
            feed_text((word_line_views(done@), piece_views(current@)), chars@.subrange(pos as int, chars@.len() as int), changed)
                == feed_text((word_line_views(old(done)@), piece_views(old(current)@)), chars@, changed),
        decreases chars@.len() - pos,
    {
        let ghost rest = chars@.subrange(pos as int, chars@.len() as int);
        let k = crate::text::find_char(chars, pos, '\n');
        proof {
            lemma_next_char_shift(chars@, pos as int, 0, '\n');
            crate::text::lemma_next_char_bounds(chars@, pos as int, '\n');
        }
        let ghost kk: int = k - pos;
        assert(next_char(rest, 0, '\n') == kk);
        if k < chars.len() {
            let ghost content = rest.subrange(0, kk);
            if k > pos {
                let piece = string_from_range(chars, pos, k);
                assert(piece@ =~= content);
                let ghost before = current@;
                current.push((piece, changed));
                assert(piece_views(current@) =~= piece_views(before).push((content, changed)));
            }
            let mut line: Vec<(String, bool)> = Vec::new();
            std::mem::swap(&mut line, current);
            let ghost before_done = done@;
            let ghost line_view = piece_views(line@);
            done.push(WordDiffLine(line));
            assert(word_line_views(done@) =~= word_line_views(before_done).push(line_view));
            assert(piece_views(current@) =~= Seq::<(Seq<char>, bool)>::empty());
            assert(rest.subrange(kk + 1, rest.len() as int) =~= chars@.subrange(k + 1, chars@.len() as int));
            pos = k + 1;
        } else {
            let piece = string_from_range(chars, pos, chars.len());
            assert(piece@ =~= rest);
            let ghost before = current@;
            current.push((piece, changed));
            assert(piece_views(current@) =~= piece_views(before).push((rest, changed)));
            pos = chars.len();
            assert(chars@.subrange(pos as int, chars@.len() as int) =~= Seq::<char>::empty());
            assert(feed_text((word_line_views(done@), piece_views(current@)), Seq::<char>::empty(), changed)
                == (word_line_views(done@), piece_views(current@)));
        }
    }
    assert(chars@.subrange(pos as int, chars@.len() as int) =~= Seq::<char>::empty());
    assert(next_char(Seq::<char>::empty(), 0, '\n') == 0);
}

/// The lines one side of a word diff makes.
fn assemble_side(changes: &Vec<(bool, bool, String)>, new_side: bool) -> (r: Vec<WordDiffLine>)
    ensures
        word_line_views(r@) == assemble(side_pieces(change_views(changes@), new_side)),
{
    let ghost cv = change_views(changes@);
    let mut done: Vec<WordDiffLine> = Vec::new();
    let mut current: Vec<(String, bool)> = Vec::new();
    assert(word_line_views(done@) =~= Seq::<WordLine>::empty());
    assert(piece_views(current@) =~= Seq::<(Seq<char>, bool)>::empty());
    assert(cv.subrange(0, 0) =~= Seq::<(bool, bool, Seq<char>)>::empty());
    let mut i: usize = 0;
    while i < changes.len()
        invariant
            i <= changes@.len(),
            cv == change_views(changes@),
            (word_line_views(done@), piece_views(current@))
                == feed_pieces((Seq::empty(), Seq::empty()), side_pieces(cv.subrange(0, i as int), new_side)),
        decreases changes@.len() - i,
    {
        let (in_old, in_new, text) = (changes[i].0, changes[i].1, &changes[i].2);
        let (mine, theirs) = if new_side { (in_new, in_old) } else { (in_old, in_new) };
        let ghost prefix = cv.subrange(0, i as int);
        assert(cv.subrange(0, i + 1).drop_last() =~= prefix);
        assert(cv.subrange(0, i + 1).last() == cv[i as int]);
        assert(cv[i as int] == (in_old, in_new, text@));
        if mine {
            let chars = chars_of(text.as_str());
            let ghost p = side_pieces(prefix, new_side);
            assert(p.push((text@, !theirs)).drop_last() =~= p);
            feed_text_exec(&mut done, &mut current, &chars, !theirs);
        }
        i = i + 1;
    }
    assert(cv.subrange(0, changes@.len() as int) =~= cv);
    if current.len() > 0 {
        let ghost before = done@;
        let ghost cur = piece_views(current@);
        done.push(WordDiffLine(current));
        assert(word_line_views(done@) =~= word_line_views(before).push(cur));
    }
    done
}

/// The word-level lines of both sides of a word diff whose changes are
/// `changes` (each with whether it belongs to the old text, to the new text,
/// and its text).
pub fn word_lines_from_changes(changes: &Vec<(bool, bool, String)>) -> (r: (Vec<WordDiffLine>, Vec<WordDiffLine>))
    ensures
        (word_line_views(r.0@), word_line_views(r.1@)) == lines_of_changes(change_views(changes@)),
{
    (assemble_side(changes, false), assemble_side(changes, true))
}

/// The word-level lines of the old and the new text of a run of changed
/// lines. `similar_enough` says whether the word diff of the two texts is
/// similar enough (a ratio of at least 0.7) to be worth showing.
pub fn compute_word_diffs(old: &str, new: &str, similar_enough: bool) -> (r: (Vec<WordDiffLine>, Vec<WordDiffLine>))
    ensures
        (word_line_views(r.0@), word_line_views(r.1@)) == word_diffs(old@, new@, similar_enough),
{
    let blank = trim(old).as_str().is_empty() || trim(new).as_str().is_empty();
    if blank || !similar_enough {
        return (plain_word_lines(old), plain_word_lines(new));
    }
    let changes = word_changes(old, new);
    word_lines_from_changes(&changes)
}

// ---------------------------------------------------------------------------
// Which line goes on which row
// ---------------------------------------------------------------------------

/// A removed line of a diff: `-` but not the `--- ` header.
pub open spec fn is_removed_line(l: Seq<char>) -> bool {
    starts_with(l, "-"@) && !starts_with(l, "--- "@)
}

/// An added line of a diff: `+` but not the `+++ ` header.
pub open spec fn is_added_line(l: Seq<char>) -> bool {
    starts_with(l, "+"@) && !starts_with(l, "+++ "@)
}

/// The end of the run of removed lines (`added` false) or added lines
/// that starts at `i`.
pub open spec fn run_end(ls: Seq<Seq<char>>, i: int, added: bool) -> int
    decreases ls.len() - i,
{
    if 0 <= i < ls.len() && (if added { is_added_line(ls[i]) } else { is_removed_line(ls[i]) }) {
        run_end(ls, i + 1, added)
    } else {
        i
    }
}

/// A run ends at or after its start, and within the lines when it starts
/// within them.
pub proof fn lemma_run_end_bounds(ls: Seq<Seq<char>>, i: int, added: bool)
    requires
        0 <= i <= ls.len(),
    ensures
        i <= run_end(ls, i, added) <= ls.len(),
    decreases ls.len() - i,
{
    if i < ls.len() && (if added { is_added_line(ls[i]) } else { is_removed_line(ls[i]) }) {
        lemma_run_end_bounds(ls, i + 1, added);
    }
}

/// Where the word-level highlighting of a row comes from: the run of
/// removed lines `minus_start..plus_start` followed by the added lines
/// `plus_start..plus_end`, and the row's position among the old lines
/// (`is_new` false) or the new ones.
#[derive(Clone, Copy, Debug, PartialEq, Eq, Structural)]
pub struct WordSource {
    pub minus_start: usize,
    pub plus_start: usize,
    pub plus_end: usize,
    pub position: usize,
    pub is_new: bool,
}

/// One row of the diff pane: the index of the file's line it shows, and
/// where its word-level highlighting comes from, if it has any.
#[derive(Clone, Copy, Debug, PartialEq, Eq, Structural)]
pub struct DiffRow {
    pub index: usize,
    pub word: Option<WordSource>,
}

/// The run of changes a row's highlighting comes from: its removed lines
/// start, its added lines start and end, and which side the row is on.
pub type RunGroup = Option<(usize, usize, usize, bool)>;

/// The larger of two integers.
pub open spec fn max_int(a: int, b: int) -> int {
    if a >= b { a } else { b }
}

/// The rows of the lines `a..b` not scrolled past (from `scroll` on), at
/// most `room` of them.
pub open spec fn run_rows(a: int, b: int, scroll: usize, room: int, group: RunGroup) -> Seq<DiffRow> {
    let lo = max_int(a, scroll as int);
    let count = if b - lo <= 0 || room <= 0 { 0 } else if b - lo <= room { b - lo } else { room };
    Seq::new(count as nat, |j: int| DiffRow {
        index: (lo + j) as usize,
        word: match group {
            Some((ms, ps, pe, new)) => Some(WordSource {
                minus_start: ms,
                plus_start: ps,
                plus_end: pe,
                position: (lo + j - (if new { ps as int } else { ms as int })) as usize,
                is_new: new,
            }),
            None => None,
        },
    })
}

/// The rows of the diff pane from line `i` on, when `r` rows are already
/// filled: lines before `scroll` are skipped and at most `height` rows are
/// filled. A run of removed lines followed by added lines gets word-level
/// highlighting, the removed lines first; a run of removed lines with no
/// added lines after it gets none.
pub open spec fn rows_from(ls: Seq<Seq<char>>, scroll: usize, height: usize, i: int, r: int) -> Seq<DiffRow>
    decreases ls.len() - i,
{
    if i < 0 || i >= ls.len() || r >= height {
        Seq::empty()
    } else if is_removed_line(ls[i]) {
        let c = run_end(ls, i, false);
        let p = run_end(ls, c, true);
        proof {
            lemma_run_end_bounds(ls, i + 1, false);
            lemma_run_end_bounds(ls, c, true);
        }
        if p > c {
            let m = run_rows(i, c, scroll, height - r, Some((i as usize, c as usize, p as usize, false)));
            let q = run_rows(c, p, scroll, height - r - m.len(), Some((i as usize, c as usize, p as usize, true)));
            m + q + rows_from(ls, scroll, height, p, r + m.len() + q.len())
        } else {
            let m = run_rows(i, c, scroll, height - r, None);
            m + rows_from(ls, scroll, height, c, r + m.len())
        }
    } else if i >= scroll {
        seq![DiffRow { index: i as usize, word: None }] + rows_from(ls, scroll, height, i + 1, r + 1)
    } else {
        rows_from(ls, scroll, height, i + 1, r)
    }
}

/// Appends the rows of the lines `a..b` (see [`run_rows`]) while fewer than
/// `height` rows are filled.
fn push_run_rows(rows: &mut Vec<DiffRow>, a: usize, b: usize, scroll: usize, height: usize, group: RunGroup)
    requires
        a <= b,
        group matches Some((ms, ps, pe, new)) ==> (if new { ps == a } else { ms == a }),
    ensures
        final(rows)@ == old(rows)@ + run_rows(a as int, b as int, scroll, height - old(rows)@.len(), group),
{
    let lo: usize = if a >= scroll { a } else { scroll };
    let ghost want = run_rows(a as int, b as int, scroll, height - old(rows)@.len(), group);
    let ghost start = old(rows)@;
    let mut idx: usize = lo;
    while idx < b && rows.len() < height
        invariant
            lo <= idx,
            lo as int == max_int(a as int, scroll as int),
            rows@.len() == start.len() + (idx - lo),
            idx - lo <= want.len(),
            rows@ == start + want.subrange(0, idx - lo),
            want == run_rows(a as int, b as int, scroll, height - start.len(), group),
            group matches Some((ms, ps, pe, new)) ==> (if new { ps == a } else { ms == a }),
            a <= lo,
        decreases b - idx,
    {
        let word = match group {
            Some((ms, ps, pe, new)) => {
                let base = if new { ps } else { ms };
                Some(WordSource { minus_start: ms, plus_start: ps, plus_end: pe, position: idx - base, is_new: new })
            },
            None => None,
        };
        rows.push(DiffRow { index: idx, word });
        assert(rows@ == start + want.subrange(0, idx - lo + 1));
        idx = idx + 1;
    }
    assert(want.len() == idx - lo);
    assert(want.subrange(0, idx - lo) =~= want);
}

/// Whether a line is a removed line (`added` false) or an added line.
fn in_run(line: &str, added: bool) -> (r: bool)
    ensures
        r == (if added { is_added_line(line@) } else { is_removed_line(line@) }),
{
    if added {
        crate::text::str_starts_with(line, "+") && !crate::text::str_starts_with(line, "+++ ")
    } else {
        crate::text::str_starts_with(line, "-") && !crate::text::str_starts_with(line, "--- ")
    }
}

/// Finds [`run_end`].
fn run_end_exec(lines: &Vec<String>, i: usize, added: bool) -> (r: usize)
    requires
        i <= lines@.len(),
    ensures
        r as int == run_end(views(lines@), i as int, added),
        i <= r <= lines@.len(),
{
    let ghost ls = views(lines@);
    let mut k: usize = i;
    proof {
        lemma_run_end_bounds(ls, i as int, added);
    }
    while k < lines.len() && in_run(lines[k].as_str(), added)
        invariant
            i <= k <= lines@.len(),
            ls == views(lines@),
            run_end(ls, k as int, added) == run_end(ls, i as int, added),
        decreases lines@.len() - k,
    {
        assert(ls[k as int] == lines@[k as int]@);
        k = k + 1;
    }
    if k < lines.len() {
        assert(ls[k as int] == lines@[k as int]@);
    }
    k
}

/// The run a row's highlighting comes from lies within the `n` lines: its
/// removed lines start before its added lines, which end by the last line.
pub open spec fn word_in_range(row: DiffRow, n: int) -> bool {
    row.word matches Some(w) ==> w.minus_start <= w.plus_start && w.plus_start <= w.plus_end && w.plus_end <= n
}

/// Every row of a run gets the run's group.
proof fn lemma_run_rows_in_range(a: int, b: int, scroll: usize, room: int, group: RunGroup, n: int)
    requires
        group matches Some((ms, ps, pe, new)) ==> ms <= ps && ps <= pe && pe <= n,
    ensures
        forall|k: int| 0 <= k < run_rows(a, b, scroll, room, group).len()
            ==> #[trigger] word_in_range(run_rows(a, b, scroll, room, group)[k], n),
{
}

/// The rows of the diff pane only take their highlighting from runs within
/// the lines.
proof fn lemma_rows_in_range(ls: Seq<Seq<char>>, scroll: usize, height: usize, i: int, r: int)
    requires
        ls.len() <= usize::MAX,
    ensures
        forall|k: int| 0 <= k < rows_from(ls, scroll, height, i, r).len()
            ==> #[trigger] word_in_range(rows_from(ls, scroll, height, i, r)[k], ls.len() as int),
    decreases ls.len() - i,
{
    let rows = rows_from(ls, scroll, height, i, r);
    let n = ls.len() as int;
    if i < 0 || i >= ls.len() || r >= height {
    } else if is_removed_line(ls[i]) {
        let c = run_end(ls, i, false);
        let p = run_end(ls, c, true);
        lemma_run_end_bounds(ls, i + 1, false);
        assert(c == run_end(ls, i + 1, false));
        lemma_run_end_bounds(ls, c, true);
        if p > c {
            let g = Some((i as usize, c as usize, p as usize, false));
            let h = Some((i as usize, c as usize, p as usize, true));
            let m = run_rows(i, c, scroll, height - r, g);
            let q = run_rows(c, p, scroll, height - r - m.len(), h);
            let t = rows_from(ls, scroll, height, p, r + m.len() + q.len());
            lemma_run_rows_in_range(i, c, scroll, height - r, g, n);
            lemma_run_rows_in_range(c, p, scroll, height - r - m.len(), h, n);
            lemma_rows_in_range(ls, scroll, height, p, r + m.len() + q.len());
            assert(rows == m + q + t);
            assert forall|k: int| 0 <= k < rows.len() implies #[trigger] word_in_range(rows[k], n) by {
                if k < m.len() {
                    assert(rows[k] == m[k]);
                } else if k < m.len() + q.len() {
                    assert(rows[k] == q[k - m.len()]);
                } else {
                    assert(rows[k] == t[k - m.len() - q.len()]);
                }
            }
        } else {
            let m = run_rows(i, c, scroll, height - r, None);
            let t = rows_from(ls, scroll, height, c, r + m.len());
            lemma_run_rows_in_range(i, c, scroll, height - r, None, n);
            lemma_rows_in_range(ls, scroll, height, c, r + m.len());
            assert(rows == m + t);
            assert forall|k: int| 0 <= k < rows.len() implies #[trigger] word_in_range(rows[k], n) by {
                if k < m.len() {
                    assert(rows[k] == m[k]);
                } else {
                    assert(rows[k] == t[k - m.len()]);
                }
            }
        }
    } else if i >= scroll {
        let t = rows_from(ls, scroll, height, i + 1, r + 1);
        lemma_rows_in_range(ls, scroll, height, i + 1, r + 1);
        assert(rows == seq![DiffRow { index: i as usize, word: None }] + t);
        assert forall|k: int| 0 <= k < rows.len() implies #[trigger] word_in_range(rows[k], n) by {
            if k > 0 {
                assert(rows[k] == t[k - 1]);
            }
        }
    } else {
        lemma_rows_in_range(ls, scroll, height, i + 1, r);
        assert(rows == rows_from(ls, scroll, height, i + 1, r));
    }
}

/// The rows of the diff pane for a file whose lines are `lines`, scrolled
/// down to line `scroll`, with room for `height` rows.
#[verifier::spinoff_prover]
#[verifier::rlimit(50)]
pub fn plan_diff_rows(lines: &Vec<String>, scroll: usize, height: usize) -> (r: Vec<DiffRow>)
    ensures
        r@ == rows_from(views(lines@), scroll, height, 0, 0),
        forall|k: int| 0 <= k < r@.len() ==> #[trigger] word_in_range(r@[k], lines@.len() as int),
{
    let ghost ls = views(lines@);
    let mut rows: Vec<DiffRow> = Vec::new();
    let mut i: usize = 0;
    assert(rows@ + rows_from(ls, scroll, height, 0, 0) =~= rows_from(ls, scroll, height, 0, 0));
    while i < lines.len() && rows.len() < height
        invariant
            i <= lines@.len(),
            ls == views(lines@),
            rows@ + rows_from(ls, scroll, height, i as int, rows@.len() as int) == rows_from(ls, scroll, height, 0, 0),
        decreases lines@.len() - i,
    {
        let ghost r0 = rows@;
        assert(ls[i as int] == lines@[i as int]@);
        if in_run(lines[i].as_str(), false) {
            let c = run_end_exec(lines, i, false);
            let p = run_end_exec(lines, c, true);
            proof {
                lemma_run_end_bounds(ls, i + 1, false);
            }
            if p > c {
                push_run_rows(&mut rows, i, c, scroll, height, Some((i, c, p, false)));
                let ghost r1 = rows@;
                push_run_rows(&mut rows, c, p, scroll, height, Some((i, c, p, true)));
                let ghost m = run_rows(i as int, c as int, scroll, height - r0.len(), Some((i, c, p, false)));
                let ghost q = run_rows(c as int, p as int, scroll, height - r0.len() - m.len(), Some((i, c, p, true)));
                assert(r1 == r0 + m);
                assert(rows@ == r0 + m + q);
                assert(rows_from(ls, scroll, height, i as int, r0.len() as int)
                    == m + q + rows_from(ls, scroll, height, p as int, (r0.len() + m.len() + q.len()) as int));
                assert(r0 + (m + q + rows_from(ls, scroll, height, p as int, (r0.len() + m.len() + q.len()) as int))
                    =~= rows@ + rows_from(ls, scroll, height, p as int, rows@.len() as int));
                i = p;
            } else {
                push_run_rows(&mut rows, i, c, scroll, height, None);
                let ghost m = run_rows(i as int, c as int, scroll, height - r0.len(), None);
                assert(rows_from(ls, scroll, height, i as int, r0.len() as int)
                    == m + rows_from(ls, scroll, height, c as int, (r0.len() + m.len()) as int));
                assert(r0 + (m + rows_from(ls, scroll, height, c as int, (r0.len() + m.len()) as int))
                    =~= rows@ + rows_from(ls, scroll, height, c as int, rows@.len() as int));
                i = c;
            }
        } else {
            if i >= scroll {
                rows.push(DiffRow { index: i, word: None });
                assert(r0 + (seq![DiffRow { index: i, word: None }] + rows_from(ls, scroll, height, i + 1, (r0.len() + 1) as int))
                    =~= rows@ + rows_from(ls, scroll, height, i + 1, rows@.len() as int));
            }
            i = i + 1;
        }
    }
    assert(rows_from(ls, scroll, height, i as int, rows@.len() as int) =~= Seq::<DiffRow>::empty());
    assert(rows@ + Seq::<DiffRow>::empty() =~= rows@);
    proof {
        lemma_rows_in_range(ls, scroll, height, 0, 0);
    }
    rows
}

/// A line without its first character (an empty line stays empty).
pub open spec fn drop_first_char(l: Seq<char>) -> Seq<char> {
    if l.len() > 0 { l.subrange(1, l.len() as int) } else { l }
}

/// The text of the lines `a..b` without their `-` or `+`, one per line:
/// what the word diff of a run of changes compares.
pub open spec fn run_text(ls: Seq<Seq<char>>, a: int, b: int) -> Seq<char> {
    crate::text::join(Seq::new((b - a) as nat, |j: int| drop_first_char(ls[a + j])), "\n"@)
}

/// Builds [`run_text`].
pub fn run_text_exec(lines: &Vec<String>, a: usize, b: usize) -> (r: String)
    requires
        a <= b <= lines@.len(),
    ensures
        r@ == run_text(views(lines@), a as int, b as int),
{
    let ghost ls = views(lines@);
    let ghost f = |j: int| drop_first_char(ls[a + j]);
    let mut out = String::new();
    let mut idx: usize = a;
    assert(Seq::new(0, f) =~= Seq::<Seq<char>>::empty());
    while idx < b
        invariant
            a <= idx <= b <= lines@.len(),
            ls == views(lines@),
            f == (|j: int| drop_first_char(ls[a + j])),
            out@ == crate::text::join(Seq::new((idx - a) as nat, f), "\n"@),
        decreases b - idx,
    {
        let chars = chars_of(lines[idx].as_str());
        assert(ls[idx as int] == lines@[idx as int]@);
        let start: usize = if chars.len() > 0 { 1 } else { 0 };
        let piece = string_from_range(&chars, start, chars.len());
        assert(piece@ == f((idx - a) as int)) by {
            assert(chars@.subrange(0, chars@.len() as int) =~= chars@);
        }
        let ghost parts = Seq::new((idx + 1 - a) as nat, f);
        assert(parts.drop_last() =~= Seq::new((idx - a) as nat, f));
        if idx > a {
            crate::text::push_all(&mut out, "\n");
        }
        crate::text::push_all(&mut out, piece.as_str());
        proof {
            if idx == a {
                assert(out@ =~= parts[0]);
            } else {
                assert(out@ =~= crate::text::join(parts.drop_last(), "\n"@) + "\n"@ + parts.last());
            }
        }
        idx = idx + 1;
    }
    out
}

// ---------------------------------------------------------------------------
// Line numbers
// ---------------------------------------------------------------------------

/// Numbers of the lines that the hunk `h` covers written over `base`.
pub open spec fn apply_hunk_numbers(base: Seq<(usize, usize)>, h: HunkView) -> Seq<(usize, usize)> {
    Seq::new(base.len(), |i: int|
        if h.start_line <= i && i - h.start_line < h.line_numbers.len() { h.line_numbers[i - h.start_line] } else { base[i] })
}

/// Numbers of the lines that the hunks cover, later hunks written over
/// earlier ones, over `base`.
pub open spec fn numbers_with_hunks(base: Seq<(usize, usize)>, hunks: Seq<HunkView>) -> Seq<(usize, usize)>
    decreases hunks.len(),
{
    if hunks.len() == 0 {
        base
    } else {
        apply_hunk_numbers(numbers_with_hunks(base, hunks.drop_last()), hunks.last())
    }
}

/// Writing hunks' numbers keeps the number of lines.
proof fn lemma_numbers_len(base: Seq<(usize, usize)>, hunks: Seq<HunkView>)
    ensures
        numbers_with_hunks(base, hunks).len() == base.len(),
    decreases hunks.len(),
{
    if hunks.len() > 0 {
        lemma_numbers_len(base, hunks.drop_last());
    }
}

/// The old and new number of every line of a file's diff, `(0, 0)` for a
/// line that no hunk covers.
pub open spec fn line_numbers_of(lines_len: nat, hunks: Seq<HunkView>) -> Seq<(usize, usize)> {
    numbers_with_hunks(Seq::new(lines_len, |i: int| (0usize, 0usize)), hunks)
}

/// The old and new number of every line of `file`'s diff.
pub fn diff_line_numbers(file: &FileDiff) -> (r: Vec<(usize, usize)>)
    ensures
        r@ == line_numbers_of(file@.lines.len(), file@.hunks),
{
    let n = file.lines.len();
    let mut nums: Vec<(usize, usize)> = Vec::new();
    let mut i: usize = 0;
    while i < n
        invariant
            i <= n,
            n == file.lines@.len(),
            nums@ == Seq::new(i as nat, |k: int| (0usize, 0usize)),
        decreases n - i,
    {
        nums.push((0, 0));
        assert(nums@ =~= Seq::new((i + 1) as nat, |k: int| (0usize, 0usize)));
        i = i + 1;
    }
    let ghost hs = file@.hunks;
    let mut h: usize = 0;
    assert(hs.subrange(0, 0) =~= Seq::<HunkView>::empty());
    while h < file.hunks.len()
        invariant
            h <= file.hunks@.len(),
            n == file.lines@.len(),
            hs == file@.hunks,
            hs.len() == file.hunks@.len(),
            nums@ == numbers_with_hunks(Seq::new(n as nat, |k: int| (0usize, 0usize)), hs.subrange(0, h as int)),
        decreases file.hunks@.len() - h,
    {
        let hunk = &file.hunks[h];
        assert(hs[h as int] == hunk@);
        let ghost base = nums@;
        proof {
            lemma_numbers_len(Seq::new(n as nat, |k: int| (0usize, 0usize)), hs.subrange(0, h as int));
        }
        let start = hunk.start_line;
        let mut k: usize = 0;
        while k < hunk.line_numbers.len()
            invariant
                k <= hunk.line_numbers@.len(),
                nums@.len() == base.len(),
                base.len() == n,
                forall|i: int| 0 <= i < n ==> #[trigger] nums@[i] ==
                    (if start <= i && i - start < k { hunk.line_numbers@[i - start] } else { base[i] }),
            decreases hunk.line_numbers@.len() - k,
        {
            if start < n && k < n - start {
                nums.set(start + k, hunk.line_numbers[k]);
            }
            k = k + 1;
        }
        assert(nums@ =~= apply_hunk_numbers(base, hunk@));
        assert(hs.subrange(0, h + 1).drop_last() =~= hs.subrange(0, h as int));
        h = h + 1;
    }
    assert(hs.subrange(0, hs.len() as int) =~= hs);
    nums
}

/// `s` padded with spaces to four characters (`{:<4}`).
pub open spec fn pad4(s: Seq<char>) -> Seq<char> {
    if s.len() >= 4 { s } else { s + Seq::new((4 - s.len()) as nat, |i: int| ' ') }
}

/// A line number as shown: blank when hidden or zero.
pub open spec fn number_text(n: usize, hidden: bool) -> Seq<char> {
    if hidden || n == 0 { Seq::empty() } else { crate::text::decimal(n as nat) }
}

/// The two numbers shown left of a diff line: the old number (not on an
/// added line) and the new one (not on a removed line), each padded to four
/// characters, with a space between.
pub open spec fn line_number_label(line: Seq<char>, old: usize, new: usize) -> Seq<char> {
    pad4(number_text(old, starts_with(line, "+"@))) + " "@ + pad4(number_text(new, starts_with(line, "-"@)))
}

/// Appends [`pad4`] of [`number_text`].
fn push_number(s: &mut String, n: usize, hidden: bool)
    ensures
        final(s)@ == old(s)@ + pad4(number_text(n, hidden)),
{
    let mut t = String::new();
    if !(hidden || n == 0) {
        crate::text::push_decimal(&mut t, n);
    }
    assert(t@ =~= number_text(n, hidden));
    let len = chars_of(t.as_str()).len();
    let mut k: usize = len;
    while k < 4
        invariant
            len <= k <= 4 || (len > 4 && k == len),
            len == number_text(n, hidden).len(),
            t@ == number_text(n, hidden) + Seq::new((k - len) as nat, |i: int| ' '),
        decreases 4 - k,
    {
        crate::text::string_push(&mut t, ' ');
        assert(t@ =~= number_text(n, hidden) + Seq::new((k + 1 - len) as nat, |i: int| ' '));
        k = k + 1;
    }
    assert(t@ =~= pad4(number_text(n, hidden)));
    crate::text::push_all(s, t.as_str());
}

/// Builds [`line_number_label`].
pub fn line_number_label_exec(line: &str, old: usize, new: usize) -> (r: String)
    ensures
        r@ == line_number_label(line@, old, new),
{
    let mut r = String::new();
    push_number(&mut r, old, crate::text::str_starts_with(line, "+"));
    crate::text::push_all(&mut r, " ");
    push_number(&mut r, new, crate::text::str_starts_with(line, "-"));
    assert(r@ =~= line_number_label(line@, old, new));
    r
}

// ---------------------------------------------------------------------------
// Colours and pieces of a line
// ---------------------------------------------------------------------------

/// What a piece of a diff line is drawn as.
#[derive(Clone, Copy, Debug, PartialEq, Eq, Structural)]
pub enum ColorRole {
    Default,
    Deletion,
    Addition,
    HunkHeader,
    Grey,
}

/// The colour pair of a role: on the cursor's line the active or inactive
/// cursor pairs, elsewhere the plain ones.
pub open spec fn color_pair_of(role: ColorRole, is_cursor_line: bool, cursor_active: bool) -> i16 {
    let (d, del, add, hunk, grey) = if is_cursor_line {
        if cursor_active { (5i16, 6i16, 7i16, 8i16, 10i16) } else { (11i16, 12i16, 13i16, 14i16, 15i16) }
    } else {
        (1i16, 2i16, 3i16, 4i16, 9i16)
    };
    match role {
        ColorRole::Default => d,
        ColorRole::Deletion => del,
        ColorRole::Addition => add,
        ColorRole::HunkHeader => hunk,
        ColorRole::Grey => grey,
    }
}

/// Computes [`color_pair_of`].
pub fn color_pair(role: ColorRole, is_cursor_line: bool, cursor_active: bool) -> (r: i16)
    ensures
        r == color_pair_of(role, is_cursor_line, cursor_active),
{
    let (d, del, add, hunk, grey) = if is_cursor_line {
        if cursor_active { (5i16, 6i16, 7i16, 8i16, 10i16) } else { (11i16, 12i16, 13i16, 14i16, 15i16) }
    } else {
        (1i16, 2i16, 3i16, 4i16, 9i16)
    };
    match role {
        ColorRole::Default => d,
        ColorRole::Deletion => del,
        ColorRole::Addition => add,
        ColorRole::HunkHeader => hunk,
        ColorRole::Grey => grey,
    }
}

/// How a diff line is drawn: its role, and the mark drawn before its
/// word-level pieces.
pub open spec fn line_look(l: Seq<char>) -> (ColorRole, Seq<char>) {
    if starts_with(l, "--- "@) || starts_with(l, "+++ "@) {
        (ColorRole::Grey, Seq::empty())
    } else if starts_with(l, "+"@) {
        (ColorRole::Addition, "+"@)
    } else if starts_with(l, "-"@) {
        (ColorRole::Deletion, "-"@)
    } else if starts_with(l, "@@ "@) {
        (ColorRole::HunkHeader, Seq::empty())
    } else if starts_with(l, "diff --git "@) {
        (ColorRole::Default, Seq::empty())
    } else {
        (ColorRole::Default, " "@)
    }
}

/// Computes [`line_look`].
fn line_look_exec(line: &str) -> (r: (ColorRole, String))
    ensures
        (r.0, r.1@) == line_look(line@),
{
    if str_starts_with(line, "--- ") || str_starts_with(line, "+++ ") {
        (ColorRole::Grey, String::new())
    } else if str_starts_with(line, "+") {
        (ColorRole::Addition, crate::git::owned("+"))
    } else if str_starts_with(line, "-") {
        (ColorRole::Deletion, crate::git::owned("-"))
    } else if str_starts_with(line, "@@ ") {
        (ColorRole::HunkHeader, String::new())
    } else if str_starts_with(line, "diff --git ") {
        (ColorRole::Default, String::new())
    } else {
        (ColorRole::Default, crate::git::owned(" "))
    }
}

/// Whether and in which role the line numbers are drawn left of a line:
/// beside context, added and removed lines (in the line's role for added
/// and removed ones, grey else), and in grey beside a hunk header.
pub open spec fn number_role(l: Seq<char>) -> Option<ColorRole> {
    let shown = (starts_with(l, " "@) || starts_with(l, "+"@) || starts_with(l, "-"@))
        && !starts_with(l, "@@ "@) && !starts_with(l, "+++"@) && !starts_with(l, "---"@);
    if shown {
        Some(if starts_with(l, "+"@) || starts_with(l, "-"@) { line_look(l).0 } else { ColorRole::Grey })
    } else if starts_with(l, "@@ "@) {
        Some(ColorRole::Grey)
    } else {
        None
    }
}

/// Computes [`number_role`].
pub fn number_role_exec(line: &str) -> (r: Option<ColorRole>)
    ensures
        r == number_role(line@),
{
    let shown = (str_starts_with(line, " ") || str_starts_with(line, "+") || str_starts_with(line, "-"))
        && !str_starts_with(line, "@@ ") && !str_starts_with(line, "+++") && !str_starts_with(line, "---");
    if shown {
        Some(if str_starts_with(line, "+") || str_starts_with(line, "-") { line_look_exec(line).0 } else { ColorRole::Grey })
    } else if str_starts_with(line, "@@ ") {
        Some(ColorRole::Grey)
    } else {
        None
    }
}

/// A piece of a diff line drawn in one role, in reverse video when it is a
/// changed word.
#[derive(Debug)]
pub struct Segment {
    pub text: String,
    pub role: ColorRole,
    pub reverse: bool,
}

/// The mathematical content of a [`Segment`].
pub struct SegmentView {
    pub text: Seq<char>,
    pub role: ColorRole,
    pub reverse: bool,
}

impl View for Segment {
    type V = SegmentView;

    open spec fn view(&self) -> SegmentView {
        SegmentView { text: self.text@, role: self.role, reverse: self.reverse }
    }
}

/// The views of a list of segments.
pub open spec fn segment_views(v: Seq<Segment>) -> Seq<SegmentView> {
    v.map_values(|g: Segment| g@)
}

/// The last position at or before `i` where `pat` occurs in `s`.
pub open spec fn last_occurrence(s: Seq<char>, pat: Seq<char>, i: int) -> Option<int>
    decreases i + 1,
{
    if i < 0 {
        None
    } else if crate::text::occurs_at(s, pat, i) {
        Some(i)
    } else {
        last_occurrence(s, pat, i - 1)
    }
}

/// The pieces a diff line is drawn in: a hunk header split after its last
/// `@@` into the header and the function it names (drawn as an addition);
/// a line with word-level highlighting as its mark then its words; any
/// other line whole.
pub open spec fn line_segments(l: Seq<char>, words: Option<WordLine>) -> Seq<SegmentView> {
    let (role, prefix) = line_look(l);
    if starts_with(l, "@@ "@) {
        match last_occurrence(l, "@@"@, l.len() - 2) {
            Some(k) => seq![
                SegmentView { text: l.subrange(0, k + 2), role: ColorRole::HunkHeader, reverse: false },
                SegmentView { text: l.subrange(k + 2, l.len() as int), role: ColorRole::Addition, reverse: false },
            ],
            None => seq![SegmentView { text: l, role: ColorRole::HunkHeader, reverse: false }],
        }
    } else {
        match words {
            Some(w) => seq![SegmentView { text: prefix, role, reverse: false }]
                + w.map_values(|p: (Seq<char>, bool)| SegmentView { text: p.0, role, reverse: p.1 }),
            None => seq![SegmentView { text: l, role, reverse: false }],
        }
    }
}

/// The pieces `line` is drawn in, with the word-level highlighting
/// `word_diff` if it has any.
pub fn build_line_segments(line: &str, word_diff: Option<&WordDiffLine>) -> (r: Vec<Segment>)
    ensures
        segment_views(r@) == line_segments(line@, match word_diff { Some(w) => Some(w@), None => None }),
{
    let (role, prefix) = line_look_exec(line);
    let chars = chars_of(line);
    let mut out: Vec<Segment> = Vec::new();
    if str_starts_with(line, "@@ ") {
        let ghost l = line@;
        proof {
            reveal_strlit("@@ ");
            reveal_strlit("@@");
            assert(l.subrange(0, 3) == "@@ "@);
            assert(l.subrange(0, 3)[0] == '@' && l.subrange(0, 3)[1] == '@');
            assert(l[0] == '@' && l[1] == '@');
        }
        let mut k: usize = chars.len() - 2;
        let mut found = false;
        while !found
            invariant
                chars@ == l,
                l.len() >= 3,
                l[0] == '@' && l[1] == '@',
                "@@"@.len() == 2,
                "@@"@[0] == '@' && "@@"@[1] == '@',
                k <= l.len() - 2,
                k + 1 < chars.len(),
                !found ==> last_occurrence(l, "@@"@, k as int) == last_occurrence(l, "@@"@, l.len() - 2),
                found ==> last_occurrence(l, "@@"@, l.len() - 2) == Some(k as int),
            decreases k + (if found { 0int } else { 1int }),
        {
            proof {
                reveal_strlit("@@");
            }
            if chars[k] == '@' && chars[k + 1] == '@' {
                assert(l.subrange(k as int, k + 2) =~= "@@"@);
                found = true;
            } else {
                assert(!crate::text::occurs_at(l, "@@"@, k as int));
                if k == 0 {
                    assert(l.subrange(0, 2) =~= "@@"@);
                    assert(false);
                }
                k = k - 1;
            }
        }
        out.push(Segment { text: string_from_range(&chars, 0, k + 2), role: ColorRole::HunkHeader, reverse: false });
        out.push(Segment { text: string_from_range(&chars, k + 2, chars.len()), role: ColorRole::Addition, reverse: false });
        assert(segment_views(out@) =~= line_segments(line@, match word_diff { Some(w) => Some(w@), None => None }));
        return out;
    }
    match word_diff {
        Some(w) => {
            out.push(Segment { text: prefix, role, reverse: false });
            let mut i: usize = 0;
            while i < w.0.len()
                invariant
                    i <= w.0@.len(),
                    segment_views(out@) == seq![SegmentView { text: line_look(line@).1, role, reverse: false }]
                        + w@.subrange(0, i as int).map_values(|p: (Seq<char>, bool)| SegmentView { text: p.0, role, reverse: p.1 }),
                decreases w.0@.len() - i,
            {
                let ghost before = out@;
                out.push(Segment { text: crate::git::owned(w.0[i].0.as_str()), role, reverse: w.0[i].1 });
                assert(w@[i as int] == (w.0@[i as int].0@, w.0@[i as int].1));
                assert(w@.subrange(0, i + 1) =~= w@.subrange(0, i as int).push(w@[i as int]));
                assert(segment_views(out@) =~= segment_views(before).push(SegmentView { text: w.0@[i as int].0@, role, reverse: w.0@[i as int].1 }));
                i = i + 1;
            }
            assert(w@.subrange(0, w@.len() as int) =~= w@);
        },
        None => {
            out.push(Segment { text: crate::git::owned(line), role, reverse: false });
            assert(segment_views(out@) =~= seq![SegmentView { text: line@, role, reverse: false }]);
        },
    }
    out
}

/// What is drawn of the pieces of a line when `remaining` more columns
/// are scrolled past: a piece narrower than what is left to scroll past is
/// skipped whole; the piece in which scrolling ends is cut (see
/// [`scrolled_text`]); the pieces after it are drawn whole.
pub open spec fn visible_segments(segs: Seq<SegmentView>, remaining: usize) -> Seq<SegmentView>
    decreases segs.len(),
{
    if segs.len() == 0 {
        Seq::empty()
    } else {
        let g = segs[0];
        let rest = segs.drop_first();
        if remaining == 0 {
            seq![g] + visible_segments(rest, 0)
        } else {
            let w = crate::ui::commit_view::str_display_width(g.text);
            if remaining < w {
                seq![SegmentView { text: scrolled_text(g.text, remaining), ..g }] + visible_segments(rest, 0)
            } else {
                visible_segments(rest, (remaining - w) as usize)
            }
        }
    }
}

/// What is drawn of `segments` after scrolling `horizontal_scroll` columns
/// to the right.
pub fn scroll_segments(segments: Vec<Segment>, horizontal_scroll: usize) -> (r: Vec<Segment>)
    ensures
        segment_views(r@) == visible_segments(segment_views(segments@), horizontal_scroll),
{
    let ghost all = segment_views(segments@);
    let mut out: Vec<Segment> = Vec::new();
    let mut remaining = horizontal_scroll;
    let mut i: usize = 0;
    let n = segments.len();
    let mut segments = segments;
    assert(all.subrange(0, all.len() as int) =~= all);
    while i < n
        invariant
            i <= n,
            n == segments@.len(),
            all == segment_views(segments@),
            segment_views(out@) + visible_segments(all.subrange(i as int, n as int), remaining)
                == visible_segments(all, horizontal_scroll),
        decreases n - i,
    {
        let ghost tail = all.subrange(i as int, n as int);
        assert(tail.drop_first() =~= all.subrange(i + 1, n as int));
        assert(tail[0] == segments@[i as int]@);
        let ghost before = out@;
        let text = crate::git::owned(segments[i].text.as_str());
        let role = segments[i].role;
        let reverse = segments[i].reverse;
        if remaining == 0 {
            out.push(Segment { text, role, reverse });
            assert(segment_views(out@) =~= segment_views(before) + seq![tail[0]]);
        } else {
            let w = crate::ui::commit_view::str_width(text.as_str());
            if remaining < w {
                let cut = get_scrolled_line(text.as_str(), remaining);
                out.push(Segment { text: cut, role, reverse });
                assert(segment_views(out@) =~= segment_views(before) + seq![SegmentView { text: scrolled_text(tail[0].text, remaining), ..tail[0] }]);
                remaining = 0;
            } else {
                remaining = remaining - w;
            }
        }
        i = i + 1;
    }
    assert(all.subrange(n as int, n as int) =~= Seq::<SegmentView>::empty());
    assert(segment_views(out@) + Seq::<SegmentView>::empty() =~= segment_views(out@));
    out
}

// ---------------------------------------------------------------------------
// The files of a commit as one diff
// ---------------------------------------------------------------------------

/// The lines of `files`, one file after the other.
pub open spec fn joined_lines(files: Seq<FileDiffView>) -> Seq<Seq<char>>
    decreases files.len(),
{
    if files.len() == 0 {
        Seq::empty()
    } else {
        joined_lines(files.drop_last()) + files.last().lines
    }
}

/// `h` with its header `offset` lines further down (at most at the last
/// line a `usize` can number).
pub open spec fn shifted_hunk(h: HunkView, offset: int) -> HunkView {
    HunkView { start_line: sat_add(h.start_line as int, offset) as usize, ..h }
}

/// The hunks of `files`, each moved down by the lines of the files before
/// its own.
pub open spec fn joined_hunks(files: Seq<FileDiffView>) -> Seq<HunkView>
    decreases files.len(),
{
    if files.len() == 0 {
        Seq::empty()
    } else {
        let offset = joined_lines(files.drop_last()).len() as int;
        joined_hunks(files.drop_last()) + files.last().hunks.map_values(|h: HunkView| shifted_hunk(h, offset))
    }
}

/// The files of a commit shown as one diff: their lines one file after the
/// other, their hunks where their lines now stand.
pub open spec fn joined_diff_of(files: Seq<FileDiffView>) -> FileDiffView {
    FileDiffView {
        file_name: Seq::empty(),
        old_file_name: Seq::empty(),
        hunks: joined_hunks(files),
        lines: joined_lines(files),
        status: FileStatus::Modified,
    }
}

/// The content of each hunk.
pub open spec fn hunk_views(hunks: Seq<Hunk>) -> Seq<HunkView> {
    hunks.map_values(|h: Hunk| h@)
}

/// Builds [`joined_diff_of`] of `files`.
pub fn joined_diff(files: &Vec<FileDiff>) -> (r: FileDiff)
    ensures
        r@ == joined_diff_of(file_views(files@)),
{
    let mut lines: Vec<String> = Vec::new();
    let mut hunks: Vec<Hunk> = Vec::new();
    let mut k: usize = 0;
    while k < files.len()
        invariant
            k <= files@.len(),
            views(lines@) == joined_lines(file_views(files@).take(k as int)),
            hunk_views(hunks@) == joined_hunks(file_views(files@).take(k as int)),
        decreases files@.len() - k,
    {
        let f = &files[k];
        let ghost done = file_views(files@).take(k as int);
        assert(file_views(files@).take(k + 1).drop_last() =~= done);
        assert(file_views(files@).take(k + 1).last() == f@);
        let offset = lines.len();
        let ghost lines_before = views(lines@);
        let ghost hunks_before = hunk_views(hunks@);
        let mut j: usize = 0;
        while j < f.hunks.len()
            invariant
                j <= f.hunks@.len(),
                offset == lines_before.len(),
                hunk_views(hunks@) == hunks_before + f@.hunks.take(j as int).map_values(
                    |h: HunkView| shifted_hunk(h, offset as int)),
            decreases f.hunks@.len() - j,
        {
            let mut h = f.hunks[j].clone();
            h.start_line = h.start_line.saturating_add(offset);
            let ghost before = hunks@;
            hunks.push(h);
            assert(hunk_views(hunks@) =~= hunk_views(before).push(h@));
            assert(f@.hunks.take(j + 1) =~= f@.hunks.take(j as int).push(f@.hunks[j as int]));
            assert(hunk_views(hunks@) =~= hunks_before + f@.hunks.take(j + 1).map_values(
                |h: HunkView| shifted_hunk(h, offset as int)));
            j = j + 1;
        }
        assert(f@.hunks.take(j as int) =~= f@.hunks);
        let mut m: usize = 0;
        while m < f.lines.len()
            invariant
                m <= f.lines@.len(),
                views(lines@) == lines_before + views(f.lines@).take(m as int),
            decreases f.lines@.len() - m,
        {
            let ghost before = lines@;
            lines.push(f.lines[m].clone());
            assert(views(lines@) =~= views(before).push(f.lines@[m as int]@));
            assert(views(lines@) =~= lines_before + views(f.lines@).take(m + 1));
            m = m + 1;
        }
        assert(views(f.lines@).take(m as int) =~= views(f.lines@));
        k = k + 1;
    }
    assert(file_views(files@).take(k as int) =~= file_views(files@));
    FileDiff { file_name: String::new(), old_file_name: String::new(), hunks, lines, status: FileStatus::Modified }
}

} // verus!
