//! The data read from git (file diffs, hunks, commits) and the parser of
//! `git diff` output.
use crate::text::{
    chars_of, field, lines, parse_usize, parse_usize_spec, split_field, split_lines, starts_with,
    starts_with_char, str_starts_with, str_starts_with_char, trim_char, trim_matches,
    trim_start_char, trim_start_matches, trim, trim_spaces, views,
};
use crate::git_flows::{
    amend_start, reword_first_step, reword_start, unit_step, AddAllPhase, AddAllRun, AddAllRunView,
    AmendRun, FixupPhase, FixupRun, FixupRunView, FlowStep, FlowStepView, RewordRun,
};
use vstd::prelude::*;

verus! {

// ---------------------------------------------------------------------------
// Data types
// ---------------------------------------------------------------------------

/// How a file changed.
#[derive(Clone, Copy, Debug, PartialEq, Eq, Structural)]
pub enum FileStatus {
    Added,
    Modified,
    Renamed,
    Deleted,
}

/// One `@@` section of a file diff. `start_line` is the index of its header
/// in the file's `lines`; `line_numbers[i]` holds the old and new line
/// numbers shown beside `lines[i]`.
#[derive(Debug)]
pub struct Hunk {
    pub start_line: usize,
    pub lines: Vec<String>,
    pub old_start: usize,
    pub new_start: usize,
    pub line_numbers: Vec<(usize, usize)>,
}

/// The diff of one file: its names, its hunks, all of its lines (the
/// `diff --git` header included) and its status.
#[derive(Debug)]
pub struct FileDiff {
    pub file_name: String,
    pub old_file_name: String,
    pub hunks: Vec<Hunk>,
    pub lines: Vec<String>,
    pub status: FileStatus,
}

/// A commit of the local history, newest first in lists.
#[derive(Debug)]
pub struct CommitInfo {
    pub hash: String,
    pub message: String,
    pub is_on_remote: bool,
    pub is_fixup: bool,
}

/// The mathematical content of a [`Hunk`].
pub struct HunkView {
    pub start_line: usize,
    pub lines: Seq<Seq<char>>,
    pub old_start: usize,
    pub new_start: usize,
    pub line_numbers: Seq<(usize, usize)>,
}

/// The mathematical content of a [`FileDiff`].
pub struct FileDiffView {
    pub file_name: Seq<char>,
    pub old_file_name: Seq<char>,
    pub hunks: Seq<HunkView>,
    pub lines: Seq<Seq<char>>,
    pub status: FileStatus,
}

/// The mathematical content of a [`CommitInfo`].
pub struct CommitView {
    pub hash: Seq<char>,
    pub message: Seq<char>,
    pub is_on_remote: bool,
    pub is_fixup: bool,
}

impl View for Hunk {
    type V = HunkView;

    open spec fn view(&self) -> HunkView {
        HunkView {
            start_line: self.start_line,
            lines: views(self.lines@),
            old_start: self.old_start,
            new_start: self.new_start,
            line_numbers: self.line_numbers@,
        }
    }
}

impl View for FileDiff {
    type V = FileDiffView;

    open spec fn view(&self) -> FileDiffView {
        FileDiffView {
            file_name: self.file_name@,
            old_file_name: self.old_file_name@,
            hunks: self.hunks@.map_values(|h: Hunk| h@),
            lines: views(self.lines@),
            status: self.status,
        }
    }
}

impl View for CommitInfo {
    type V = CommitView;

    open spec fn view(&self) -> CommitView {
        CommitView {
            hash: self.hash@,
            message: self.message@,
            is_on_remote: self.is_on_remote,
            is_fixup: self.is_fixup,
        }
    }
}

/// The views of a sequence of file diffs.
pub open spec fn file_views(v: Seq<FileDiff>) -> Seq<FileDiffView> {
    v.map_values(|f: FileDiff| f@)
}

/// The views of a sequence of commits.
pub open spec fn commit_views(v: Seq<CommitInfo>) -> Seq<CommitView> {
    v.map_values(|c: CommitInfo| c@)
}

/// A copy of a list of strings.
pub fn clone_strings(v: &Vec<String>) -> (r: Vec<String>)
    ensures
        r@ == v@,
{
    v.clone()
}

impl Clone for Hunk {
    fn clone(&self) -> (r: Self)
        ensures
            r@ == self@,
    {
        let mut line_numbers: Vec<(usize, usize)> = Vec::new();
        let mut i: usize = 0;
        while i < self.line_numbers.len()
            invariant
                i <= self.line_numbers@.len(),
                line_numbers@ == self.line_numbers@.subrange(0, i as int),
            decreases self.line_numbers@.len() - i,
        {
            line_numbers.push(self.line_numbers[i]);
            assert(self.line_numbers@.subrange(0, i + 1) == self.line_numbers@.subrange(0, i as int).push(self.line_numbers@[i as int]));
            i = i + 1;
        }
        assert(self.line_numbers@.subrange(0, self.line_numbers@.len() as int) == self.line_numbers@);
        Hunk {
            start_line: self.start_line,
            lines: clone_strings(&self.lines),
            old_start: self.old_start,
            new_start: self.new_start,
            line_numbers,
        }
    }
}

impl Clone for FileDiff {
    fn clone(&self) -> (r: Self)
        ensures
            r@ == self@,
    {
        let mut hunks: Vec<Hunk> = Vec::new();
        let mut i: usize = 0;
        while i < self.hunks.len()
            invariant
                i <= self.hunks@.len(),
                hunks@.len() == i,
                forall|k: int| 0 <= k < i ==> #[trigger] hunks@[k]@ == self.hunks@[k]@,
            decreases self.hunks@.len() - i,
        {
            let h = self.hunks[i].clone();
            hunks.push(h);
            i = i + 1;
        }
        assert(hunks@.map_values(|h: Hunk| h@) =~= self.hunks@.map_values(|h: Hunk| h@));
        FileDiff {
            file_name: self.file_name.clone(),
            old_file_name: self.old_file_name.clone(),
            hunks,
            lines: clone_strings(&self.lines),
            status: self.status,
        }
    }
}

impl PartialEq for CommitInfo {
    /// Two commits are equal when hash, message and both marks agree.
    fn eq(&self, other: &Self) -> (r: bool) {
        crate::text::str_equal(self.hash.as_str(), other.hash.as_str())
            && crate::text::str_equal(self.message.as_str(), other.message.as_str())
            && self.is_on_remote == other.is_on_remote && self.is_fixup == other.is_fixup
    }
}

impl vstd::std_specs::cmp::PartialEqSpecImpl for CommitInfo {
    open spec fn obeys_eq_spec() -> bool {
        true
    }

    open spec fn eq_spec(&self, other: &Self) -> bool {
        self@ == other@
    }
}

impl Clone for CommitInfo {
    fn clone(&self) -> (r: Self)
        ensures
            r == *self,
    {
        CommitInfo {
            hash: self.hash.clone(),
            message: self.message.clone(),
            is_on_remote: self.is_on_remote,
            is_fixup: self.is_fixup,
        }
    }
}

// ---------------------------------------------------------------------------
// The regular expression that recognizes a file header
// ---------------------------------------------------------------------------

/// The text of capture group `group` when the regular expression `pattern`
/// is matched against `haystack` (group 0 is the whole match); `None` when
/// the pattern is invalid, does not match, or the group took no part.
pub uninterp spec fn regex_group(pattern: Seq<char>, haystack: Seq<char>, group: usize) -> Option<Seq<char>>;

/// Calls `regex::Regex::new(pattern)` and then `captures(haystack)` on the
/// result, and returns capture group `group` as a string. Trusted: the result
/// is what the regex crate computes, named `regex_group` and not spelled out.
#[verifier::external_body]
pub(crate) fn capture_group(pattern: &str, haystack: &str, group: usize) -> (r: Option<String>)
    ensures
        match r {
            Some(g) => regex_group(pattern@, haystack@, group) == Some(g@),
            None => regex_group(pattern@, haystack@, group) is None,
        },
{
    regex::Regex::new(pattern).ok()?.captures(haystack)?.get(group).map(|m| m.as_str().to_string())
}

/// The pattern of a file header line: `diff --git a/OLD b/NEW`.
pub open spec fn diff_header_pattern() -> Seq<char> {
    "^diff --git a/(.+) b/(.+)"@
}

/// Matches a file header line: the old and the new file name, each without
/// surrounding double quotes, or `None` when `line` is no file header.
pub fn match_diff_header(line: &str) -> (r: Option<(String, String)>)
    ensures
        r is Some <==> regex_group(diff_header_pattern(), line@, 0) is Some,
        r matches Some((old, new)) ==> old@ == header_name(line@, 1) && new@ == header_name(line@, 2),
{
    let whole = capture_group("^diff --git a/(.+) b/(.+)", line, 0);
    if whole.is_none() {
        return None;
    }
    let old_name = match capture_group("^diff --git a/(.+) b/(.+)", line, 1) {
        Some(g) => trim_matches(g.as_str(), '"'),
        None => String::new(),
    };
    let new_name = match capture_group("^diff --git a/(.+) b/(.+)", line, 2) {
        Some(g) => trim_matches(g.as_str(), '"'),
        None => String::new(),
    };
    Some((old_name, new_name))
}

/// A file name taken from group `group` of a header line, quotes trimmed; empty when absent.
pub open spec fn header_name(line: Seq<char>, group: usize) -> Seq<char> {
    match regex_group(diff_header_pattern(), line, group) {
        Some(g) => trim_char(g, '"'),
        None => Seq::empty(),
    }
}

// ---------------------------------------------------------------------------
// Line numbers of a hunk
// ---------------------------------------------------------------------------

/// The old and new line counters after the lines `1..=i` of a hunk, starting
/// one below the hunk's start lines (the header line `0` changes nothing).
pub open spec fn line_counters(lines: Seq<Seq<char>>, i: int, old_start: usize, new_start: usize) -> (i32, i32)
    decreases i,
{
    if i <= 0 {
        ((old_start as i32).wrapping_sub(1), (new_start as i32).wrapping_sub(1))
    } else {
        let (o, n) = line_counters(lines, i - 1, old_start, new_start);
        if starts_with_char(lines[i], '+') {
            (o, n.wrapping_add(1))
        } else if starts_with_char(lines[i], '-') {
            (o.wrapping_add(1), n)
        } else {
            (o.wrapping_add(1), n.wrapping_add(1))
        }
    }
}

/// A counter as a line number: negative values become zero.
pub open spec fn clamp_line(x: i32) -> usize {
    if x < 0 { 0 } else { x as usize }
}

/// The line numbers shown beside line `i` of a hunk: none for the header,
/// else the clamped counters after that line.
pub open spec fn line_number_at(lines: Seq<Seq<char>>, i: int, old_start: usize, new_start: usize) -> (usize, usize) {
    if i == 0 {
        (0, 0)
    } else {
        let (o, n) = line_counters(lines, i, old_start, new_start);
        (clamp_line(o), clamp_line(n))
    }
}

/// The line numbers of every line of a hunk.
pub open spec fn spec_line_numbers(lines: Seq<Seq<char>>, old_start: usize, new_start: usize) -> Seq<(usize, usize)> {
    Seq::new(lines.len(), |i: int| line_number_at(lines, i, old_start, new_start))
}

/// Computes the old and new line number of every line of `hunk`.
/// Counters run in 32-bit arithmetic that wraps, as in a release build.
pub fn calc_line_numbers(hunk: &Hunk) -> (r: Vec<(usize, usize)>)
    ensures
        r@ == spec_line_numbers(hunk@.lines, hunk.old_start, hunk.new_start),
{
    let mut line_numbers: Vec<(usize, usize)> = Vec::new();
    let mut old_counter: i32 = (hunk.old_start as i32).wrapping_sub(1);
    let mut new_counter: i32 = (hunk.new_start as i32).wrapping_sub(1);
    let ghost ls = hunk@.lines;
    let mut i: usize = 0;
    while i < hunk.lines.len()
        invariant
            ls == hunk@.lines,
            ls.len() == hunk.lines@.len(),
            i <= ls.len(),
            line_numbers@.len() == i,
            forall|k: int| 0 <= k < i ==> #[trigger] line_numbers@[k] == line_number_at(ls, k, hunk.old_start, hunk.new_start),
            (old_counter, new_counter) == line_counters(ls, if i == 0 { 0 } else { i - 1 }, hunk.old_start, hunk.new_start),
        decreases ls.len() - i,
    {
        if i == 0 {
            line_numbers.push((0, 0));
            i = i + 1;
            continue;
        }
        let line = &hunk.lines[i];
        assert(line@ == ls[i as int]);
        if str_starts_with_char(line.as_str(), '+') {
            new_counter = new_counter.wrapping_add(1);
        } else if str_starts_with_char(line.as_str(), '-') {
            old_counter = old_counter.wrapping_add(1);
        } else {
            old_counter = old_counter.wrapping_add(1);
            new_counter = new_counter.wrapping_add(1);
        }
        let o: usize = if old_counter < 0 { 0 } else { old_counter as usize };
        let n: usize = if new_counter < 0 { 0 } else { new_counter as usize };
        line_numbers.push((o, n));
        i = i + 1;
    }
    assert(line_numbers@ =~= spec_line_numbers(ls, hunk.old_start, hunk.new_start));
    line_numbers
}

// ---------------------------------------------------------------------------
// Parsing `git diff` output
// ---------------------------------------------------------------------------

/// The state of the diff parser between two lines: the finished files, the
/// file and hunk being read, the lines of that file so far, and the lines
/// seen before the first file header.
pub struct ParseState {
    pub files: Seq<FileDiffView>,
    pub current_file: Option<FileDiffView>,
    pub current_hunk: Option<HunkView>,
    pub file_lines: Seq<Seq<char>>,
    pub header_lines: Seq<Seq<char>>,
}

/// The parser before any line.
pub open spec fn parse_init() -> ParseState {
    ParseState {
        files: Seq::empty(),
        current_file: None,
        current_hunk: None,
        file_lines: Seq::empty(),
        header_lines: Seq::empty(),
    }
}

/// A hunk with its line numbers filled in.
pub open spec fn finish_hunk(h: HunkView) -> HunkView {
    HunkView { line_numbers: spec_line_numbers(h.lines, h.old_start, h.new_start), ..h }
}

/// The file `f` with the pending hunk, if any, appended to its hunks.
pub open spec fn with_pending_hunk(f: FileDiffView, h: Option<HunkView>) -> FileDiffView {
    match h {
        Some(h) => FileDiffView { hunks: f.hunks.push(finish_hunk(h)), ..f },
        None => f,
    }
}

/// A start line number from field `index` of a hunk header: the part before
/// the first `','`, without leading `sign` characters, read as a number, or 0.
pub open spec fn hunk_header_number(line: Seq<char>, index: nat, sign: char) -> usize {
    match field(line, ' ', index) {
        Some(part) => match field(part, ',', 0) {
            Some(first) => match parse_usize_spec(trim_start_char(first, sign)) {
                Some(n) => n,
                None => 0,
            },
            None => 0,
        },
        None => 0,
    }
}

/// The state with `line` appended to the current file's lines, or to the
/// header lines when no file has begun.
pub open spec fn record_line(st: ParseState, line: Seq<char>) -> ParseState {
    if st.current_file is Some {
        ParseState { file_lines: st.file_lines.push(line), ..st }
    } else {
        ParseState { header_lines: st.header_lines.push(line), ..st }
    }
}

/// The state with the current file's status set to `status`, if there is a file.
pub open spec fn set_status(st: ParseState, status: FileStatus) -> ParseState {
    match st.current_file {
        Some(f) => ParseState { current_file: Some(FileDiffView { status, ..f }), ..st },
        None => st,
    }
}

/// What the header pattern finds in a line: the old and the new file name
/// (quotes trimmed), or `None` when the line is no file header.
pub open spec fn header_of(line: Seq<char>) -> Option<(Seq<char>, Seq<char>)> {
    if regex_group(diff_header_pattern(), line, 0) is Some {
        Some((header_name(line, 1), header_name(line, 2)))
    } else {
        None
    }
}

/// The names found in each line, as [`header_of`] gives them.
pub open spec fn header_views(hs: Seq<Option<(String, String)>>) -> Seq<Option<(Seq<char>, Seq<char>)>> {
    hs.map_values(|h: Option<(String, String)>| match h {
        Some((o, n)) => Some((o@, n@)),
        None => None,
    })
}

/// What reading one line does to the parser, `header` being the old and new
/// file name when the line is a file header.
pub open spec fn parse_step(st: ParseState, line: Seq<char>, header: Option<(Seq<char>, Seq<char>)>) -> ParseState {
    if header is Some {
        let files = match st.current_file {
            Some(f) => st.files.push(FileDiffView { lines: st.file_lines, ..with_pending_hunk(f, st.current_hunk) }),
            None => st.files,
        };
        let hunk = if st.current_file is Some { None } else { st.current_hunk };
        let file = FileDiffView {
            file_name: (header->0).1,
            old_file_name: (header->0).0,
            hunks: Seq::empty(),
            lines: Seq::empty(),
            status: FileStatus::Modified,
        };
        let file_lines = if files.len() == 0 { st.header_lines } else { Seq::empty() };
        let header_lines = if files.len() == 0 { Seq::empty() } else { st.header_lines };
        record_line(ParseState { files, current_file: Some(file), current_hunk: hunk, file_lines, header_lines }, line)
    } else if starts_with(line, "new file mode"@) {
        record_line(set_status(st, FileStatus::Added), line)
    } else if starts_with(line, "deleted file mode"@) {
        record_line(set_status(st, FileStatus::Deleted), line)
    } else if starts_with(line, "rename from"@) {
        record_line(set_status(st, FileStatus::Renamed), line)
    } else if starts_with(line, "@@ "@) {
        let file = match (st.current_hunk, st.current_file) {
            (Some(h), Some(f)) => Some(with_pending_hunk(f, Some(h))),
            _ => st.current_file,
        };
        let hunk = HunkView {
            start_line: st.file_lines.len() as usize,
            lines: seq![line],
            old_start: hunk_header_number(line, 1, '-'),
            new_start: hunk_header_number(line, 2, '+'),
            line_numbers: Seq::empty(),
        };
        record_line(ParseState { current_file: file, current_hunk: Some(hunk), ..st }, line)
    } else {
        match st.current_hunk {
            Some(h) => record_line(ParseState { current_hunk: Some(HunkView { lines: h.lines.push(line), ..h }), ..st }, line),
            None => record_line(st, line),
        }
    }
}

/// The parser after reading all of `ls`, `hs` holding what each line's
/// header match found.
pub open spec fn parse_lines(ls: Seq<Seq<char>>, hs: Seq<Option<(Seq<char>, Seq<char>)>>) -> ParseState
    decreases ls.len(),
{
    if ls.len() == 0 {
        parse_init()
    } else {
        parse_step(parse_lines(ls.drop_last(), hs.drop_last()), ls.last(), hs.last())
    }
}

/// The files once the input has ended: the open file is closed; text with no
/// file header at all becomes one nameless file holding that text.
pub open spec fn parse_finish(st: ParseState) -> Seq<FileDiffView> {
    match st.current_file {
        Some(f) => st.files.push(FileDiffView { lines: st.file_lines, ..with_pending_hunk(f, st.current_hunk) }),
        None => if st.header_lines.len() > 0 {
            st.files.push(FileDiffView {
                file_name: Seq::empty(),
                old_file_name: Seq::empty(),
                hunks: Seq::empty(),
                lines: st.header_lines,
                status: FileStatus::Modified,
            })
        } else {
            st.files
        },
    }
}

/// The files that the lines `ls` describe, `hs` holding what each line's
/// header match found.
pub open spec fn parse_with_headers(ls: Seq<Seq<char>>, hs: Seq<Option<(Seq<char>, Seq<char>)>>) -> Seq<FileDiffView> {
    parse_finish(parse_lines(ls, hs))
}

/// The files that `git diff` output `diff` describes.
pub open spec fn spec_parse_diff(diff: Seq<char>) -> Seq<FileDiffView> {
    parse_with_headers(lines(diff), lines(diff).map_values(|l: Seq<char>| header_of(l)))
}

/// The diff parser's state in memory.
struct DiffParser {
    files: Vec<FileDiff>,
    current_file: Option<FileDiff>,
    current_hunk: Option<Hunk>,
    file_lines: Vec<String>,
    header_lines: Vec<String>,
}

impl View for DiffParser {
    type V = ParseState;

    closed spec fn view(&self) -> ParseState {
        ParseState {
            files: file_views(self.files@),
            current_file: match self.current_file { Some(f) => Some(f@), None => None },
            current_hunk: match self.current_hunk { Some(h) => Some(h@), None => None },
            file_lines: views(self.file_lines@),
            header_lines: views(self.header_lines@),
        }
    }
}

/// Reads field `index` of a hunk header as `hunk_header_number` describes.
fn parse_hunk_header_number(line: &Vec<char>, index: usize, sign: char) -> (r: usize)
    ensures
        r == hunk_header_number(line@, index as nat, sign),
{
    match split_field(line, ' ', index) {
        Some(part) => match split_field(&part, ',', 0) {
            Some(first) => {
                let digits = trim_start_matches(&first, sign);
                match parse_usize(&digits) {
                    Some(n) => n,
                    None => 0,
                }
            },
            None => 0,
        },
        None => 0,
    }
}

/// Appends `hunk`, with its line numbers computed, to the hunks of `file`.
fn push_finished_hunk(file: &mut FileDiff, hunk: Hunk)
    ensures
        final(file)@ == with_pending_hunk(old(file)@, Some(hunk@)),
{
    let mut hunk = hunk;
    hunk.line_numbers = calc_line_numbers(&hunk);
    let ghost before = file.hunks@;
    file.hunks.push(hunk);
    assert(file.hunks@.map_values(|h: Hunk| h@) =~= before.map_values(|h: Hunk| h@).push(hunk@));
}

impl DiffParser {
    fn new() -> (r: DiffParser)
        ensures
            r@ == parse_init(),
    {
        let r = DiffParser {
            files: Vec::new(),
            current_file: None,
            current_hunk: None,
            file_lines: Vec::new(),
            header_lines: Vec::new(),
        };
        assert(file_views(r.files@) =~= Seq::<FileDiffView>::empty());
        assert(views(r.file_lines@) =~= Seq::<Seq<char>>::empty());
        assert(views(r.header_lines@) =~= Seq::<Seq<char>>::empty());
        r
    }

    /// Appends `line` to the current file's lines, or to the header lines.
    fn record(&mut self, line: String)
        ensures
            final(self)@ == record_line(old(self)@, line@),
    {
        if self.current_file.is_some() {
            let ghost before = self.file_lines@;
            self.file_lines.push(line);
            assert(views(self.file_lines@) =~= views(before).push(line@));
        } else {
            let ghost before = self.header_lines@;
            self.header_lines.push(line);
            assert(views(self.header_lines@) =~= views(before).push(line@));
        }
    }

    fn set_status(&mut self, status: FileStatus)
        ensures
            final(self)@ == set_status(old(self)@, status),
    {
        if let Some(mut f) = self.current_file.take() {
            f.status = status;
            self.current_file = Some(f);
        }
    }

    /// Closes the current file, if any, moving it with its lines and pending
    /// hunk into the finished files.
    fn close_file(&mut self)
        requires
            old(self).current_file is Some,
        ensures
            final(self)@ == (ParseState {
                files: old(self)@.files.push(FileDiffView { lines: old(self)@.file_lines, ..with_pending_hunk(old(self)@.current_file->0, old(self)@.current_hunk) }),
                current_file: None,
                current_hunk: None,
                file_lines: Seq::empty(),
                ..old(self)@
            }),
    {
        let mut file = self.current_file.take().unwrap();
        if let Some(h) = self.current_hunk.take() {
            push_finished_hunk(&mut file, h);
        }
        let mut lines: Vec<String> = Vec::new();
        std::mem::swap(&mut lines, &mut self.file_lines);
        file.lines = lines;
        let ghost before = self.files@;
        self.files.push(file);
        assert(file_views(self.files@) =~= file_views(before).push(file@));
        assert(views(self.file_lines@) =~= Seq::<Seq<char>>::empty());
    }

    fn step(&mut self, line: String, header: Option<(String, String)>)
        ensures
            final(self)@ == parse_step(old(self)@, line@, match header {
                Some((o, n)) => Some((o@, n@)),
                None => None,
            }),
    {
        let chars = chars_of(line.as_str());
        if let Some((old_name, new_name)) = header {
            let ghost st = self@;
            let had_file = self.current_file.is_some();
            if had_file {
                self.close_file();
            }
            let file = FileDiff {
                file_name: new_name,
                old_file_name: old_name,
                hunks: Vec::new(),
                lines: Vec::new(),
                status: FileStatus::Modified,
            };
            assert(file@.hunks =~= Seq::<HunkView>::empty());
            assert(file@.lines =~= Seq::<Seq<char>>::empty());
            self.current_file = Some(file);
            self.file_lines = Vec::new();
            if self.files.len() == 0 {
                let mut header: Vec<String> = Vec::new();
                std::mem::swap(&mut header, &mut self.header_lines);
                self.file_lines = header;
            }
            assert(views(self.header_lines@) =~= (if self@.files.len() == 0 { Seq::<Seq<char>>::empty() } else { st.header_lines }));
            assert(views(self.file_lines@) =~= (if self@.files.len() == 0 { st.header_lines } else { Seq::<Seq<char>>::empty() }));
            self.record(line);
        } else if str_starts_with(line.as_str(), "new file mode") {
            self.set_status(FileStatus::Added);
            self.record(line);
        } else if str_starts_with(line.as_str(), "deleted file mode") {
            self.set_status(FileStatus::Deleted);
            self.record(line);
        } else if str_starts_with(line.as_str(), "rename from") {
            self.set_status(FileStatus::Renamed);
            self.record(line);
        } else if str_starts_with(line.as_str(), "@@ ") {
            if let Some(h) = self.current_hunk.take() {
                if let Some(mut f) = self.current_file.take() {
                    push_finished_hunk(&mut f, h);
                    self.current_file = Some(f);
                }
            }
            let old_start = parse_hunk_header_number(&chars, 1, '-');
            let new_start = parse_hunk_header_number(&chars, 2, '+');
            let mut hunk_lines: Vec<String> = Vec::new();
            hunk_lines.push(line.clone());
            assert(views(hunk_lines@) =~= seq![line@]);
            self.current_hunk = Some(Hunk {
                start_line: self.file_lines.len(),
                lines: hunk_lines,
                old_start,
                new_start,
                line_numbers: Vec::new(),
            });
            self.record(line);
        } else {
            if let Some(mut h) = self.current_hunk.take() {
                let ghost before = h.lines@;
                h.lines.push(line.clone());
                assert(views(h.lines@) =~= views(before).push(line@));
                self.current_hunk = Some(h);
            }
            self.record(line);
        }
    }

    fn finish(self) -> (r: Vec<FileDiff>)
        ensures
            file_views(r@) == parse_finish(self@),
    {
        let mut p = self;
        if p.current_file.is_some() {
            p.close_file();
            p.files
        } else if p.header_lines.len() > 0 {
            let mut files = p.files;
            let ghost before = files@;
            let file = FileDiff {
                file_name: String::new(),
                old_file_name: String::new(),
                hunks: Vec::new(),
                lines: p.header_lines,
                status: FileStatus::Modified,
            };
            assert(file@.hunks =~= Seq::<HunkView>::empty());
            files.push(file);
            assert(file_views(files@) =~= file_views(before).push(file@));
            files
        } else {
            p.files
        }
    }
}

/// Parses the lines of a diff into file diffs, `headers[i]` holding the old
/// and new file name when line `i` is a file header (see [`parse_step`]).
pub fn parse_diff_lines(all: &Vec<String>, headers: Vec<Option<(String, String)>>) -> (files: Vec<FileDiff>)
    requires
        headers@.len() == all@.len(),
    ensures
        file_views(files@) == parse_with_headers(views(all@), header_views(headers@)),
{
    let ghost hs = header_views(headers@);
    let mut headers = headers;
    let mut parser = DiffParser::new();
    let mut i: usize = 0;
    let n = all.len();
    while i < n
        invariant
            n == all@.len(),
            i <= n,
            hs.len() == n,
            headers@.len() == n - i,
            header_views(headers@) == hs.subrange(i as int, n as int),
            parser@ == parse_lines(views(all@).subrange(0, i as int), hs.subrange(0, i as int)),
        decreases n - i,
    {
        let line = all[i].clone();
        let ghost hb = headers@;
        let header = headers.remove(0);
        assert(header_views(hb)[0] == hs.subrange(i as int, n as int)[0]);
        assert(hs[i as int] == match header { Some((o, m)) => Some((o@, m@)), None => None::<(Seq<char>, Seq<char>)> });
        assert(header_views(headers@) =~= header_views(hb).subrange(1, header_views(hb).len() as int));
        assert(header_views(headers@) =~= hs.subrange(i + 1, n as int));
        assert(views(all@).subrange(0, i + 1).drop_last() == views(all@).subrange(0, i as int));
        assert(hs.subrange(0, i + 1).drop_last() == hs.subrange(0, i as int));
        parser.step(line, header);
        i = i + 1;
    }
    assert(views(all@).subrange(0, n as int) == views(all@));
    assert(hs.subrange(0, n as int) == hs);
    parser.finish()
}

/// Parses the output of `git diff` (or `git show --patch`) into file diffs:
/// each line is matched against the file header pattern, then
/// [`parse_diff_lines`] reads the lines.
pub fn parse_diff(diff_str: &str) -> (files: Vec<FileDiff>)
    ensures
        file_views(files@) == spec_parse_diff(diff_str@),
{
    let all = split_lines(diff_str);
    let mut headers: Vec<Option<(String, String)>> = Vec::new();
    let mut i: usize = 0;
    while i < all.len()
        invariant
            i <= all@.len(),
            header_views(headers@) == views(all@).subrange(0, i as int).map_values(|l: Seq<char>| header_of(l)),
        decreases all@.len() - i,
    {
        let ghost before = headers@;
        let found = match_diff_header(all[i].as_str());
        assert(views(all@)[i as int] == all@[i as int]@);
        assert((match found { Some((o, m)) => Some((o@, m@)), None => None::<(Seq<char>, Seq<char>)> })
            == header_of(views(all@)[i as int]));
        headers.push(found);
        assert(header_views(headers@) =~= header_views(before).push(header_of(views(all@)[i as int])));
        assert(header_views(headers@) =~= views(all@).subrange(0, i + 1).map_values(|l: Seq<char>| header_of(l)));
        i = i + 1;
    }
    assert(views(all@).subrange(0, all@.len() as int) =~= views(all@));
    parse_diff_lines(&all, headers)
}

// ---------------------------------------------------------------------------
// Invocations of git
// ---------------------------------------------------------------------------

/// One run of the `git` program: its arguments, the text to feed on standard
/// input, and environment variables to set. The caller runs it in the
/// repository's directory.
#[derive(Debug)]
pub struct GitRequest {
    pub args: Vec<String>,
    pub stdin: Option<String>,
    pub env: Vec<(String, String)>,
}

/// The mathematical content of a [`GitRequest`].
pub struct GitRequestView {
    pub args: Seq<Seq<char>>,
    pub stdin: Option<Seq<char>>,
    pub env: Seq<(Seq<char>, Seq<char>)>,
}

/// The views of environment variable pairs.
pub open spec fn env_views(v: Seq<(String, String)>) -> Seq<(Seq<char>, Seq<char>)> {
    v.map_values(|p: (String, String)| (p.0@, p.1@))
}

impl View for GitRequest {
    type V = GitRequestView;

    open spec fn view(&self) -> GitRequestView {
        GitRequestView {
            args: views(self.args@),
            stdin: match self.stdin { Some(s) => Some(s@), None => None },
            env: env_views(self.env@),
        }
    }
}

/// What a finished run of git reported: whether it exited with success, its
/// exit code if it has one, and its output decoded as text.
#[derive(Debug)]
pub struct GitOutput {
    pub success: bool,
    pub code: Option<i32>,
    pub stdout: String,
    pub stderr: String,
}

/// The mathematical content of a [`GitOutput`].
pub struct GitOutputView {
    pub success: bool,
    pub code: Option<i32>,
    pub stdout: Seq<char>,
    pub stderr: Seq<char>,
}

impl View for GitOutput {
    type V = GitOutputView;

    open spec fn view(&self) -> GitOutputView {
        GitOutputView { success: self.success, code: self.code, stdout: self.stdout@, stderr: self.stderr@ }
    }
}

/// What came back from a run of git: its output, or nothing when it could
/// not be started.
pub open spec fn reply_view(reply: Option<GitOutput>) -> Option<GitOutputView> {
    match reply {
        Some(o) => Some(o@),
        None => None,
    }
}

/// The run of git was started and exited with success.
pub open spec fn succeeded(reply: Option<GitOutputView>) -> bool {
    reply matches Some(o) && o.success
}

/// Every run of git shows paths unquoted.
pub open spec fn base_args() -> Seq<Seq<char>> {
    seq!["-c"@, "core.quotepath=false"@]
}

/// The request that runs git with `args`, nothing on standard input and no
/// extra environment.
pub open spec fn git_call(args: Seq<Seq<char>>) -> GitRequestView {
    GitRequestView { args: base_args() + args, stdin: None, env: Seq::empty() }
}

/// A string holding `s`.
pub fn owned(s: &str) -> (r: String)
    ensures
        r@ == s@,
{
    String::from_str(s)
}

/// Starts a git invocation: `git -c core.quotepath=false`.
pub fn git_command() -> (r: GitRequest)
    ensures
        r@ == git_call(Seq::empty()),
{
    let mut args: Vec<String> = Vec::new();
    args.push(owned("-c"));
    args.push(owned("core.quotepath=false"));
    let r = GitRequest { args, stdin: None, env: Vec::new() };
    assert(r@.args =~= base_args());
    assert(r@.env =~= Seq::<(Seq<char>, Seq<char>)>::empty());
    r
}

impl GitRequest {
    /// Appends one argument.
    pub fn arg(&mut self, a: &str)
        ensures
            final(self)@ == (GitRequestView { args: old(self)@.args.push(a@), ..old(self)@ }),
    {
        let ghost before = self.args@;
        self.args.push(owned(a));
        assert(views(self.args@) =~= views(before).push(a@));
    }
}

/// A git invocation with the given arguments.
fn git_with(args: &[&str]) -> (r: GitRequest)
    ensures
        r@ == git_call(args@.map_values(|a: &str| a@)),
{
    let mut r = git_command();
    let mut i: usize = 0;
    while i < args.len()
        invariant
            i <= args@.len(),
            r@ == git_call(args@.subrange(0, i as int).map_values(|a: &str| a@)),
        decreases args@.len() - i,
    {
        r.arg(args[i]);
        assert(args@.subrange(0, i + 1).map_values(|a: &str| a@) =~= args@.subrange(0, i as int).map_values(|a: &str| a@).push(args@[i as int]@));
        assert(base_args() + args@.subrange(0, i + 1).map_values(|a: &str| a@) =~= (base_args() + args@.subrange(0, i as int).map_values(|a: &str| a@)).push(args@[i as int]@));
        i = i + 1;
    }
    assert(args@.subrange(0, args@.len() as int) == args@);
    r
}

/// `git log --pretty=%h %s`: the short hash and subject of every commit.
pub fn get_local_commits() -> (r: GitRequest)
    ensures
        r@ == git_call(seq!["log"@, "--pretty=%h %s"@]),
{
    let r = git_with(&["log", "--pretty=%h %s"]);
    assert(r@.args =~= git_call(seq!["log"@, "--pretty=%h %s"@]).args);
    r
}

/// `git diff --staged`: the staged changes.
pub fn get_diff() -> (r: GitRequest)
    ensures
        r@ == git_call(seq!["diff"@, "--staged"@]),
{
    let r = git_with(&["diff", "--staged"]);
    assert(r@.args =~= git_call(seq!["diff"@, "--staged"@]).args);
    r
}

/// `git show --stat --patch HASH`: a commit's summary and patch.
pub fn get_commit_diff(hash: &str) -> (r: GitRequest)
    ensures
        r@ == git_call(seq!["show"@, "--stat"@, "--patch"@, hash@]),
{
    let mut r = git_command();
    r.arg("show");
    r.arg("--stat");
    r.arg("--patch");
    r.arg(hash);
    assert(r@.args =~= git_call(seq!["show"@, "--stat"@, "--patch"@, hash@]).args);
    r
}

/// `git status --porcelain`: the short status of every changed path.
pub fn has_unstaged_changes() -> (r: GitRequest)
    ensures
        r@ == git_call(seq!["status"@, "--porcelain"@]),
{
    let mut r = git_command();
    r.arg("status");
    r.arg("--porcelain");
    assert(r@.args =~= git_call(seq!["status"@, "--porcelain"@]).args);
    r
}

/// `git commit -m MESSAGE`: commits the staged changes.
pub fn commit(message: &str) -> (r: GitRequest)
    ensures
        r@ == git_call(seq!["commit"@, "-m"@, message@]),
{
    let mut r = git_command();
    r.arg("commit");
    r.arg("-m");
    r.arg(message);
    assert(r@.args =~= git_call(seq!["commit"@, "-m"@, message@]).args);
    r
}

/// `git commit --amend --allow-empty -m MESSAGE`: rewrites the last commit's message.
pub fn commit_amend_with_message(message: &str) -> (r: GitRequest)
    ensures
        r@ == git_call(seq!["commit"@, "--amend"@, "--allow-empty"@, "-m"@, message@]),
{
    let mut r = git_command();
    r.arg("commit");
    r.arg("--amend");
    r.arg("--allow-empty");
    r.arg("-m");
    r.arg(message);
    assert(r@.args =~= git_call(seq!["commit"@, "--amend"@, "--allow-empty"@, "-m"@, message@]).args);
    r
}

/// `git commit --amend --no-edit --allow-empty`: folds the staged changes into the last commit.
pub fn commit_amend_no_edit() -> (r: GitRequest)
    ensures
        r@ == git_call(seq!["commit"@, "--amend"@, "--no-edit"@, "--allow-empty"@]),
{
    let mut r = git_command();
    r.arg("commit");
    r.arg("--amend");
    r.arg("--no-edit");
    r.arg("--allow-empty");
    assert(r@.args =~= git_call(seq!["commit"@, "--amend"@, "--no-edit"@, "--allow-empty"@]).args);
    r
}

/// `git cherry-pick --no-commit HASH`: applies a commit's changes without committing.
pub fn cherry_pick_no_commit(commit_hash: &str) -> (r: GitRequest)
    ensures
        r@ == git_call(seq!["cherry-pick"@, "--no-commit"@, commit_hash@]),
{
    let mut r = git_command();
    r.arg("cherry-pick");
    r.arg("--no-commit");
    r.arg(commit_hash);
    assert(r@.args =~= git_call(seq!["cherry-pick"@, "--no-commit"@, commit_hash@]).args);
    r
}

/// `git reset HEAD .`: unstages everything.
pub fn unstage_all() -> (r: GitRequest)
    ensures
        r@ == git_call(seq!["reset"@, "HEAD"@, "."@]),
{
    let mut r = git_command();
    r.arg("reset");
    r.arg("HEAD");
    r.arg(".");
    assert(r@.args =~= git_call(seq!["reset"@, "HEAD"@, "."@]).args);
    r
}

/// `git diff --staged`, whose output tells whether anything is staged.
pub fn get_staged_diff_output() -> (r: GitRequest)
    ensures
        r@ == git_call(seq!["diff"@, "--staged"@]),
{
    let mut r = git_command();
    r.arg("diff");
    r.arg("--staged");
    assert(r@.args =~= git_call(seq!["diff"@, "--staged"@]).args);
    r
}

/// `git diff`: the unstaged changes of tracked files.
pub fn get_unstaged_diff() -> (r: GitRequest)
    ensures
        r@ == git_call(seq!["diff"@]),
{
    let mut r = git_command();
    r.arg("diff");
    assert(r@.args =~= git_call(seq!["diff"@]).args);
    r
}

/// `git diff --quiet -- PATH`: exits with code 1 when the file has unstaged changes.
pub fn has_unstaged_changes_in_file(file_path: &str) -> (r: GitRequest)
    ensures
        r@ == git_call(seq!["diff"@, "--quiet"@, "--"@, file_path@]),
{
    let mut r = git_command();
    r.arg("diff");
    r.arg("--quiet");
    r.arg("--");
    r.arg(file_path);
    assert(r@.args =~= git_call(seq!["diff"@, "--quiet"@, "--"@, file_path@]).args);
    r
}

/// `git diff --name-only`: the tracked files with unstaged changes.
pub fn get_unstaged_files() -> (r: GitRequest)
    ensures
        r@ == git_call(seq!["diff"@, "--name-only"@]),
{
    let mut r = git_command();
    r.arg("diff");
    r.arg("--name-only");
    assert(r@.args =~= git_call(seq!["diff"@, "--name-only"@]).args);
    r
}

/// `git ls-files --others --exclude-standard`: the untracked, not ignored files.
pub fn get_untracked_files() -> (r: GitRequest)
    ensures
        r@ == git_call(seq!["ls-files"@, "--others"@, "--exclude-standard"@]),
{
    let mut r = git_command();
    r.arg("ls-files");
    r.arg("--others");
    r.arg("--exclude-standard");
    assert(r@.args =~= git_call(seq!["ls-files"@, "--others"@, "--exclude-standard"@]).args);
    r
}

/// `git diff`: the unstaged changes as one patch.
pub fn get_unstaged_diff_patch() -> (r: GitRequest)
    ensures
        r@ == git_call(seq!["diff"@]),
{
    let mut r = git_command();
    r.arg("diff");
    assert(r@.args =~= git_call(seq!["diff"@]).args);
    r
}

/// `git diff --staged`: the staged changes as one patch.
pub fn get_staged_diff_patch() -> (r: GitRequest)
    ensures
        r@ == git_call(seq!["diff"@, "--staged"@]),
{
    let mut r = git_command();
    r.arg("diff");
    r.arg("--staged");
    assert(r@.args =~= git_call(seq!["diff"@, "--staged"@]).args);
    r
}

/// `git diff -- FILE`: one file's unstaged changes as a patch.
pub fn get_unstaged_file_diff_patch(file_name: &str) -> (r: GitRequest)
    ensures
        r@ == git_call(seq!["diff"@, "--"@, file_name@]),
{
    let mut r = git_command();
    r.arg("diff");
    r.arg("--");
    r.arg(file_name);
    assert(r@.args =~= git_call(seq!["diff"@, "--"@, file_name@]).args);
    r
}

/// `git diff --staged -- FILE`: one file's staged changes as a patch.
pub fn get_file_diff_patch(file_name: &str) -> (r: GitRequest)
    ensures
        r@ == git_call(seq!["diff"@, "--staged"@, "--"@, file_name@]),
{
    let mut r = git_command();
    r.arg("diff");
    r.arg("--staged");
    r.arg("--");
    r.arg(file_name);
    assert(r@.args =~= git_call(seq!["diff"@, "--staged"@, "--"@, file_name@]).args);
    r
}

/// `git reset HEAD -- FILE`: unstages one file.
pub fn unstage_file(file_name: &str) -> (r: GitRequest)
    ensures
        r@ == git_call(seq!["reset"@, "HEAD"@, "--"@, file_name@]),
{
    let mut r = git_command();
    r.arg("reset");
    r.arg("HEAD");
    r.arg("--");
    r.arg(file_name);
    assert(r@.args =~= git_call(seq!["reset"@, "HEAD"@, "--"@, file_name@]).args);
    r
}

/// `git add FILE`: stages one file.
pub fn stage_file(file_name: &str) -> (r: GitRequest)
    ensures
        r@ == git_call(seq!["add"@, file_name@]),
{
    let mut r = git_command();
    r.arg("add");
    r.arg(file_name);
    assert(r@.args =~= git_call(seq!["add"@, file_name@]).args);
    r
}

/// `git checkout -- FILE`: discards a file's unstaged changes.
pub fn checkout_file(file_name: &str) -> (r: GitRequest)
    ensures
        r@ == git_call(seq!["checkout"@, "--"@, file_name@]),
{
    let mut r = git_command();
    r.arg("checkout");
    r.arg("--");
    r.arg(file_name);
    assert(r@.args =~= git_call(seq!["checkout"@, "--"@, file_name@]).args);
    r
}

/// `git rm -f FILE`: removes a file from the index and the work tree.
pub fn rm_file(file_name: &str) -> (r: GitRequest)
    ensures
        r@ == git_call(seq!["rm"@, "-f"@, file_name@]),
{
    let mut r = git_command();
    r.arg("rm");
    r.arg("-f");
    r.arg(file_name);
    assert(r@.args =~= git_call(seq!["rm"@, "-f"@, file_name@]).args);
    r
}

/// `git add PATH`: stages a path.
pub fn stage_path(path: &str) -> (r: GitRequest)
    ensures
        r@ == git_call(seq!["add"@, path@]),
{
    let mut r = git_command();
    r.arg("add");
    r.arg(path);
    assert(r@.args =~= git_call(seq!["add"@, path@]).args);
    r
}

/// `git rm --cached PATH`: removes a path from the index only.
pub fn rm_cached(path: &str) -> (r: GitRequest)
    ensures
        r@ == git_call(seq!["rm"@, "--cached"@, path@]),
{
    let mut r = git_command();
    r.arg("rm");
    r.arg("--cached");
    r.arg(path);
    assert(r@.args =~= git_call(seq!["rm"@, "--cached"@, path@]).args);
    r
}

/// `git rm PATH`: removes a path from the index and the work tree.
pub fn rm_file_from_index(path: &str) -> (r: GitRequest)
    ensures
        r@ == git_call(seq!["rm"@, path@]),
{
    let mut r = git_command();
    r.arg("rm");
    r.arg(path);
    assert(r@.args =~= git_call(seq!["rm"@, path@]).args);
    r
}

/// `git branch -r --contains HASH`: the remote branches holding a commit.
pub fn is_commit_on_remote(hash: &str) -> (r: GitRequest)
    ensures
        r@ == git_call(seq!["branch"@, "-r"@, "--contains"@, hash@]),
{
    let mut r = git_command();
    r.arg("branch");
    r.arg("-r");
    r.arg("--contains");
    r.arg(hash);
    assert(r@.args =~= git_call(seq!["branch"@, "-r"@, "--contains"@, hash@]).args);
    r
}

/// `git stash push -u -m git-branchless-reorder-stash`: stashes all local changes under a known name.
pub fn stash_unstaged_changes() -> (r: GitRequest)
    ensures
        r@ == git_call(seq!["stash"@, "push"@, "-u"@, "-m"@, "git-branchless-reorder-stash"@]),
{
    let mut r = git_command();
    r.arg("stash");
    r.arg("push");
    r.arg("-u");
    r.arg("-m");
    r.arg("git-branchless-reorder-stash");
    assert(r@.args =~= git_call(seq!["stash"@, "push"@, "-u"@, "-m"@, "git-branchless-reorder-stash"@]).args);
    r
}

/// `git stash list`: the stashes, where the one to pop is looked up.
pub fn pop_stash() -> (r: GitRequest)
    ensures
        r@ == git_call(seq!["stash"@, "list"@]),
{
    let mut r = git_command();
    r.arg("stash");
    r.arg("list");
    assert(r@.args =~= git_call(seq!["stash"@, "list"@]).args);
    r
}

/// `git stash pop REF`: restores and drops one stash.
pub fn pop_stash_ref(stash_ref: &str) -> (r: GitRequest)
    ensures
        r@ == git_call(seq!["stash"@, "pop"@, stash_ref@]),
{
    let mut r = git_command();
    r.arg("stash");
    r.arg("pop");
    r.arg(stash_ref);
    assert(r@.args =~= git_call(seq!["stash"@, "pop"@, stash_ref@]).args);
    r
}

/// `git rev-parse --abbrev-ref HEAD`: the current branch's name.
pub fn get_current_branch_name() -> (r: GitRequest)
    ensures
        r@ == git_call(seq!["rev-parse"@, "--abbrev-ref"@, "HEAD"@]),
{
    let mut r = git_command();
    r.arg("rev-parse");
    r.arg("--abbrev-ref");
    r.arg("HEAD");
    assert(r@.args =~= git_call(seq!["rev-parse"@, "--abbrev-ref"@, "HEAD"@]).args);
    r
}

/// `git branch NAME START`: creates a branch at a commit.
pub fn create_branch_at(branch_name: &str, start_point: &str) -> (r: GitRequest)
    ensures
        r@ == git_call(seq!["branch"@, branch_name@, start_point@]),
{
    let mut r = git_command();
    r.arg("branch");
    r.arg(branch_name);
    r.arg(start_point);
    assert(r@.args =~= git_call(seq!["branch"@, branch_name@, start_point@]).args);
    r
}

/// `git checkout NAME`: switches to a branch.
pub fn checkout_branch(branch_name: &str) -> (r: GitRequest)
    ensures
        r@ == git_call(seq!["checkout"@, branch_name@]),
{
    let mut r = git_command();
    r.arg("checkout");
    r.arg(branch_name);
    assert(r@.args =~= git_call(seq!["checkout"@, branch_name@]).args);
    r
}

/// `git checkout --orphan NAME`: starts a branch with no history.
pub fn checkout_orphan_branch(branch_name: &str) -> (r: GitRequest)
    ensures
        r@ == git_call(seq!["checkout"@, "--orphan"@, branch_name@]),
{
    let mut r = git_command();
    r.arg("checkout");
    r.arg("--orphan");
    r.arg(branch_name);
    assert(r@.args =~= git_call(seq!["checkout"@, "--orphan"@, branch_name@]).args);
    r
}

/// `git rm -rf .`: empties the index and the work tree.
pub fn remove_everything() -> (r: GitRequest)
    ensures
        r@ == git_call(seq!["rm"@, "-rf"@, "."@]),
{
    let mut r = git_command();
    r.arg("rm");
    r.arg("-rf");
    r.arg(".");
    assert(r@.args =~= git_call(seq!["rm"@, "-rf"@, "."@]).args);
    r
}

/// `git cherry-pick --allow-empty HASH`: replays a commit.
pub fn cherry_pick(commit_hash: &str) -> (r: GitRequest)
    ensures
        r@ == git_call(seq!["cherry-pick"@, "--allow-empty"@, commit_hash@]),
{
    let mut r = git_command();
    r.arg("cherry-pick");
    r.arg("--allow-empty");
    r.arg(commit_hash);
    assert(r@.args =~= git_call(seq!["cherry-pick"@, "--allow-empty"@, commit_hash@]).args);
    r
}

/// `git cherry-pick --abort`: gives up a cherry-pick in progress.
pub fn cherry_pick_abort() -> (r: GitRequest)
    ensures
        r@ == git_call(seq!["cherry-pick"@, "--abort"@]),
{
    let mut r = git_command();
    r.arg("cherry-pick");
    r.arg("--abort");
    assert(r@.args =~= git_call(seq!["cherry-pick"@, "--abort"@]).args);
    r
}

/// `git reset --hard TARGET`: moves the branch and the work tree to a commit.
pub fn reset_hard(target: &str) -> (r: GitRequest)
    ensures
        r@ == git_call(seq!["reset"@, "--hard"@, target@]),
{
    let mut r = git_command();
    r.arg("reset");
    r.arg("--hard");
    r.arg(target);
    assert(r@.args =~= git_call(seq!["reset"@, "--hard"@, target@]).args);
    r
}

/// `git add --update`: stages every modified or deleted tracked file.
pub fn add_update() -> (r: GitRequest)
    ensures
        r@ == git_call(seq!["add"@, "--update"@]),
{
    let mut r = git_command();
    r.arg("add");
    r.arg("--update");
    assert(r@.args =~= git_call(seq!["add"@, "--update"@]).args);
    r
}

/// `git rebase --abort`: gives up a rebase in progress.
pub fn rebase_abort() -> (r: GitRequest)
    ensures
        r@ == git_call(seq!["rebase"@, "--abort"@]),
{
    let mut r = git_command();
    r.arg("rebase");
    r.arg("--abort");
    assert(r@.args =~= git_call(seq!["rebase"@, "--abort"@]).args);
    r
}

/// The arguments of `git apply` for a patch read from standard input.
pub open spec fn apply_patch_args(reverse: bool, cached: bool) -> Seq<Seq<char>> {
    seq!["apply"@] + (if cached { seq!["--cached"@] } else { Seq::empty() })
        + (if reverse { seq!["--reverse"@] } else { Seq::empty() }) + seq!["--unidiff-zero"@, "-"@]
}

/// The request that applies `patch` (in reverse if asked) to the index if
/// `cached`, else to the work tree.
pub open spec fn apply_patch_call(patch: Seq<char>, reverse: bool, cached: bool) -> GitRequestView {
    GitRequestView { args: base_args() + apply_patch_args(reverse, cached), stdin: Some(patch), env: Seq::empty() }
}

/// `git apply [--cached] [--reverse] --unidiff-zero -` with `patch` on
/// standard input.
pub fn apply_patch(patch: &str, reverse: bool, cached: bool) -> (r: GitRequest)
    ensures
        r@ == apply_patch_call(patch@, reverse, cached),
{
    let mut r = git_command();
    r.arg("apply");
    if cached {
        r.arg("--cached");
    }
    if reverse {
        r.arg("--reverse");
    }
    r.arg("--unidiff-zero");
    r.arg("-");
    r.stdin = Some(owned(patch));
    assert(r@.args =~= base_args() + apply_patch_args(reverse, cached));
    r
}

/// `git branch -D NAME` when `force`, else `git branch -d NAME`.
pub fn delete_branch(branch_name: &str, force: bool) -> (r: GitRequest)
    ensures
        r@ == git_call(seq!["branch"@, if force { "-D"@ } else { "-d"@ }, branch_name@]),
{
    let mut r = git_command();
    r.arg("branch");
    if force {
        r.arg("-D");
    } else {
        r.arg("-d");
    }
    r.arg(branch_name);
    assert(r@.args =~= git_call(seq!["branch"@, if force { "-D"@ } else { "-d"@ }, branch_name@]).args);
    r
}

/// `git rev-parse HASH^`: the parent of a commit.
pub fn get_commit_parent(commit_hash: &str) -> (r: GitRequest)
    ensures
        r@ == git_call(seq!["rev-parse"@, commit_hash@ + "^"@]),
{
    let mut r = git_command();
    r.arg("rev-parse");
    let mut parent = owned(commit_hash);
    crate::text::push_all(&mut parent, "^");
    let ghost before = r.args@;
    r.args.push(parent);
    assert(views(r.args@) =~= views(before).push(parent@));
    assert(r@.args =~= git_call(seq!["rev-parse"@, commit_hash@ + "^"@]).args);
    r
}

/// `git ARGS...`: any git invocation.
pub fn run_git_command(args: &[&str]) -> (r: GitRequest)
    ensures
        r@ == git_call(args@.map_values(|a: &str| a@)),
{
    git_with(args)
}


impl GitRequest {
    /// Sets the environment variable `key` to `value` for this run.
    pub fn set_env(&mut self, key: &str, value: &str)
        ensures
            final(self)@ == (GitRequestView { env: old(self)@.env.push((key@, value@)), ..old(self)@ }),
    {
        let ghost before = self.env@;
        self.env.push((owned(key), owned(value)));
        assert(env_views(self.env@) =~= env_views(before).push((key@, value@)));
    }
}

/// `git commit --no-edit --fixup HASH`: commits the staged changes as a fixup of a commit.
pub fn commit_fixup_no_edit(hash: &str) -> (r: GitRequest)
    ensures
        r@ == git_call(seq!["commit"@, "--no-edit"@, "--fixup"@, hash@]),
{
    let mut r = git_command();
    r.arg("commit");
    r.arg("--no-edit");
    r.arg("--fixup");
    r.arg(hash);
    assert(r@.args =~= git_call(seq!["commit"@, "--no-edit"@, "--fixup"@, hash@]).args);
    r
}

/// `git commit --fixup HASH`.
pub fn commit_fixup(hash: &str) -> (r: GitRequest)
    ensures
        r@ == git_call(seq!["commit"@, "--fixup"@, hash@]),
{
    let mut r = git_command();
    r.arg("commit");
    r.arg("--fixup");
    r.arg(hash);
    assert(r@.args =~= git_call(seq!["commit"@, "--fixup"@, hash@]).args);
    r
}

/// `git log -1 --pretty=%s HASH`: the subject of a commit.
pub fn commit_subject(hash: &str) -> (r: GitRequest)
    ensures
        r@ == git_call(seq!["log"@, "-1"@, "--pretty=%s"@, hash@]),
{
    let mut r = git_command();
    r.arg("log");
    r.arg("-1");
    r.arg("--pretty=%s");
    r.arg(hash);
    assert(r@.args =~= git_call(seq!["log"@, "-1"@, "--pretty=%s"@, hash@]).args);
    r
}

/// Where an interactive rebase starts: after `Some(commit)`, or from the
/// root commit.
pub open spec fn rebase_base(onto: Option<Seq<char>>) -> Seq<char> {
    match onto {
        Some(h) => h,
        None => "--root"@,
    }
}

/// The rebase that squashes fixup commits into their targets without asking
/// anything: `GIT_SEQUENCE_EDITOR=true git rebase -i --autosquash
/// --autostash BASE`.
pub open spec fn rebase_autosquash_call(onto: Option<Seq<char>>) -> GitRequestView {
    GitRequestView {
        args: base_args() + seq!["rebase"@, "-i"@, "--autosquash"@, "--autostash"@, rebase_base(onto)],
        stdin: None,
        env: seq![("GIT_SEQUENCE_EDITOR"@, "true"@)],
    }
}

/// Builds [`rebase_autosquash_call`].
pub fn rebase_autosquash(onto: Option<&str>) -> (r: GitRequest)
    ensures
        r@ == rebase_autosquash_call(match onto { Some(h) => Some(h@), None => None }),
{
    let mut r = git_command();
    r.set_env("GIT_SEQUENCE_EDITOR", "true");
    r.arg("rebase");
    r.arg("-i");
    r.arg("--autosquash");
    r.arg("--autostash");
    match onto {
        Some(h) => r.arg(h),
        None => r.arg("--root"),
    }
    assert(r@.args =~= rebase_autosquash_call(match onto { Some(h) => Some(h@), None => None }).args);
    assert(r@.env =~= rebase_autosquash_call(match onto { Some(h) => Some(h@), None => None }).env);
    r
}

/// The sequence editor that turns the `pick` of the commit with this short
/// hash into `reword`.
pub open spec fn reword_sequence_editor(short_hash: Seq<char>) -> Seq<char> {
    "sed -i -e 's/^pick "@ + short_hash + "/reword "@ + short_hash + "/'"@
}

/// The rebase that rewords one commit: the sequence editor marks it, and
/// `editor_script` writes its new message. `git rebase -i --autostash BASE`.
pub open spec fn rebase_reword_call(onto: Option<Seq<char>>, short_hash: Seq<char>, editor_script: Seq<char>) -> GitRequestView {
    GitRequestView {
        args: base_args() + seq!["rebase"@, "-i"@, "--autostash"@, rebase_base(onto)],
        stdin: None,
        env: seq![("GIT_SEQUENCE_EDITOR"@, reword_sequence_editor(short_hash)), ("GIT_EDITOR"@, editor_script)],
    }
}

/// Builds [`rebase_reword_call`].
pub fn rebase_reword(onto: Option<&str>, short_hash: &str, editor_script: &str) -> (r: GitRequest)
    ensures
        r@ == rebase_reword_call(match onto { Some(h) => Some(h@), None => None }, short_hash@, editor_script@),
{
    let mut r = git_command();
    let mut sed = owned("sed -i -e 's/^pick ");
    crate::text::push_all(&mut sed, short_hash);
    crate::text::push_all(&mut sed, "/reword ");
    crate::text::push_all(&mut sed, short_hash);
    crate::text::push_all(&mut sed, "/'");
    r.set_env("GIT_SEQUENCE_EDITOR", sed.as_str());
    r.set_env("GIT_EDITOR", editor_script);
    r.arg("rebase");
    r.arg("-i");
    r.arg("--autostash");
    match onto {
        Some(h) => r.arg(h),
        None => r.arg("--root"),
    }
    let ghost want = rebase_reword_call(match onto { Some(h) => Some(h@), None => None }, short_hash@, editor_script@);
    assert(r@.args =~= want.args);
    assert(r@.env =~= want.env);
    r
}

// ---------------------------------------------------------------------------
// Operations of several steps
// ---------------------------------------------------------------------------

/// Starts folding the staged changes into the earlier commit `target_hash`
/// of the repository at `repo_path`, giving it `message` when that differs
/// from its subject; [`AmendRun`] says how it goes on.
pub fn amend_commit_with_staged_changes(repo_path: &str, target_hash: &str, message: &str)
    -> (r: (AmendRun, FlowStep<Result<(), String>>))
    ensures
        r.0@ == amend_start(repo_path@, target_hash@, message@),
        unit_step(r.1) == FlowStepView::<Result<(), Seq<char>>>::Git(git_call(seq!["log"@, "--pretty=%h %s"@])),
{
    AmendRun::begin(repo_path, target_hash, message)
}

/// Starts giving commit `commit_hash` of the repository at `repo_path` the
/// message `message`; [`RewordRun`] says how it goes on.
pub fn reword_commit(repo_path: &str, commit_hash: &str, message: &str) -> (r: (RewordRun, FlowStep<Result<(), String>>))
    ensures
        r.0@ == reword_start(repo_path@, commit_hash@),
        unit_step(r.1) == reword_first_step(repo_path@, message@),
{
    RewordRun::begin(repo_path, commit_hash, message)
}

/// Starts folding the staged changes into commit `fixup_commit_hash`;
/// [`FixupRun`] says how it goes on.
pub fn fixup_and_rebase_autosquash(fixup_commit_hash: &str) -> (r: (FixupRun, FlowStep<Result<(), String>>))
    ensures
        r.0@ == (FixupRunView { phase: FixupPhase::AwaitCommit, hash: fixup_commit_hash@, outcome: Ok(()) }),
        unit_step(r.1) == FlowStepView::<Result<(), Seq<char>>>::Git(git_call(seq!["commit"@, "--no-edit"@, "--fixup"@, fixup_commit_hash@])),
{
    FixupRun::begin(fixup_commit_hash)
}

/// Starts staging every change in the repository at `repo_path`, untracked
/// files only up to `size_limit` bytes; [`AddAllRun`] says how it goes on.
pub fn add_all_with_size_limit(repo_path: &str, size_limit: u64) -> (r: (AddAllRun, FlowStep<Result<(), String>>))
    ensures
        r.0@ == (AddAllRunView { phase: AddAllPhase::AwaitUpdate, repo: repo_path@, limit: size_limit, names: Seq::empty(), outcome: Ok(()) }),
        unit_step(r.1) == FlowStepView::<Result<(), Seq<char>>>::Git(git_call(seq!["add"@, "--update"@])),
{
    AddAllRun::begin(repo_path, size_limit)
}

/// The size limit under which staging everything runs: the largest size a
/// file can have, so that every untracked file is staged, whatever its size.
pub const ADD_ALL_SIZE_LIMIT: u64 = 18446744073709551615;

/// Starts staging every change, every untracked file included.
pub fn add_all(repo_path: &str) -> (r: (AddAllRun, FlowStep<Result<(), String>>))
    ensures
        r.0@ == (AddAllRunView { phase: AddAllPhase::AwaitUpdate, repo: repo_path@, limit: ADD_ALL_SIZE_LIMIT, names: Seq::empty(), outcome: Ok(()) }),
        unit_step(r.1) == FlowStepView::<Result<(), Seq<char>>>::Git(git_call(seq!["add"@, "--update"@])),
{
    add_all_with_size_limit(repo_path, ADD_ALL_SIZE_LIMIT)
}

/// A line of `git status --porcelain` tells of a change outside the index:
/// its second column (the work tree's) is not blank. Untracked files (`??`)
/// are such lines.
pub open spec fn status_line_unstaged(line: Seq<char>) -> bool {
    line.len() >= 2 && line[1] != ' '
}

/// What `git status --porcelain` says of unstaged changes: none when it
/// failed, `None` when it could not be started.
pub open spec fn status_answer(reply: Option<GitOutputView>) -> Option<bool> {
    match reply {
        None => None,
        Some(o) => Some(o.success && status_shows_unstaged(o.stdout)),
    }
}

/// Some line of a `git status --porcelain` output tells of a change outside
/// the index.
pub open spec fn status_shows_unstaged(stdout: Seq<char>) -> bool {
    exists|i: int| 0 <= i < lines(stdout).len() && #[trigger] status_line_unstaged(lines(stdout)[i])
}

/// Reads the answer of [`has_unstaged_changes`].
pub fn parse_has_unstaged_changes(reply: &Option<GitOutput>) -> (r: Option<bool>)
    ensures
        r == status_answer(reply_view(*reply)),
{
    match reply {
        None => None,
        Some(o) => {
            if !o.success {
                return Some(false);
            }
            let ls = split_lines(o.stdout.as_str());
            let ghost lv = lines(o.stdout@);
            let mut found = false;
            let mut i: usize = 0;
            while i < ls.len() && !found
                invariant
                    i <= ls@.len(),
                    views(ls@) == lv,
                    found ==> 0 < i && status_line_unstaged(lv[i - 1]),
                    !found ==> forall|j: int| 0 <= j < i ==> !status_line_unstaged(#[trigger] lv[j]),
                decreases ls@.len() - i,
            {
                let chars = chars_of(ls[i].as_str());
                assert(lv[i as int] == ls@[i as int]@);
                if chars.len() >= 2 && chars[1] != ' ' {
                    found = true;
                }
                i = i + 1;
            }
            assert(lv.len() == ls@.len());
            if found {
                let ghost k: int = i - 1;
                assert(0 <= k < lines(o.stdout@).len() && status_line_unstaged(lines(o.stdout@)[k]));
                assert(o.success);
                assert(status_shows_unstaged(o.stdout@));
            } else {
                assert(!status_shows_unstaged(o.stdout@));
            }
            Some(found)
        },
    }
}

// ---------------------------------------------------------------------------
// Reading git's answers
// ---------------------------------------------------------------------------

/// What git printed, or nothing when it could not be started: the text the
/// functions that hand back git's output give, read with `unwrap_or_default`.
pub open spec fn output_text(reply: Option<GitOutputView>) -> Seq<char> {
    match reply {
        Some(o) => o.stdout,
        None => Seq::empty(),
    }
}

/// What git printed, or an empty string when it could not be started.
pub fn stdout_or_empty(reply: &Option<GitOutput>) -> (r: String)
    ensures
        r@ == output_text(reply_view(*reply)),
{
    match reply {
        Some(o) => o.stdout.clone(),
        None => String::new(),
    }
}

/// The files with unstaged changes, from `git diff --name-only`: every line
/// of its output, or none when git could not be started.
pub open spec fn unstaged_names(reply: Option<GitOutputView>) -> Seq<Seq<char>> {
    match reply {
        Some(o) => lines(o.stdout),
        None => Seq::empty(),
    }
}

/// The files with unstaged changes, read from the answer to
/// [`get_unstaged_files`].
pub fn parse_unstaged_files(reply: &Option<GitOutput>) -> (r: Vec<String>)
    ensures
        views(r@) == unstaged_names(reply_view(*reply)),
{
    match reply {
        Some(o) => split_lines(o.stdout.as_str()),
        None => Vec::new(),
    }
}

/// The lines that are not empty, in order.
pub open spec fn non_empty(ls: Seq<Seq<char>>) -> Seq<Seq<char>>
    decreases ls.len(),
{
    if ls.len() == 0 {
        Seq::empty()
    } else if ls.last().len() > 0 {
        non_empty(ls.drop_last()).push(ls.last())
    } else {
        non_empty(ls.drop_last())
    }
}

/// The untracked files, from `git ls-files --others --exclude-standard`: its
/// non-empty lines when it succeeded, else none.
pub open spec fn untracked_names(reply: Option<GitOutputView>) -> Seq<Seq<char>> {
    match reply {
        Some(o) => if o.success { non_empty(lines(o.stdout)) } else { Seq::empty() },
        None => Seq::empty(),
    }
}

/// The untracked files, read from the answer to [`get_untracked_files`].
pub fn parse_untracked_files(reply: &Option<GitOutput>) -> (r: Vec<String>)
    ensures
        views(r@) == untracked_names(reply_view(*reply)),
{
    let mut out: Vec<String> = Vec::new();
    match reply {
        Some(o) => {
            if !o.success {
                return out;
            }
            let ls = split_lines(o.stdout.as_str());
            let ghost all = views(ls@);
            let mut i: usize = 0;
            while i < ls.len()
                invariant
                    i <= ls@.len(),
                    all == views(ls@),
                    views(out@) == non_empty(all.subrange(0, i as int)),
                decreases ls@.len() - i,
            {
                let ghost before = out@;
                assert(all.subrange(0, i + 1).drop_last() == all.subrange(0, i as int));
                assert(all.subrange(0, i + 1).last() == ls@[i as int]@);
                if !ls[i].as_str().is_empty() {
                    out.push(ls[i].clone());
                    assert(views(out@) =~= views(before).push(ls@[i as int]@));
                }
                i = i + 1;
            }
            assert(all.subrange(0, ls@.len() as int) == all);
            out
        },
        None => out,
    }
}

/// Whether a commit is on a remote branch, from the answer to
/// `git branch -r --contains`: some branch is listed (when git succeeded);
/// `None` when git could not be started.
pub open spec fn remote_answer(reply: Option<GitOutputView>) -> Option<bool> {
    match reply {
        Some(o) => Some(o.success && trim_spaces(o.stdout).len() > 0),
        None => None,
    }
}

/// Reads the answer to [`is_commit_on_remote`].
pub fn parse_is_on_remote(reply: &Option<GitOutput>) -> (r: Option<bool>)
    ensures
        r == remote_answer(reply_view(*reply)),
{
    match reply {
        Some(o) => {
            if !o.success {
                return Some(false);
            }
            let t = trim(o.stdout.as_str());
            Some(!t.as_str().is_empty())
        },
        None => None,
    }
}

/// The staged or unstaged changes of a diff answer: its output parsed, or
/// nothing when git could not be started.
pub open spec fn diff_answer(reply: Option<GitOutputView>) -> Seq<FileDiffView> {
    match reply {
        Some(o) => spec_parse_diff(o.stdout),
        None => Seq::empty(),
    }
}

/// Reads the answer to [`get_diff`], [`get_unstaged_diff`] or
/// [`get_commit_diff`].
pub fn parse_diff_reply(reply: &Option<GitOutput>) -> (r: Vec<FileDiff>)
    ensures
        file_views(r@) == diff_answer(reply_view(*reply)),
{
    match reply {
        Some(o) => parse_diff(o.stdout.as_str()),
        None => Vec::new(),
    }
}

} // verus!
