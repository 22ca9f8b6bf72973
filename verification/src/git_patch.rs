//! Building the patches that stage, unstage or discard a single line, a hunk
//! or a new file, and locating diff lines in the edited file.
use crate::git::{FileDiff, FileDiffView, Hunk, HunkView};
use crate::text::{
    decimal, join, lines, push_all, push_decimal, split_lines, starts_with, starts_with_char,
    str_starts_with, str_starts_with_char, string_push, views,
};
use vstd::prelude::*;

verus! {

/// Line `line_index` of the file lies inside hunk `h`.
pub open spec fn hunk_contains(h: HunkView, line_index: int) -> bool {
    h.start_line <= line_index < h.start_line + h.lines.len()
}

/// The first hunk of `f` that contains line `line_index`.
pub open spec fn spec_find_hunk(f: FileDiffView, line_index: int) -> Option<HunkView> {
    first_hunk_from(f.hunks, 0, line_index)
}

/// The first hunk among `hunks[from..]` that contains line `line_index`.
pub open spec fn first_hunk_from(hunks: Seq<HunkView>, from: int, line_index: int) -> Option<HunkView>
    decreases hunks.len() - from,
{
    if from < 0 || from >= hunks.len() {
        None
    } else if hunk_contains(hunks[from], line_index) {
        Some(hunks[from])
    } else {
        first_hunk_from(hunks, from + 1, line_index)
    }
}

/// Finds the hunk of `file` whose lines include line `line_index` of the file.
pub fn find_hunk(file: &FileDiff, line_index: usize) -> (r: Option<&Hunk>)
    ensures
        match r {
            Some(h) => spec_find_hunk(file@, line_index as int) == Some(h@),
            None => spec_find_hunk(file@, line_index as int) is None,
        },
        r matches Some(h) ==> hunk_contains(h@, line_index as int),
{
    let mut i: usize = 0;
    while i < file.hunks.len()
        invariant
            i <= file.hunks@.len(),
            first_hunk_from(file@.hunks, i as int, line_index as int) == spec_find_hunk(file@, line_index as int),
        decreases file.hunks@.len() - i,
    {
        let hunk = &file.hunks[i];
        assert(file@.hunks[i as int] == hunk@);
        if line_index >= hunk.start_line && line_index - hunk.start_line < hunk.lines.len() {
            return Some(hunk);
        }
        i = i + 1;
    }
    None
}

/// The three header lines of a patch for `name`.
pub open spec fn patch_header(name: Seq<char>) -> Seq<char> {
    "diff --git a/"@ + name + " b/"@ + name + "\n"@ + "--- a/"@ + name + "\n"@ + "+++ b/"@ + name + "\n"@
}

/// The line number a one-line patch is placed at: the new number when
/// unstaging or for a removed line, else one past the old number.
pub open spec fn line_patch_number(line: Seq<char>, numbers: (usize, usize), is_unstaging: bool) -> int {
    if is_unstaging || starts_with_char(line, '-') {
        numbers.1 as int
    } else {
        numbers.0 + 1
    }
}

/// The numbers of a one-line patch can be computed without leaving `usize`.
pub open spec fn line_patch_in_range(f: FileDiffView, line_index: int, is_unstaging: bool) -> bool {
    let line = f.lines[line_index];
    match spec_find_hunk(f, line_index) {
        Some(h) => {
            let rel = line_index - h.start_line;
            rel < h.line_numbers.len() && {
                let n = line_patch_number(line, h.line_numbers[rel], is_unstaging);
                n <= usize::MAX && (starts_with_char(line, '+') ==> n >= 1)
                    && (!starts_with_char(line, '+') ==> n + 1 <= usize::MAX)
            }
        },
        None => true,
    }
}

/// The patch that moves line `line_index` of `f` alone, as
/// `create_unstage_line_patch` builds it.
pub open spec fn spec_line_patch(f: FileDiffView, line_index: int, is_unstaging: bool) -> Option<Seq<char>> {
    if line_index < 0 || line_index >= f.lines.len() {
        None
    } else {
        let line = f.lines[line_index];
        if !starts_with_char(line, '+') && !starts_with_char(line, '-') {
            None
        } else {
            match spec_find_hunk(f, line_index) {
                None => None,
                Some(h) => {
                    let n = line_patch_number(line, h.line_numbers[line_index - h.start_line], is_unstaging);
                    let header = if starts_with_char(line, '+') {
                        "@@ -"@ + decimal((n - 1) as nat) + ",0 +"@ + decimal(n as nat) + ",1 @@"@
                    } else {
                        "@@ -"@ + decimal((n + 1) as nat) + ",1 +"@ + decimal((n + 1) as nat) + ",0 @@"@
                    };
                    Some(patch_header(f.file_name) + header + "\n"@ + line + "\n"@)
                },
            }
        }
    }
}

/// Appends the three header lines of a patch for `name` to `patch`.
fn push_patch_header(patch: &mut String, name: &String)
    ensures
        final(patch)@ == old(patch)@ + patch_header(name@),
{
    push_all(patch, "diff --git a/");
    push_all(patch, name.as_str());
    push_all(patch, " b/");
    push_all(patch, name.as_str());
    push_all(patch, "\n");
    push_all(patch, "--- a/");
    push_all(patch, name.as_str());
    push_all(patch, "\n");
    push_all(patch, "+++ b/");
    push_all(patch, name.as_str());
    push_all(patch, "\n");
    assert(patch@ =~= old(patch)@ + patch_header(name@));
}

/// Builds a patch holding only line `line_index` of `file`, to apply to the
/// index (or in reverse to unstage). `None` unless the line is an added or
/// removed line inside a hunk.
pub fn create_unstage_line_patch(file: &FileDiff, line_index: usize, is_unstaging: bool) -> (r: Option<String>)
    requires
        line_index < file@.lines.len() ==> line_patch_in_range(file@, line_index as int, is_unstaging),
    ensures
        match r {
            Some(p) => spec_line_patch(file@, line_index as int, is_unstaging) == Some(p@),
            None => spec_line_patch(file@, line_index as int, is_unstaging) is None,
        },
{
    if line_index >= file.lines.len() {
        return None;
    }
    let line = &file.lines[line_index];
    assert(line@ == file@.lines[line_index as int]);
    let is_plus = str_starts_with_char(line.as_str(), '+');
    let is_minus = str_starts_with_char(line.as_str(), '-');
    if !is_plus && !is_minus {
        return None;
    }
    let hunk = match find_hunk(file, line_index) {
        Some(h) => h,
        None => return None,
    };
    let rel = line_index - hunk.start_line;
    let (old_num, new_num) = hunk.line_numbers[rel];
    let n: usize = if is_unstaging || is_minus { new_num } else { old_num + 1 };
    let mut patch = String::new();
    push_patch_header(&mut patch, &file.file_name);
    let ghost before_header = patch@;
    if is_plus {
        push_all(&mut patch, "@@ -");
        push_decimal(&mut patch, n - 1);
        push_all(&mut patch, ",0 +");
        push_decimal(&mut patch, n);
        push_all(&mut patch, ",1 @@");
    } else {
        push_all(&mut patch, "@@ -");
        push_decimal(&mut patch, n + 1);
        push_all(&mut patch, ",1 +");
        push_decimal(&mut patch, n + 1);
        push_all(&mut patch, ",0 @@");
    }
    push_all(&mut patch, "\n");
    push_all(&mut patch, line.as_str());
    push_all(&mut patch, "\n");
    proof {
        let spec = spec_line_patch(file@, line_index as int, is_unstaging);
        assert(spec is Some);
        assert(patch@ =~= spec->0);
    }
    Some(patch)
}

/// The patch that moves hunk `h` of the file named `name`.
pub open spec fn spec_hunk_patch(name: Seq<char>, h: HunkView) -> Seq<char> {
    patch_header(name) + join(h.lines, "\n"@) + "\n"@
}

/// Appends `parts` joined by `'\n'` to `s`.
fn push_joined(s: &mut String, parts: &Vec<String>)
    ensures
        final(s)@ == old(s)@ + join(views(parts@), "\n"@),
{
    let ghost start = s@;
    let mut i: usize = 0;
    while i < parts.len()
        invariant
            i <= parts@.len(),
            s@ == start + join(views(parts@).subrange(0, i as int), "\n"@),
        decreases parts@.len() - i,
    {
        let ghost pre = views(parts@).subrange(0, i as int);
        assert(views(parts@).subrange(0, i + 1).drop_last() == pre);
        assert(views(parts@).subrange(0, i + 1).last() == parts@[i as int]@);
        if i > 0 {
            push_all(s, "\n");
        }
        push_all(s, parts[i].as_str());
        assert(s@ =~= start + join(views(parts@).subrange(0, i + 1), "\n"@));
        i = i + 1;
    }
    assert(views(parts@).subrange(0, parts@.len() as int) == views(parts@));
}

/// Builds the patch that moves the whole `hunk` of `file`.
pub fn create_unstage_hunk_patch(file: &FileDiff, hunk: &Hunk) -> (r: String)
    ensures
        r@ == spec_hunk_patch(file@.file_name, hunk@),
{
    let mut patch = String::new();
    push_patch_header(&mut patch, &file.file_name);
    push_joined(&mut patch, &hunk.lines);
    push_all(&mut patch, "\n");
    assert(patch@ =~= spec_hunk_patch(file@.file_name, hunk@));
    patch
}

/// Builds the patch that stages line `line_index` of an unstaged file.
/// It is built as for unstaging, placed by the old line numbers.
pub fn create_stage_line_patch(file: &FileDiff, line_index: usize) -> (r: Option<String>)
    requires
        line_index < file@.lines.len() ==> line_patch_in_range(file@, line_index as int, false),
    ensures
        match r {
            Some(p) => spec_line_patch(file@, line_index as int, false) == Some(p@),
            None => spec_line_patch(file@, line_index as int, false) is None,
        },
{
    create_unstage_line_patch(file, line_index, false)
}

/// Builds the patch that stages a whole hunk of an unstaged file.
pub fn create_stage_hunk_patch(file: &FileDiff, hunk: &Hunk) -> (r: String)
    ensures
        r@ == spec_hunk_patch(file@.file_name, hunk@),
{
    create_unstage_hunk_patch(file, hunk)
}

/// The added lines of a patch for a new file: each line of `content` with a
/// leading `'+'`, separated by newlines, with a final newline only when the
/// content ends with one.
pub open spec fn added_lines(ls: Seq<Seq<char>>, ends_with_newline: bool) -> Seq<char>
    decreases ls.len(),
{
    if ls.len() == 0 {
        Seq::empty()
    } else if ls.len() == 1 {
        "+"@ + ls[0] + (if ends_with_newline { "\n"@ } else { Seq::empty() })
    } else {
        "+"@ + ls[0] + "\n"@ + added_lines(ls.drop_first(), ends_with_newline)
    }
}

/// The patch that adds a new file named `name` holding `content`.
pub open spec fn spec_new_file_patch(name: Seq<char>, content: Seq<char>) -> Seq<char> {
    let ls = lines(content);
    "diff --git a/"@ + name + " b/"@ + name + "\n"@ + "new file mode 100644\n"@
        + "index 0000000..e69de29\n"@ + "--- /dev/null\n"@ + "+++ b/"@ + name + "\n"@
        + "@@ -0,0 +1,"@ + decimal(ls.len()) + " @@\n"@
        + added_lines(ls, content.len() > 0 && content.last() == '\n')
}

/// Builds the patch that adds the file `file_name` with `content`.
pub fn create_patch_for_new_file(file_name: &str, content: &str) -> (r: String)
    ensures
        r@ == spec_new_file_patch(file_name@, content@),
{
    let ls = split_lines(content);
    let content_chars = crate::text::chars_of(content);
    let ends_with_newline = content_chars.len() > 0 && content_chars[content_chars.len() - 1] == '\n';
    let mut patch = String::new();
    push_all(&mut patch, "diff --git a/");
    push_all(&mut patch, file_name);
    push_all(&mut patch, " b/");
    push_all(&mut patch, file_name);
    push_all(&mut patch, "\n");
    push_all(&mut patch, "new file mode 100644\n");
    push_all(&mut patch, "index 0000000..e69de29\n");
    push_all(&mut patch, "--- /dev/null\n");
    push_all(&mut patch, "+++ b/");
    push_all(&mut patch, file_name);
    push_all(&mut patch, "\n");
    push_all(&mut patch, "@@ -0,0 +1,");
    push_decimal(&mut patch, ls.len());
    push_all(&mut patch, " @@\n");
    let ghost prefix = patch@;
    let ghost vs = views(ls@);
    assert(vs.subrange(0, vs.len() as int) == vs);
    let mut i: usize = 0;
    while i < ls.len()
        invariant
            i <= ls@.len(),
            vs == views(ls@),
            vs.len() == ls@.len(),
            patch@ + added_lines(vs.subrange(i as int, vs.len() as int), ends_with_newline)
                == prefix + added_lines(vs, ends_with_newline),
        decreases ls@.len() - i,
    {
        let ghost rest = vs.subrange(i as int, vs.len() as int);
        assert(rest.drop_first() == vs.subrange(i + 1, vs.len() as int));
        assert(rest[0] == ls@[i as int]@);
        push_all(&mut patch, "+");
        push_all(&mut patch, ls[i].as_str());
        if i < ls.len() - 1 || ends_with_newline {
            push_all(&mut patch, "\n");
        }
        proof {
            if i + 1 < ls@.len() {
                assert(added_lines(rest, ends_with_newline) == "+"@ + rest[0] + "\n"@ + added_lines(rest.drop_first(), ends_with_newline));
            } else {
                assert(rest.len() == 1);
                assert(vs.subrange(i + 1, vs.len() as int).len() == 0);
            }
            assert(patch@ + added_lines(vs.subrange(i + 1, vs.len() as int), ends_with_newline)
                =~= prefix + added_lines(vs, ends_with_newline));
        }
        i = i + 1;
    }
    assert(vs.subrange(0, vs.len() as int) == vs);
    assert(vs.subrange(i as int, vs.len() as int).len() == 0);
    assert(patch@ =~= prefix + added_lines(vs, ends_with_newline));
    assert(patch@ =~= spec_new_file_patch(file_name@, content@));
    patch
}

/// The line of the edited file that line `line_index` of the diff points at:
/// its new line number, or the one after it for a removed line; `None` for a
/// hunk header or a line outside every hunk.
pub open spec fn spec_line_number(f: FileDiffView, line_index: int) -> Option<int> {
    if line_index < 0 || line_index >= f.lines.len() || starts_with(f.lines[line_index], "@@"@) {
        None
    } else {
        match spec_find_hunk(f, line_index) {
            None => None,
            Some(h) => {
                let rel = line_index - h.start_line;
                if rel >= h.line_numbers.len() {
                    None
                } else if starts_with_char(f.lines[line_index], '-') {
                    Some(h.line_numbers[rel].1 + 1)
                } else {
                    Some(h.line_numbers[rel].1 as int)
                }
            },
        }
    }
}

/// Finds the line of the edited file to open an editor at for line
/// `line_index` of the diff.
pub fn get_line_number(file: &FileDiff, line_index: usize) -> (r: Option<usize>)
    requires
        spec_line_number(file@, line_index as int) matches Some(n) ==> n <= usize::MAX,
    ensures
        match r {
            Some(n) => spec_line_number(file@, line_index as int) == Some(n as int),
            None => spec_line_number(file@, line_index as int) is None,
        },
{
    if line_index >= file.lines.len() {
        return None;
    }
    let line = &file.lines[line_index];
    assert(line@ == file@.lines[line_index as int]);
    if str_starts_with(line.as_str(), "@@") {
        return None;
    }
    let hunk = match find_hunk(file, line_index) {
        Some(h) => h,
        None => return None,
    };
    let rel = line_index - hunk.start_line;
    if rel >= hunk.line_numbers.len() {
        return None;
    }
    let (_, new_num) = hunk.line_numbers[rel];
    if str_starts_with_char(line.as_str(), '-') {
        Some(new_num + 1)
    } else {
        Some(new_num)
    }
}


/// Whether the numbers of a one-line patch for line `line_index` of `file`
/// stay within `usize`, so that the patch can be built.
pub fn line_patch_fits(file: &FileDiff, line_index: usize, is_unstaging: bool) -> (r: bool)
    ensures
        r == (line_index < file@.lines.len() ==> line_patch_in_range(file@, line_index as int, is_unstaging)),
{
    if line_index >= file.lines.len() {
        return true;
    }
    let line = &file.lines[line_index];
    assert(line@ == file@.lines[line_index as int]);
    match find_hunk(file, line_index) {
        None => true,
        Some(h) => {
            let rel = line_index - h.start_line;
            if rel >= h.line_numbers.len() {
                return false;
            }
            let (o, nn) = h.line_numbers[rel];
            let plus = str_starts_with_char(line.as_str(), '+');
            let minus = str_starts_with_char(line.as_str(), '-');
            if is_unstaging || minus {
                (!plus || nn >= 1) && (plus || nn < usize::MAX)
            } else {
                if o == usize::MAX {
                    return false;
                }
                let n = o + 1;
                (!plus || n >= 1) && (plus || n < usize::MAX)
            }
        },
    }
}

/// Whether the line an editor would open for line `line_index` of `file`
/// has a number within `usize`.
pub fn line_number_fits(file: &FileDiff, line_index: usize) -> (r: bool)
    ensures
        r == (spec_line_number(file@, line_index as int) matches Some(n) ==> n <= usize::MAX),
{
    if line_index >= file.lines.len() {
        return true;
    }
    let line = &file.lines[line_index];
    assert(line@ == file@.lines[line_index as int]);
    if str_starts_with(line.as_str(), "@@") {
        return true;
    }
    match find_hunk(file, line_index) {
        None => true,
        Some(h) => {
            let rel = line_index - h.start_line;
            if rel >= h.line_numbers.len() {
                return true;
            }
            let (_, nn) = h.line_numbers[rel];
            if str_starts_with_char(line.as_str(), '-') {
                nn < usize::MAX
            } else {
                true
            }
        },
    }
}

} // verus!
