//! Editing one line of text (the commit message, a commit being renamed):
//! the keys that change it, how it scrolls so that the cursor stays in
//! view, and what part of it is shown.
use crate::app_state::{min_of, sat_sub, AppState, CommitRequest, UiAction};
use crate::text::{chars_of, is_space, is_space_exec, string_from_chars, string_push};
use crate::ui::keyboard::Key;
use crate::ui::main_screen::{item_views, ListItem, ListItemView};
use vstd::prelude::*;

verus! {

// ---------------------------------------------------------------------------
// Widths of characters on the terminal
// ---------------------------------------------------------------------------

/// A control character (`char::is_control`): below U+0020, or from U+007F to
/// U+009F.
pub open spec fn is_control(c: char) -> bool {
    c <= '\u{1f}' || ('\u{7f}' <= c && c <= '\u{9f}')
}

/// The number of terminal columns `unicode-width` gives a character, `None`
/// for a control character.
pub uninterp spec fn char_display_width(c: char) -> Option<usize>;

/// Calls `UnicodeWidthChar::width` (unicode-width) on `c`. Trusted: the
/// result is what the crate's tables give, named `char_display_width`; it is
/// `None` exactly for the control characters, 1 for the other ASCII
/// characters, and at most 3 otherwise.
#[verifier::external_body]
pub(crate) fn char_width(c: char) -> (r: Option<usize>)
    ensures
        r == char_display_width(c),
        r is None <==> is_control(c),
        ('\u{20}' <= c && c < '\u{7f}') ==> r == Some(1usize),
        r matches Some(w) ==> w <= 3,
{
    unicode_width::UnicodeWidthChar::width(c)
}

/// The number of terminal columns `unicode-width` gives a string.
pub uninterp spec fn str_display_width(s: Seq<char>) -> usize;

/// Calls `UnicodeWidthStr::width` (unicode-width) on `s`. Trusted: the result
/// is what the crate computes, named `str_display_width`.
#[verifier::external_body]
pub(crate) fn str_width(s: &str) -> (r: usize)
    ensures
        r == str_display_width(s@),
{
    unicode_width::UnicodeWidthStr::width(s)
}

/// The columns a character takes, a control character none.
pub open spec fn col_width(c: char) -> nat {
    match char_display_width(c) {
        Some(w) => w as nat,
        None => 0,
    }
}

/// The columns the first `i` characters take, at most `usize::MAX`.
pub open spec fn width_prefix(cs: Seq<char>, i: int) -> nat
    decreases i,
{
    if i <= 0 {
        0
    } else {
        let s = width_prefix(cs, i - 1) + col_width(cs[i - 1]);
        if s > usize::MAX { usize::MAX as nat } else { s }
    }
}

/// The columns taken by the first `i` characters, for every `i` up to the
/// number of characters.
pub fn prefix_widths_for(chars: &Vec<char>) -> (r: Vec<usize>)
    ensures
        r@.len() == chars@.len() + 1,
        forall|i: int| 0 <= i <= chars@.len() ==> #[trigger] r@[i] == width_prefix(chars@, i),
{
    let mut widths: Vec<usize> = Vec::new();
    widths.push(0);
    let mut i: usize = 0;
    while i < chars.len()
        invariant
            i <= chars@.len(),
            widths@.len() == i + 1,
            forall|k: int| 0 <= k <= i ==> #[trigger] widths@[k] == width_prefix(chars@, k),
        decreases chars@.len() - i,
    {
        let w = match char_width(chars[i]) {
            Some(w) => w,
            None => 0,
        };
        let next = widths[i].saturating_add(w);
        widths.push(next);
        i = i + 1;
    }
    widths
}

// ---------------------------------------------------------------------------
// Editing keys
// ---------------------------------------------------------------------------

/// Backspace: the backspace key, DEL or Ctrl-H.
pub open spec fn is_backspace(k: Key) -> bool {
    k == Key::KeyBackspace || k == Key::Character('\u{7f}') || k == Key::Character('\u{8}')
}

/// What a key does to a line of text and the cursor in it (a position
/// between characters): backspace and delete remove the character before and
/// under the cursor, the arrows move it, Ctrl-A and Ctrl-E go to the start
/// and the end, Ctrl-K cuts the rest of the line, and any other printable
/// character is inserted at the cursor.
pub open spec fn edit_text(t: Seq<char>, cursor: usize, key: Key) -> (Seq<char>, usize) {
    if is_backspace(key) {
        if cursor > 0 && cursor - 1 < t.len() {
            (t.remove(cursor - 1), (cursor - 1) as usize)
        } else {
            (t, cursor)
        }
    } else {
        match key {
            Key::KeyDC => if cursor < t.len() { (t.remove(cursor as int), cursor) } else { (t, cursor) },
            Key::KeyLeft => (t, sat_sub(cursor as int, 1) as usize),
            Key::KeyRight => (t, min_of(if cursor < usize::MAX { cursor + 1 } else { cursor as int }, t.len() as int) as usize),
            Key::Character(c) => {
                if c == '\u{1}' {
                    (t, 0)
                } else if c == '\u{5}' {
                    (t, t.len() as usize)
                } else if c == '\u{b}' {
                    if cursor < t.len() { (t.take(cursor as int), cursor) } else { (t, cursor) }
                } else if !is_control(c) {
                    (t.insert(min_of(cursor as int, t.len() as int), c),
                        if cursor < usize::MAX { (cursor + 1) as usize } else { cursor })
                } else {
                    (t, cursor)
                }
            },
            _ => (t, cursor),
        }
    }
}

/// Applies an editing key to `text` and `cursor`.
pub fn handle_generic_text_input(text: &mut String, cursor: &mut usize, input: Key)
    ensures
        (final(text)@, *final(cursor)) == edit_text(old(text)@, *old(cursor), input),
{
    let mut chars = chars_of(text.as_str());
    let c0 = *cursor;
    let n = chars.len();
    let is_bs = match input {
        Key::KeyBackspace => true,
        Key::Character(c) => c == '\u{7f}' || c == '\u{8}',
        _ => false,
    };
    if is_bs {
        if c0 > 0 && c0 - 1 < n {
            chars.remove(c0 - 1);
            *text = string_from_chars(&chars);
            *cursor = c0 - 1;
        }
        return;
    }
    match input {
        Key::KeyDC => {
            if c0 < n {
                chars.remove(c0);
                *text = string_from_chars(&chars);
            }
        },
        Key::KeyLeft => {
            *cursor = c0.saturating_sub(1);
        },
        Key::KeyRight => {
            let next = c0.saturating_add(1);
            *cursor = if next < n { next } else { n };
        },
        Key::Character(c) => {
            if c == '\u{1}' {
                *cursor = 0;
            } else if c == '\u{5}' {
                *cursor = n;
            } else if c == '\u{b}' {
                if c0 < n {
                    chars.truncate(c0);
                    *text = string_from_chars(&chars);
                }
            } else if !(c <= '\u{1f}' || ('\u{7f}' <= c && c <= '\u{9f}')) {
                let at = if c0 < n { c0 } else { n };
                chars.insert(at, c);
                *text = string_from_chars(&chars);
                *cursor = c0.saturating_add(1);
            }
        },
        _ => {},
    }
}

/// Typing a printable character and then deleting it with backspace gives
/// back the text and the cursor as they were.
pub proof fn lemma_type_then_backspace(t: Seq<char>, cursor: usize, c: char)
    requires
        cursor <= t.len(),
        cursor < usize::MAX,
        !is_control(c),
    ensures
        ({
            let typed = edit_text(t, cursor, Key::Character(c));
            edit_text(typed.0, typed.1, Key::KeyBackspace) == (t, cursor)
        }),
{
    let typed = edit_text(t, cursor, Key::Character(c));
    assert(typed.0 == t.insert(cursor as int, c));
    assert(typed.0.remove(cursor as int) =~= t);
}

/// Whether `t[i]` exists and is whitespace.
pub open spec fn space_at(t: Seq<char>, i: int) -> bool {
    0 <= i < t.len() && is_space(t[i])
}

/// Whether `t[i]` exists and is not whitespace.
pub open spec fn word_at(t: Seq<char>, i: int) -> bool {
    0 <= i < t.len() && !is_space(t[i])
}

/// Going left from `i` over whitespace, stopping at position 0.
pub open spec fn back_over_space(t: Seq<char>, i: int) -> int
    decreases i,
{
    if i > 0 && space_at(t, i) { back_over_space(t, i - 1) } else { i }
}

/// Going left from `i` over a word, stopping at position 0.
pub open spec fn back_over_word(t: Seq<char>, i: int) -> int
    decreases i,
{
    if i > 0 && word_at(t, i) { back_over_word(t, i - 1) } else { i }
}

/// Going right from `i` over a word.
pub open spec fn forward_over_word(t: Seq<char>, i: int) -> int
    decreases t.len() - i,
{
    if i >= 0 && word_at(t, i) { forward_over_word(t, i + 1) } else { i }
}

/// Going right from `i` over whitespace.
pub open spec fn forward_over_space(t: Seq<char>, i: int) -> int
    decreases t.len() - i,
{
    if i >= 0 && space_at(t, i) { forward_over_space(t, i + 1) } else { i }
}

/// Where a word to the left of `cursor` starts.
pub open spec fn word_left(t: Seq<char>, cursor: int) -> int {
    let i = back_over_word(t, back_over_space(t, sat_sub(cursor, 1)));
    if i > 0 && space_at(t, i) { i + 1 } else { i }
}

/// Where the next word after `cursor` starts.
pub open spec fn word_right(t: Seq<char>, cursor: int) -> int {
    forward_over_space(t, forward_over_word(t, cursor))
}

/// The last position before `end` whose character is (`space`) or is not
/// whitespace.
pub open spec fn last_before(t: Seq<char>, end: int, space: bool) -> Option<int>
    decreases end,
{
    if end <= 0 {
        None
    } else if is_space(t[end - 1]) == space {
        Some(end - 1)
    } else {
        last_before(t, end - 1, space)
    }
}

/// Where backspace with Alt deletes back to: just after the whitespace that
/// precedes the last word before the cursor, or the start.
pub open spec fn word_start_before(t: Seq<char>, cursor: int) -> int {
    let end = min_of(cursor, t.len() as int);
    match last_before(t, end, false) {
        Some(p) => match last_before(t, p, true) {
            Some(q) => q + 1,
            None => 0,
        },
        None => 0,
    }
}

/// What a key with Alt does: the left arrow or `b` goes to the start of the
/// word to the left, the right arrow or `f` to the start of the next word,
/// and backspace deletes back to the start of the word before the cursor.
pub open spec fn edit_text_alt(t: Seq<char>, cursor: usize, key: Key) -> (Seq<char>, usize) {
    if key == Key::KeyLeft || key == Key::Character('b') {
        (t, word_left(t, cursor as int) as usize)
    } else if key == Key::KeyRight || key == Key::Character('f') {
        (t, word_right(t, cursor as int) as usize)
    } else if is_backspace(key) && cursor > 0 {
        let start = word_start_before(t, cursor as int);
        let end = min_of(cursor as int, t.len() as int);
        (t.take(start) + t.skip(end), start as usize)
    } else {
        (t, cursor)
    }
}

/// Applies an editing key pressed with Alt to `text` and `cursor`.
pub fn handle_generic_text_input_with_alt(text: &mut String, cursor: &mut usize, input: Key)
    ensures
        (final(text)@, *final(cursor)) == edit_text_alt(old(text)@, *old(cursor), input),
{
    let chars = chars_of(text.as_str());
    let ghost t = chars@;
    let n = chars.len();
    let c0 = *cursor;
    let is_bs = match input {
        Key::KeyBackspace => true,
        Key::Character(c) => c == '\u{7f}' || c == '\u{8}',
        _ => false,
    };
    if input == Key::KeyLeft || input == Key::Character('b') {
        let mut i = c0.saturating_sub(1);
        while i > 0 && i < n && is_space_exec(chars[i])
            invariant
                chars@ == t,
                n == t.len(),
                back_over_space(t, i as int) == back_over_space(t, sat_sub(c0 as int, 1)),
            decreases i,
        {
            i = i - 1;
        }
        let ghost mid = i as int;
        while i > 0 && i < n && !is_space_exec(chars[i])
            invariant
                chars@ == t,
                n == t.len(),
                back_over_word(t, i as int) == back_over_word(t, mid),
            decreases i,
        {
            i = i - 1;
        }
        if i > 0 && i < n && is_space_exec(chars[i]) {
            i = i + 1;
        }
        *cursor = i;
    } else if input == Key::KeyRight || input == Key::Character('f') {
        let mut i = c0;
        while i < n && !is_space_exec(chars[i])
            invariant
                chars@ == t,
                n == t.len(),
                forward_over_word(t, i as int) == forward_over_word(t, c0 as int),
            decreases n - i,
        {
            i = i + 1;
        }
        let ghost mid = i as int;
        while i < n && is_space_exec(chars[i])
            invariant
                chars@ == t,
                n == t.len(),
                forward_over_space(t, i as int) == forward_over_space(t, mid),
            decreases n - i,
        {
            i = i + 1;
        }
        *cursor = i;
    } else if is_bs && c0 > 0 {
        let end = if c0 < n { c0 } else { n };
        // the last non-whitespace character before the cursor
        let mut p = end;
        while p > 0 && is_space_exec(chars[p - 1])
            invariant
                chars@ == t,
                n == t.len(),
                p <= end <= n,
                last_before(t, p as int, false) == last_before(t, end as int, false),
            decreases p,
        {
            p = p - 1;
        }
        let start: usize = if p == 0 {
            0
        } else {
            let mut q = p - 1;
            while q > 0 && !is_space_exec(chars[q - 1])
                invariant
                    chars@ == t,
                    n == t.len(),
                    q < p <= n,
                    last_before(t, q as int, true) == last_before(t, (p - 1) as int, true),
                decreases q,
            {
                q = q - 1;
            }
            q
        };
        assert(start as int == word_start_before(t, c0 as int));
        let mut out: Vec<char> = Vec::new();
        let mut k: usize = 0;
        while k < start
            invariant
                chars@ == t,
                k <= start <= end <= n,
                n == t.len(),
                out@ == t.take(k as int),
            decreases start - k,
        {
            out.push(chars[k]);
            assert(t.take(k + 1) == t.take(k as int).push(t[k as int]));
            k = k + 1;
        }
        let mut j: usize = end;
        while j < n
            invariant
                chars@ == t,
                start <= end <= j <= n,
                n == t.len(),
                out@ == t.take(start as int) + t.subrange(end as int, j as int),
            decreases n - j,
        {
            out.push(chars[j]);
            assert(t.subrange(end as int, j + 1) == t.subrange(end as int, j as int).push(t[j as int]));
            j = j + 1;
        }
        assert(t.subrange(end as int, n as int) == t.skip(end as int));
        *text = string_from_chars(&out);
        *cursor = start;
    }
}


// ---------------------------------------------------------------------------
// Scrolling a line of text
// ---------------------------------------------------------------------------

/// What a line shows before its text when it is scrolled: an ellipsis, with
/// a space after it when `extra_space`.
pub open spec fn ellipsis_width(offset: int, extra_space: bool) -> int {
    if offset > 0 { if extra_space { 2 } else { 1 } } else { 0 }
}

/// The column of the cursor, counted from the start of the shown text, when
/// the text is scrolled to start at character `offset`.
pub open spec fn cursor_column(t: Seq<char>, cursor: int, offset: int, extra_space: bool) -> int {
    let ci = min_of(cursor, t.len() as int);
    sat_sub(width_prefix(t, ci) as int, width_prefix(t, offset) as int) + ellipsis_width(offset, extra_space)
}

/// The first position `i`, from `from` up to `ci`, at which the characters
/// before it take at least `need` columns; `ci` when there is none.
pub open spec fn first_reaching(t: Seq<char>, ci: int, need: int, from: int) -> int
    decreases ci + 1 - from,
{
    if from > ci || from < 0 {
        ci
    } else if width_prefix(t, from) >= need {
        from
    } else {
        first_reaching(t, ci, need, from + 1)
    }
}

/// With an ellipsis `e` columns wide: the first character shown when the
/// cursor is to stand at column `target`, and the column it then stands at.
pub open spec fn scroll_candidate(t: Seq<char>, ci: int, target: int, e: int) -> (int, int) {
    let abs = width_prefix(t, ci) as int;
    let offset = first_reaching(t, ci, abs - target + e, 0);
    let visible = sat_sub(abs, width_prefix(t, offset) as int);
    let col = if visible + e > usize::MAX { usize::MAX as int } else { visible + e };
    (offset, col)
}

/// Where the text starts, as [`compute_commit_scroll`] computes it: at its
/// start while the cursor is within the first `available - 5` columns (or
/// the line is narrower than five columns, or the cursor at the start);
/// else the ellipsis without a space (one column) or with one (two columns)
/// whose cursor column comes closest to `available - 4` without passing it,
/// the one without a space, then the one starting further left, on ties;
/// when neither fits, at the cursor.
pub open spec fn commit_scroll(t: Seq<char>, cursor: usize, available_width: usize) -> (usize, bool) {
    let ci = min_of(cursor as int, t.len() as int);
    let abs = width_prefix(t, ci) as int;
    if available_width <= 4 || ci == 0 || abs <= available_width - 5 {
        (0, false)
    } else {
        let target = available_width - 4;
        let (o1, d1) = scroll_candidate(t, ci, target, 1);
        let (o2, d2) = scroll_candidate(t, ci, target, 2);
        let v1 = d1 <= target;
        let v2 = target >= 2 && d2 <= target;
        if v1 && d1 == target {
            (o1 as usize, false)
        } else if v2 && (!v1 || d2 > d1 || (d2 == d1 && o2 < o1)) {
            (o2 as usize, true)
        } else if v1 {
            (o1 as usize, false)
        } else if abs > target {
            (ci as usize, false)
        } else {
            (0, false)
        }
    }
}

/// The position [`first_reaching`] finds lies between the start and `ci`.
pub proof fn lemma_first_reaching_bounds(t: Seq<char>, ci: int, need: int, from: int)
    requires
        0 <= from,
        0 <= ci,
    ensures
        0 <= first_reaching(t, ci, need, from) <= ci,
        from <= ci ==> from <= first_reaching(t, ci, need, from),
    decreases ci + 1 - from,
{
    if from <= ci && width_prefix(t, from) < need {
        lemma_first_reaching_bounds(t, ci, need, from + 1);
    }
}

/// Computes [`scroll_candidate`].
fn scroll_candidate_exec(chars: &Vec<char>, widths: &Vec<usize>, ci: usize, target: usize, e: usize) -> (r: (usize, usize))
    requires
        widths@.len() == chars@.len() + 1,
        forall|i: int| 0 <= i <= chars@.len() ==> #[trigger] widths@[i] == width_prefix(chars@, i),
        ci <= chars@.len(),
        width_prefix(chars@, ci as int) >= target,
        e <= 2,
    ensures
        (r.0 as int, r.1 as int) == scroll_candidate(chars@, ci as int, target as int, e as int),
        r.0 <= ci,
{
    let abs = widths[ci];
    let need: u128 = (abs - target) as u128 + e as u128;
    let ghost need_int: int = abs - target + e;
    let mut offset = ci;
    let mut i: usize = 0;
    let mut found = false;
    proof {
        lemma_first_reaching_bounds(chars@, ci as int, need_int, 0);
    }
    while i <= ci && !found
        invariant
            i <= ci + 1,
            ci <= chars@.len(),
            widths@.len() == chars@.len() + 1,
            ci < widths.len(),
            forall|k: int| 0 <= k <= chars@.len() ==> #[trigger] widths@[k] == width_prefix(chars@, k),
            need as int == need_int,
            found ==> offset as int == first_reaching(chars@, ci as int, need_int, 0) && offset <= ci,
            !found ==> first_reaching(chars@, ci as int, need_int, i as int) == first_reaching(chars@, ci as int, need_int, 0),
            !found ==> offset == ci,
        decreases ci + 1 - i + (if found { 0int } else { 1int }),
    {
        if widths[i] as u128 >= need {
            offset = i;
            found = true;
        } else {
            i = i + 1;
        }
    }
    let visible = abs.saturating_sub(widths[offset]);
    (offset, visible.saturating_add(e))
}

/// Where a line of text `available` columns wide starts, so that the cursor
/// stays in view: at its start while the cursor is within the first
/// `available - 5` columns, else scrolled so that the cursor stands about
/// four columns from the right edge, after an ellipsis. Returns the first
/// character shown and whether the ellipsis is followed by a space.
pub fn compute_commit_scroll(text: &str, cursor: usize, available_width: usize) -> (r: (usize, bool))
    ensures
        ({
            let t = text@;
            let ci = min_of(cursor as int, t.len() as int);
            &&& r == commit_scroll(t, cursor, available_width)
            &&& r.0 <= ci
            &&& (available_width <= 4 || ci == 0 || width_prefix(t, ci) <= available_width - 5) ==> r == (0usize, false)
            &&& available_width > 4 ==> cursor_column(t, cursor as int, r.0 as int, r.1) <= available_width
        }),
{
    if available_width <= 4 {
        return (0, false);
    }
    let chars = chars_of(text);
    if chars.len() == 0 {
        return (0, false);
    }
    let cursor_index = if cursor < chars.len() { cursor } else { chars.len() };
    if cursor_index == 0 {
        return (0, false);
    }
    let prefix_widths = prefix_widths_for(&chars);
    let cursor_absolute_width = prefix_widths[cursor_index];
    if cursor_absolute_width <= available_width - 5 {
        return (0, false);
    }
    let target_position = available_width - 4;
    let (o1, d1) = scroll_candidate_exec(&chars, &prefix_widths, cursor_index, target_position, 1);
    let (o2, d2) = scroll_candidate_exec(&chars, &prefix_widths, cursor_index, target_position, 2);
    let v1 = d1 <= target_position;
    let v2 = target_position >= 2 && d2 <= target_position;
    if v1 && d1 == target_position {
        (o1, false)
    } else if v2 && (!v1 || d2 > d1 || (d2 == d1 && o2 < o1)) {
        (o2, true)
    } else if v1 {
        (o1, false)
    } else if cursor_absolute_width > target_position {
        (cursor_index, false)
    } else {
        (0, false)
    }
}

/// Where a text input whose line starts with `prefix` on a screen `max_x`
/// columns wide starts showing `t` (see [`commit_scroll`]).
pub open spec fn scroll_for_prefix(t: Seq<char>, cursor: usize, max_x: i32, prefix: Seq<char>) -> (usize, bool) {
    let width = if max_x < 0 { 0 } else { max_x as int };
    let available = sat_sub(width, str_display_width(prefix) as int);
    if available == 0 || t.len() == 0 { (0, false) } else { commit_scroll(t, cursor, available as usize) }
}

/// Where a line of text starts when the screen is `max_x` columns wide and
/// `prefix` is drawn before it.
pub fn compute_scroll_for_prefix(text: &str, cursor: usize, max_x: i32, prefix: &str) -> (r: (usize, bool))
    ensures
        ({
            let width = if max_x < 0 { 0 } else { max_x as int };
            let available = sat_sub(width, str_display_width(prefix@) as int);
            &&& r == scroll_for_prefix(text@, cursor, max_x, prefix@)
            &&& (available == 0 || text@.len() == 0) ==> r == (0usize, false)
            &&& r.0 <= min_of(cursor as int, text@.len() as int)
            &&& available > 4 ==> cursor_column(text@, cursor as int, r.0 as int, r.1) <= available
        }),
{
    let max_x: usize = if max_x < 0 { 0 } else { max_x as usize };
    let available_width = max_x.saturating_sub(str_width(prefix));
    if available_width == 0 || text.is_empty() {
        return (0, false);
    }
    compute_commit_scroll(text, cursor, available_width)
}

/// How many characters from `i` on fit into `budget` columns, each taking
/// its width, stopping at the first that does not fit.
pub open spec fn fit_from(t: Seq<char>, i: int, budget: int) -> nat
    decreases t.len() - i,
{
    if 0 <= i < t.len() && col_width(t[i]) <= budget {
        1 + fit_from(t, i + 1, budget - col_width(t[i]))
    } else {
        0
    }
}

/// How many characters from `i` on fit into `budget` columns, each taking
/// the width `unicode-width` gives the one-character string, stopping at
/// the first that does not fit.
pub open spec fn fit_chars_from(t: Seq<char>, i: int, budget: int) -> nat
    decreases t.len() - i,
{
    if 0 <= i < t.len() && str_display_width(seq![t[i]]) <= budget {
        1 + fit_chars_from(t, i + 1, budget - str_display_width(seq![t[i]]))
    } else {
        0
    }
}

/// The longest start of `text` that fits into `available_width` columns
/// (what a previous commit's subject is cut to).
pub fn truncate_to_width(text: &str, available_width: usize) -> (r: String)
    ensures
        r@ == text@.subrange(0, fit_chars_from(text@, 0, available_width as int) as int),
{
    let chars = chars_of(text);
    let mut used: usize = 0;
    let mut i: usize = 0;
    let mut out = String::new();
    let mut fits = true;
    while i < chars.len() && fits
        invariant
            i <= chars@.len(),
            chars@ == text@,
            used <= available_width,
            out@ == chars@.subrange(0, i as int),
            fits ==> fit_chars_from(chars@, 0, available_width as int)
                == i + fit_chars_from(chars@, i as int, available_width - used),
            !fits ==> fit_chars_from(chars@, 0, available_width as int) == i,
        decreases chars@.len() - i + (if fits { 1int } else { 0int }),
    {
        let mut one = String::new();
        string_push(&mut one, chars[i]);
        assert(one@ =~= seq![chars@[i as int]]);
        let w = str_width(one.as_str());
        if w <= available_width - used {
            used = used + w;
            string_push(&mut out, chars[i]);
            assert(out@ =~= chars@.subrange(0, i + 1));
            i = i + 1;
        } else {
            fits = false;
        }
    }
    if fits {
        assert(fit_chars_from(chars@, i as int, available_width - used) == 0);
    }
    out
}

/// The ellipsis drawn before a scrolled line.
pub open spec fn ellipsis_text(offset: int, extra_space: bool) -> Seq<char> {
    if offset > 0 { if extra_space { seq!['…', ' '] } else { seq!['…'] } } else { Seq::empty() }
}

/// The text shown for the line `t` in `available_width` columns when it
/// starts at character `scroll_offset`, and the column of the cursor in it:
/// the ellipsis if the line is scrolled and it fits, then as many characters
/// as fit. Nothing is shown in no columns.
pub open spec fn display_line(t: Seq<char>, cursor: usize, available_width: usize, scroll_offset: usize,
    scroll_extra_space: bool) -> (Seq<char>, usize) {
    let ci = min_of(cursor as int, t.len() as int);
    let oi = min_of(scroll_offset as int, ci);
    let ew = ellipsis_width(oi, scroll_extra_space);
    let shown_ellipsis = if ew <= available_width { ew } else { 0 };
    let e = if ew <= available_width { ellipsis_text(oi, scroll_extra_space) } else { Seq::empty() };
    if available_width == 0 {
        (Seq::empty(), 0)
    } else {
        (e + t.subrange(oi, oi + fit_from(t, oi, available_width - shown_ellipsis)),
            min_of(sat_sub(width_prefix(t, ci) as int, width_prefix(t, oi) as int) + shown_ellipsis,
                available_width as int) as usize)
    }
}

/// Builds what [`display_line`] says is shown of `text`.
pub fn build_display_line(text: &str, cursor: usize, available_width: usize, scroll_offset: usize,
    scroll_extra_space: bool) -> (r: (String, usize))
    ensures
        (r.0@, r.1) == display_line(text@, cursor, available_width, scroll_offset, scroll_extra_space),
{
    if available_width == 0 {
        return (String::new(), 0);
    }
    let chars = chars_of(text);
    let ghost t = chars@;
    let n = chars.len();
    let cursor_index = if cursor < n { cursor } else { n };
    let offset_index = if scroll_offset < cursor_index { scroll_offset } else { cursor_index };
    let prefix_widths = prefix_widths_for(&chars);
    let offset_width = prefix_widths[offset_index];
    let cursor_absolute_width = prefix_widths[cursor_index];
    let ellipsis_w: usize = if offset_index > 0 { if scroll_extra_space { 2 } else { 1 } } else { 0 };

    let mut rendered: Vec<char> = Vec::new();
    let mut consumed: usize = 0;
    let mut actual_ellipsis: usize = 0;
    if offset_index > 0 && ellipsis_w <= available_width {
        rendered.push('…');
        if scroll_extra_space {
            rendered.push(' ');
        }
        consumed = ellipsis_w;
        actual_ellipsis = ellipsis_w;
    }
    let ghost e = rendered@;
    let mut i: usize = offset_index;
    let mut budget: usize = available_width - consumed;
    let mut fits = true;
    while i < n && fits
        invariant
            chars@ == t,
            n == t.len(),
            offset_index <= i <= n,
            budget <= available_width,
            rendered@ == e + t.subrange(offset_index as int, i as int),
            fit_from(t, i as int, budget as int) + i == fit_from(t, offset_index as int, (available_width - actual_ellipsis) as int) + offset_index,
            !fits ==> i < n && col_width(t[i as int]) > budget,
        decreases n - i, if fits { 1int } else { 0int },
    {
        let w = match char_width(chars[i]) {
            Some(w) => w,
            None => 0,
        };
        if w > budget {
            fits = false;
        } else {
            rendered.push(chars[i]);
            assert(t.subrange(offset_index as int, i + 1) == t.subrange(offset_index as int, i as int).push(t[i as int]));
            budget = budget - w;
            i = i + 1;
        }
    }
    let visible = cursor_absolute_width.saturating_sub(offset_width).saturating_add(actual_ellipsis);
    let col = if visible < available_width { visible } else { available_width };
    (string_from_chars(&rendered), col)
}


// ---------------------------------------------------------------------------
// The commit message input
// ---------------------------------------------------------------------------

/// The state with only the scroll position of the commit message changed.
pub open spec fn only_commit_scroll_changed(a: AppState, b: AppState) -> bool {
    b == AppState {
        main_screen: crate::app_state::MainScreenState {
            commit_scroll_offset: b.main_screen.commit_scroll_offset,
            commit_scroll_extra_space: b.main_screen.commit_scroll_extra_space,
            ..a.main_screen
        },
        ..a
    }
}

/// Scrolls the commit message so that the cursor stays in view.
fn adjust_commit_scroll_state(state: &mut AppState, text: &str, cursor: usize, max_x: i32)
    ensures
        only_commit_scroll_changed(*old(state), *final(state)),
        final(state).main_screen.commit_scroll_offset <= min_of(cursor as int, text@.len() as int),
        (final(state).main_screen.commit_scroll_offset, final(state).main_screen.commit_scroll_extra_space)
            == scroll_for_prefix(text@, cursor, max_x, " ○ "@),
{
    let (offset, extra_space) = compute_scroll_for_prefix(text, cursor, max_x, " ○ ");
    state.main_screen.commit_scroll_offset = offset;
    state.main_screen.commit_scroll_extra_space = extra_space;
}

/// The message being amended under the main cursor, if one is there.
pub open spec fn amending_at_cursor(s: AppState) -> Option<(Seq<char>, Seq<char>)> {
    let i = s.main_screen.file_cursor as int;
    if 0 <= i < s.main_screen.list_items@.len() {
        match s.main_screen.list_items@[i]@ {
            ListItemView::AmendingCommitMessageInput { hash, message } => Some((hash, message)),
            _ => None,
        }
    } else {
        None
    }
}

/// Takes the message being written (the one being amended when the cursor
/// stands on it, else the new commit's) out for editing.
fn take_message(state: &AppState) -> (r: (String, Option<String>))
    ensures
        match amending_at_cursor(*state) {
            Some((h, m)) => r.0@ == m && (r.1 matches Some(x) && x@ == h),
            None => r.0@ == state.main_screen.commit_message@ && r.1 is None,
        },
{
    if state.main_screen.file_cursor < state.main_screen.list_items.len() {
        match &state.main_screen.list_items[state.main_screen.file_cursor] {
            ListItem::AmendingCommitMessageInput { hash, message } => {
                return (message.clone(), Some(hash.clone()));
            },
            _ => {},
        }
    }
    (state.main_screen.commit_message.clone(), None)
}

/// Puts an edited message back where `take_message` took it from.
fn put_message(state: &mut AppState, message: String, amending_hash: Option<String>)
    requires
        amending_hash is Some ==> amending_at_cursor(*old(state)) is Some,
    ensures
        match amending_hash {
            Some(h) => {
                &&& item_views(final(state).main_screen.list_items@) == item_views(old(state).main_screen.list_items@).update(
                    old(state).main_screen.file_cursor as int,
                    ListItemView::AmendingCommitMessageInput { hash: h@, message: message@ })
                &&& final(state).main_screen.list_items@.len() == old(state).main_screen.list_items@.len()
                &&& final(state).main_screen.commit_message == old(state).main_screen.commit_message
            },
            None => final(state).main_screen.commit_message == message
                && final(state).main_screen.list_items == old(state).main_screen.list_items,
        },
        final(state).main_screen.file_cursor == old(state).main_screen.file_cursor,
        final(state).main_screen.commit_cursor == old(state).main_screen.commit_cursor,
        final(state).main_screen.amending_commit_hash == old(state).main_screen.amending_commit_hash,
        final(state).files == old(state).files,
        final(state).actions == old(state).actions,
        final(state).running == old(state).running,
        final(state).focused_pane == old(state).focused_pane,
{
    match amending_hash {
        Some(hash) => {
            let i = state.main_screen.file_cursor;
            let ghost before = state.main_screen.list_items@;
            state.main_screen.list_items[i] = ListItem::AmendingCommitMessageInput { hash, message };
            assert(item_views(state.main_screen.list_items@) =~= item_views(before).update(i as int,
                ListItemView::AmendingCommitMessageInput { hash: hash@, message: message@ }));
        },
        None => {
            state.main_screen.commit_message = message;
        },
    }
}

/// What an Alt key does in the commit message input (see [`handle_commit_input_with_alt`]).
pub open spec fn commit_alt_done(o: AppState, input: Key, max_x: i32, n: AppState) -> bool {
    &&& (n.main_screen.file_cursor == o.main_screen.file_cursor)
    &&& (n.actions == o.actions)
    &&& (n.running == o.running)
    &&& (match amending_at_cursor(o) {
            Some((h, m)) => {
                let (m2, c2) = edit_text_alt(m, o.main_screen.commit_cursor, input);
                &&& item_views(n.main_screen.list_items@) == item_views(o.main_screen.list_items@).update(
                    o.main_screen.file_cursor as int,
                    ListItemView::AmendingCommitMessageInput { hash: h, message: m2 })
                &&& n.main_screen.commit_cursor == c2
                &&& n.main_screen.commit_message == o.main_screen.commit_message
                &&& n.main_screen.commit_scroll_offset <= min_of(c2 as int, m2.len() as int)
                &&& (n.main_screen.commit_scroll_offset, n.main_screen.commit_scroll_extra_space)
                    == scroll_for_prefix(m2, c2, max_x, " ○ "@)
            },
            None => {
                let (m2, c2) = edit_text_alt(o.main_screen.commit_message@, o.main_screen.commit_cursor, input);
                &&& n.main_screen.commit_message@ == m2
                &&& n.main_screen.commit_cursor == c2
                &&& n.main_screen.list_items == o.main_screen.list_items
                &&& n.main_screen.commit_scroll_offset <= min_of(c2 as int, m2.len() as int)
                &&& (n.main_screen.commit_scroll_offset, n.main_screen.commit_scroll_extra_space)
                    == scroll_for_prefix(m2, c2, max_x, " ○ "@)
            },
        })
}

/// A key pressed with Alt in the commit message input edits the message
/// being written, and the input scrolls to keep the cursor in view.
pub fn handle_commit_input_with_alt(state: &mut AppState, input: Key, max_x: i32)
    ensures
        commit_alt_done(*old(state), input, max_x, *final(state)),

{
    let (mut message, hash) = take_message(state);
    let mut cursor = state.main_screen.commit_cursor;
    handle_generic_text_input_with_alt(&mut message, &mut cursor, input);
    let snapshot = message.clone();
    put_message(state, message, hash);
    state.main_screen.commit_cursor = cursor;
    adjust_commit_scroll_state(state, snapshot.as_str(), cursor, max_x);
}

/// What a key does in the commit message input (see [`handle_commit_input`]).
pub open spec fn commit_input_done(o: AppState, input: Key, max_y: i32, max_x: i32, n: AppState) -> bool {
    &&& (n.main_screen.file_cursor == o.main_screen.file_cursor)
    &&& (n.main_screen.amending_commit_hash is None
            || n.main_screen.amending_commit_hash == o.main_screen.amending_commit_hash)
    &&& (n.running == o.running)
    &&& (n.files == o.files)
    &&& (input == Key::Character('\n') ==> {
            let message = match amending_at_cursor(o) {
                Some((h, m)) => m,
                None => o.main_screen.commit_message@,
            };
            &&& n.main_screen.list_items == o.main_screen.list_items
            &&& n.main_screen.commit_message == o.main_screen.commit_message
            &&& if message.len() == 0 || (amending_at_cursor(o) is Some && o.main_screen.amending_commit_hash is None) {
                n.actions == o.actions
                    && n.main_screen.amending_commit_hash == o.main_screen.amending_commit_hash
            } else {
                &&& crate::app_state::one_more_action(o.actions@, n.actions@)
                &&& match amending_at_cursor(o) {
                    Some(_) => {
                        let hash = o.main_screen.amending_commit_hash->0@;
                        &&& n.main_screen.amending_commit_hash is None
                        &&& if o.files@.len() > 0 {
                            (n.actions@.last() matches UiAction::Commit(CommitRequest::Amend { hash: h, message: m })
                                && h@ == hash && m@ == message)
                        } else {
                            (n.actions@.last() matches UiAction::Commit(CommitRequest::Reword { hash: h, message: m })
                                && h@ == hash && m@ == message)
                        }
                    },
                    None => (n.actions@.last() matches UiAction::Commit(CommitRequest::New { message: m })
                        && m@ == message),
                }
            }
        })
    &&& (input != Key::Character('\n') ==> match amending_at_cursor(o) {
            Some((h, m)) => {
                let (m2, c2) = edit_text(m, o.main_screen.commit_cursor, input);
                &&& item_views(n.main_screen.list_items@) == item_views(o.main_screen.list_items@).update(
                    o.main_screen.file_cursor as int,
                    ListItemView::AmendingCommitMessageInput { hash: h, message: m2 })
                &&& n.main_screen.commit_cursor == c2
                &&& n.main_screen.commit_message == o.main_screen.commit_message
                &&& n.actions == o.actions
                &&& (n.main_screen.commit_scroll_offset, n.main_screen.commit_scroll_extra_space)
                    == scroll_for_prefix(m2, c2, max_x, " ○ "@)
            },
            None => {
                let (m2, c2) = edit_text(o.main_screen.commit_message@, o.main_screen.commit_cursor, input);
                &&& n.main_screen.commit_message@ == m2
                &&& n.main_screen.commit_cursor == c2
                &&& (n.main_screen.commit_scroll_offset, n.main_screen.commit_scroll_extra_space)
                    == scroll_for_prefix(m2, c2, max_x, " ○ "@)
                &&& n.main_screen.list_items == o.main_screen.list_items
                &&& crate::app_state::one_more_action(o.actions@, n.actions@)
                &&& (n.actions@.last() matches UiAction::SaveCommitMessage(x) && x@ == m2)
            },
        })
}

/// A key in the commit message input. Enter asks for the commit (an amend of
/// the commit being amended when there are staged changes, else a reword of
/// it; a new commit otherwise) unless the message is empty; any other key
/// edits the message, a new commit's draft being stored again, and the input
/// scrolls to keep the cursor in view.
pub fn handle_commit_input(state: &mut AppState, input: Key, max_y: i32, max_x: i32)
    ensures
        commit_input_done(*old(state), input, max_y, max_x, *final(state)),

{
    let (mut message, hash) = take_message(state);
    let is_amend = hash.is_some();
    if input == Key::Character('\n') {
        if message.as_str().is_empty() {
            return;
        }
        if is_amend {
            match state.main_screen.amending_commit_hash.clone() {
                Some(target) => {
                    let request = if state.files.len() > 0 {
                        CommitRequest::Amend { hash: target, message }
                    } else {
                        CommitRequest::Reword { hash: target, message }
                    };
                    state.main_screen.amending_commit_hash = None;
                    state.actions.push(UiAction::Commit(request));
                    assert(state.actions@.drop_last() =~= old(state).actions@);
                },
                None => {
                    return;
                },
            }
        } else {
            state.actions.push(UiAction::Commit(CommitRequest::New { message }));
            assert(state.actions@.drop_last() =~= old(state).actions@);
        }
    } else {
        let mut cursor = state.main_screen.commit_cursor;
        handle_generic_text_input(&mut message, &mut cursor, input);
        let snapshot = message.clone();
        let saved = message.clone();
        put_message(state, message, hash);
        state.main_screen.commit_cursor = cursor;
        if !is_amend {
            state.actions.push(UiAction::SaveCommitMessage(saved));
            assert(state.actions@.drop_last() =~= old(state).actions@);
        }
        adjust_commit_scroll_state(state, snapshot.as_str(), cursor, max_x);
    }
}

} // verus!
