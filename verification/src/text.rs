//! Character-level helpers on strings: conversion between `String` and
//! `Vec<char>`, line splitting, prefixes, trimming and decimal numbers.
use vstd::prelude::*;
use vstd::std_specs::iter::IteratorSpec;

verus! {

// ---------------------------------------------------------------------------
// Specifications
// ---------------------------------------------------------------------------

/// `s` begins with `prefix`.
pub open spec fn starts_with(s: Seq<char>, prefix: Seq<char>) -> bool {
    prefix.len() <= s.len() && s.subrange(0, prefix.len() as int) == prefix
}

/// `s` begins with the character `c`.
pub open spec fn starts_with_char(s: Seq<char>, c: char) -> bool {
    s.len() > 0 && s[0] == c
}

/// `s` contains `c` somewhere.
pub open spec fn has_char(s: Seq<char>, c: char) -> bool {
    exists|i: int| 0 <= i < s.len() && s[i] == c
}

/// Index of the first `c` in `s` at or after `from`, or `s.len()` if there is none.
pub open spec fn next_char(s: Seq<char>, from: int, c: char) -> int
    decreases s.len() - from,
{
    if from >= s.len() {
        s.len() as int
    } else if s[from] == c {
        from
    } else {
        next_char(s, from + 1, c)
    }
}

/// Index of the first `'\n'` in `s` at or after `from`, or `s.len()` if there is none.
pub open spec fn next_newline(s: Seq<char>, from: int) -> int {
    next_char(s, from, '\n')
}

/// The piece number `n` of `s` split at every `sep` (what `s.split(sep).nth(n)` gives).
pub open spec fn field(s: Seq<char>, sep: char, n: nat) -> Option<Seq<char>>
    decreases s.len(),
{
    let end = next_char(s, 0, sep);
    if end >= s.len() {
        if n == 0 { Some(s) } else { None }
    } else if n == 0 {
        Some(s.subrange(0, end))
    } else {
        proof {
            lemma_next_char_bounds(s, 0, sep);
        }
        field(s.subrange(end + 1, s.len() as int), sep, (n - 1) as nat)
    }
}

/// `next_char` lies between `from` and the end, and nothing before it is `c`.
pub proof fn lemma_next_char_bounds(s: Seq<char>, from: int, c: char)
    requires
        0 <= from <= s.len(),
    ensures
        from <= next_char(s, from, c) <= s.len(),
        next_char(s, from, c) < s.len() ==> s[next_char(s, from, c)] == c,
        forall|k: int| from <= k < next_char(s, from, c) ==> s[k] != c,
    decreases s.len() - from,
{
    if from < s.len() && s[from] != c {
        lemma_next_char_bounds(s, from + 1, c);
    }
}

/// `next_newline` lies between `from` and the end, and everything before it is no newline.
pub proof fn lemma_next_newline_bounds(s: Seq<char>, from: int)
    requires
        0 <= from <= s.len(),
    ensures
        from <= next_newline(s, from) <= s.len(),
        next_newline(s, from) < s.len() ==> s[next_newline(s, from)] == '\n',
        forall|k: int| from <= k < next_newline(s, from) ==> s[k] != '\n',
{
    lemma_next_char_bounds(s, from, '\n');
}

/// A line without its terminating `'\r'`, as `str::lines` yields it.
pub open spec fn strip_cr(line: Seq<char>) -> Seq<char> {
    if line.len() > 0 && line.last() == '\r' {
        line.drop_last()
    } else {
        line
    }
}

/// The lines of `s` from position `from` on: pieces separated by `'\n'`, each
/// without a trailing `'\r'`, and no empty piece after a final `'\n'`.
pub open spec fn lines_from(s: Seq<char>, from: int) -> Seq<Seq<char>>
    decreases s.len() - from,
{
    if from < 0 || from >= s.len() {
        Seq::empty()
    } else {
        let end = next_newline(s, from);
        proof {
            lemma_next_newline_bounds(s, from);
        }
        if end < s.len() {
            seq![strip_cr(s.subrange(from, end))] + lines_from(s, end + 1)
        } else {
            seq![strip_cr(s.subrange(from, end))]
        }
    }
}

/// The lines of `s`, as `str::lines` gives them.
pub open spec fn lines(s: Seq<char>) -> Seq<Seq<char>> {
    lines_from(s, 0)
}

/// `s` with every leading and trailing `c` removed (`str::trim_matches`).
pub open spec fn trim_char(s: Seq<char>, c: char) -> Seq<char> {
    trim_end_char(trim_start_char(s, c), c)
}

/// `s` with every trailing `c` removed.
pub open spec fn trim_end_char(s: Seq<char>, c: char) -> Seq<char>
    decreases s.len(),
{
    if s.len() > 0 && s.last() == c {
        trim_end_char(s.drop_last(), c)
    } else {
        s
    }
}

/// `s` with every leading `c` removed (`str::trim_start_matches`).
pub open spec fn trim_start_char(s: Seq<char>, c: char) -> Seq<char>
    decreases s.len(),
{
    if s.len() > 0 && s[0] == c {
        trim_start_char(s.drop_first(), c)
    } else {
        s
    }
}

/// The characters with the Unicode `White_Space` property, which
/// `char::is_whitespace` accepts and `str::trim` removes.
pub open spec fn is_space(c: char) -> bool {
    ('\t' <= c && c <= '\r') || c == ' ' || c == '\u{85}' || c == '\u{a0}' || c == '\u{1680}'
        || ('\u{2000}' <= c && c <= '\u{200a}') || c == '\u{2028}' || c == '\u{2029}'
        || c == '\u{202f}' || c == '\u{205f}' || c == '\u{3000}'
}

/// `s` without leading and trailing whitespace (`str::trim`).
pub open spec fn trim_spaces(s: Seq<char>) -> Seq<char> {
    trim_end_spaces(trim_start_spaces(s))
}

/// `s` without leading whitespace.
pub open spec fn trim_start_spaces(s: Seq<char>) -> Seq<char>
    decreases s.len(),
{
    if s.len() > 0 && is_space(s[0]) {
        trim_start_spaces(s.drop_first())
    } else {
        s
    }
}

/// `s` without trailing whitespace.
pub open spec fn trim_end_spaces(s: Seq<char>) -> Seq<char>
    decreases s.len(),
{
    if s.len() > 0 && is_space(s.last()) {
        trim_end_spaces(s.drop_last())
    } else {
        s
    }
}

/// Whether `c` is an ASCII decimal digit.
pub open spec fn is_digit(c: char) -> bool {
    '0' <= c && c <= '9'
}

/// The value of the digits `d`, read in base ten.
pub open spec fn digits_value(d: Seq<char>) -> nat
    decreases d.len(),
{
    if d.len() == 0 {
        0
    } else {
        digits_value(d.drop_last()) * 10 + ((d.last() as nat) - ('0' as nat)) as nat
    }
}

/// The digits of `s` after an optional leading `'+'`.
pub open spec fn unsigned_digits(s: Seq<char>) -> Seq<char> {
    if s.len() > 0 && s[0] == '+' {
        s.drop_first()
    } else {
        s
    }
}

/// What `s.parse::<usize>()` yields: a value for an optional `'+'` followed by
/// at least one decimal digit and nothing else, when it fits in `usize`.
pub open spec fn parse_usize_spec(s: Seq<char>) -> Option<usize> {
    let d = unsigned_digits(s);
    if d.len() > 0 && (forall|i: int| 0 <= i < d.len() ==> is_digit(#[trigger] d[i]))
        && digits_value(d) <= usize::MAX {
        Some(digits_value(d) as usize)
    } else {
        None
    }
}

/// The decimal digits of `n`, most significant first, without leading zeros.
pub open spec fn decimal(n: nat) -> Seq<char>
    decreases n,
{
    if n < 10 {
        seq![digit_char(n)]
    } else {
        decimal(n / 10).push(digit_char(n % 10))
    }
}

/// The character of a decimal digit.
pub open spec fn digit_char(d: nat) -> char {
    if d == 0 { '0' }
    else if d == 1 { '1' }
    else if d == 2 { '2' }
    else if d == 3 { '3' }
    else if d == 4 { '4' }
    else if d == 5 { '5' }
    else if d == 6 { '6' }
    else if d == 7 { '7' }
    else if d == 8 { '8' }
    else { '9' }
}

/// Joins `parts`, putting `sep` between neighbours.
pub open spec fn join(parts: Seq<Seq<char>>, sep: Seq<char>) -> Seq<char>
    decreases parts.len(),
{
    if parts.len() == 0 {
        Seq::empty()
    } else if parts.len() == 1 {
        parts[0]
    } else {
        join(parts.drop_last(), sep) + sep + parts.last()
    }
}

/// `pattern` occurs in `s` at position `i`.
pub open spec fn occurs_at(s: Seq<char>, pattern: Seq<char>, i: int) -> bool {
    0 <= i && i + pattern.len() <= s.len() && s.subrange(i, i + pattern.len()) == pattern
}

/// `pattern` occurs somewhere in `s` (what `str::contains` tests).
pub open spec fn has_substring(s: Seq<char>, pattern: Seq<char>) -> bool {
    exists|i: int| occurs_at(s, pattern, i)
}

/// The decimal form of a signed number, with a leading `'-'` when negative.
pub open spec fn signed_decimal(n: int) -> Seq<char> {
    if n < 0 {
        seq!['-'] + decimal((-n) as nat)
    } else {
        decimal(n as nat)
    }
}

/// The views of a sequence of strings.
pub open spec fn views(v: Seq<String>) -> Seq<Seq<char>> {
    v.map_values(|s: String| s@)
}

// ---------------------------------------------------------------------------
// Trusted std calls that vstd does not specify
// ---------------------------------------------------------------------------

/// Calls `String::push`. Trusted: appending a character adds exactly that
/// character at the end of the string's characters.
#[verifier::external_body]
pub(crate) fn string_push(s: &mut String, c: char)
    ensures
        final(s)@ == old(s)@.push(c),
{
    s.push(c);
}

// ---------------------------------------------------------------------------
// Verified helpers
// ---------------------------------------------------------------------------

/// The characters of `s`, in order.
pub fn chars_of(s: &str) -> (v: Vec<char>)
    ensures
        v@ == s@,
{
    let mut v: Vec<char> = Vec::new();
    broadcast use vstd::string::group_string_axioms;
    for c in iter: s.chars()
        invariant
            v@ == iter.seq().take(iter.index() as int),
            iter.seq() == s@,
    {
        v.push(c);
    }
    v
}

/// A new string holding `chars[from..to]`.
pub fn string_from_range(chars: &Vec<char>, from: usize, to: usize) -> (r: String)
    requires
        from <= to <= chars@.len(),
    ensures
        r@ == chars@.subrange(from as int, to as int),
{
    let mut r = String::new();
    let mut i: usize = from;
    while i < to
        invariant
            from <= i <= to <= chars@.len(),
            r@ == chars@.subrange(from as int, i as int),
        decreases to - i,
    {
        string_push(&mut r, chars[i]);
        assert(chars@.subrange(from as int, i + 1) == chars@.subrange(from as int, i as int).push(chars@[i as int]));
        i = i + 1;
    }
    r
}

/// A new string holding all of `chars`.
pub fn string_from_chars(chars: &Vec<char>) -> (r: String)
    ensures
        r@ == chars@,
{
    let r = string_from_range(chars, 0, chars.len());
    assert(chars@.subrange(0, chars@.len() as int) == chars@);
    r
}

/// Appends all of `other` to `s`.
pub fn push_all(s: &mut String, other: &str)
    ensures
        final(s)@ == old(s)@ + other@,
{
    s.append(other);
}

/// The index of the first `'\n'` in `chars` at or after `from`, or the length.
fn find_newline(chars: &Vec<char>, from: usize) -> (r: usize)
    requires
        from <= chars@.len(),
    ensures
        r as int == next_newline(chars@, from as int),
{
    let mut i: usize = from;
    proof {
        lemma_next_newline_bounds(chars@, from as int);
    }
    while i < chars.len() && chars[i] != '\n'
        invariant
            from <= i <= chars@.len(),
            next_char(chars@, i as int, '\n') == next_newline(chars@, from as int),
        decreases chars@.len() - i,
    {
        i = i + 1;
    }
    i
}

/// The lines of `s`, as `str::lines` yields them.
pub fn split_lines(s: &str) -> (v: Vec<String>)
    ensures
        views(v@) == lines(s@),
{
    let chars = chars_of(s);
    let mut out: Vec<String> = Vec::new();
    let mut pos: usize = 0;
    while pos < chars.len()
        invariant
            pos <= chars@.len(),
            chars@ == s@,
            views(out@) + lines_from(chars@, pos as int) == lines(chars@),
        decreases chars@.len() - pos,
    {
        let end = find_newline(&chars, pos);
        proof {
            lemma_next_newline_bounds(chars@, pos as int);
        }
        let mut stop: usize = end;
        if end > pos && chars[end - 1] == '\r' {
            stop = end - 1;
        }
        let line = string_from_range(&chars, pos, stop);
        assert(line@ == strip_cr(chars@.subrange(pos as int, end as int)));
        let ghost before = out@;
        out.push(line);
        assert(views(out@) == views(before).push(line@));
        if end < chars.len() {
            assert(lines_from(chars@, pos as int) == seq![line@] + lines_from(chars@, end + 1));
            assert(views(out@) + lines_from(chars@, end + 1) == views(before) + lines_from(chars@, pos as int));
            pos = end + 1;
        } else {
            assert(lines_from(chars@, pos as int) == seq![line@]);
            assert(lines_from(chars@, end as int) == Seq::<Seq<char>>::empty());
            assert(views(out@) + lines_from(chars@, end as int) == views(before) + lines_from(chars@, pos as int));
            pos = end;
        }
    }
    assert(lines_from(chars@, pos as int) == Seq::<Seq<char>>::empty());
    assert(views(out@) + Seq::<Seq<char>>::empty() == views(out@));
    out
}

/// Whether `s` begins with `prefix`.
pub fn str_starts_with(s: &str, prefix: &str) -> (r: bool)
    ensures
        r == starts_with(s@, prefix@),
{
    let a = chars_of(s);
    let b = chars_of(prefix);
    if b.len() > a.len() {
        return false;
    }
    let mut i: usize = 0;
    while i < b.len()
        invariant
            a@ == s@,
            b@ == prefix@,
            b@.len() <= a@.len(),
            i <= b@.len(),
            forall|k: int| 0 <= k < i ==> a@[k] == b@[k],
        decreases b@.len() - i,
    {
        if a[i] != b[i] {
            assert(a@.subrange(0, b@.len() as int)[i as int] == a@[i as int]);
            assert(a@.subrange(0, b@.len() as int) != b@);

            return false;
        }
        i = i + 1;
    }
    assert(a@.subrange(0, b@.len() as int) =~= b@);
    true
}

/// Whether `s` begins with the character `c`.
pub fn str_starts_with_char(s: &str, c: char) -> (r: bool)
    ensures
        r == starts_with_char(s@, c),
{
    let a = chars_of(s);
    a.len() > 0 && a[0] == c
}

/// The characters of `s` without every leading `c`.
pub fn trim_start_matches(s: &Vec<char>, c: char) -> (r: Vec<char>)
    ensures
        r@ == trim_start_char(s@, c),
{
    let mut i: usize = 0;
    assert(s@.subrange(0, s@.len() as int) == s@);
    while i < s.len() && s[i] == c
        invariant
            i <= s@.len(),
            trim_start_char(s@.subrange(i as int, s@.len() as int), c) == trim_start_char(s@, c),
        decreases s@.len() - i,
    {
        assert(s@.subrange(i + 1, s@.len() as int) == s@.subrange(i as int, s@.len() as int).drop_first());
        i = i + 1;
    }
    let mut r: Vec<char> = Vec::new();
    let mut j: usize = i;
    while j < s.len()
        invariant
            i <= j <= s@.len(),
            r@ == s@.subrange(i as int, j as int),
        decreases s@.len() - j,
    {
        r.push(s[j]);
        assert(s@.subrange(i as int, j + 1) == s@.subrange(i as int, j as int).push(s@[j as int]));
        j = j + 1;
    }
    r
}

/// The characters of `s` without every trailing `c`.
pub fn trim_end_matches(s: &Vec<char>, c: char) -> (r: Vec<char>)
    ensures
        r@ == trim_end_char(s@, c),
{
    let mut n: usize = s.len();
    assert(s@.subrange(0, s@.len() as int) == s@);
    while n > 0 && s[n - 1] == c
        invariant
            n <= s@.len(),
            trim_end_char(s@.subrange(0, n as int), c) == trim_end_char(s@, c),
        decreases n,
    {
        assert(s@.subrange(0, n - 1) == s@.subrange(0, n as int).drop_last());
        n = n - 1;
    }
    let mut r: Vec<char> = Vec::new();
    let mut j: usize = 0;
    while j < n
        invariant
            j <= n <= s@.len(),
            r@ == s@.subrange(0, j as int),
        decreases n - j,
    {
        r.push(s[j]);
        assert(s@.subrange(0, j + 1) == s@.subrange(0, j as int).push(s@[j as int]));
        j = j + 1;
    }
    r
}

/// `s` without every leading and trailing `c` (`str::trim_matches`).
pub fn trim_matches(s: &str, c: char) -> (r: String)
    ensures
        r@ == trim_char(s@, c),
{
    let chars = chars_of(s);
    let a = trim_start_matches(&chars, c);
    let b = trim_end_matches(&a, c);
    string_from_chars(&b)
}

/// `s` without leading and trailing whitespace (`str::trim`).
pub fn trim(s: &str) -> (r: String)
    ensures
        r@ == trim_spaces(s@),
{
    let chars = chars_of(s);
    let mut i: usize = 0;
    assert(chars@.subrange(0, chars@.len() as int) == chars@);
    while i < chars.len() && is_space_exec(chars[i])
        invariant
            i <= chars@.len(),
            trim_start_spaces(chars@.subrange(i as int, chars@.len() as int)) == trim_start_spaces(chars@),
        decreases chars@.len() - i,
    {
        assert(chars@.subrange(i + 1, chars@.len() as int) == chars@.subrange(i as int, chars@.len() as int).drop_first());
        i = i + 1;
    }
    assert(chars@.subrange(i as int, chars@.len() as int).len() == 0 || !is_space(chars@.subrange(i as int, chars@.len() as int)[0]));
    let ghost rest = chars@.subrange(i as int, chars@.len() as int);
    assert(trim_start_spaces(rest) == rest);
    let mut n: usize = chars.len();
    while n > i && is_space_exec(chars[n - 1])
        invariant
            i <= n <= chars@.len(),
            rest == chars@.subrange(i as int, chars@.len() as int),
            trim_end_spaces(chars@.subrange(i as int, n as int)) == trim_end_spaces(rest),
        decreases n,
    {
        assert(chars@.subrange(i as int, n - 1) == chars@.subrange(i as int, n as int).drop_last());
        n = n - 1;
    }
    assert(trim_end_spaces(chars@.subrange(i as int, n as int)) == chars@.subrange(i as int, n as int));
    string_from_range(&chars, i, n)
}

/// Whether `c` is whitespace (`char::is_whitespace`).
pub fn is_space_exec(c: char) -> (r: bool)
    ensures
        r == is_space(c),
{
    ('\t' <= c && c <= '\r') || c == ' ' || c == '\u{85}' || c == '\u{a0}' || c == '\u{1680}'
        || ('\u{2000}' <= c && c <= '\u{200a}') || c == '\u{2028}' || c == '\u{2029}'
        || c == '\u{202f}' || c == '\u{205f}' || c == '\u{3000}'
}

/// What `s.parse::<usize>()` gives, as an `Option`.
pub fn parse_usize(s: &Vec<char>) -> (r: Option<usize>)
    ensures
        r == parse_usize_spec(s@),
{
    let mut start: usize = 0;
    if s.len() > 0 && s[0] == '+' {
        start = 1;
    }
    let ghost d = unsigned_digits(s@);
    assert(d == s@.subrange(start as int, s@.len() as int));
    if start >= s.len() {
        return None;
    }
    let mut value: usize = 0;
    let mut i: usize = start;
    while i < s.len()
        invariant
            start <= i <= s@.len(),
            d == s@.subrange(start as int, s@.len() as int),
            d == unsigned_digits(s@),
            forall|k: int| 0 <= k < i - start ==> is_digit(#[trigger] d[k]),
            value as nat == digits_value(d.subrange(0, i - start)),
        decreases s@.len() - i,
    {
        let c = s[i];
        if !('0' <= c && c <= '9') {
            assert(d[i - start] == c);
            assert(!is_digit(d[i - start]));
            return None;
        }
        let digit: usize = if c == '0' { 0 } else if c == '1' { 1 } else if c == '2' { 2 }
            else if c == '3' { 3 } else if c == '4' { 4 } else if c == '5' { 5 }
            else if c == '6' { 6 } else if c == '7' { 7 } else if c == '8' { 8 } else { 9 };
        assert(digit == (c as nat) - ('0' as nat));
        let ghost pre = d.subrange(0, i - start);
        assert(d.subrange(0, i + 1 - start).drop_last() == pre);
        assert(d.subrange(0, i + 1 - start).last() == c);
        if value > (usize::MAX - digit) / 10 {
            proof {
                let m = (usize::MAX - digit) as int;
                assert(value * 10 + digit > usize::MAX) by (nonlinear_arith)
                    requires value > m / 10, m == usize::MAX - digit, 0 <= digit <= 9;
                if forall|k: int| 0 <= k < d.len() ==> is_digit(#[trigger] d[k]) {
                    lemma_digits_value_monotone(d, (i + 1 - start) as int);
                }
            }
            return None;
        }
        value = value * 10 + digit;
        i = i + 1;
    }
    assert(d.subrange(0, d.len() as int) == d);
    Some(value)
}

/// The value of a digit prefix never exceeds that of a longer prefix.
proof fn lemma_digits_value_monotone(d: Seq<char>, k: int)
    requires
        0 <= k <= d.len(),
        forall|i: int| 0 <= i < d.len() ==> is_digit(#[trigger] d[i]),
    ensures
        digits_value(d.subrange(0, k)) <= digits_value(d),
    decreases d.len() - k,
{
    if k < d.len() {
        lemma_digits_value_monotone(d, k + 1);
        assert(d.subrange(0, k + 1).drop_last() == d.subrange(0, k));
    } else {
        assert(d.subrange(0, k) == d);
    }
}

/// Appends the decimal digits of `n` to `s` (what `format!("{}", n)` writes).
pub fn push_decimal(s: &mut String, n: usize)
    ensures
        final(s)@ == old(s)@ + decimal(n as nat),
    decreases n,
{
    if n >= 10 {
        push_decimal(s, n / 10);
    }
    let d: usize = n % 10;
    let c: char = if d == 0 { '0' } else if d == 1 { '1' } else if d == 2 { '2' }
        else if d == 3 { '3' } else if d == 4 { '4' } else if d == 5 { '5' }
        else if d == 6 { '6' } else if d == 7 { '7' } else if d == 8 { '8' } else { '9' };
    string_push(s, c);
}

/// The index of the first `c` in `chars` at or after `from`, or the length.
pub fn find_char(chars: &Vec<char>, from: usize, c: char) -> (r: usize)
    requires
        from <= chars@.len(),
    ensures
        r as int == next_char(chars@, from as int, c),
{
    let mut i: usize = from;
    proof {
        lemma_next_char_bounds(chars@, from as int, c);
    }
    while i < chars.len() && chars[i] != c
        invariant
            from <= i <= chars@.len(),
            next_char(chars@, i as int, c) == next_char(chars@, from as int, c),
        decreases chars@.len() - i,
    {
        i = i + 1;
    }
    i
}

/// The piece number `n` of `s` split at every `sep`.
pub fn split_field(s: &Vec<char>, sep: char, n: usize) -> (r: Option<Vec<char>>)
    ensures
        match r {
            Some(v) => field(s@, sep, n as nat) == Some(v@),
            None => field(s@, sep, n as nat) is None,
        },
{
    let mut rest: Vec<char> = s.clone();
    assert(rest@ == s@);
    let mut k: usize = n;
    loop
        invariant
            field(rest@, sep, k as nat) == field(s@, sep, n as nat),
        decreases rest@.len(),
    {
        let end = find_char(&rest, 0, sep);
        proof {
            lemma_next_char_bounds(rest@, 0, sep);
        }
        if end >= rest.len() {
            if k == 0 {
                return Some(rest);
            }
            return None;
        }
        if k == 0 {
            let mut piece: Vec<char> = Vec::new();
            let mut i: usize = 0;
            while i < end
                invariant
                    i <= end < rest@.len(),
                    piece@ == rest@.subrange(0, i as int),
                decreases end - i,
            {
                piece.push(rest[i]);
                assert(rest@.subrange(0, i + 1) == rest@.subrange(0, i as int).push(rest@[i as int]));
                i = i + 1;
            }
            return Some(piece);
        }
        let mut next: Vec<char> = Vec::new();
        let mut j: usize = end + 1;
        while j < rest.len()
            invariant
                end + 1 <= j <= rest@.len(),
                next@ == rest@.subrange(end + 1, j as int),
            decreases rest@.len() - j,
        {
            next.push(rest[j]);
            assert(rest@.subrange(end + 1, j + 1) == rest@.subrange(end + 1, j as int).push(rest@[j as int]));
            j = j + 1;
        }
        rest = next;
        k = k - 1;
    }
}

/// Whether `a[i..]` begins with all of `b`.
fn matches_at(a: &Vec<char>, b: &Vec<char>, i: usize) -> (r: bool)
    requires
        i + b@.len() <= a@.len(),
    ensures
        r == (a@.subrange(i as int, i + b@.len()) == b@),
{
    let n: usize = a.len();
    let mut k: usize = 0;
    while k < b.len()
        invariant
            n == a@.len(),
            i + b@.len() <= a@.len(),
            k <= b@.len(),
            forall|j: int| 0 <= j < k ==> a@[i + j] == b@[j],
        decreases b@.len() - k,
    {
        if a[i + k] != b[k] {
            assert(a@.subrange(i as int, i + b@.len())[k as int] != b@[k as int]);
            return false;
        }
        k = k + 1;
    }
    assert(a@.subrange(i as int, i + b@.len()) =~= b@);
    true
}

/// Whether `pattern` occurs in `s` (`str::contains`).
pub fn str_contains(s: &str, pattern: &str) -> (r: bool)
    ensures
        r == has_substring(s@, pattern@),
{
    let a = chars_of(s);
    let b = chars_of(pattern);
    if b.len() > a.len() {
        assert forall|i: int| !occurs_at(s@, pattern@, i) by {}
        return false;
    }
    let last: usize = a.len() - b.len();
    let mut i: usize = 0;
    loop
        invariant
            a@ == s@,
            b@ == pattern@,
            last == a@.len() - b@.len(),
            i <= last,
            forall|k: int| 0 <= k < i ==> !occurs_at(s@, pattern@, k),
        decreases last - i,
    {
        if matches_at(&a, &b, i) {
            assert(occurs_at(s@, pattern@, i as int));
            return true;
        }
        if i == last {
            assert forall|k: int| !occurs_at(s@, pattern@, k) by {
                if 0 <= k < i {
                }
            }
            return false;
        }
        i = i + 1;
    }
}

/// Appends the decimal digits of `n` to `s`.
pub fn push_decimal_u64(s: &mut String, n: u64)
    ensures
        final(s)@ == old(s)@ + decimal(n as nat),
    decreases n,
{
    if n >= 10 {
        push_decimal_u64(s, n / 10);
    }
    let d: u64 = n % 10;
    let c: char = if d == 0 { '0' } else if d == 1 { '1' } else if d == 2 { '2' }
        else if d == 3 { '3' } else if d == 4 { '4' } else if d == 5 { '5' }
        else if d == 6 { '6' } else if d == 7 { '7' } else if d == 8 { '8' } else { '9' };
    string_push(s, c);
}

/// Appends the decimal form of `n`, with a `'-'` when negative (what
/// `format!("{}", n)` writes).
pub fn push_signed_decimal(s: &mut String, n: i64)
    ensures
        final(s)@ == old(s)@ + signed_decimal(n as int),
{
    if n < 0 {
        string_push(s, '-');
        let ghost mid = s@;
        let magnitude: u64 = (-(n as i128)) as u64;
        push_decimal_u64(s, magnitude);
        assert(s@ =~= old(s)@ + (seq!['-'] + decimal((-n) as nat)));
    } else {
        push_decimal_u64(s, n as u64);
    }
}

/// Whether `a` and `b` hold the same characters.
pub fn str_equal(a: &str, b: &str) -> (r: bool)
    ensures
        r == (a@ == b@),
{
    let x = chars_of(a);
    let y = chars_of(b);
    if x.len() != y.len() {
        return false;
    }
    let mut i: usize = 0;
    while i < x.len()
        invariant
            x@ == a@,
            y@ == b@,
            x@.len() == y@.len(),
            i <= x@.len(),
            forall|k: int| 0 <= k < i ==> x@[k] == y@[k],
        decreases x@.len() - i,
    {
        if x[i] != y[i] {
            return false;
        }
        i = i + 1;
    }
    assert(x@ =~= y@);
    true
}

} // verus!
