//! Character-level helpers for protocol lines: line endings, blank trimming and
//! case-insensitive keyword matching, each with its mathematical definition.

use vstd::prelude::*;

verus! {

/// The characters that count as blank around a command and its argument.
pub open spec fn is_blank(c: char) -> bool {
    c == ' ' || c == '\t' || c == '\r' || c == '\n'
}

/// `s` without its trailing blanks.
pub open spec fn strip_trailing(s: Seq<char>) -> Seq<char>
    decreases s.len(),
{
    if s.len() > 0 && is_blank(s.last()) {
        strip_trailing(s.drop_last())
    } else {
        s
    }
}

/// `s` without its leading blanks.
pub open spec fn strip_leading(s: Seq<char>) -> Seq<char>
    decreases s.len(),
{
    if s.len() > 0 && is_blank(s[0]) {
        strip_leading(s.drop_first())
    } else {
        s
    }
}

/// `s` without blanks at either end.
pub open spec fn trimmed(s: Seq<char>) -> Seq<char> {
    strip_leading(strip_trailing(s))
}

/// Length of the line break that ends `line`: 2 for CR LF, 1 for a lone LF,
/// 0 where the line has no break (the last line of a stream).
pub open spec fn eol_len(line: Seq<char>) -> nat {
    if line.len() >= 2 && line[line.len() - 2] == '\r' && line[line.len() - 1] == '\n' {
        2
    } else if line.len() >= 1 && line[line.len() - 1] == '\n' {
        1
    } else {
        0
    }
}

/// The line without its line break.
pub open spec fn content(line: Seq<char>) -> Seq<char> {
    line.subrange(0, line.len() - eol_len(line))
}

/// Whether `c` is the letter `k` in either case; for a `k` that is no capital
/// letter, whether `c` is `k` itself.
pub open spec fn folds_to(c: char, k: char) -> bool {
    c == k || ('A' <= k <= 'Z' && c as u32 == k as u32 + 32)
}

/// Whether `s` begins with `word`, letters compared without regard to case.
/// `word` is written in capitals.
pub open spec fn starts_with_word(s: Seq<char>, word: Seq<char>) -> bool {
    &&& word.len() <= s.len()
    &&& forall|i: int| 0 <= i < word.len() ==> folds_to(#[trigger] s[i], word[i])
}

/// Whether `s` is `word`, letters compared without regard to case.
pub open spec fn is_word(s: Seq<char>, word: Seq<char>) -> bool {
    s.len() == word.len() && starts_with_word(s, word)
}

/// The characters of `s`, for constant-time indexing.
pub fn to_chars(s: &str) -> (v: Vec<char>)
    ensures
        v@ == s@,
{
    let mut v: Vec<char> = Vec::new();
    for c in it: s.chars()
        invariant
            it.seq() == s@,
            v@ == it.seq().take(it.index() as int),
    {
        v.push(c);
    }
    v
}

/// Tests one character for blankness.
pub fn blank(c: char) -> (b: bool)
    ensures
        b == is_blank(c),
{
    c == ' ' || c == '\t' || c == '\r' || c == '\n'
}

/// Finds the bounds `(a, b)` of the trimmed part of `chars[from..to]`: what
/// lies before `a` and from `b` on is blank, what lies at `a` and before `b`
/// is not. Where all is blank, both bounds are `from`.
pub fn trim_bounds(chars: &Vec<char>, from: usize, to: usize) -> (r: (usize, usize))
    requires
        from <= to <= chars.len(),
    ensures
        from <= r.0 <= r.1 <= to,
        chars@.subrange(r.0 as int, r.1 as int) == trimmed(
            chars@.subrange(from as int, to as int),
        ),
        forall|i: int| from <= i < r.0 || r.1 <= i < to ==> is_blank(#[trigger] chars@[i]),
        r.0 < r.1 ==> !is_blank(chars@[r.0 as int]) && !is_blank(chars@[r.1 - 1]),
        r.0 == r.1 ==> r.0 == from,
{
    let mut b: usize = to;
    while b > from && blank(chars[b - 1])
        invariant
            from <= b <= to <= chars.len(),
            strip_trailing(chars@.subrange(from as int, to as int)) == strip_trailing(
                chars@.subrange(from as int, b as int),
            ),
            forall|i: int| b <= i < to ==> is_blank(#[trigger] chars@[i]),
        decreases b,
    {
        assert(chars@.subrange(from as int, b as int).drop_last() =~= chars@.subrange(
            from as int,
            b - 1,
        ));
        b = b - 1;
    }
    let mut a: usize = from;
    while a < b && blank(chars[a])
        invariant
            from <= a <= b <= to <= chars.len(),
            strip_leading(chars@.subrange(from as int, b as int)) == strip_leading(
                chars@.subrange(a as int, b as int),
            ),
            forall|i: int| from <= i < a ==> is_blank(#[trigger] chars@[i]),
            b > from ==> !is_blank(chars@[b - 1]),
        decreases b - a,
    {
        assert(chars@.subrange(a as int, b as int).drop_first() =~= chars@.subrange(
            a + 1,
            b as int,
        ));
        a = a + 1;
    }
    (a, b)
}

/// Length of the line without its line break.
pub fn content_len(chars: &Vec<char>) -> (n: usize)
    ensures
        n == chars.len() - eol_len(chars@),
        chars@.subrange(0, n as int) == content(chars@),
{
    let len = chars.len();
    if len >= 2 && chars[len - 2] == '\r' && chars[len - 1] == '\n' {
        len - 2
    } else if len >= 1 && chars[len - 1] == '\n' {
        len - 1
    } else {
        len
    }
}

/// Tests one character against one character of a keyword.
pub fn folds(c: char, k: char) -> (b: bool)
    ensures
        b == folds_to(c, k),
{
    c == k || ('A' <= k && k <= 'Z' && c as u32 == k as u32 + 32)
}

/// Tests whether `chars[from..to]` begins with `word`, without regard to case.
pub fn word_at(chars: &Vec<char>, from: usize, to: usize, word: &Vec<char>) -> (b: bool)
    requires
        from <= to <= chars.len(),
    ensures
        b == starts_with_word(chars@.subrange(from as int, to as int), word@),
{
    if word.len() > to - from {
        return false;
    }
    let ghost s = chars@.subrange(from as int, to as int);
    let mut i: usize = 0;
    while i < word.len()
        invariant
            from <= to <= chars.len(),
            word.len() <= to - from,
            i <= word.len(),
            s == chars@.subrange(from as int, to as int),
            forall|j: int| 0 <= j < i ==> folds_to(#[trigger] s[j], word@[j]),
        decreases word.len() - i,
    {
        if !folds(chars[from + i], word[i]) {
            assert(!folds_to(s[i as int], word@[i as int]));
            return false;
        }
        i = i + 1;
    }
    true
}

} // verus!
