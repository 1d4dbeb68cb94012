//! Scanning of byte strings.

use vstd::prelude::*;
use vstd::string::*;

verus! {

broadcast use vstd::string::group_string_axioms;

/// The bytes of a string of ASCII characters.
pub open spec fn ascii(s: Seq<char>) -> Seq<u8> {
    Seq::new(s.len(), |i: int| s[i] as u8)
}

/// The bytes of a string of ASCII characters.
pub(crate) fn ascii_bytes(s: &str) -> (res: &[u8])
    requires
        is_ascii(s),
    ensures
        res@ == ascii(s@),
{
    s.as_bytes()
}

/// Whether a byte is white space: a blank, a tab, a line feed, a vertical
/// tab, a form feed or a carriage return.
pub open spec fn is_space(byte: u8) -> bool {
    byte == 0x20 || 0x09 <= byte <= 0x0d
}

/// The bytes without the white space at their start.
pub open spec fn trim_start(s: Seq<u8>) -> Seq<u8>
    decreases s.len(),
{
    if s.len() > 0 && is_space(s[0]) {
        trim_start(s.drop_first())
    } else {
        s
    }
}

/// The bytes without the white space at their end.
pub open spec fn trim_end(s: Seq<u8>) -> Seq<u8>
    decreases s.len(),
{
    if s.len() > 0 && is_space(s.last()) {
        trim_end(s.drop_last())
    } else {
        s
    }
}

/// The bytes without the white space at their start and at their end.
pub open spec fn trimmed(s: Seq<u8>) -> Seq<u8> {
    trim_end(trim_start(s))
}

/// What is left without the white space at the start is the end of the
/// bytes, what was taken away is white space, and what is left does not
/// begin with white space.
pub proof fn lemma_trim_start(s: Seq<u8>)
    ensures
        trim_start(s).len() <= s.len(),
        trim_start(s) == s.skip(s.len() - trim_start(s).len()),
        forall|i: int| 0 <= i < s.len() - trim_start(s).len() ==> is_space(s[i]),
        trim_start(s).len() > 0 ==> !is_space(trim_start(s)[0]),
    decreases s.len(),
{
    if s.len() > 0 && is_space(s[0]) {
        let rest = s.drop_first();
        lemma_trim_start(rest);
        let cut = rest.len() - trim_start(rest).len();
        assert(rest.skip(cut) =~= s.skip(cut + 1));
        assert forall|i: int| 0 <= i < s.len() - trim_start(s).len() implies is_space(s[i]) by {
            if i > 0 {
                assert(s[i] == rest[i - 1]);
            }
        }
    } else {
        assert(s.skip(0) =~= s);
    }
}

/// What is left without the white space at the end is the start of the
/// bytes, what was taken away is white space, and what is left does not
/// end in white space.
pub proof fn lemma_trim_end(s: Seq<u8>)
    ensures
        trim_end(s).len() <= s.len(),
        trim_end(s) == s.take(trim_end(s).len() as int),
        forall|i: int| trim_end(s).len() <= i < s.len() ==> is_space(s[i]),
        trim_end(s).len() > 0 ==> !is_space(trim_end(s).last()),
    decreases s.len(),
{
    if s.len() > 0 && is_space(s.last()) {
        let rest = s.drop_last();
        lemma_trim_end(rest);
        assert(rest.take(trim_end(rest).len() as int) =~= s.take(trim_end(rest).len() as int));
        assert forall|i: int| trim_end(s).len() <= i < s.len() implies is_space(s[i]) by {
            if i < rest.len() {
                assert(s[i] == rest[i]);
            }
        }
    } else {
        assert(s.take(s.len() as int) =~= s);
    }
}

/// Trimmed bytes are a part of the bytes that neither begins nor ends with
/// white space, and trimming them again changes nothing.
pub proof fn lemma_trimmed(s: Seq<u8>)
    ensures
        trimmed(s).len() > 0 ==> !is_space(trimmed(s)[0]) && !is_space(trimmed(s).last()),
        exists|from: int, to: int| 0 <= from <= to <= s.len() && trimmed(s) == s.subrange(from, to),
        trimmed(trimmed(s)) == trimmed(s),
{
    let front = trim_start(s);
    lemma_trim_start(s);
    lemma_trim_end(front);
    let cut = s.len() - front.len();
    let kept = trimmed(s).len();
    assert(trimmed(s) =~= s.subrange(cut, cut + kept));
    if kept > 0 {
        assert(trimmed(s)[0] == front[0]);
    }
    lemma_trim_start(trimmed(s));
    lemma_trim_end(trimmed(s));
}

/// Whether a byte is white space.
pub fn byte_is_space(byte: u8) -> (res: bool)
    ensures
        res == is_space(byte),
{
    byte == 0x20 || (0x09 <= byte && byte <= 0x0d)
}

/// The part of `text` between `from` and `to` that is left when the white
/// space at both ends is taken away.
pub(crate) fn trim_range(text: &[u8], from: usize, to: usize) -> (res: (usize, usize))
    requires
        from <= to <= text@.len(),
    ensures
        from <= res.0 <= res.1 <= to,
        text@.subrange(res.0 as int, res.1 as int) == trimmed(
            text@.subrange(from as int, to as int),
        ),
{
    let mut start = from;
    while start < to && byte_is_space(text[start])
        invariant
            from <= start <= to <= text@.len(),
            trim_start(text@.subrange(from as int, to as int)) == trim_start(
                text@.subrange(start as int, to as int),
            ),
        decreases to - start,
    {
        assert(text@.subrange(start as int, to as int).drop_first() =~= text@.subrange(
            start + 1,
            to as int,
        ));
        start = start + 1;
    }
    let mut end = to;
    while start < end && byte_is_space(text[end - 1])
        invariant
            start <= end <= to <= text@.len(),
            trim_end(text@.subrange(start as int, to as int)) == trim_end(
                text@.subrange(start as int, end as int),
            ),
        decreases end - start,
    {
        assert(text@.subrange(start as int, end as int).drop_last() =~= text@.subrange(
            start as int,
            end - 1,
        ));
        end = end - 1;
    }
    (start, end)
}

/// A copy of the part of `text` between `from` and `to`.
pub(crate) fn copy_range(text: &[u8], from: usize, to: usize) -> (res: Vec<u8>)
    requires
        from <= to <= text@.len(),
    ensures
        res@ == text@.subrange(from as int, to as int),
{
    let mut res: Vec<u8> = Vec::new();
    let mut i = from;
    while i < to
        invariant
            from <= i <= to <= text@.len(),
            res@ == text@.subrange(from as int, i as int),
        decreases to - i,
    {
        res.push(text[i]);
        assert(res@ =~= text@.subrange(from as int, i + 1));
        i = i + 1;
    }
    res
}

/// Index of the first `needle` at or after `from`, or the length of `s`
/// where there is none.
pub open spec fn next_of(s: Seq<u8>, needle: u8, from: int) -> int
    decreases s.len() - from,
{
    if from >= s.len() {
        s.len() as int
    } else if s[from] == needle {
        from
    } else {
        next_of(s, needle, from + 1)
    }
}

/// `next_of` is the least index from `from` on that holds `needle`.
pub proof fn lemma_next_of(s: Seq<u8>, needle: u8, from: int)
    requires
        0 <= from <= s.len(),
    ensures
        from <= next_of(s, needle, from) <= s.len(),
        forall|j: int| from <= j < next_of(s, needle, from) ==> s[j] != needle,
        next_of(s, needle, from) < s.len() ==> s[next_of(s, needle, from)] == needle,
    decreases s.len() - from,
{
    if from < s.len() && s[from] != needle {
        lemma_next_of(s, needle, from + 1);
    }
}

/// Finds the first `needle` between `from` and `to`; `to` where there is
/// none.
pub(crate) fn find_byte(text: &[u8], needle: u8, from: usize, to: usize) -> (res: usize)
    requires
        from <= to <= text@.len(),
    ensures
        from <= res <= to,
        res == next_of(text@.subrange(0, to as int), needle, from as int),
{
    let ghost part = text@.subrange(0, to as int);
    let mut i = from;
    while i < to && text[i] != needle
        invariant
            from <= i <= to <= text@.len(),
            part == text@.subrange(0, to as int),
            next_of(part, needle, from as int) == next_of(part, needle, i as int),
        decreases to - i,
    {
        i = i + 1;
    }
    i
}

/// Whether `pattern` stands in `s` at `at`.
pub open spec fn stands(s: Seq<u8>, pattern: Seq<u8>, at: int) -> bool {
    0 <= at && at + pattern.len() <= s.len() && s.subrange(at, at + pattern.len()) == pattern
}

/// Index of the first place at or after `from` where `pattern` stands in
/// `s`, if there is one.
pub open spec fn find_sub(s: Seq<u8>, pattern: Seq<u8>, from: int) -> Option<int>
    decreases s.len() - from,
{
    if from < 0 || from + pattern.len() > s.len() {
        None
    } else if stands(s, pattern, from) {
        Some(from)
    } else if from == s.len() {
        None
    } else {
        find_sub(s, pattern, from + 1)
    }
}

/// `find_sub` finds the first place from `from` on where the pattern
/// stands: the pattern stands there and at no place between, and where
/// nothing is found the pattern stands nowhere from `from` on.
pub proof fn lemma_find_sub(s: Seq<u8>, pattern: Seq<u8>, from: int)
    requires
        0 <= from,
    ensures
        find_sub(s, pattern, from) matches Some(at) ==> {
            &&& from <= at
            &&& stands(s, pattern, at)
            &&& forall|j: int| from <= j < at ==> !stands(s, pattern, j)
        },
        find_sub(s, pattern, from) is None ==> forall|j: int| from <= j ==> !stands(s, pattern, j),
    decreases s.len() - from,
{
    if from + pattern.len() <= s.len() && !stands(s, pattern, from) {
        if from < s.len() {
            lemma_find_sub(s, pattern, from + 1);
        } else {
            assert(pattern.len() == 0);
            assert(s.subrange(from, from + pattern.len()) =~= pattern);
        }
    }
}

/// Whether `pattern` stands in `text` at `at`.
pub(crate) fn stands_at(text: &[u8], pattern: &[u8], at: usize) -> (res: bool)
    requires
        at <= text@.len(),
    ensures
        res == stands(text@, pattern@, at as int),
{
    if pattern.len() > text.len() - at {
        return false;
    }
    let mut i: usize = 0;
    while i < pattern.len()
        invariant
            i <= pattern.len(),
            at + pattern.len() <= text.len(),
            forall|j: int| 0 <= j < i ==> text@[at + j] == pattern@[j],
        decreases pattern.len() - i,
    {
        if text[at + i] != pattern[i] {
            assert(text@.subrange(at as int, at + pattern@.len())[i as int] != pattern@[i as int]);
            return false;
        }
        i = i + 1;
    }
    assert(text@.subrange(at as int, at + pattern@.len()) =~= pattern@);
    true
}

/// Finds the first place at or after `from` where `pattern` stands.
pub(crate) fn find_pattern(text: &[u8], pattern: &[u8], from: usize) -> (res: Option<usize>)
    requires
        from <= text@.len(),
    ensures
        res matches Some(at) ==> find_sub(text@, pattern@, from as int) == Some(at as int),
        res is None ==> find_sub(text@, pattern@, from as int) is None,
{
    let mut at = from;
    while at < text.len()
        invariant
            from <= at <= text@.len(),
            find_sub(text@, pattern@, from as int) == find_sub(text@, pattern@, at as int),
        decreases text.len() - at,
    {
        if stands_at(text, pattern, at) {
            return Some(at);
        }
        at = at + 1;
    }
    if stands_at(text, pattern, at) {
        Some(at)
    } else {
        assert(pattern@.len() == 0 ==> text@.subrange(at as int, at as int) =~= pattern@);
        None
    }
}

} // verus!
