//! Small helpers on strings, stated over their sequences of characters.

use vstd::prelude::*;
use vstd::string::*;

verus! {

broadcast use vstd::string::group_string_axioms;

/// Index of the first occurrence of `needle` in `s`, or the length of `s`
/// where there is none.
pub open spec fn position(s: Seq<char>, needle: char) -> int
    decreases s.len(),
{
    if s.len() == 0 || s[0] == needle {
        0
    } else {
        1 + position(s.drop_first(), needle)
    }
}

/// `position` is the least index that holds `needle`: nothing before it
/// does, and it lies inside `s` exactly when `s` contains `needle`.
pub proof fn lemma_position(s: Seq<char>, needle: char)
    ensures
        0 <= position(s, needle) <= s.len(),
        forall|j: int| 0 <= j < position(s, needle) ==> s[j] != needle,
        position(s, needle) < s.len() ==> s[position(s, needle)] == needle,
        position(s, needle) < s.len() <==> s.contains(needle),
    decreases s.len(),
{
    if s.len() > 0 && s[0] != needle {
        let rest = s.drop_first();
        lemma_position(rest, needle);
        let p = position(rest, needle);
        assert forall|j: int| 0 <= j < 1 + p implies s[j] != needle by {
            if j > 0 {
                assert(rest[j - 1] == s[j]);
            }
        }
        if p < rest.len() {
            assert(rest[p] == s[p + 1]);
        }
        if s.contains(needle) {
            let k = choose|k: int| 0 <= k < s.len() && s[k] == needle;
            assert(rest[k - 1] == needle);
        }
    }
}

/// An index that holds `needle` with nothing before it that does is the
/// `position` of `needle`.
pub proof fn lemma_position_unique(s: Seq<char>, needle: char, i: int)
    requires
        0 <= i <= s.len(),
        forall|j: int| 0 <= j < i ==> s[j] != needle,
        i < s.len() ==> s[i] == needle,
    ensures
        position(s, needle) == i,
{
    lemma_position(s, needle);
}

/// The part of `s` before the first `needle`; all of `s` where there is none.
pub open spec fn before(s: Seq<char>, needle: char) -> Seq<char> {
    s.take(position(s, needle))
}

/// Finds the first occurrence of `needle`, counted in characters.
pub fn find_char(s: &str, needle: char) -> (res: Option<usize>)
    ensures
        res matches Some(i) ==> s@.contains(needle) && i == position(s@, needle),
        res is None ==> !s@.contains(needle) && position(s@, needle) == s@.len(),
{
    let len: usize = s.unicode_len();
    let mut index: usize = 0;
    for c in it: s.chars()
        invariant
            index == it.index(),
            it.seq() == s@,
            len == s@.len(),
            forall|j: int| 0 <= j < index ==> s@[j] != needle,
    {
        if c == needle {
            proof {
                lemma_position_unique(s@, needle, index as int);
                lemma_position(s@, needle);
            }
            return Some(index);
        }
        index = index + 1;
    }
    proof {
        lemma_position_unique(s@, needle, s@.len() as int);
        lemma_position(s@, needle);
    }
    None
}

/// The first `n` characters of `s` as a string of their own.
pub(crate) fn take_chars(s: &str, n: usize) -> (res: String)
    requires
        n <= s@.len(),
    ensures
        res@ == s@.take(n as int),
{
    s.substring_char(0, n).to_owned()
}

/// The part of `s` before the first `needle`; all of `s` where there is none.
pub fn before_char(s: &str, needle: char) -> (res: String)
    ensures
        res@ == before(s@, needle),
{
    match find_char(s, needle) {
        Some(at) => {
            proof {
                lemma_position(s@, needle);
            }
            take_chars(s, at)
        },
        None => {
            assert(s@.take(s@.len() as int) =~= s@);
            s.to_owned()
        },
    }
}

/// Index of the last occurrence of `needle` in `s`, or -1 where there is
/// none.
pub open spec fn last_position(s: Seq<char>, needle: char) -> int
    decreases s.len(),
{
    if s.len() == 0 {
        -1
    } else if s.last() == needle {
        s.len() - 1
    } else {
        last_position(s.drop_last(), needle)
    }
}

/// `last_position` is the greatest index that holds `needle`: nothing after
/// it does, and it is an index exactly when `s` contains `needle`.
pub proof fn lemma_last_position(s: Seq<char>, needle: char)
    ensures
        -1 <= last_position(s, needle) < s.len(),
        forall|j: int| last_position(s, needle) < j < s.len() ==> s[j] != needle,
        0 <= last_position(s, needle) ==> s[last_position(s, needle)] == needle,
        0 <= last_position(s, needle) <==> s.contains(needle),
    decreases s.len(),
{
    if s.len() > 0 {
        if s.last() == needle {
            assert(s[s.len() - 1] == needle);
        } else {
            let init = s.drop_last();
            lemma_last_position(init, needle);
            let p = last_position(init, needle);
            if p >= 0 {
                assert(s[p] == init[p]);
            }
            assert forall|j: int| p < j < s.len() implies s[j] != needle by {
                if j < init.len() {
                    assert(init[j] == s[j]);
                }
            }
            if s.contains(needle) {
                let k = choose|k: int| 0 <= k < s.len() && s[k] == needle;
                assert(init[k] == needle);
            }
        }
    }
}

/// Finds the last occurrence of `needle`, counted in characters.
pub fn find_last_char(s: &str, needle: char) -> (res: Option<usize>)
    ensures
        res matches Some(i) ==> i == last_position(s@, needle),
        res is None ==> last_position(s@, needle) == -1,
{
    let len: usize = s.unicode_len();
    let mut index: usize = 0;
    let mut found: Option<usize> = None;
    for c in it: s.chars()
        invariant
            index == it.index(),
            it.seq() == s@,
            len == s@.len(),
            found matches Some(i) ==> i == last_position(s@.take(index as int), needle),
            found is None ==> last_position(s@.take(index as int), needle) == -1,
    {
        assert(s@.take(index + 1).drop_last() =~= s@.take(index as int));
        if c == needle {
            found = Some(index);
        }
        index = index + 1;
    }
    assert(s@.take(index as int) =~= s@);
    found
}

/// The characters of `s` from the `n`-th on as a string of their own.
pub(crate) fn skip_chars(s: &str, n: usize) -> (res: String)
    requires
        n <= s@.len(),
    ensures
        res@ == s@.skip(n as int),
{
    let len: usize = s.unicode_len();
    s.substring_char(n, len).to_owned()
}

/// The decimal digit of a number below 10.
pub open spec fn digit(d: int) -> char {
    "0123456789"@[d]
}

/// A number written in decimal digits, without leading zeros.
pub open spec fn decimal(n: nat) -> Seq<char>
    decreases n,
{
    if n < 10 {
        seq![digit(n as int)]
    } else {
        decimal(n / 10).push(digit((n % 10) as int))
    }
}

/// The decimal digit of a number below 10, as a string.
fn digit_str(d: u64) -> (res: &'static str)
    requires
        d < 10,
    ensures
        res@ == seq![digit(d as int)],
{
    proof {
        reveal_strlit("0123456789");
        reveal_strlit("0");
        reveal_strlit("1");
        reveal_strlit("2");
        reveal_strlit("3");
        reveal_strlit("4");
        reveal_strlit("5");
        reveal_strlit("6");
        reveal_strlit("7");
        reveal_strlit("8");
        reveal_strlit("9");
    }
    let res = match d {
        0 => "0",
        1 => "1",
        2 => "2",
        3 => "3",
        4 => "4",
        5 => "5",
        6 => "6",
        7 => "7",
        8 => "8",
        _ => "9",
    };
    assert(res@ =~= seq![digit(d as int)]);
    res
}

/// Writes a number in decimal digits.
pub fn to_decimal(n: u64) -> (res: String)
    ensures
        res@ == decimal(n as nat),
{
    let mut res = String::from_str(digit_str(n % 10));
    let mut rest: u64 = n / 10;
    while rest > 0
        invariant
            rest > 0 ==> decimal(n as nat) == decimal(rest as nat) + res@,
            rest == 0 ==> decimal(n as nat) == res@,
        decreases rest,
    {
        let ghost written = res@;
        res = String::from_str(digit_str(rest % 10)).concat(res.as_str());
        proof {
            if rest >= 10 {
                assert(decimal(rest as nat) + written =~= decimal((rest / 10) as nat) + res@);
            }
        }
        rest = rest / 10;
    }
    res
}

/// The parts written one after the other with the separator between them.
pub open spec fn joined(parts: Seq<Seq<char>>, separator: Seq<char>) -> Seq<char>
    decreases parts.len(),
{
    if parts.len() == 0 {
        Seq::empty()
    } else if parts.len() == 1 {
        parts[0]
    } else {
        joined(parts.drop_last(), separator) + separator + parts.last()
    }
}

/// Joins the parts with the separator between them.
pub fn join(parts: &Vec<String>, separator: &str) -> (res: String)
    ensures
        res@ == joined(parts.deep_view(), separator@),
{
    let ghost all = parts.deep_view();
    let mut res = String::new();
    let mut i: usize = 0;
    while i < parts.len()
        invariant
            i <= parts.len(),
            all == parts.deep_view(),
            res@ == joined(all.take(i as int), separator@),
        decreases parts.len() - i,
    {
        proof {
            assert(all.take(i + 1).drop_last() =~= all.take(i as int));
            assert(all.take(i + 1).last() == parts[i as int]@);
            if i == 0 {
                assert(Seq::<char>::empty() + parts[0]@ =~= parts[0]@);
            }
        }
        if i > 0 {
            res.append(separator);
        }
        res.append(parts[i].as_str());
        i = i + 1;
    }
    assert(all.take(i as int) =~= all);
    res
}

} // verus!
