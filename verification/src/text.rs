//! Searching and cutting character sequences.
//!
//! The spec functions say what a cut is on `Seq<char>`; the executable
//! functions perform it on `&str` and are proved against them. Positions are
//! counted in characters, never in bytes.

use vstd::prelude::*;

verus! {

/// The part of `s` before the first `c` and the part after it; `None` where
/// `s` holds no `c`.
pub open spec fn cut_at_first(s: Seq<char>, c: char) -> Option<(Seq<char>, Seq<char>)> {
    match s.index_of_first(c) {
        Some(i) => Some((s.take(i), s.skip(i + 1))),
        None => None,
    }
}

/// `sub` stands in `s` from position `at` on.
pub open spec fn occurs_at(s: Seq<char>, sub: Seq<char>, at: int) -> bool {
    0 <= at && at + sub.len() <= s.len() && s.subrange(at, at + sub.len()) == sub
}

/// `sub` stands somewhere in `s`.
pub open spec fn occurs_in(s: Seq<char>, sub: Seq<char>) -> bool {
    exists|at: int| occurs_at(s, sub, at)
}

/// `sub` stands in `s` at `at` and nowhere further right.
pub open spec fn is_last_occurrence(s: Seq<char>, sub: Seq<char>, at: int) -> bool {
    occurs_at(s, sub, at) && forall|later: int| occurs_at(s, sub, later) ==> later <= at
}

/// Where the rightmost occurrence of `sub` in `s` starts.
pub open spec fn last_occurrence(s: Seq<char>, sub: Seq<char>) -> int {
    choose|at: int| is_last_occurrence(s, sub, at)
}

/// What follows the rightmost occurrence of `sub` in `s`; `None` where `sub`
/// does not occur.
pub open spec fn after_last(s: Seq<char>, sub: Seq<char>) -> Option<Seq<char>> {
    if occurs_in(s, sub) {
        Some(s.skip(last_occurrence(s, sub) + sub.len()))
    } else {
        None
    }
}

/// `s` without `prefix` at its start; `s` itself where it starts otherwise.
pub open spec fn without_prefix(s: Seq<char>, prefix: Seq<char>) -> Seq<char> {
    if prefix.is_prefix_of(s) {
        s.skip(prefix.len() as int)
    } else {
        s
    }
}

/// A cut parts the text at a delimiter and loses nothing else: the pieces
/// with the delimiter between them are the text again, and the first piece
/// holds no delimiter. There is no cut only where there is no delimiter.
pub proof fn lemma_cut_at_first_rejoins(s: Seq<char>, c: char)
    ensures
        match cut_at_first(s, c) {
            Some((before, after)) => s == before.push(c) + after && !before.contains(c),
            None => !s.contains(c),
        },
{
    s.index_of_first_ensures(c);
    match s.index_of_first(c) {
        Some(i) => {
            assert(s =~= s.take(i).push(c) + s.skip(i + 1));
            if s.take(i).contains(c) {
                let j = choose|j: int| 0 <= j < s.take(i).len() && s.take(i)[j] == c;
                assert(s[j] == c);
            }
        },
        None => {},
    }
}

/// Pieces that rejoin to the text, the first of them free of the delimiter,
/// are the cut: there is no other.
pub proof fn lemma_cut_at_first_unique(before: Seq<char>, c: char, after: Seq<char>)
    requires
        !before.contains(c),
    ensures
        cut_at_first(before.push(c) + after, c) == Some((before, after)),
{
    let s = before.push(c) + after;
    let i = before.len() as int;
    s.index_of_first_ensures(c);
    assert(s[i] == c);
    let found = s.index_of_first(c)->0;
    if found < i {
        assert(before[found] == c);
    }
    assert(s.take(i) =~= before);
    assert(s.skip(i + 1) =~= after);
}

/// Dropping a prefix from a text that was made by putting it in front gives
/// back the rest.
pub proof fn lemma_without_prefix_of_joined(prefix: Seq<char>, rest: Seq<char>)
    ensures
        without_prefix(prefix + rest, prefix) == rest,
{
    let s = prefix + rest;
    assert(s.subrange(0, prefix.len() as int) =~= prefix);
    assert(s.skip(prefix.len() as int) =~= rest);
}

/// The rightmost occurrence is the one that `last_occurrence` names.
pub proof fn lemma_last_occurrence_found(s: Seq<char>, sub: Seq<char>, at: int)
    requires
        is_last_occurrence(s, sub, at),
    ensures
        occurs_in(s, sub),
        last_occurrence(s, sub) == at,
        after_last(s, sub) == Some(s.skip(at + sub.len())),
{
    assert(is_last_occurrence(s, sub, last_occurrence(s, sub)));
}

/// Among the occurrences at or below `bound`, where there is one and none
/// lies above, one is the rightmost.
proof fn lemma_rightmost_exists(s: Seq<char>, sub: Seq<char>, bound: int)
    requires
        exists|at: int| occurs_at(s, sub, at) && at <= bound,
        forall|later: int| bound < later ==> !occurs_at(s, sub, later),
    ensures
        exists|at: int| is_last_occurrence(s, sub, at),
    decreases bound,
{
    if occurs_at(s, sub, bound) {
        assert(is_last_occurrence(s, sub, bound));
    } else {
        let below = choose|at: int| occurs_at(s, sub, at) && at <= bound;
        assert(occurs_at(s, sub, below) && below <= bound - 1);
        lemma_rightmost_exists(s, sub, bound - 1);
    }
}

/// Where `sub` occurs in a text it has a rightmost occurrence, and the text
/// is what stands before that occurrence, `sub`, and what `after_last`
/// returns.
pub proof fn lemma_after_last_rejoins(s: Seq<char>, sub: Seq<char>)
    requires
        occurs_in(s, sub),
    ensures
        is_last_occurrence(s, sub, last_occurrence(s, sub)),
        after_last(s, sub) matches Some(rest) && s == s.take(last_occurrence(s, sub)) + sub + rest,
{
    let any = choose|at: int| occurs_at(s, sub, at);
    assert(occurs_at(s, sub, any) && any <= s.len());
    lemma_rightmost_exists(s, sub, s.len() as int);
    let at = last_occurrence(s, sub);
    assert(s =~= s.take(at) + s.subrange(at, at + sub.len()) + s.skip(at + sub.len()));
}

/// Collects the characters of `s` in order.
pub fn chars_of(s: &str) -> (out: Vec<char>)
    ensures
        out@ == s@,
{
    let mut out: Vec<char> = Vec::new();
    for c in it: s.chars()
        invariant
            out@ == it.seq().take(it.index() as int),
            it.seq() == s@,
    {
        out.push(c);
    }
    out
}

/// The position of the first `c` in `hay`.
pub fn find_char(hay: &Vec<char>, c: char) -> (found: Option<usize>)
    ensures
        match found {
            Some(i) => i < hay.len() && hay@.index_of_first(c) == Some(i as int),
            None => hay@.index_of_first(c) is None,
        },
{
    let mut i: usize = 0;
    while i < hay.len()
        invariant
            i <= hay.len(),
            forall|j: int| 0 <= j < i ==> hay@[j] != c,
        decreases hay.len() - i,
    {
        if hay[i] == c {
            proof {
                hay@.index_of_first_ensures(c);
            }
            return Some(i);
        }
        i += 1;
    }
    proof {
        hay@.index_of_first_ensures(c);
    }
    None
}

/// Whether `needle` stands in `hay` from position `at` on.
pub fn matches_at(hay: &Vec<char>, needle: &Vec<char>, at: usize) -> (b: bool)
    ensures
        b == occurs_at(hay@, needle@, at as int),
{
    if needle.len() > hay.len() || at > hay.len() - needle.len() {
        return false;
    }
    let mut k: usize = 0;
    while k < needle.len()
        invariant
            k <= needle.len(),
            at + needle.len() <= hay.len(),
            forall|j: int| 0 <= j < k ==> hay@[at + j] == needle@[j],
        decreases needle.len() - k,
    {
        if hay[at + k] != needle[k] {
            assert(hay@.subrange(at as int, at + needle@.len())[k as int] != needle@[k as int]);
            return false;
        }
        k += 1;
    }
    assert(hay@.subrange(at as int, at + needle@.len()) =~= needle@);
    true
}

/// Where the rightmost occurrence of `needle` in `hay` starts.
pub fn rfind_sub(hay: &Vec<char>, needle: &Vec<char>) -> (found: Option<usize>)
    ensures
        match found {
            Some(at) => at + needle.len() <= hay.len() && is_last_occurrence(
                hay@,
                needle@,
                at as int,
            ),
            None => !occurs_in(hay@, needle@),
        },
{
    if needle.len() > hay.len() {
        return None;
    }
    let mut at: usize = hay.len() - needle.len();
    loop
        invariant
            at + needle.len() <= hay.len(),
            forall|later: int| at < later ==> !occurs_at(hay@, needle@, later),
        decreases at,
    {
        if matches_at(hay, needle, at) {
            return Some(at);
        }
        if at == 0 {
            return None;
        }
        at -= 1;
    }
}

/// Whether `needle` stands somewhere in `hay`.
pub fn contains_sub(hay: &Vec<char>, needle: &Vec<char>) -> (b: bool)
    ensures
        b == occurs_in(hay@, needle@),
{
    rfind_sub(hay, needle).is_some()
}

/// Whether `hay` begins with `needle`.
pub fn starts_with(hay: &Vec<char>, needle: &Vec<char>) -> (b: bool)
    ensures
        b == needle@.is_prefix_of(hay@),
{
    matches_at(hay, needle, 0)
}

/// Cuts `s` at its first `c`, as `cut_at_first` says.
pub fn split_once_str<'a>(s: &'a str, c: char) -> (cut: Option<(&'a str, &'a str)>)
    ensures
        match cut {
            Some((before, after)) => cut_at_first(s@, c) == Some((before@, after@)),
            None => cut_at_first(s@, c) is None,
        },
{
    let chars = chars_of(s);
    match find_char(&chars, c) {
        Some(i) => Some((s.substring_char(0, i), s.substring_char(i + 1, chars.len()))),
        None => None,
    }
}

/// What follows the rightmost `sub` in `s`, as `after_last` says.
pub fn rsplit_after<'a>(s: &'a str, sub: &str) -> (rest: Option<&'a str>)
    ensures
        match rest {
            Some(r) => after_last(s@, sub@) == Some(r@),
            None => after_last(s@, sub@) is None,
        },
{
    let hay = chars_of(s);
    let needle = chars_of(sub);
    match rfind_sub(&hay, &needle) {
        Some(at) => {
            proof {
                lemma_last_occurrence_found(s@, sub@, at as int);
            }
            Some(s.substring_char(at + needle.len(), hay.len()))
        },
        None => None,
    }
}

/// Whether `s` begins with `prefix`.
pub fn str_starts_with(s: &str, prefix: &str) -> (b: bool)
    ensures
        b == prefix@.is_prefix_of(s@),
{
    let hay = chars_of(s);
    let needle = chars_of(prefix);
    starts_with(&hay, &needle)
}

/// Whether `sub` stands somewhere in `s`.
pub fn str_contains(s: &str, sub: &str) -> (b: bool)
    ensures
        b == occurs_in(s@, sub@),
{
    let hay = chars_of(s);
    let needle = chars_of(sub);
    contains_sub(&hay, &needle)
}

} // verus!
