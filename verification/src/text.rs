//! Character sequences: searching, cutting at separators, and moving between
//! strings and vectors of characters.

use vstd::prelude::*;

verus! {

/// `needle` stands in `hay` at position `at`.
pub open spec fn occurs_at(hay: Seq<char>, needle: Seq<char>, at: int) -> bool {
    &&& 0 <= at
    &&& at + needle.len() <= hay.len()
    &&& hay.subrange(at, at + needle.len()) == needle
}

/// `needle` stands somewhere in `hay`.
pub open spec fn contains_text(hay: Seq<char>, needle: Seq<char>) -> bool {
    exists|at: int| occurs_at(hay, needle, at)
}

/// The position of the first `c` in `s`, or the length of `s` where it has none.
pub open spec fn first_index(s: Seq<char>, c: char) -> int
    decreases s.len(),
{
    if s.len() == 0 || s[0] == c {
        0
    } else {
        1 + first_index(s.drop_first(), c)
    }
}

/// The pieces that the separators `sep` cut `s` into, in order: one piece
/// more than `s` has separators, and all of `s` where it has none.
pub open spec fn fields(s: Seq<char>, sep: char) -> Seq<Seq<char>>
    decreases s.len(),
{
    let cut = first_index(s, sep);
    if 0 <= cut < s.len() {
        seq![s.take(cut)] + fields(s.skip(cut + 1), sep)
    } else {
        seq![s]
    }
}

/// The text of an optional string.
pub open spec fn text_of(held: Option<String>) -> Option<Seq<char>> {
    match held {
        Some(text) => Some(text@),
        None => None,
    }
}

/// The text of an optional string slice.
pub open spec fn slice_text_of(held: Option<&str>) -> Option<Seq<char>> {
    match held {
        Some(text) => Some(text@),
        None => None,
    }
}

/// The text of an optional vector of characters.
pub open spec fn chars_text_of(held: Option<Vec<char>>) -> Option<Seq<char>> {
    match held {
        Some(text) => Some(text@),
        None => None,
    }
}

/// `first_index` is in range, points at `c` unless it is the length, and no
/// `c` stands before it.
pub proof fn lemma_first_index(s: Seq<char>, c: char)
    ensures
        0 <= first_index(s, c) <= s.len(),
        first_index(s, c) < s.len() ==> s[first_index(s, c)] == c,
        forall|j: int| 0 <= j < first_index(s, c) ==> s[j] != c,
    decreases s.len(),
{
    if s.len() == 0 || s[0] == c {
    } else {
        let rest = s.drop_first();
        lemma_first_index(rest, c);
        assert forall|j: int| 0 <= j < first_index(s, c) implies s[j] != c by {
            if j > 0 {
                assert(s[j] == rest[j - 1]);
            }
        }
    }
}

/// A position with the three properties of `lemma_first_index` is `first_index`.
pub proof fn lemma_first_index_is(s: Seq<char>, c: char, at: int)
    requires
        0 <= at <= s.len(),
        at < s.len() ==> s[at] == c,
        forall|j: int| 0 <= j < at ==> s[j] != c,
    ensures
        first_index(s, c) == at,
{
    lemma_first_index(s, c);
    let found = first_index(s, c);
    if found < at {
        assert(s[found] == c);
    } else if at < found {
        assert(s[at] == c);
    }
}

/// The first piece of `s` ends at its first separator, and the other pieces
/// are those of what stands behind that separator.
pub proof fn lemma_fields_unfold(s: Seq<char>, sep: char)
    ensures
        fields(s, sep).len() >= 1,
        fields(s, sep)[0] == s.take(first_index(s, sep)),
        first_index(s, sep) < s.len() ==> fields(s, sep).drop_first() == fields(
            s.skip(first_index(s, sep) + 1),
            sep,
        ),
        first_index(s, sep) >= s.len() ==> fields(s, sep).len() == 1,
{
    lemma_first_index(s, sep);
    let cut = first_index(s, sep);
    if cut < s.len() {
        let rest = fields(s.skip(cut + 1), sep);
        assert((seq![s.take(cut)] + rest).drop_first() =~= rest);
    } else {
        assert(s.take(cut) =~= s);
    }
}

/// Whether `needle` stands in `hay` at position `at`.
pub fn stands_at(hay: &[char], needle: &[char], at: usize) -> (found: bool)
    requires
        at + needle.len() <= hay.len(),
    ensures
        found == occurs_at(hay@, needle@, at as int),
{
    let mut k: usize = 0;
    while k < needle.len()
        invariant
            k <= needle.len(),
            at + needle.len() <= hay.len(),
            forall|j: int| 0 <= j < k ==> hay@[at + j] == needle@[j],
        decreases needle.len() - k,
    {
        if hay[at + k] != needle[k] {
            proof {
                let window = hay@.subrange(at as int, at + needle.len());
                assert(window[k as int] != needle@[k as int]);
            }
            return false;
        }
        k = k + 1;
    }
    assert(hay@.subrange(at as int, at + needle.len()) =~= needle@);
    true
}

/// Whether `needle` stands somewhere in `hay`.
pub fn contains(hay: &[char], needle: &[char]) -> (found: bool)
    ensures
        found == contains_text(hay@, needle@),
{
    if needle.len() > hay.len() {
        return false;
    }
    let last: usize = hay.len() - needle.len();
    let mut at: usize = 0;
    while at < last
        invariant
            at <= last,
            last == hay.len() - needle.len(),
            forall|k: int| 0 <= k < at ==> !occurs_at(hay@, needle@, k),
        decreases last - at,
    {
        if stands_at(hay, needle, at) {
            return true;
        }
        at = at + 1;
    }
    stands_at(hay, needle, last)
}

/// The position of the first `c` in `s`, or the length of `s` where it has none.
pub fn position_of(s: &[char], c: char) -> (at: usize)
    ensures
        at == first_index(s@, c),
        at <= s.len(),
{
    let mut at: usize = 0;
    while at < s.len() && s[at] != c
        invariant
            at <= s.len(),
            forall|j: int| 0 <= j < at ==> s@[j] != c,
        decreases s.len() - at,
    {
        at = at + 1;
    }
    proof {
        lemma_first_index_is(s@, c, at as int);
    }
    at
}

/// The characters of `s`, one by one.
pub fn chars_of(s: &str) -> (chars: Vec<char>)
    ensures
        chars@ == s@,
{
    let mut chars: Vec<char> = Vec::new();
    for c in it: s.chars()
        invariant
            it.seq() == s@,
            chars@.len() == it.index(),
            forall|j: int| 0 <= j < chars@.len() ==> chars@[j] == it.seq()[j],
    {
        chars.push(c);
    }
    assert(chars@ =~= s@);
    chars
}

/// The string made of `chars`, in their order.
pub fn string_of(chars: &[char]) -> (s: String)
    ensures
        s@ == chars@,
{
    let mut s = String::new();
    let mut i: usize = 0;
    while i < chars.len()
        invariant
            i <= chars.len(),
            s@ == chars@.take(i as int),
        decreases chars.len() - i,
    {
        s.push(chars[i]);
        i = i + 1;
        assert(chars@.take(i as int) =~= chars@.take(i - 1).push(chars@[i - 1]));
    }
    assert(chars@.take(i as int) =~= chars@);
    s
}

} // verus!
