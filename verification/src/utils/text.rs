//! Texts as runs of characters, and looking for one text in another.

use vstd::prelude::*;

verus! {

/// The characters of `s`, one by one.
pub fn chars_of(s: &str) -> (chars: Vec<char>)
    ensures
        chars@ == s@,
{
    let mut chars: Vec<char> = Vec::new();
    for c in it: s.chars()
        invariant
            chars@ == it.seq().take(it.index() as int),
            it.seq() == s@,
    {
        chars.push(c);
    }
    chars
}

/// Whether `needle` stands in `haystack` at `at`.
pub open spec fn occurs_at(haystack: Seq<char>, needle: Seq<char>, at: int) -> bool {
    0 <= at && at + needle.len() <= haystack.len() && haystack.subrange(
        at,
        at + needle.len(),
    ) == needle
}

/// Whether `at` is the first place at which `needle` stands in `haystack`.
pub open spec fn is_first_occurrence(haystack: Seq<char>, needle: Seq<char>, at: int) -> bool {
    occurs_at(haystack, needle, at) && forall|before: int|
        0 <= before < at ==> !occurs_at(haystack, needle, before)
}

/// Whether `needle` stands anywhere in `haystack`.
pub open spec fn occurs(haystack: Seq<char>, needle: Seq<char>) -> bool {
    exists|at: int| occurs_at(haystack, needle, at)
}

/// The first place at which `needle` stands in `haystack`, where it stands
/// there at all.
pub open spec fn first_occurrence(haystack: Seq<char>, needle: Seq<char>) -> int {
    choose|at: int| is_first_occurrence(haystack, needle, at)
}

/// There is one first place at most.
pub proof fn lemma_first_occurrence(haystack: Seq<char>, needle: Seq<char>, at: int)
    requires
        is_first_occurrence(haystack, needle, at),
    ensures
        first_occurrence(haystack, needle) == at,
        occurs(haystack, needle),
{
    let chosen = first_occurrence(haystack, needle);
    assert(is_first_occurrence(haystack, needle, chosen));
    if chosen < at {
        assert(!occurs_at(haystack, needle, chosen));
    }
    if at < chosen {
        assert(!occurs_at(haystack, needle, at));
    }
}

/// Whether `needle` stands in `haystack` at `at`.
pub(crate) fn matches_at(haystack: &Vec<char>, needle: &Vec<char>, at: usize) -> (found: bool)
    requires
        at + needle@.len() <= haystack@.len(),
    ensures
        found == occurs_at(haystack@, needle@, at as int),
{
    let len = haystack.len();
    let mut i: usize = 0;
    while i < needle.len()
        invariant
            i <= needle@.len(),
            len == haystack@.len(),
            at + needle@.len() <= haystack@.len(),
            forall|j: int| 0 <= j < i ==> haystack@[at + j] == needle@[j],
        decreases needle@.len() - i,
    {
        if haystack[at + i] != needle[i] {
            assert(haystack@.subrange(at as int, at + needle@.len())[i as int] != needle@[i as int]);
            return false;
        }
        i = i + 1;
    }
    assert(haystack@.subrange(at as int, at + needle@.len()) =~= needle@);
    true
}

/// The first place at which `needle` stands in `haystack`, if it stands
/// there at all.
pub fn find(haystack: &Vec<char>, needle: &Vec<char>) -> (place: Option<usize>)
    ensures
        place is Some <==> occurs(haystack@, needle@),
        place matches Some(at) ==> at == first_occurrence(haystack@, needle@)
            && is_first_occurrence(haystack@, needle@, at as int),
{
    if needle.len() > haystack.len() {
        return None;
    }
    let last: usize = haystack.len() - needle.len();
    let mut at: usize = 0;
    loop
        invariant
            at <= last,
            last == haystack@.len() - needle@.len(),
            forall|before: int| 0 <= before < at ==> !occurs_at(haystack@, needle@, before),
        decreases last - at,
    {
        if matches_at(haystack, needle, at) {
            proof {
                lemma_first_occurrence(haystack@, needle@, at as int);
            }
            return Some(at);
        }
        if at == last {
            return None;
        }
        at = at + 1;
    }
}

} // verus!
