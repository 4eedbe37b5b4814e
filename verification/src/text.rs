//! Character-level helpers: texts as sequences of characters, and the search
//! for one text inside another.

use vstd::prelude::*;

verus! {

/// Whether `needle` stands in `hay` at index `at`.
pub open spec fn occurs_at(hay: Seq<char>, needle: Seq<char>, at: int) -> bool {
    &&& 0 <= at
    &&& at + needle.len() <= hay.len()
    &&& hay.subrange(at, at + needle.len()) == needle
}

/// The least index at or after `from` at which `needle` stands in `hay`, if
/// there is one.
pub open spec fn find_from(hay: Seq<char>, needle: Seq<char>, from: int) -> Option<int>
    decreases hay.len() + 1 - from,
{
    if from < 0 || from + needle.len() > hay.len() {
        None
    } else if occurs_at(hay, needle, from) {
        Some(from)
    } else {
        find_from(hay, needle, from + 1)
    }
}

/// `find_from` returns the first occurrence: the needle stands at the index
/// returned and at no index between `from` and it; and when nothing is
/// returned the needle stands nowhere at or after `from`.
pub proof fn lemma_find_from(hay: Seq<char>, needle: Seq<char>, from: int)
    requires
        0 <= from,
    ensures
        match find_from(hay, needle, from) {
            Some(at) => {
                &&& from <= at
                &&& occurs_at(hay, needle, at)
                &&& forall|j: int| from <= j < at ==> !occurs_at(hay, needle, j)
            },
            None => forall|j: int| from <= j ==> !occurs_at(hay, needle, j),
        },
    decreases hay.len() + 1 - from,
{
    if from + needle.len() > hay.len() {
    } else if occurs_at(hay, needle, from) {
    } else {
        lemma_find_from(hay, needle, from + 1);
    }
}

/// The characters of a string slice, in order.
pub fn chars_of(s: &str) -> (v: Vec<char>)
    ensures
        v@ == s@,
{
    let mut v: Vec<char> = Vec::new();
    for c in it: s.chars()
        invariant
            v@ == it.seq().take(it.index()),
            it.seq() == s@,
    {
        v.push(c);
    }
    v
}

/// Whether `needle` stands at index `at` in the first `end` characters of
/// `hay`.
pub(crate) fn matches_at(hay: &Vec<char>, needle: &Vec<char>, at: usize, end: usize) -> (r: bool)
    requires
        end <= hay.len(),
    ensures
        r == occurs_at(hay@.take(end as int), needle@, at as int),
{
    if needle.len() > end || at > end - needle.len() {
        return false;
    }
    let ghost window = hay@.take(end as int).subrange(at as int, at + needle.len());
    let mut k: usize = 0;
    while k < needle.len()
        invariant
            k <= needle.len(),
            at + needle.len() <= end <= hay.len(),
            window == hay@.take(end as int).subrange(at as int, at + needle.len()),
            forall|j: int| 0 <= j < k ==> hay@[at + j] == needle@[j],
        decreases needle.len() - k,
    {
        if hay[at + k] != needle[k] {
            return false;
        }
        k += 1;
    }
    assert(window =~= needle@);
    true
}

/// Finds the first index at or after `from` at which `needle` stands in the
/// first `end` characters of `hay`.
pub(crate) fn find_within(hay: &Vec<char>, needle: &Vec<char>, from: usize, end: usize) -> (r:
    Option<usize>)
    requires
        end <= hay.len(),
    ensures
        match r {
            Some(at) => {
                &&& find_from(hay@.take(end as int), needle@, from as int) == Some(at as int)
                &&& from <= at
                &&& at + needle.len() <= end
            },
            None => find_from(hay@.take(end as int), needle@, from as int) is None,
        },
{
    let ghost prefix = hay@.take(end as int);
    let mut at: usize = from;
    while at <= end && needle.len() <= end - at
        invariant
            from <= at,
            end <= hay.len(),
            prefix == hay@.take(end as int),
            find_from(prefix, needle@, from as int) == find_from(prefix, needle@, at as int),
        decreases end + 1 - at,
    {
        if matches_at(hay, needle, at, end) {
            return Some(at);
        }
        assert(at < end) by {
            if at == end {
                assert(prefix.subrange(at as int, at as int) =~= needle@);
            }
        }
        at += 1;
    }
    None
}

/// Finds the first index at or after `from` at which `needle` stands in `hay`.
pub fn find(hay: &Vec<char>, needle: &Vec<char>, from: usize) -> (r: Option<usize>)
    ensures
        match r {
            Some(at) => {
                &&& find_from(hay@, needle@, from as int) == Some(at as int)
                &&& from <= at
                &&& at + needle.len() <= hay.len()
            },
            None => find_from(hay@, needle@, from as int) is None,
        },
{
    assert(hay@.take(hay.len() as int) =~= hay@);
    find_within(hay, needle, from, hay.len())
}

} // verus!
