//! Searching a text for a pattern or a character.

use vstd::prelude::*;
use crate::text::chars::slice_of;

verus! {

/// Whether `pat` stands in `s` at index `i`.
pub open spec fn occurs_at(s: Seq<char>, pat: Seq<char>, i: int) -> bool {
    0 <= i && i + pat.len() <= s.len() && s.subrange(i, i + pat.len()) == pat
}

/// Whether `i` is the least index at or after `from` at which `pat` stands in `s`.
pub open spec fn is_first_occurrence(s: Seq<char>, pat: Seq<char>, from: int, i: int) -> bool {
    &&& from <= i
    &&& occurs_at(s, pat, i)
    &&& forall|j: int| from <= j < i ==> !occurs_at(s, pat, j)
}

/// The least index at or after `from` at which `pat` stands in `s`, if there is one.
pub open spec fn find_from(s: Seq<char>, pat: Seq<char>, from: int) -> Option<int> {
    if exists|i: int| is_first_occurrence(s, pat, from, i) {
        Some(choose|i: int| is_first_occurrence(s, pat, from, i))
    } else {
        None
    }
}

/// The least index at which `pat` stands in `s`, if there is one.
pub open spec fn find(s: Seq<char>, pat: Seq<char>) -> Option<int> {
    find_from(s, pat, 0)
}

/// Whether `pat` stands somewhere in `s`.
pub open spec fn contains(s: Seq<char>, pat: Seq<char>) -> bool {
    exists|i: int| occurs_at(s, pat, i)
}

/// Whether `s` begins with `pat`.
pub open spec fn starts_with(s: Seq<char>, pat: Seq<char>) -> bool {
    occurs_at(s, pat, 0)
}

/// A first occurrence is the one that `find_from` names, and where no index
/// at or after `from` holds the pattern, `find_from` names none.
pub proof fn lemma_find_from(s: Seq<char>, pat: Seq<char>, from: int, r: Option<int>)
    requires
        r matches Some(i) ==> is_first_occurrence(s, pat, from, i),
        r is None ==> forall|j: int| from <= j ==> !occurs_at(s, pat, j),
    ensures
        r == find_from(s, pat, from),
{
    match r {
        Some(i) => {
            let k = choose|k: int| is_first_occurrence(s, pat, from, k);
            assert(is_first_occurrence(s, pat, from, k));
            assert(k == i) by {
                if k < i {
                    assert(!occurs_at(s, pat, k));
                }
                if i < k {
                    assert(!occurs_at(s, pat, i));
                }
            }
        },
        None => {},
    }
}

/// `s` contains `pat` exactly when `find` names an index.
pub proof fn lemma_contains_find(s: Seq<char>, pat: Seq<char>)
    ensures
        contains(s, pat) == find(s, pat).is_some(),
{
    if contains(s, pat) {
        let w = choose|i: int| occurs_at(s, pat, i);
        lemma_least_occurrence(s, pat, 0, w);
    }
}

/// Below any occurrence at or after `from` there is a first one.
proof fn lemma_least_occurrence(s: Seq<char>, pat: Seq<char>, from: int, w: int)
    requires
        from <= w,
        occurs_at(s, pat, w),
    ensures
        exists|i: int| is_first_occurrence(s, pat, from, i),
    decreases w - from,
{
    if occurs_at(s, pat, from) {
        assert(is_first_occurrence(s, pat, from, from));
    } else {
        let next = from + 1;
        lemma_least_occurrence(s, pat, next, w);
        let i = choose|i: int| is_first_occurrence(s, pat, next, i);
        assert(is_first_occurrence(s, pat, from, i));
    }
}

/// Tests whether `pat` stands in `text` at index `at`.
pub fn matches_at(text: &Vec<char>, pat: &Vec<char>, at: usize) -> (b: bool)
    ensures
        b == occurs_at(text@, pat@, at as int),
{
    if pat.len() > text.len() || at > text.len() - pat.len() {
        return false;
    }
    let mut k: usize = 0;
    while k < pat.len()
        invariant
            k <= pat.len(),
            at + pat.len() <= text.len(),
            text@.subrange(at as int, at + k) == pat@.take(k as int),
        decreases pat.len() - k,
    {
        if text[at + k] != pat[k] {
            assert(text@.subrange(at as int, at + pat.len())[k as int] != pat@[k as int]);
            return false;
        }
        assert(text@.subrange(at as int, at + k + 1) == text@.subrange(at as int, at + k).push(
            text@[at + k],
        ));
        assert(pat@.take(k + 1) == pat@.take(k as int).push(pat@[k as int]));
        k += 1;
    }
    assert(pat@.take(pat.len() as int) == pat@);
    true
}

/// The least index at or after `from` at which `pat` stands in `text`.
pub fn find_in(text: &Vec<char>, pat: &Vec<char>, from: usize) -> (r: Option<usize>)
    ensures
        option_int(r) == find_from(text@, pat@, from as int),
        r matches Some(i) ==> from <= i && i + pat.len() <= text.len(),
{
    if pat.len() > text.len() || from > text.len() - pat.len() {
        proof {
            lemma_find_from(text@, pat@, from as int, None);
        }
        return None;
    }
    let last: usize = text.len() - pat.len();
    let mut i: usize = from;
    while i < last
        invariant
            from <= i <= last,
            last + pat.len() == text.len(),
            forall|j: int| from <= j < i ==> !occurs_at(text@, pat@, j),
        decreases last - i,
    {
        if matches_at(text, pat, i) {
            proof {
                lemma_find_from(text@, pat@, from as int, Some(i as int));
            }
            return Some(i);
        }
        i += 1;
    }
    let r = if matches_at(text, pat, i) {
        Some(i)
    } else {
        None
    };
    proof {
        lemma_find_from(text@, pat@, from as int, option_int(r));
    }
    r
}

/// An optional machine index as an optional mathematical integer.
pub open spec fn option_int(r: Option<usize>) -> Option<int> {
    match r {
        Some(i) => Some(i as int),
        None => None,
    }
}

/// The part of `s` that follows the first occurrence of `pat`, where `pat` occurs.
pub open spec fn after_first(s: Seq<char>, pat: Seq<char>) -> Option<Seq<char>> {
    match find(s, pat) {
        Some(i) => Some(s.skip(i + pat.len())),
        None => None,
    }
}

/// What stands in `s` between the first occurrence of `open` and the first
/// occurrence of `close` after it; `None` where either is missing.
pub open spec fn between(s: Seq<char>, open: Seq<char>, close: Seq<char>) -> Option<Seq<char>> {
    match after_first(s, open) {
        Some(rest) => match find(rest, close) {
            Some(end) => Some(rest.take(end)),
            None => None,
        },
        None => None,
    }
}

/// Whether `i` is the greatest index at which `s` holds `c`.
pub open spec fn is_last_index(s: Seq<char>, c: char, i: int) -> bool {
    &&& 0 <= i < s.len()
    &&& s[i] == c
    &&& forall|j: int| i < j < s.len() ==> s[j] != c
}

/// The greatest index at which `s` holds `c`, if there is one.
pub open spec fn rfind_char(s: Seq<char>, c: char) -> Option<int> {
    if exists|i: int| is_last_index(s, c, i) {
        Some(choose|i: int| is_last_index(s, c, i))
    } else {
        None
    }
}

/// The part of `s` that follows its last `c`, where it holds one.
pub open spec fn after_last(s: Seq<char>, c: char) -> Option<Seq<char>> {
    match rfind_char(s, c) {
        Some(i) => Some(s.skip(i + 1)),
        None => None,
    }
}

/// A last index is the one that `rfind_char` names, and where `s` holds no
/// `c`, `rfind_char` names none.
pub proof fn lemma_rfind_char(s: Seq<char>, c: char, r: Option<int>)
    requires
        r matches Some(i) ==> is_last_index(s, c, i),
        r is None ==> forall|j: int| 0 <= j < s.len() ==> s[j] != c,
    ensures
        r == rfind_char(s, c),
{
    match r {
        Some(i) => {
            let k = choose|k: int| is_last_index(s, c, k);
            assert(is_last_index(s, c, k));
            assert(k == i);
        },
        None => {},
    }
}

/// The part of `text` after the first occurrence of `pat`.
pub fn take_after_first(text: &Vec<char>, pat: &Vec<char>) -> (r: Option<Vec<char>>)
    ensures
        option_chars(r) == after_first(text@, pat@),
{
    match find_in(text, pat, 0) {
        Some(i) => Some(slice_of(text, i + pat.len(), text.len())),
        None => None,
    }
}

/// What stands in `text` between the first occurrence of `open` and the
/// first occurrence of `close` after it.
pub fn take_between(text: &Vec<char>, open: &Vec<char>, close: &Vec<char>) -> (r: Option<
    Vec<char>,
>)
    ensures
        option_chars(r) == between(text@, open@, close@),
{
    match take_after_first(text, open) {
        Some(rest) => match find_in(&rest, close, 0) {
            Some(end) => Some(slice_of(&rest, 0, end)),
            None => None,
        },
        None => None,
    }
}

/// The greatest index at which `text` holds `c`.
pub fn last_index_of(text: &Vec<char>, c: char) -> (r: Option<usize>)
    ensures
        option_int(r) == rfind_char(text@, c),
        r matches Some(i) ==> i < text.len(),
{
    let mut i: usize = text.len();
    while i > 0
        invariant
            i <= text.len(),
            forall|j: int| i <= j < text.len() ==> text@[j] != c,
        decreases i,
    {
        i -= 1;
        if text[i] == c {
            proof {
                lemma_rfind_char(text@, c, Some(i as int));
            }
            return Some(i);
        }
    }
    proof {
        lemma_rfind_char(text@, c, None);
    }
    None
}

/// The part of `text` after its last `c`.
pub fn take_after_last(text: &Vec<char>, c: char) -> (r: Option<Vec<char>>)
    ensures
        option_chars(r) == after_last(text@, c),
{
    match last_index_of(text, c) {
        Some(i) => Some(slice_of(text, i + 1, text.len())),
        None => None,
    }
}

/// Tests whether `pat` stands somewhere in `text`.
pub fn has_pattern(text: &Vec<char>, pat: &Vec<char>) -> (b: bool)
    ensures
        b == contains(text@, pat@),
{
    proof {
        lemma_contains_find(text@, pat@);
    }
    find_in(text, pat, 0).is_some()
}

/// Tests whether `text` begins with `pat`.
pub fn has_prefix(text: &Vec<char>, pat: &Vec<char>) -> (b: bool)
    ensures
        b == starts_with(text@, pat@),
{
    matches_at(text, pat, 0)
}

/// An optional character vector as an optional sequence of characters.
pub open spec fn option_chars(r: Option<Vec<char>>) -> Option<Seq<char>> {
    match r {
        Some(v) => Some(v@),
        None => None,
    }
}

} // verus!
