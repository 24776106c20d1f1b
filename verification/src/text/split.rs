//! Cutting a text into words, fields and lines; trimming and joining.

use vstd::prelude::*;
use crate::text::chars::{char_is_whitespace, is_whitespace, slice_of};

verus! {

/// What separates the parts of a text.
#[derive(Clone, Copy)]
pub enum Delim {
    /// Any white-space character.
    Whitespace,
    /// One given character.
    Char(char),
}

impl Delim {
    /// Whether `c` is a separator.
    pub open spec fn matches(self, c: char) -> bool {
        match self {
            Delim::Whitespace => is_whitespace(c),
            Delim::Char(d) => c == d,
        }
    }

    /// Tests whether `c` is a separator.
    pub fn is_match(&self, c: char) -> (b: bool)
        ensures
            b == self.matches(c),
    {
        match self {
            Delim::Whitespace => char_is_whitespace(c),
            Delim::Char(d) => c == *d,
        }
    }
}

/// The views of the vectors of `v`, in order.
pub open spec fn texts(v: Seq<Vec<char>>) -> Seq<Seq<char>> {
    Seq::new(v.len(), |k: int| v[k]@)
}

/// The least index at or after `i` at which `s` holds a separator; the length
/// of `s` where it holds none there.
pub open spec fn delim_from(s: Seq<char>, d: Delim, i: int) -> int
    decreases s.len() - i,
{
    if 0 <= i < s.len() && !d.matches(s[i]) {
        delim_from(s, d, i + 1)
    } else {
        i
    }
}

/// `delim_from` names an index between `i` and the end, with no separator
/// before it and a separator at it, unless it is the end.
pub proof fn lemma_delim_from(s: Seq<char>, d: Delim, i: int)
    requires
        0 <= i <= s.len(),
    ensures
        i <= delim_from(s, d, i) <= s.len(),
        forall|j: int| i <= j < delim_from(s, d, i) ==> !d.matches(#[trigger] s[j]),
        delim_from(s, d, i) < s.len() ==> d.matches(s[delim_from(s, d, i)]),
    decreases s.len() - i,
{
    if i < s.len() && !d.matches(s[i]) {
        lemma_delim_from(s, d, i + 1);
    }
}

/// The words of `s` from index `i` on.
pub open spec fn words_from(s: Seq<char>, d: Delim, i: int) -> Seq<Seq<char>>
    decreases s.len() - i,
{
    if i < 0 || i >= s.len() {
        Seq::empty()
    } else if d.matches(s[i]) {
        words_from(s, d, i + 1)
    } else {
        let e = delim_from(s, d, i + 1);
        proof {
            lemma_delim_from(s, d, i + 1);
        }
        seq![s.subrange(i, e)] + words_from(s, d, e)
    }
}

/// The words of `s`: its maximal runs of characters that are not separators,
/// in order. No word is empty.
pub open spec fn words(s: Seq<char>, d: Delim) -> Seq<Seq<char>> {
    words_from(s, d, 0)
}

/// Whether `word` is not empty and holds no separator.
pub open spec fn is_word(word: Seq<char>, d: Delim) -> bool {
    word.len() > 0 && forall|j: int| 0 <= j < word.len() ==> !d.matches(#[trigger] word[j])
}

/// Every word is a word: not empty, and free of separators.
pub proof fn lemma_words_are_words(s: Seq<char>, d: Delim, i: int)
    requires
        0 <= i <= s.len(),
    ensures
        forall|k: int| 0 <= k < words_from(s, d, i).len() ==> is_word(#[trigger] words_from(s, d, i)[k], d),
    decreases s.len() - i,
{
    if i >= s.len() {
    } else if d.matches(s[i]) {
        let next = i + 1;
        lemma_words_are_words(s, d, next);
        assert(words_from(s, d, i) == words_from(s, d, next));
    } else {
        let e = delim_from(s, d, i + 1);
        lemma_delim_from(s, d, i + 1);
        lemma_words_are_words(s, d, e);
        let word = s.subrange(i, e);
        assert(is_word(word, d)) by {
            assert forall|j: int| 0 <= j < word.len() implies !d.matches(#[trigger] word[j]) by {
                assert(word[j] == s[i + j]);
            }
        }
        let all = words_from(s, d, i);
        assert(all == seq![word] + words_from(s, d, e));
        assert forall|k: int| 0 <= k < all.len() implies is_word(#[trigger] all[k], d) by {
            if k > 0 {
                assert(all[k] == words_from(s, d, e)[k - 1]);
            } else {
                assert(all[k] == word);
            }
        }
    }
}

/// A text always has a first field.
pub proof fn lemma_fields_not_empty(s: Seq<char>, d: Delim)
    ensures
        fields(s, d).len() >= 1,
{
    lemma_delim_from(s, d, 0);
}

/// The fields of `s` from index `i` on.
pub open spec fn fields_from(s: Seq<char>, d: Delim, i: int) -> Seq<Seq<char>>
    decreases s.len() - i,
{
    if i < 0 || i > s.len() {
        Seq::empty()
    } else {
        let e = delim_from(s, d, i);
        proof {
            lemma_delim_from(s, d, i);
        }
        if e >= s.len() {
            seq![s.subrange(i, s.len() as int)]
        } else {
            seq![s.subrange(i, e)] + fields_from(s, d, e + 1)
        }
    }
}

/// The fields of `s`: what stands before, between and after its separators,
/// in order. A field may be empty, and there is always at least one.
pub open spec fn fields(s: Seq<char>, d: Delim) -> Seq<Seq<char>> {
    fields_from(s, d, 0)
}

/// `s` without one carriage return at its end, if it ends in one.
pub open spec fn strip_cr(s: Seq<char>) -> Seq<char> {
    if s.len() > 0 && s.last() == '\r' {
        s.drop_last()
    } else {
        s
    }
}

/// The lines of `s` from index `i` on.
pub open spec fn lines_from(s: Seq<char>, i: int) -> Seq<Seq<char>>
    decreases s.len() - i,
{
    if i < 0 || i >= s.len() {
        Seq::empty()
    } else {
        let e = delim_from(s, Delim::Char('\n'), i);
        proof {
            lemma_delim_from(s, Delim::Char('\n'), i);
        }
        if e >= s.len() {
            seq![s.subrange(i, s.len() as int)]
        } else {
            seq![strip_cr(s.subrange(i, e))] + lines_from(s, e + 1)
        }
    }
}

/// The lines of `s`. A line ends at a line feed, or at the end of `s`; the
/// line feed, and a carriage return just before it, are not part of the line.
/// Nothing follows a final line feed.
pub open spec fn lines(s: Seq<char>) -> Seq<Seq<char>> {
    lines_from(s, 0)
}

/// `s` without the white space at its start.
pub open spec fn trim_start(s: Seq<char>) -> Seq<char>
    decreases s.len(),
{
    if s.len() > 0 && is_whitespace(s.first()) {
        trim_start(s.drop_first())
    } else {
        s
    }
}

/// `s` without the white space at its end.
pub open spec fn trim_end(s: Seq<char>) -> Seq<char>
    decreases s.len(),
{
    if s.len() > 0 && is_whitespace(s.last()) {
        trim_end(s.drop_last())
    } else {
        s
    }
}

/// `s` without the white space at its start and at its end.
pub open spec fn trim(s: Seq<char>) -> Seq<char> {
    trim_end(trim_start(s))
}

/// The texts of `parts`, in order, with `sep` between each two neighbours.
pub open spec fn join(parts: Seq<Seq<char>>, sep: Seq<char>) -> Seq<char>
    decreases parts.len(),
{
    if parts.len() == 0 {
        Seq::empty()
    } else if parts.len() == 1 {
        parts[0]
    } else {
        join(parts.drop_last(), sep) + sep + parts.last()
    }
}

/// The least index at or after `from` at which `text` holds a separator.
pub fn scan_to_delim(text: &Vec<char>, d: &Delim, from: usize) -> (e: usize)
    requires
        from <= text.len(),
    ensures
        e == delim_from(text@, *d, from as int),
        from <= e <= text.len(),
{
    let mut e: usize = from;
    while e < text.len() && !d.is_match(text[e])
        invariant
            from <= e <= text.len(),
            delim_from(text@, *d, from as int) == delim_from(text@, *d, e as int),
        decreases text.len() - e,
    {
        e += 1;
    }
    e
}

/// The words of `text`.
pub fn split_words(text: &Vec<char>, d: &Delim) -> (out: Vec<Vec<char>>)
    ensures
        texts(out@) == words(text@, *d),
{
    let mut out: Vec<Vec<char>> = Vec::new();
    let mut i: usize = 0;
    while i < text.len()
        invariant
            i <= text.len(),
            words(text@, *d) == texts(out@) + words_from(text@, *d, i as int),
        decreases text.len() - i,
    {
        if d.is_match(text[i]) {
            i += 1;
        } else {
            let e = scan_to_delim(text, d, i + 1);
            let word = slice_of(text, i, e);
            let ghost before = texts(out@);
            out.push(word);
            assert(texts(out@) == before + seq![text@.subrange(i as int, e as int)]);
            i = e;
        }
    }
    assert(texts(out@) + Seq::<Seq<char>>::empty() == texts(out@));
    out
}

/// The fields of `text`.
pub fn split_fields(text: &Vec<char>, d: &Delim) -> (out: Vec<Vec<char>>)
    ensures
        texts(out@) == fields(text@, *d),
{
    let mut out: Vec<Vec<char>> = Vec::new();
    let mut i: usize = 0;
    loop
        invariant_except_break
            i <= text.len(),
            fields(text@, *d) == texts(out@) + fields_from(text@, *d, i as int),
        ensures
            texts(out@) == fields(text@, *d),
        decreases text.len() - i,
    {
        let e = scan_to_delim(text, d, i);
        let field = slice_of(text, i, e);
        let ghost before = texts(out@);
        out.push(field);
        if e >= text.len() {
            assert(texts(out@) == before + seq![text@.subrange(i as int, text.len() as int)]);
            break ;
        }
        assert(texts(out@) == before + seq![text@.subrange(i as int, e as int)]);
        i = e + 1;
    }
    out
}

/// The lines of `text`.
pub fn split_lines(text: &Vec<char>) -> (out: Vec<Vec<char>>)
    ensures
        texts(out@) == lines(text@),
{
    let mut out: Vec<Vec<char>> = Vec::new();
    let feed = Delim::Char('\n');
    let mut i: usize = 0;
    while i < text.len()
        invariant
            i <= text.len(),
            feed == Delim::Char('\n'),
            lines(text@) == texts(out@) + lines_from(text@, i as int),
        decreases text.len() - i,
    {
        let e = scan_to_delim(text, &feed, i);
        let ghost before = texts(out@);
        if e >= text.len() {
            out.push(slice_of(text, i, e));
            assert(texts(out@) == before + seq![text@.subrange(i as int, text.len() as int)]);
            i = e;
        } else {
            let end = if e > i && text[e - 1] == '\r' {
                e - 1
            } else {
                e
            };
            out.push(slice_of(text, i, end));
            assert(text@.subrange(i as int, end as int) == strip_cr(
                text@.subrange(i as int, e as int),
            ));
            assert(texts(out@) == before + seq![strip_cr(text@.subrange(i as int, e as int))]);
            i = e + 1;
        }
    }
    assert(texts(out@) + Seq::<Seq<char>>::empty() == texts(out@));
    out
}

/// Dropping leading white space leaves what starts at the first character
/// that is not white space.
proof fn lemma_trim_start(s: Seq<char>, a: int)
    requires
        0 <= a <= s.len(),
        forall|j: int| 0 <= j < a ==> is_whitespace(#[trigger] s[j]),
        a < s.len() ==> !is_whitespace(s[a]),
    ensures
        trim_start(s) == s.skip(a),
    decreases a,
{
    if a == 0 {
        assert(s.skip(0) == s);
    } else {
        lemma_trim_start(s.drop_first(), a - 1);
        assert(s.drop_first().skip(a - 1) == s.skip(a));
    }
}

/// Dropping trailing white space leaves what ends at the last character that
/// is not white space.
proof fn lemma_trim_end(s: Seq<char>, b: int)
    requires
        0 <= b <= s.len(),
        forall|j: int| b <= j < s.len() ==> is_whitespace(#[trigger] s[j]),
        0 < b ==> !is_whitespace(s[b - 1]),
    ensures
        trim_end(s) == s.take(b),
    decreases s.len() - b,
{
    if b == s.len() {
        assert(s.take(b) == s);
    } else {
        lemma_trim_end(s.drop_last(), b);
        assert(s.drop_last().take(b) == s.take(b));
    }
}

/// `text` without the white space at its start and at its end.
pub fn trim_text(text: &Vec<char>) -> (r: Vec<char>)
    ensures
        r@ == trim(text@),
{
    let mut a: usize = 0;
    while a < text.len() && char_is_whitespace(text[a])
        invariant
            a <= text.len(),
            forall|j: int| 0 <= j < a ==> is_whitespace(#[trigger] text@[j]),
        decreases text.len() - a,
    {
        a += 1;
    }
    let mut b: usize = text.len();
    while b > a && char_is_whitespace(text[b - 1])
        invariant
            a <= b <= text.len(),
            forall|j: int| b <= j < text.len() ==> is_whitespace(#[trigger] text@[j]),
        decreases b,
    {
        b -= 1;
    }
    proof {
        lemma_trim_start(text@, a as int);
        let rest = text@.skip(a as int);
        assert forall|j: int| b - a <= j < rest.len() implies is_whitespace(#[trigger] rest[j]) by {
            assert(rest[j] == text@[j + a]);
        }
        lemma_trim_end(rest, b - a);
        assert(rest.take(b - a) == text@.subrange(a as int, b as int));
    }
    slice_of(text, a, b)
}

/// The texts of `parts`, in order, with `sep` between each two neighbours.
pub fn join_texts(parts: &Vec<Vec<char>>, sep: &Vec<char>) -> (r: Vec<char>)
    ensures
        r@ == join(texts(parts@), sep@),
{
    let mut r: Vec<char> = Vec::new();
    let mut i: usize = 0;
    while i < parts.len()
        invariant
            i <= parts.len(),
            r@ == join(texts(parts@).take(i as int), sep@),
        decreases parts.len() - i,
    {
        let ghost prev = r@;
        if i > 0 {
            append_chars(&mut r, sep);
        }
        append_chars(&mut r, &parts[i]);
        proof {
            let done = texts(parts@).take(i + 1);
            assert(done.drop_last() == texts(parts@).take(i as int));
            assert(done.last() == parts@[i as int]@);
            if i == 0 {
                assert(prev + parts@[0]@ == parts@[0]@);
            }
        }
        i += 1;
    }
    assert(texts(parts@).take(parts.len() as int) == texts(parts@));
    r
}

/// Appends the characters of `more` to `acc`.
pub fn append_chars(acc: &mut Vec<char>, more: &Vec<char>)
    ensures
        final(acc)@ == old(acc)@ + more@,
{
    let mut k: usize = 0;
    while k < more.len()
        invariant
            k <= more.len(),
            acc@ == old(acc)@ + more@.take(k as int),
        decreases more.len() - k,
    {
        acc.push(more[k]);
        assert(more@.take(k + 1) == more@.take(k as int).push(more@[k as int]));
        k += 1;
    }
    assert(more@.take(more.len() as int) == more@);
}

} // verus!
