//! Unsigned decimal numbers: reading them from text and writing them out.

use vstd::prelude::*;

verus! {

/// Whether `c` is one of the ten decimal digits.
pub open spec fn is_digit(c: char) -> bool {
    0x30 <= c as u32 <= 0x39
}

/// The number that the digit `c` stands for; 0 for any other character.
pub open spec fn digit_value(c: char) -> nat {
    if is_digit(c) {
        (c as u32 - 0x30) as nat
    } else {
        0
    }
}

/// The digit that stands for `d`, for `d` below ten.
pub open spec fn digit_char(d: nat) -> char {
    if d == 0 {
        '0'
    } else if d == 1 {
        '1'
    } else if d == 2 {
        '2'
    } else if d == 3 {
        '3'
    } else if d == 4 {
        '4'
    } else if d == 5 {
        '5'
    } else if d == 6 {
        '6'
    } else if d == 7 {
        '7'
    } else if d == 8 {
        '8'
    } else {
        '9'
    }
}

/// Whether every character of `s` is a decimal digit.
pub open spec fn all_digits(s: Seq<char>) -> bool {
    forall|i: int| 0 <= i < s.len() ==> is_digit(#[trigger] s[i])
}

/// The number that the digits of `s` write in base ten, the most significant
/// first; 0 for the empty text.
pub open spec fn decimal_value(s: Seq<char>) -> nat
    decreases s.len(),
{
    if s.len() == 0 {
        0
    } else {
        decimal_value(s.drop_last()) * 10 + digit_value(s.last())
    }
}

/// `s` without one plus sign at its start, if it starts with one.
pub open spec fn without_sign(s: Seq<char>) -> Seq<char> {
    if s.len() > 0 && s[0] == '+' {
        s.drop_first()
    } else {
        s
    }
}

/// The number that `s` writes, if `s` is an optional plus sign followed by
/// one or more decimal digits whose value is at most `max`.
pub open spec fn parse_unsigned(s: Seq<char>, max: nat) -> Option<nat> {
    let body = without_sign(s);
    if body.len() > 0 && all_digits(body) && decimal_value(body) <= max {
        Some(decimal_value(body))
    } else {
        None
    }
}

/// The 16-bit number that `s` writes, if it writes one.
pub open spec fn parse_u16(s: Seq<char>) -> Option<u16> {
    match parse_unsigned(s, 0xffff) {
        Some(n) => Some(n as u16),
        None => None,
    }
}

/// The 32-bit number that `s` writes, if it writes one.
pub open spec fn parse_u32(s: Seq<char>) -> Option<u32> {
    match parse_unsigned(s, 0xffff_ffff) {
        Some(n) => Some(n as u32),
        None => None,
    }
}

/// `n` written in base ten, without leading zeros.
pub open spec fn decimal(n: nat) -> Seq<char>
    decreases n,
{
    if n < 10 {
        seq![digit_char(n)]
    } else {
        decimal(n / 10).push(digit_char(n % 10))
    }
}

/// `n` written in base ten with at least two digits, a zero in front of a
/// single one.
pub open spec fn decimal_two(n: nat) -> Seq<char> {
    if n < 10 {
        seq!['0', digit_char(n)]
    } else {
        decimal(n)
    }
}

/// The value of a text of digits is at least the value of each of its prefixes.
pub proof fn lemma_decimal_value_grows(s: Seq<char>, k: int)
    requires
        0 <= k <= s.len(),
    ensures
        decimal_value(s.take(k)) <= decimal_value(s),
    decreases s.len() - k,
{
    if k == s.len() {
        assert(s.take(k) == s);
    } else {
        lemma_decimal_value_grows(s.drop_last(), k);
        assert(s.drop_last().take(k) == s.take(k));
    }
}

/// Reading what `decimal` wrote gives the number back: the text is not
/// empty, holds digits only, and has the value `n`.
pub proof fn lemma_decimal_reads_back(n: nat)
    ensures
        decimal(n).len() > 0,
        all_digits(decimal(n)),
        decimal_value(decimal(n)) == n,
        without_sign(decimal(n)) == decimal(n),
    decreases n,
{
    if n < 10 {
        let s = decimal(n);
        assert(s.drop_last() == Seq::<char>::empty());
        assert(decimal_value(s.drop_last()) == 0);
    } else {
        lemma_decimal_reads_back(n / 10);
        let s = decimal(n);
        assert(s.drop_last() == decimal(n / 10));
        assert(s[0] == decimal(n / 10)[0]);
    }
}

/// A number that fits is read back from its decimal text.
pub proof fn lemma_parse_decimal(n: nat, max: nat)
    requires
        n <= max,
    ensures
        parse_unsigned(decimal(n), max) == Some(n),
{
    lemma_decimal_reads_back(n);
}

/// Reads an unsigned decimal number of at most `max` from `text`.
pub fn read_unsigned(text: &Vec<char>, max: u32) -> (r: Option<u32>)
    ensures
        r matches Some(n) ==> parse_unsigned(text@, max as nat) == Some(n as nat),
        r is None ==> parse_unsigned(text@, max as nat) is None,
{
    let start: usize = if text.len() > 0 && text[0] == '+' {
        1
    } else {
        0
    };
    let ghost body = without_sign(text@);
    assert(body == text@.skip(start as int));
    if start == text.len() {
        return None;
    }
    let mut acc: u64 = 0;
    let mut i: usize = start;
    while i < text.len()
        invariant
            start <= i <= text.len(),
            body == without_sign(text@),
            body == text@.skip(start as int),
            all_digits(body.take(i - start)),
            acc == decimal_value(body.take(i - start)),
            acc <= max,
        decreases text.len() - i,
    {
        let c = text[i];
        let n: u32 = c as u32;
        if n < 0x30 || n > 0x39 {
            assert(!is_digit(body[i - start]));
            return None;
        }
        let ghost prefix = body.take(i - start + 1);
        assert(prefix.drop_last() == body.take(i - start));
        assert(prefix.last() == c);
        acc = acc * 10 + (n - 0x30) as u64;
        if acc > max as u64 {
            proof {
                lemma_decimal_value_grows(body, i - start + 1);
            }
            return None;
        }
        i += 1;
    }
    assert(body.take(i - start) == body);
    Some(acc as u32)
}

/// Reads a 16-bit unsigned decimal number from `text`.
pub fn read_u16(text: &Vec<char>) -> (r: Option<u16>)
    ensures
        r == parse_u16(text@),
{
    match read_unsigned(text, 0xffff) {
        Some(n) => Some(n as u16),
        None => None,
    }
}

/// Reads a 32-bit unsigned decimal number from `text`.
pub fn read_u32(text: &Vec<char>) -> (r: Option<u32>)
    ensures
        r == parse_u32(text@),
{
    read_unsigned(text, 0xffff_ffff)
}

/// The digit that stands for `d`.
pub fn digit_of(d: u64) -> (c: char)
    requires
        d < 10,
    ensures
        c == digit_char(d as nat),
{
    if d == 0 {
        '0'
    } else if d == 1 {
        '1'
    } else if d == 2 {
        '2'
    } else if d == 3 {
        '3'
    } else if d == 4 {
        '4'
    } else if d == 5 {
        '5'
    } else if d == 6 {
        '6'
    } else if d == 7 {
        '7'
    } else if d == 8 {
        '8'
    } else {
        '9'
    }
}

/// Appends `n`, written in base ten, to `acc`.
pub fn push_decimal(acc: &mut Vec<char>, n: u64)
    ensures
        final(acc)@ == old(acc)@ + decimal(n as nat),
    decreases n,
{
    if n >= 10 {
        push_decimal(acc, n / 10);
    }
    acc.push(digit_of(n % 10));
}

/// Appends `n`, written in base ten with at least two digits, to `acc`.
pub fn push_decimal_two(acc: &mut Vec<char>, n: u64)
    ensures
        final(acc)@ == old(acc)@ + decimal_two(n as nat),
{
    if n < 10 {
        acc.push('0');
    }
    push_decimal(acc, n);
}

} // verus!
