//! Working with text: comparing and trimming it, and writing numbers in
//! decimal and in hexadecimal.

use vstd::prelude::*;

verus! {

/// `String::push` appends one character to the end of the string.
pub assume_specification[ std::string::String::push ](s: &mut std::string::String, c: char)
    ensures
        final(s)@ == old(s)@.push(c),
;

/// `str`'s `==` holds exactly of two texts with the same characters.
#[verifier::external_body]
pub(crate) fn str_eq(a: &str, b: &str) -> (r: bool)
    ensures
        r == (a@ == b@),
{
    a == b
}

/// Whether a character is white space, as `char::is_whitespace` says.
pub uninterp spec fn is_whitespace(c: char) -> bool;

/// A text without the white space at its start.
pub open spec fn trimmed_start(text: Seq<char>) -> Seq<char>
    decreases text.len(),
{
    if text.len() > 0 && is_whitespace(text[0]) {
        trimmed_start(text.drop_first())
    } else {
        text
    }
}

/// A text without the white space at its end.
pub open spec fn trimmed_end(text: Seq<char>) -> Seq<char>
    decreases text.len(),
{
    if text.len() > 0 && is_whitespace(text.last()) {
        trimmed_end(text.drop_last())
    } else {
        text
    }
}

/// A text without the white space at its start and at its end.
pub open spec fn trimmed(text: Seq<char>) -> Seq<char> {
    trimmed_end(trimmed_start(text))
}

/// `char::is_whitespace` says whether a character is white space; which
/// characters are is Unicode's to say.
#[verifier::external_body]
pub(crate) fn char_is_whitespace(c: char) -> (r: bool)
    ensures
        r == is_whitespace(c),
{
    c.is_whitespace()
}

/// Where a text starts and ends once the white space around it is left out.
pub fn trim_bounds(text: &str) -> (r: (usize, usize))
    ensures
        r.0 <= r.1 <= text@.len(),
        text@.subrange(r.0 as int, r.1 as int) == trimmed(text@),
{
    let n = text.unicode_len();
    let mut start: usize = 0;
    assert(text@.subrange(0, n as int) == text@);
    while start < n && char_is_whitespace(text.get_char(start))
        invariant
            start <= n,
            n == text@.len(),
            trimmed_start(text@) == trimmed_start(text@.subrange(start as int, n as int)),
        decreases n - start,
    {
        assert(text@.subrange(start as int, n as int).drop_first() == text@.subrange(
            start as int + 1,
            n as int,
        ));
        start += 1;
    }
    assert(trimmed_start(text@) == text@.subrange(start as int, n as int));
    let mut end: usize = n;
    while end > start && char_is_whitespace(text.get_char(end - 1))
        invariant
            start <= end <= n,
            n == text@.len(),
            trimmed(text@) == trimmed_end(text@.subrange(start as int, end as int)),
        decreases end,
    {
        assert(text@.subrange(start as int, end as int).drop_last() == text@.subrange(
            start as int,
            end as int - 1,
        ));
        end -= 1;
    }
    (start, end)
}

/// The character of a digit in base ten or sixteen, letters in lower case.
pub open spec fn digit_char(d: nat) -> char
    recommends
        d < 16,
{
    if d < 10 {
        ((48 + d) as u8) as char
    } else {
        ((87 + d) as u8) as char
    }
}

/// The decimal notation of a number, without leading zeros.
pub open spec fn decimal(n: nat) -> Seq<char>
    decreases n,
{
    if n < 10 {
        seq![digit_char(n)]
    } else {
        decimal(n / 10).push(digit_char(n % 10))
    }
}

/// The hexadecimal notation of a number, in lower case and without leading zeros.
pub open spec fn hexadecimal(n: nat) -> Seq<char>
    decreases n,
{
    if n < 16 {
        seq![digit_char(n)]
    } else {
        hexadecimal(n / 16).push(digit_char(n % 16))
    }
}

/// The character of one digit.
fn digit(d: u8) -> (c: char)
    requires
        d < 16,
    ensures
        c == digit_char(d as nat),
{
    if d < 10 {
        (48 + d) as char
    } else {
        (87 + d) as char
    }
}

/// Appends the decimal notation of `n` to `out`.
pub fn push_decimal(out: &mut String, n: u64)
    ensures
        final(out)@ == old(out)@ + decimal(n as nat),
    decreases n,
{
    if n >= 10 {
        push_decimal(out, n / 10);
    }
    out.push(digit((n % 10) as u8));
}

/// Appends the hexadecimal notation of `n` to `out`.
pub fn push_hexadecimal(out: &mut String, n: u64)
    ensures
        final(out)@ == old(out)@ + hexadecimal(n as nat),
    decreases n,
{
    if n >= 16 {
        push_hexadecimal(out, n / 16);
    }
    out.push(digit((n % 16) as u8));
}

} // verus!
