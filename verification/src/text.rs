//! Small string operations with contracts over character sequences.

use vstd::prelude::*;
use crate::search::first_where;

verus! {

/// Whether two string slices hold the same characters.
///
/// Trusted: calls `==` of `str`, which std documents as equality of contents.
#[verifier::external_body]
pub(crate) fn str_eq(a: &str, b: &str) -> (same: bool)
    ensures
        same == (a@ == b@),
{
    a == b
}

/// The characters of `a` followed by those of `b`, as a new `String`.
///
/// Trusted: calls `concat` of slices, which std documents as flattening the
/// pieces in order.
#[verifier::external_body]
pub(crate) fn concat(a: &str, b: &str) -> (joined: String)
    ensures
        joined@ == a@ + b@,
{
    [a, b].concat()
}

/// Appends one character to `text`.
///
/// Trusted: calls `String::push`, which std documents as appending the
/// character to the end.
#[verifier::external_body]
pub(crate) fn push_char(text: &mut String, c: char)
    ensures
        final(text)@ == old(text)@.push(c),
{
    text.push(c)
}

/// Whether a character is white space in the sense of `char::is_whitespace`.
pub uninterp spec fn is_whitespace(c: char) -> bool;

/// Whether `c` is white space.
///
/// Trusted: calls `char::is_whitespace`, whose answer depends on the character
/// alone; the contract only gives that answer its name.
#[verifier::external_body]
pub(crate) fn char_is_whitespace(c: char) -> (white: bool)
    ensures
        white == is_whitespace(c),
{
    c.is_whitespace()
}

/// The lower-case form of a text in the sense of `str::to_lowercase`.
pub uninterp spec fn lowercase(text: Seq<char>) -> Seq<char>;

/// The lower-case form of `text`.
///
/// Trusted: calls `str::to_lowercase`, whose result depends on the characters
/// alone; the contract only gives that result its name.
#[verifier::external_body]
pub(crate) fn to_lowercase(text: &str) -> (lower: String)
    ensures
        lower@ == lowercase(text@),
{
    text.to_lowercase()
}

/// The characters that are not white space.
pub open spec fn not_white() -> spec_fn(char) -> bool {
    |c: char| !is_whitespace(c)
}

/// A text without the white space at its two ends.
pub open spec fn spec_trim(text: Seq<char>) -> Seq<char> {
    let start = first_where(text, not_white(), 0);
    let end = text.len() - first_where(text.reverse(), not_white(), 0);
    if start >= end {
        Seq::empty()
    } else {
        text.subrange(start, end)
    }
}

/// `text` without the white space at its two ends.
///
/// Trusted: calls `str::trim`, which std documents as removing leading and
/// trailing white space, in the sense of `char::is_whitespace`.
#[verifier::external_body]
pub(crate) fn trim(text: &str) -> (trimmed: &str)
    ensures
        trimmed@ == spec_trim(text@),
{
    text.trim()
}

/// Whether `needle` stands somewhere in `text`.
pub open spec fn occurs_in(needle: Seq<char>, text: Seq<char>) -> bool {
    exists|i: int|
        0 <= i <= text.len() - needle.len() && #[trigger] text.subrange(i, i + needle.len())
            == needle
}

/// Whether `needle` stands somewhere in `text`.
///
/// Trusted: calls `str::contains` with a string pattern, which std documents as
/// telling whether the pattern matches a part of the text.
#[verifier::external_body]
pub(crate) fn contains(text: &str, needle: &str) -> (found: bool)
    ensures
        found == occurs_in(needle@, text@),
{
    text.contains(needle)
}

/// The lines of a text in the sense of `str::lines`.
pub uninterp spec fn lines_of(text: Seq<char>) -> Seq<Seq<char>>;

/// The lines of `text`, without their line endings.
///
/// Trusted: calls `str::lines` and copies what it yields. The result depends
/// on the text alone; the contract only gives it its name.
#[verifier::external_body]
pub(crate) fn lines(text: &str) -> (found: Vec<String>)
    ensures
        found.deep_view() == lines_of(text@),
{
    text.lines().map(|line| line.to_string()).collect()
}

/// A text is blank when it holds nothing but white space.
pub open spec fn is_blank(text: Seq<char>) -> bool {
    forall|i: int| 0 <= i < text.len() ==> is_whitespace(#[trigger] text[i])
}

/// Whether `text` holds nothing but white space.
pub fn blank(text: &str) -> (all_white: bool)
    ensures
        all_white == is_blank(text@),
{
    for c in it: text.chars()
        invariant
            it.seq() == text@,
            forall|i: int| 0 <= i < it.index() ==> is_whitespace(#[trigger] text@[i]),
    {
        if !char_is_whitespace(c) {
            assert(!is_whitespace(text@[it.index()]));
            return false;
        }
    }
    true
}

/// The character of a decimal digit.
pub open spec fn digit_char(digit: nat) -> char {
    if digit == 0 {
        '0'
    } else if digit == 1 {
        '1'
    } else if digit == 2 {
        '2'
    } else if digit == 3 {
        '3'
    } else if digit == 4 {
        '4'
    } else if digit == 5 {
        '5'
    } else if digit == 6 {
        '6'
    } else if digit == 7 {
        '7'
    } else if digit == 8 {
        '8'
    } else {
        '9'
    }
}

/// The decimal numeral of a number, without leading zeros.
pub open spec fn decimal(n: nat) -> Seq<char>
    decreases n,
{
    if n < 10 {
        seq![digit_char(n)]
    } else {
        decimal(n / 10).push(digit_char(n % 10))
    }
}

fn digit_of(digit: usize) -> (c: char)
    requires
        digit < 10,
    ensures
        c == digit_char(digit as nat),
{
    if digit == 0 {
        '0'
    } else if digit == 1 {
        '1'
    } else if digit == 2 {
        '2'
    } else if digit == 3 {
        '3'
    } else if digit == 4 {
        '4'
    } else if digit == 5 {
        '5'
    } else if digit == 6 {
        '6'
    } else if digit == 7 {
        '7'
    } else if digit == 8 {
        '8'
    } else {
        '9'
    }
}

/// Appends the decimal numeral of `n` to `text`.
pub fn push_decimal(text: &mut String, n: usize)
    ensures
        final(text)@ == old(text)@ + decimal(n as nat),
    decreases n,
{
    if n < 10 {
        push_char(text, digit_of(n));
        assert(old(text)@.push(digit_char(n as nat)) =~= old(text)@ + decimal(n as nat));
    } else {
        push_decimal(text, n / 10);
        push_char(text, digit_of(n % 10));
        assert((old(text)@ + decimal((n / 10) as nat)).push(digit_char((n % 10) as nat)) =~= old(
            text,
        )@ + decimal(n as nat));
    }
}

/// Whether a character is one of the ten decimal digits.
pub open spec fn is_digit(c: char) -> bool {
    '0' <= c <= '9'
}

/// How many characters of `text` are decimal digits.
pub open spec fn count_digits(text: Seq<char>) -> nat
    decreases text.len(),
{
    if text.len() == 0 {
        0
    } else {
        count_digits(text.drop_last()) + if is_digit(text.last()) {
            1nat
        } else {
            0nat
        }
    }
}

/// Whether `text` holds more than `limit` decimal digits.
pub fn has_more_digits_than(text: &str, limit: usize) -> (more: bool)
    ensures
        more == (count_digits(text@) > limit),
{
    let mut count: usize = 0;
    assert(text@.take(0) =~= Seq::<char>::empty());
    for c in it: text.chars()
        invariant
            it.seq() == text@,
            count == count_digits(text@.take(it.index())),
            count <= limit,
    {
        assert(text@.take(it.index() + 1).drop_last() =~= text@.take(it.index()));
        if '0' <= c && c <= '9' {
            if count == limit {
                proof {
                    lemma_count_digits_grows(text@, it.index() + 1);
                }
                return true;
            }
            count = count + 1;
        }
    }
    assert(text@.take(text@.len() as int) =~= text@);
    false
}

/// A text holds at least as many digits as any of its prefixes.
pub proof fn lemma_count_digits_grows(text: Seq<char>, upto: int)
    requires
        0 <= upto <= text.len(),
    ensures
        count_digits(text.take(upto)) <= count_digits(text),
    decreases text.len() - upto,
{
    if upto == text.len() {
        assert(text.take(upto) =~= text);
    } else {
        lemma_count_digits_grows(text, upto + 1);
        assert(text.take(upto + 1).drop_last() =~= text.take(upto));
    }
}

} // verus!
