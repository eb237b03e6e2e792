//! Reading a number in a given range from a line of text.

use core::ops::RangeInclusive;
use vstd::prelude::*;
use vstd::string::*;
use crate::text::{
    all_whitespace, blank, chars_of, decimal, decimal_value, digit, is_blank, is_digit,
    is_whitespace, lemma_decimal_is_digits, lemma_decimal_value_of_decimal, whitespace,
};

verus! {

/// Why a line of text was not taken as a number.
#[derive(Clone, Copy, Debug, PartialEq, Eq, Structural)]
pub enum NumberError {
    /// The text is not made of blanks, then digits, then white space; or the
    /// digits write a number too large for the machine.
    NotANumber,
    /// The text is a number, but one outside the range asked for.
    OutOfRange,
}

/// What the user is told of `error`.
pub open spec fn number_error_text(error: NumberError) -> Seq<char> {
    match error {
        NumberError::NotANumber => "Provided input is not a valid number"@,
        NumberError::OutOfRange => "Provided input is not within the required range"@,
    }
}

impl NumberError {
    /// The error in words.
    pub fn message(&self) -> (text: String)
        ensures
            text@ == number_error_text(*self),
    {
        match self {
            NumberError::NotANumber => String::from_str("Provided input is not a valid number"),
            NumberError::OutOfRange => String::from_str(
                "Provided input is not within the required range",
            ),
        }
    }
}

/// Number of blanks that `s` starts with.
pub open spec fn blank_run(s: Seq<char>) -> nat
    decreases s.len(),
{
    if s.len() > 0 && is_blank(s[0]) {
        1 + blank_run(s.drop_first())
    } else {
        0
    }
}

/// Number of digits that `s` starts with.
pub open spec fn digit_run(s: Seq<char>) -> nat
    decreases s.len(),
{
    if s.len() > 0 && is_digit(s[0]) {
        1 + digit_run(s.drop_first())
    } else {
        0
    }
}

/// Where the digits of the number start in `s`: behind the leading blanks.
pub open spec fn digits_start(s: Seq<char>) -> int {
    blank_run(s) as int
}

/// Where the digits of the number end in `s`.
pub open spec fn digits_end(s: Seq<char>) -> int {
    digits_start(s) + digit_run(s.skip(digits_start(s)))
}

/// The digits of the number in `s`: the longest run of digits behind the
/// leading blanks.
pub open spec fn number_digits(s: Seq<char>) -> Seq<char> {
    s.subrange(digits_start(s), digits_end(s))
}

/// Whether `s` is written as a number: blanks or none, one digit or more,
/// then nothing but white space.
pub open spec fn is_number_text(s: Seq<char>) -> bool {
    number_digits(s).len() > 0 && all_whitespace(s.skip(digits_end(s)))
}

/// What the text `s` means as a number from `low` to `high`, both included.
pub open spec fn number_between(s: Seq<char>, low: int, high: int) -> Result<usize, NumberError> {
    let value = decimal_value(number_digits(s));
    if !is_number_text(s) || value > usize::MAX {
        Err(NumberError::NotANumber)
    } else if !(low <= value <= high) {
        Err(NumberError::OutOfRange)
    } else {
        Ok(value as usize)
    }
}

/// The least number in `range`, if it holds any.
pub open spec fn range_low(range: RangeInclusive<usize>) -> int {
    range@.start as int
}

/// The greatest number in `range`, if it holds any. A range that was walked
/// to its end no longer holds its upper end.
pub open spec fn range_high(range: RangeInclusive<usize>) -> int {
    if range@.exhausted {
        range@.end - 1
    } else {
        range@.end as int
    }
}

/// A text of digits alone is one run of digits.
pub proof fn lemma_digit_run_of_digits(s: Seq<char>)
    requires
        forall|i: int| 0 <= i < s.len() ==> is_digit(#[trigger] s[i]),
    ensures
        digit_run(s) == s.len(),
    decreases s.len(),
{
    if s.len() > 0 {
        lemma_digit_run_of_digits(s.drop_first());
    }
}

/// A number written in decimal is read back as that number: where `n` lies
/// from `low` to `high` and fits the machine, the text `decimal(n)` means
/// `n`.
pub proof fn lemma_written_number_is_read(n: nat, low: int, high: int)
    requires
        low <= n <= high,
        n <= usize::MAX,
    ensures
        number_between(decimal(n), low, high) == Ok::<usize, NumberError>(n as usize),
{
    let s = decimal(n);
    lemma_decimal_is_digits(n);
    lemma_decimal_value_of_decimal(n);
    lemma_digit_run_of_digits(s);
    assert(is_digit(s[0]));
    assert(blank_run(s) == 0);
    assert(s.skip(0) =~= s);
    assert(number_digits(s) =~= s);
    assert(s.skip(digits_end(s)) =~= Seq::<char>::empty());
}

/// The leading blanks of a text are part of it.
pub proof fn lemma_blank_run_in_text(s: Seq<char>)
    ensures
        blank_run(s) <= s.len(),
    decreases s.len(),
{
    if s.len() > 0 {
        lemma_blank_run_in_text(s.drop_first());
    }
}

/// The leading digits of a text are part of it.
pub proof fn lemma_digit_run_in_text(s: Seq<char>)
    ensures
        digit_run(s) <= s.len(),
    decreases s.len(),
{
    if s.len() > 0 {
        lemma_digit_run_in_text(s.drop_first());
    }
}

/// A text of white space alone, the empty text among them, is no number.
pub proof fn lemma_whitespace_is_no_number(s: Seq<char>, low: int, high: int)
    requires
        all_whitespace(s),
    ensures
        number_between(s, low, high) == Err::<usize, NumberError>(NumberError::NotANumber),
{
    lemma_blank_run_in_text(s);
    let rest = s.skip(digits_start(s));
    if rest.len() > 0 {
        assert(rest[0] == s[digits_start(s)]);
        assert(is_whitespace(rest[0]));
    }
    assert(digit_run(rest) == 0);
}

/// The run of blanks at the start of `s` has the length `k` exactly where
/// the first `k` characters are blanks and the next one, if any, is none.
pub proof fn lemma_blank_run_is(s: Seq<char>, k: int)
    requires
        0 <= k <= s.len(),
    ensures
        blank_run(s) == k <==> (forall|i: int| 0 <= i < k ==> is_blank(#[trigger] s[i])) && (k
            < s.len() ==> !is_blank(s[k])),
    decreases s.len(),
{
    if s.len() > 0 && is_blank(s[0]) {
        let rest = s.drop_first();
        if k > 0 {
            lemma_blank_run_is(rest, k - 1);
            assert forall|i: int| 0 <= i < k - 1 implies is_blank(#[trigger] rest[i]) == is_blank(
                s[i + 1],
            ) by {}
            if blank_run(s) == k {
                assert forall|i: int| 0 <= i < k implies is_blank(#[trigger] s[i]) by {
                    if i > 0 {
                        assert(is_blank(rest[i - 1]));
                    }
                }
            }
            if forall|i: int| 0 <= i < k ==> is_blank(#[trigger] s[i]) {
                assert forall|i: int| 0 <= i < k - 1 implies is_blank(#[trigger] rest[i]) by {
                    assert(is_blank(s[i + 1]));
                }
            }
            assert(k < s.len() ==> rest[k - 1] == s[k]);
        }
    } else if k > 0 && s.len() > 0 {
        assert(!is_blank(s[0]));
    }
}

/// The run of digits at the start of `s` has the length `k` exactly where
/// the first `k` characters are digits and the next one, if any, is none.
pub proof fn lemma_digit_run_is(s: Seq<char>, k: int)
    requires
        0 <= k <= s.len(),
    ensures
        digit_run(s) == k <==> (forall|i: int| 0 <= i < k ==> is_digit(#[trigger] s[i])) && (k
            < s.len() ==> !is_digit(s[k])),
    decreases s.len(),
{
    if s.len() > 0 && is_digit(s[0]) {
        let rest = s.drop_first();
        if k > 0 {
            lemma_digit_run_is(rest, k - 1);
            assert forall|i: int| 0 <= i < k - 1 implies is_digit(#[trigger] rest[i]) == is_digit(
                s[i + 1],
            ) by {}
            if digit_run(s) == k {
                assert forall|i: int| 0 <= i < k implies is_digit(#[trigger] s[i]) by {
                    if i > 0 {
                        assert(is_digit(rest[i - 1]));
                    }
                }
            }
            if forall|i: int| 0 <= i < k ==> is_digit(#[trigger] s[i]) {
                assert forall|i: int| 0 <= i < k - 1 implies is_digit(#[trigger] rest[i]) by {
                    assert(is_digit(s[i + 1]));
                }
            }
            assert(k < s.len() ==> rest[k - 1] == s[k]);
        }
    } else if k > 0 && s.len() > 0 {
        assert(!is_digit(s[0]));
    }
}

/// Whether `s` is made of `lead` blanks, then digits up to the position
/// `end`, then white space to its end.
pub open spec fn has_number_shape(s: Seq<char>, lead: int, end: int) -> bool {
    &&& 0 <= lead < end <= s.len()
    &&& forall|i: int| 0 <= i < lead ==> is_blank(#[trigger] s[i])
    &&& forall|i: int| lead <= i < end ==> is_digit(#[trigger] s[i])
    &&& forall|i: int| end <= i < s.len() ==> is_whitespace(#[trigger] s[i])
}

/// A text is written as a number exactly where it is blanks or none, then
/// one digit or more, then nothing but white space; the digits are then the
/// ones that are read. So a letter, a sign or any other mark before or
/// behind the digits makes the text no number.
pub proof fn lemma_number_shape(s: Seq<char>)
    ensures
        is_number_text(s) ==> has_number_shape(s, digits_start(s), digits_end(s)),
        forall|lead: int, end: int| #[trigger]
            has_number_shape(s, lead, end) ==> is_number_text(s) && lead == digits_start(s) && end
                == digits_end(s),
{
    lemma_blank_run_in_text(s);
    let start = digits_start(s);
    let rest = s.skip(start);
    lemma_blank_run_is(s, start);
    if is_number_text(s) {
        let run = digit_run(rest) as int;
        lemma_digit_run_in_text(rest);
        lemma_digit_run_is(rest, run);
        assert forall|i: int| start <= i < start + run implies is_digit(#[trigger] s[i]) by {
            assert(is_digit(rest[i - start]));
        }
        assert forall|i: int| start + run <= i < s.len() implies is_whitespace(
            #[trigger] s[i],
        ) by {
            assert(is_whitespace(s.skip(start + run)[i - (start + run)]));
        }
    }
    assert forall|lead: int, end: int| #[trigger] has_number_shape(s, lead, end) implies {
        &&& is_number_text(s)
        &&& lead == digits_start(s)
        &&& end == digits_end(s)
    } by {
        assert(is_digit(s[lead]));
        lemma_blank_run_is(s, lead);
        let tail = s.skip(lead);
        lemma_digit_run_is(tail, end - lead);
        assert forall|i: int| 0 <= i < end - lead implies is_digit(#[trigger] tail[i]) by {
            assert(is_digit(s[lead + i]));
        }
        if end < s.len() {
            assert(is_whitespace(s[end]));
            assert(tail[end - lead] == s[end]);
        }
        assert forall|i: int| 0 <= i < s.skip(end).len() implies is_whitespace(
            #[trigger] s.skip(end)[i],
        ) by {
            assert(is_whitespace(s[end + i]));
        }
    }
}

/// Counts the blanks that `chars` starts with.
fn count_blanks(chars: &Vec<char>) -> (count: usize)
    ensures
        count == blank_run(chars@),
        count <= chars@.len(),
{
    let ghost s = chars@;
    let mut i: usize = 0;
    assert(s.skip(0) =~= s);
    while i < chars.len() && blank(chars[i])
        invariant
            chars@ == s,
            i <= s.len(),
            blank_run(s) == i + blank_run(s.skip(i as int)),
        decreases s.len() - i,
    {
        assert(s.skip(i as int).drop_first() =~= s.skip(i + 1));
        i += 1;
    }
    i
}

/// Finds the end of the digits that start at `from`.
fn count_digits(chars: &Vec<char>, from: usize) -> (end: usize)
    requires
        from <= chars@.len(),
    ensures
        end == from + digit_run(chars@.skip(from as int)),
        end <= chars@.len(),
        forall|j: int| from <= j < end ==> is_digit(#[trigger] chars@[j]),
{
    let ghost s = chars@;
    let mut i: usize = from;
    while i < chars.len() && digit(chars[i])
        invariant
            chars@ == s,
            from <= i <= s.len(),
            digit_run(s.skip(from as int)) == (i - from) + digit_run(s.skip(i as int)),
            forall|j: int| from <= j < i ==> is_digit(#[trigger] s[j]),
        decreases s.len() - i,
    {
        assert(s.skip(i as int).drop_first() =~= s.skip(i + 1));
        i += 1;
    }
    i
}

/// The number that the digits from `from` up to `to` write, unless it is
/// too large for a `usize`.
fn read_decimal(chars: &Vec<char>, from: usize, to: usize) -> (value: Option<usize>)
    requires
        from <= to <= chars@.len(),
        forall|j: int| from <= j < to ==> is_digit(#[trigger] chars@[j]),
    ensures
        match value {
            Some(v) => v == decimal_value(chars@.subrange(from as int, to as int)),
            None => decimal_value(chars@.subrange(from as int, to as int)) > usize::MAX,
        },
{
    let ghost s = chars@;
    let mut value: usize = 0;
    let mut too_large = false;
    let mut i: usize = from;
    assert(s.subrange(from as int, from as int) =~= Seq::<char>::empty());
    while i < to
        invariant
            chars@ == s,
            from <= i <= to <= s.len(),
            forall|j: int| from <= j < to ==> is_digit(#[trigger] s[j]),
            !too_large ==> value == decimal_value(s.subrange(from as int, i as int)),
            too_large ==> decimal_value(s.subrange(from as int, i as int)) > usize::MAX,
        decreases to - i,
    {
        assert(s.subrange(from as int, i + 1).drop_last() =~= s.subrange(from as int, i as int));
        assert(is_digit(s[i as int]));
        let d: usize = (chars[i] as u32 - 0x30) as usize;
        if !too_large {
            match value.checked_mul(10) {
                Some(tens) => match tens.checked_add(d) {
                    Some(sum) => {
                        value = sum;
                    },
                    None => {
                        too_large = true;
                    },
                },
                None => {
                    too_large = true;
                },
            }
        }
        i += 1;
    }
    if too_large {
        None
    } else {
        Some(value)
    }
}

/// Whether nothing but white space stands in `chars` from `from` on.
fn only_whitespace_from(chars: &Vec<char>, from: usize) -> (b: bool)
    requires
        from <= chars@.len(),
    ensures
        b == all_whitespace(chars@.skip(from as int)),
{
    let ghost s = chars@;
    let mut i: usize = from;
    while i < chars.len()
        invariant
            chars@ == s,
            from <= i <= s.len(),
            forall|j: int| from <= j < i ==> is_whitespace(#[trigger] s[j]),
        decreases s.len() - i,
    {
        if !whitespace(chars[i]) {
            assert(!is_whitespace(s.skip(from as int)[i - from]));
            return false;
        }
        i += 1;
    }
    true
}

/// Reads the number that `number_input` writes and checks it against `range`.
///
/// The number may be preceded by spaces and tabs and followed by white
/// space, such as the end of the line; anything else around the digits makes
/// the text no number.
pub fn parse_number_in_range(number_input: &str, range: RangeInclusive<usize>) -> (result: Result<
    usize,
    NumberError,
>)
    ensures
        result == number_between(number_input@, range_low(range), range_high(range)),
{
    let chars = chars_of(number_input);
    let start = count_blanks(&chars);
    let end = count_digits(&chars, start);
    if end == start || !only_whitespace_from(&chars, end) {
        return Err(NumberError::NotANumber);
    }
    match read_decimal(&chars, start, end) {
        None => Err(NumberError::NotANumber),
        Some(value) => if range.contains(&value) {
            Ok(value)
        } else {
            Err(NumberError::OutOfRange)
        },
    }
}

} // verus!
