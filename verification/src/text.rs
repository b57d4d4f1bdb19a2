//! Operations on text that other crates and the standard library perform.
//!
//! Nothing in this file is proved. Each function hands its arguments to the
//! function named above it, and its contract is what the rest of the library
//! takes for granted of that function.

use nonempty::NonEmpty;
use non_empty_string::NonEmptyString;
use vstd::prelude::*;

verus! {

/// The words that `shlex::split` makes of a text, or `None` where it finds
/// the text erroneous: ended inside a quotation or right after a backslash.
pub uninterp spec fn shell_words(text: Seq<char>) -> Option<Seq<Seq<char>>>;

/// `shlex::split`: splits a text into words as a POSIX shell would. The
/// result depends on the text alone, and is known here only by its name.
#[verifier::external_body]
pub(crate) fn split_words(text: &str) -> (words: Option<Vec<String>>)
    ensures
        words is Some <==> shell_words(text@) is Some,
        words matches Some(list) ==> Some(list.deep_view()) == shell_words(text@),
{
    shlex::split(text)
}

/// `nonempty::NonEmpty::from_vec`: parts a list into its first item and the
/// others, in their order; an empty list has no first item.
#[verifier::external_body]
pub(crate) fn head_and_tail(words: Vec<String>) -> (parted: Option<(String, Vec<String>)>)
    ensures
        parted is Some <==> words@.len() > 0,
        parted matches Some((head, tail)) ==> head@ == words.deep_view()[0] && tail.deep_view()
            == words.deep_view().skip(1),
{
    NonEmpty::from_vec(words).map(|list| (list.head, list.tail))
}

/// `nonempty::NonEmpty::from_slice`: copies of the first item of a list and
/// of the others, in their order; an empty list has no first item.
#[verifier::external_body]
pub(crate) fn first_and_rest(words: &[String]) -> (parted: Option<(String, Vec<String>)>)
    ensures
        parted is Some <==> words@.len() > 0,
        parted matches Some((head, tail)) ==> head@ == words.deep_view()[0] && tail.deep_view()
            == words.deep_view().skip(1),
{
    NonEmpty::from_slice(words).map(|list| (list.head, list.tail))
}

/// `non_empty_string::NonEmptyString::new`: accepts a text that has at least
/// one character, and keeps it as it is.
#[verifier::external_body]
pub(crate) fn non_empty(text: String) -> (kept: Option<String>)
    ensures
        kept is Some <==> text@.len() > 0,
        kept matches Some(same) ==> same@ == text@,
{
    match NonEmptyString::new(text) {
        Ok(checked) => Some(checked.into_inner()),
        Err(_) => None,
    }
}

/// What `str::parse::<bool>` says of a text that it rejects.
pub uninterp spec fn bool_parse_failure(text: Seq<char>) -> Seq<char>;

/// `str::parse::<bool>`: accepts the texts `true` and `false` and no other.
/// What it says of a text that it rejects depends on the text alone, and is
/// known here only by its name.
#[verifier::external_body]
pub(crate) fn parse_bool(text: &str) -> (parsed: Result<bool, String>)
    ensures
        parsed is Ok <==> text@ == "true"@ || text@ == "false"@,
        parsed matches Ok(value) ==> (value <==> text@ == "true"@),
        parsed matches Err(said) ==> said@ == bool_parse_failure(text@),
{
    match text.parse::<bool>() {
        Ok(value) => Ok(value),
        Err(error) => Err(error.to_string()),
    }
}

/// Whether a character is one of the ten decimal digits.
pub open spec fn is_decimal_digit(c: char) -> bool {
    '0' <= c && c <= '9'
}

/// The number that a row of decimal digits writes.
pub open spec fn decimal_value(digits: Seq<char>) -> nat
    decreases digits.len(),
{
    if digits.len() == 0 {
        0
    } else {
        (decimal_value(digits.drop_last()) * 10 + (digits.last() as u32 - '0' as u32)) as nat
    }
}

/// A text without the plus sign that may stand in front of a number.
pub open spec fn without_plus(text: Seq<char>) -> Seq<char> {
    if text.len() > 0 && text[0] == '+' {
        text.skip(1)
    } else {
        text
    }
}

/// The number that a text writes in decimal: the text is a plus sign or
/// none, then at least one digit and nothing but digits, and the number fits
/// a `usize`. Any other text writes none.
pub open spec fn decimal_usize(text: Seq<char>) -> Option<usize> {
    let digits = without_plus(text);
    if digits.len() > 0 && (forall|i: int|
        0 <= i < digits.len() ==> is_decimal_digit(#[trigger] digits[i])) && decimal_value(digits)
        <= usize::MAX {
        Some(decimal_value(digits) as usize)
    } else {
        None
    }
}

/// What `str::parse::<usize>` says of a text that it rejects.
pub uninterp spec fn usize_parse_failure(text: Seq<char>) -> Seq<char>;

/// `str::parse::<usize>`: reads a number written in decimal, as
/// `decimal_usize` says. What it says of a text that it rejects depends on
/// the text alone, and is known here only by its name.
#[verifier::external_body]
pub(crate) fn parse_usize(text: &str) -> (parsed: Result<usize, String>)
    ensures
        parsed is Ok <==> decimal_usize(text@) is Some,
        parsed matches Ok(number) ==> decimal_usize(text@) == Some(number),
        parsed matches Err(said) ==> said@ == usize_parse_failure(text@),
{
    match text.parse::<usize>() {
        Ok(number) => Ok(number),
        Err(error) => Err(error.to_string()),
    }
}

} // verus!
