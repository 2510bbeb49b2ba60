//! Texts: comparing, building and reading them.

use vstd::prelude::*;

verus! {

/// Whether two texts are the same.
pub fn same_text(a: &str, b: &str) -> (same: bool)
    ensures
        same == (a@ == b@),
{
    a.to_owned() == b.to_owned()
}

/// Appends one character with `String::push`.
#[verifier::external_body]
fn push_char(text: &mut String, c: char)
    ensures
        final(text)@ == old(text)@.push(c),
{
    text.push(c);
}

/// The text without its double quotes.
pub open spec fn unquoted(text: Seq<char>) -> Seq<char> {
    text.filter(|c: char| c != '"')
}

/// Copies a text, leaving out every double quote.
pub fn strip_quotes(text: &str) -> (bare: String)
    ensures
        bare@ == unquoted(text@),
{
    let mut bare = String::new();
    proof {
        reveal(Seq::filter);
        assert(text@.take(0) =~= Seq::empty());
    }
    for c in it: text.chars()
        invariant
            it.seq() == text@,
            bare@ == unquoted(it.seq().take(it.index() as int)),
    {
        proof {
            reveal(Seq::filter);
            let upto = it.seq().take(it.index() + 1);
            assert(upto.drop_last() =~= it.seq().take(it.index() as int));
            assert(upto.last() == c);
        }
        if c != '"' {
            push_char(&mut bare, c);
        }
    }
    assert(text@.take(text@.len() as int) =~= text@);
    bare
}

/// Whether a character is a decimal digit.
pub open spec fn is_digit(c: char) -> bool {
    '0' <= c <= '9'
}

/// The number that a row of decimal digits spells.
pub open spec fn digits_value(digits: Seq<char>) -> int
    decreases digits.len(),
{
    if digits.len() == 0 {
        0
    } else {
        digits_value(digits.drop_last()) * 10 + (digits.last() as int - '0' as int)
    }
}

/// The integer that a text spells in decimal: digits, at least one of
/// them, after at most one sign and with nothing before, between or after.
pub open spec fn integer_of(text: Seq<char>) -> Option<int> {
    let signed = text.len() > 0 && (text[0] == '-' || text[0] == '+');
    let digits = if signed {
        text.drop_first()
    } else {
        text
    };
    if digits.len() > 0 && (forall|i: int|
        0 <= i < digits.len() ==> is_digit(#[trigger] digits[i])) {
        Some(
            if signed && text[0] == '-' {
                -digits_value(digits)
            } else {
                digits_value(digits)
            },
        )
    } else {
        None
    }
}

/// The `i32` that a text spells, if it spells an integer of that range.
pub open spec fn i32_of(text: Seq<char>) -> Option<i32> {
    match integer_of(text) {
        Some(v) => if i32::MIN <= v <= i32::MAX {
            Some(v as i32)
        } else {
            None
        },
        None => None,
    }
}

/// What `str::parse` says against a text that spells no `i32`: the error
/// in its `Debug` form.
pub uninterp spec fn int_error_text(text: Seq<char>) -> Seq<char>;

/// Reads an `i32` with `str::parse`: decimal digits after an optional
/// sign, within the range of the type. Any other text is an error, which
/// is returned in its `Debug` form.
#[verifier::external_body]
pub(crate) fn parse_i32(text: &str) -> (result: Result<i32, String>)
    ensures
        match result {
            Ok(v) => i32_of(text@) == Some(v),
            Err(e) => i32_of(text@) is None && e@ == int_error_text(text@),
        },
{
    match text.parse::<i32>() {
        Ok(v) => Ok(v),
        Err(err) => Err(format!("{:?}", err)),
    }
}

} // verus!
