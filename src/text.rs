//! Character classes and case mappings from `std`, and small string helpers.
use vstd::prelude::*;

verus! {

/// Whether `c` has the Unicode White_Space property (`char::is_whitespace`).
pub uninterp spec fn white_space(c: char) -> bool;

/// Whether `c` is alphabetic or numeric (`char::is_alphanumeric`).
pub uninterp spec fn alphanumeric(c: char) -> bool;

/// Whether `c` has the Unicode Uppercase property (`char::is_uppercase`).
pub uninterp spec fn uppercase(c: char) -> bool;

/// The text of `str::to_lowercase` on `s`.
pub uninterp spec fn lower_of(s: Seq<char>) -> Seq<char>;

/// The characters of `char::to_uppercase` on `c`.
pub uninterp spec fn char_upper(c: char) -> Seq<char>;

/// The characters of `char::to_lowercase` on `c`.
pub uninterp spec fn char_lower(c: char) -> Seq<char>;

/// Relies on `char::is_whitespace`.
#[verifier::external_body]
pub(crate) fn is_white_space(c: char) -> (r: bool)
    ensures
        r == white_space(c),
{
    c.is_whitespace()
}

/// Relies on `char::is_alphanumeric`.
#[verifier::external_body]
pub(crate) fn is_alphanumeric(c: char) -> (r: bool)
    ensures
        r == alphanumeric(c),
{
    c.is_alphanumeric()
}

/// Relies on `char::is_uppercase`.
#[verifier::external_body]
pub(crate) fn is_uppercase(c: char) -> (r: bool)
    ensures
        r == uppercase(c),
{
    c.is_uppercase()
}

/// Relies on `str::to_lowercase`.
#[verifier::external_body]
pub(crate) fn lowercase(s: &str) -> (r: String)
    ensures
        r@ == lower_of(s@),
{
    s.to_lowercase()
}

/// Relies on `char::to_uppercase`, collected into a string.
#[verifier::external_body]
pub(crate) fn uppercase_char(c: char) -> (r: String)
    ensures
        r@ == char_upper(c),
{
    c.to_uppercase().collect()
}

/// Relies on `char::to_lowercase`, collected into a string.
#[verifier::external_body]
pub(crate) fn lowercase_char(c: char) -> (r: String)
    ensures
        r@ == char_lower(c),
{
    c.to_lowercase().collect()
}

/// Relies on `String::push`: appends one character.
#[verifier::external_body]
pub(crate) fn push_char(s: &mut String, c: char)
    ensures
        final(s)@ == old(s)@.push(c),
{
    s.push(c)
}

/// Character-wise equality of two strings.
pub(crate) fn same_text(a: &str, b: &str) -> (r: bool)
    ensures
        r == (a@ == b@),
{
    let n = a.unicode_len();
    if n != b.unicode_len() {
        return false;
    }
    let mut i: usize = 0;
    while i < n
        invariant
            n == a@.len(),
            n == b@.len(),
            i <= n,
            forall|j: int| 0 <= j < i ==> a@[j] == b@[j],
        decreases n - i,
    {
        if a.get_char(i) != b.get_char(i) {
            return false;
        }
        i = i + 1;
    }
    assert(a@ =~= b@);
    true
}

} // verus!
