//! Character-level helpers: line terminators, case folding, letters.
use vstd::prelude::*;

verus! {

/// What `str::to_lowercase` returns for a string of these characters.
pub uninterp spec fn lower_of(s: Seq<char>) -> Seq<char>;

/// Whether `char::is_alphabetic` holds of `c` (the Unicode `Alphabetic` property).
pub uninterp spec fn is_alphabetic_char(c: char) -> bool;

/// Relies on `str::to_lowercase`: its result depends on the characters alone.
#[verifier::external_body]
pub(crate) fn to_lower(s: &str) -> (r: String)
    ensures
        r@ == lower_of(s@),
{
    s.to_lowercase()
}

/// Relies on `char::is_alphabetic`.
#[verifier::external_body]
pub(crate) fn char_is_alphabetic(c: char) -> (r: bool)
    ensures
        r == is_alphabetic_char(c),
{
    c.is_alphabetic()
}

/// Every character of `s` is a letter (vacuously true of the empty sequence).
pub open spec fn all_alphabetic(s: Seq<char>) -> bool {
    forall|i: int| 0 <= i < s.len() ==> is_alphabetic_char(#[trigger] s[i])
}

/// The text of a raw input line without its terminator (`"\r\n"` or `"\n"`),
/// or `None` when the line has no terminator yet and is not a complete submission.
pub open spec fn line_body(raw: Seq<char>) -> Option<Seq<char>> {
    let n = raw.len() as int;
    if n >= 2 && raw[n - 2] == '\r' && raw[n - 1] == '\n' {
        Some(raw.subrange(0, n - 2))
    } else if n >= 1 && raw[n - 1] == '\n' {
        Some(raw.subrange(0, n - 1))
    } else {
        None
    }
}

/// Strips the line terminator from a raw input line; `None` if there is none.
pub fn complete_line(raw: &str) -> (r: Option<String>)
    ensures
        r matches Some(s) ==> line_body(raw@) == Some(s@),
        r is None ==> line_body(raw@) is None,
{
    let n = raw.unicode_len();
    if n >= 2 && raw.get_char(n - 2) == '\r' && raw.get_char(n - 1) == '\n' {
        Some(raw.substring_char(0, n - 2).to_owned())
    } else if n >= 1 && raw.get_char(n - 1) == '\n' {
        Some(raw.substring_char(0, n - 1).to_owned())
    } else {
        None
    }
}

/// Whether every character of `s` is a letter.
pub fn is_all_alphabetic(s: &Vec<char>) -> (r: bool)
    ensures
        r == all_alphabetic(s@),
{
    let mut i: usize = 0;
    while i < s.len()
        invariant
            i <= s@.len(),
            forall|j: int| 0 <= j < i ==> is_alphabetic_char(#[trigger] s@[j]),
        decreases s@.len() - i,
    {
        if !char_is_alphabetic(s[i]) {
            return false;
        }
        i += 1;
    }
    true
}

} // verus!
