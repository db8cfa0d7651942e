//! Character classes and measures that the domain rules are stated over.

use unicode_segmentation::UnicodeSegmentation;
use vstd::prelude::*;

verus! {

/// The 128 bits of the UUID that a text spells, in any of the forms that
/// `Uuid::parse_str` reads; `None` for a text that spells none.
pub uninterp spec fn uuid_value(text: Seq<char>) -> Option<u128>;

/// The hyphenated lower-case spelling of the UUID with the given 128 bits.
pub uninterp spec fn uuid_text(id: u128) -> Seq<char>;

/// `Uuid::parse_str`, then `Uuid::as_u128`: the bits of the UUID that the
/// text spells, or `None` where parsing fails.
#[verifier::external_body]
pub(crate) fn uuid_from_text(text: &str) -> (id: Option<u128>)
    ensures
        id == uuid_value(text@),
{
    match uuid::Uuid::parse_str(text) {
        Ok(id) => Some(id.as_u128()),
        Err(_) => None,
    }
}

/// `Uuid::from_u128`, then the `Display` of `Uuid`: the hyphenated
/// lower-case spelling of the UUID with these bits.
#[verifier::external_body]
pub(crate) fn uuid_to_text(id: u128) -> (text: String)
    ensures
        text@ == uuid_text(id),
{
    uuid::Uuid::from_u128(id).to_string()
}

/// Whether `c` has the Unicode property White_Space, as `char::is_whitespace`
/// reports it.
pub uninterp spec fn white_space(c: char) -> bool;

/// Whether `c` is a Unicode letter or number, as `char::is_alphanumeric`
/// reports it.
pub uninterp spec fn alphanumeric(c: char) -> bool;

/// The number of extended grapheme clusters of a text, as the Unicode
/// segmentation rules count them.
pub uninterp spec fn grapheme_len(s: Seq<char>) -> nat;

/// The lower-case form of a text, as `str::to_lowercase` gives it.
pub uninterp spec fn lowercased(s: Seq<char>) -> Seq<char>;

/// `str::to_lowercase`: the result is the lower-case form of the text.
#[verifier::external_body]
pub(crate) fn to_lowercase(s: &str) -> (lower: String)
    ensures
        lower@ == lowercased(s@),
{
    s.to_lowercase()
}

/// A text with nothing in it but white space; the empty text is one.
pub open spec fn all_white_space(s: Seq<char>) -> bool {
    forall|i: int| 0 <= i < s.len() ==> white_space(#[trigger] s[i])
}

/// The length of a text in bytes of UTF-8.
pub open spec fn byte_len(s: Seq<char>) -> nat {
    vstd::utf8::encode_utf8(s).len()
}

/// `char::is_whitespace`: the result is the character's White_Space
/// property.
#[verifier::external_body]
pub(crate) fn is_whitespace(c: char) -> (b: bool)
    ensures
        b == white_space(c),
{
    c.is_whitespace()
}

/// `char::is_alphanumeric`: the result is whether the character is a Unicode
/// letter or number.
#[verifier::external_body]
pub(crate) fn is_alphanumeric(c: char) -> (b: bool)
    ensures
        b == alphanumeric(c),
{
    c.is_alphanumeric()
}

/// `UnicodeSegmentation::graphemes` with extended clusters, counted: the
/// result is the number of grapheme clusters of the text.
#[verifier::external_body]
pub(crate) fn grapheme_count(s: &str) -> (n: usize)
    ensures
        n == grapheme_len(s@),
{
    s.graphemes(true).count()
}

/// Whether two texts are the same, character by character.
pub fn same_text(a: &str, b: &str) -> (same: bool)
    ensures
        same == (a@ == b@),
{
    a.to_owned() == b.to_owned()
}

/// Whether trimming white space off `s` leaves nothing.
pub fn is_blank(s: &str) -> (b: bool)
    ensures
        b == all_white_space(s@),
{
    let n: usize = s.unicode_len();
    let mut i: usize = 0;
    while i < n
        invariant
            0 <= i <= n,
            n == s@.len(),
            forall|j: int| 0 <= j < i ==> white_space(#[trigger] s@[j]),
        decreases n - i,
    {
        if !is_whitespace(s.get_char(i)) {
            return false;
        }
        i += 1;
    }
    true
}

} // verus!
