//! What the library takes on trust about the standard library's text functions.

use vstd::prelude::*;
use vstd::utf8::{decode_utf8, valid_utf8};

verus! {

/// `core::str::Utf8Error`: where a byte string stops being UTF-8. Carried,
/// never read.
#[verifier::external_type_specification]
#[verifier::external_body]
pub struct ExUtf8Error(core::str::Utf8Error);

/// The lower-case form of a text, as `str::to_lowercase` computes it from the
/// Unicode case tables. It depends on the characters alone, not on a locale.
pub uninterp spec fn lowercase(text: Seq<char>) -> Seq<char>;

/// Whether a character is a letter or a digit in the sense of
/// `char::is_alphanumeric` (the Unicode classes `Alphabetic`, `Nd`, `Nl`, `No`).
pub uninterp spec fn alphanumeric(c: char) -> bool;

/// `str::to_lowercase` returns the lower-case form of the whole text as a new
/// string. Nothing more is claimed of it than that the result is that form.
pub assume_specification[ str::to_lowercase ](text: &str) -> (lowered: String)
    ensures
        lowered@ == lowercase(text@),
;

/// `char::is_alphanumeric` tells whether the character is a letter or a digit.
pub assume_specification[ char::is_alphanumeric ](c: char) -> (yes: bool)
    ensures
        yes == alphanumeric(c),
;

/// `core::str::from_utf8` succeeds exactly on well-formed UTF-8, and the
/// string slice it then returns holds the characters that the bytes encode.
pub assume_specification<'a>[ core::str::from_utf8 ](bytes: &'a [u8]) -> (decoded: Result<
    &'a str,
    core::str::Utf8Error,
>)
    ensures
        decoded is Ok <==> valid_utf8(bytes@),
        decoded matches Ok(text) ==> text@ == decode_utf8(bytes@),
;

/// `String::push` appends one character at the end of the string.
pub assume_specification[ String::push ](text: &mut String, c: char)
    ensures
        final(text)@ == old(text)@.push(c),
;

} // verus!
