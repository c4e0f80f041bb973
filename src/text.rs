//! The text fields of the header, decoded as UTF-8.

use vstd::prelude::*;
use crate::rom::RomLoadError;

verus! {

/// What `std::str::from_utf8` makes of a sequence of bytes: the characters that
/// they encode, or nothing where they are not well-formed UTF-8.
pub uninterp spec fn utf8_decoding(bytes: Seq<u8>) -> Option<Seq<char>>;

/// Relies on `std::str::from_utf8`: it succeeds exactly on well-formed UTF-8,
/// and then the text is what the bytes encode; which of the two holds, and the
/// text, depend on the bytes alone.
#[verifier::external_body]
fn decode_utf8(bytes: &[u8]) -> (r: Option<&str>)
    ensures
        match r {
            Some(s) => utf8_decoding(bytes@) == Some(s@),
            None => utf8_decoding(bytes@) is None,
        },
{
    std::str::from_utf8(bytes).ok()
}

/// Reads a fixed-width text field as UTF-8. Padding bytes are kept as they are.
pub fn bytes_to_utf8_string(bytes: &[u8]) -> (r: Result<&str, RomLoadError>)
    ensures
        match utf8_decoding(bytes@) {
            Some(text) => r matches Ok(s) && s@ == text,
            None => r matches Err(RomLoadError::TextDecodeError),
        },
{
    match decode_utf8(bytes) {
        Some(s) => Ok(s),
        None => Err(RomLoadError::TextDecodeError),
    }
}

} // verus!
