//! Lenient decoding of bytes as text.

use vstd::prelude::*;

verus! {

/// The text that bytes are read as when no byte sequence may be refused:
/// what is valid UTF-8 is decoded, and every invalid sequence is replaced by
/// U+FFFD. This is the result of `String::from_utf8_lossy`.
pub uninterp spec fn lossy_utf8(bytes: Seq<u8>) -> Seq<char>;

/// Decodes `bytes` leniently, by `String::from_utf8_lossy`.
///
/// Not proved: that the result is `lossy_utf8` of the bytes, and that bytes
/// which are valid UTF-8 come out as the text they encode, with nothing
/// replaced.
#[verifier::external_body]
pub(crate) fn decode_lossy(bytes: &Vec<u8>) -> (text: String)
    ensures
        text@ == lossy_utf8(bytes@),
        vstd::utf8::valid_utf8(bytes@) ==> text@ == vstd::utf8::decode_utf8(bytes@),
{
    String::from_utf8_lossy(bytes).into_owned()
}

} // verus!
