//! Lossy UTF-8 decoding of request bytes.
//!
//! Whatever bytes a peer sends, decoding yields a `String`: invalid
//! sequences are replaced, never rejected.  The decoded text is a
//! function of the bytes alone, named by `lossy_decode`.

use vstd::prelude::*;

verus! {

/// The text that lossy UTF-8 decoding yields for a byte sequence.
pub uninterp spec fn lossy_decode(bytes: Seq<u8>) -> Seq<char>;

/// Relies on `String::from_utf8_lossy`: it never fails, its result is a
/// function of the input bytes alone, and no bytes decode to no text.
#[verifier::external_body]
fn utf8_lossy(bytes: &Vec<u8>) -> (s: String)
    ensures
        s@ == lossy_decode(bytes@),
        bytes@.len() == 0 ==> s@.len() == 0,
{
    String::from_utf8_lossy(bytes).into_owned()
}

/// Decode request bytes as UTF-8 with lossy substitution.  Total: every
/// byte sequence decodes, and an empty request decodes to empty text.
pub fn decode_request(bytes: &Vec<u8>) -> (s: String)
    ensures
        s@ == lossy_decode(bytes@),
        bytes@.len() == 0 ==> s@.len() == 0,
{
    utf8_lossy(bytes)
}

} // verus!
