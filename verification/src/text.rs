//! Lossy UTF-8 conversion for turning decrypted bytes back into text.

use vstd::prelude::*;

verus! {

use vstd::utf8::{decode_utf8, valid_utf8};

/// The text that lossy UTF-8 conversion yields for a byte string: the
/// decoded characters where the bytes are valid UTF-8, replacement
/// characters where they are not.  A function of the bytes alone.
pub uninterp spec fn utf8_lossy_of(bytes: Seq<u8>) -> Seq<char>;

/// Relies on `String::from_utf8_lossy`: the result depends on the bytes
/// alone, and on valid UTF-8 it is exactly the characters the bytes encode.
#[verifier::external_body]
pub fn bytes_to_text(bytes: &[u8]) -> (r: String)
    ensures
        r@ == utf8_lossy_of(bytes@),
        valid_utf8(bytes@) ==> r@ == decode_utf8(bytes@),
{
    String::from_utf8_lossy(bytes).into_owned()
}

} // verus!
