//! Text encodings: base64 for envelopes and keys, lowercase hex for digests.

use vstd::prelude::*;

verus! {

use base64::Engine;

/// The base64 rendering (standard alphabet, canonical padding) of a byte
/// string.  The encoder below produces exactly this text, and the decoder
/// accepts exactly this text, so the decoder names the encoding's inverse.
pub uninterp spec fn b64_of(bytes: Seq<u8>) -> Seq<char>;

/// Relies on base64's `STANDARD` engine (`Engine::encode`): the canonical
/// padded base64 text of the input bytes, a function of the bytes alone,
/// four characters for every started group of three bytes.
#[verifier::external_body]
pub fn b64_encode(bytes: &[u8]) -> (r: String)
    ensures
        r@ == b64_of(bytes@),
        r@.len() == 4 * ((bytes@.len() + 2) / 3),
{
    base64::engine::general_purpose::STANDARD.encode(bytes)
}

/// Relies on base64's `STANDARD` engine (`Engine::decode`): with canonical
/// padding required and trailing bits rejected, decoding succeeds exactly on
/// the canonical encoding of some byte string, and returns that byte string.
#[verifier::external_body]
pub fn b64_decode(text: &str) -> (r: Option<Vec<u8>>)
    ensures
        (match r {
            Some(v) => text@ == b64_of(v@) && (forall|d: Seq<u8>| text@ == b64_of(d) ==> v@ == d),
            None => forall|d: Seq<u8>| text@ != b64_of(d),
        }),
{
    match base64::engine::general_purpose::STANDARD.decode(text) {
        Ok(d) => Some(d),
        Err(_) => None,
    }
}

/// The lowercase hex digit for a value below 16.
pub open spec fn hex_digit(v: u8) -> char
    recommends
        v < 16,
{
    if v < 10 {
        (('0' as u8) + v) as char
    } else {
        (('a' as u8) + (v - 10)) as char
    }
}

/// The lowercase hex rendering of a byte string: two digits per byte,
/// high digit first.
pub open spec fn hex_of(bytes: Seq<u8>) -> Seq<char>
    decreases bytes.len(),
{
    if bytes.len() == 0 {
        Seq::empty()
    } else {
        seq![hex_digit(bytes[0] / 16), hex_digit(bytes[0] % 16)] + hex_of(bytes.drop_first())
    }
}

/// Hex rendering doubles the length: two digits per byte.
pub proof fn lemma_hex_len(bytes: Seq<u8>)
    ensures
        hex_of(bytes).len() == 2 * bytes.len(),
    decreases bytes.len(),
{
    if bytes.len() > 0 {
        lemma_hex_len(bytes.drop_first());
    }
}

/// Relies on `hex::encode`: the lowercase hex text of the input bytes.
#[verifier::external_body]
pub fn hex_lower(bytes: &[u8]) -> (r: String)
    ensures
        r@ == hex_of(bytes@),
{
    hex::encode(bytes)
}

} // verus!
