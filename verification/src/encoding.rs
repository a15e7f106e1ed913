//! Base64 text, as the `base64` crate reads and writes it in its standard
//! configuration: the standard alphabet, written with padding.

use vstd::prelude::*;
use vstd::utf8::encode_utf8;

verus! {

/// The bytes that a base64 text stands for, or `None` where the text is not
/// valid base64. The text is given by its bytes.
pub uninterp spec fn base64_decoded(text: Seq<u8>) -> Option<Seq<u8>>;

/// The base64 text of a byte string. The text is given by its bytes.
pub uninterp spec fn base64_encoded(bytes: Seq<u8>) -> Seq<u8>;

/// Trusted: `base64::decode`, which decodes with the crate's `STANDARD`
/// configuration. The contract only gives the outcome its name: the decoded
/// bytes on success, nothing when the crate reports a `DecodeError`.
#[verifier::external_body]
fn base64_decode(text: &[u8]) -> (decoded: Option<Vec<u8>>)
    ensures
        decoded.is_some() == base64_decoded(text@).is_some(),
        decoded.is_some() ==> decoded.unwrap()@ == base64_decoded(text@).unwrap(),
{
    base64::decode(text).ok()
}

/// Trusted: `base64::encode`, which encodes with the crate's `STANDARD`
/// configuration. The contract names the bytes of the text, and claims of
/// them what makes the pair a codec: `base64::decode` gives the encoded
/// bytes back.
#[verifier::external_body]
fn base64_encode(bytes: &[u8]) -> (text: String)
    ensures
        encode_utf8(text@) == base64_encoded(bytes@),
        base64_decoded(encode_utf8(text@)) == Some(bytes@),
{
    base64::encode(bytes)
}

/// The view of a decoded byte string.
pub open spec fn decoded_view(decoded: Option<Vec<u8>>) -> Option<Seq<u8>> {
    match decoded {
        None => None,
        Some(bytes) => Some(bytes@),
    }
}

/// Reads base64 text: the bytes it stands for, or `None` where it is not
/// valid base64.
pub fn decode(text: &str) -> (decoded: Option<Vec<u8>>)
    ensures
        decoded_view(decoded) == base64_decoded(encode_utf8(text@)),
{
    base64_decode(text.as_bytes())
}

/// Writes bytes as base64 text. Reading the text gives the bytes back.
pub fn encode(bytes: &[u8]) -> (text: String)
    ensures
        encode_utf8(text@) == base64_encoded(bytes@),
        base64_decoded(encode_utf8(text@)) == Some(bytes@),
{
    base64_encode(bytes)
}

} // verus!
