//! The trusted key and the signatures it is asked to check.
//!
//! A [`TrustedKey`] is made once, from the base64 text of an ed25519 public
//! key, and only ever read afterwards. A [`Signature`] is made from the base64
//! text that comes with a request. Both hold plain bytes; the curve arithmetic
//! stays with `ed25519-dalek`.

use vstd::prelude::*;
use vstd::utf8::encode_utf8;
use crate::encoding::{base64_decoded, base64_encoded, decode, decoded_view, encode};

verus! {

/// Length in bytes of an ed25519 public key.
pub const PUBLIC_KEY_LENGTH: usize = 32;

/// Length in bytes of an ed25519 signature.
pub const SIGNATURE_LENGTH: usize = 64;

/// Whether `bytes` are an ed25519 public key: 32 bytes that decompress to a
/// point of the curve.
pub uninterp spec fn ed25519_public_key(bytes: Seq<u8>) -> bool;

/// Whether `signature` is a valid ed25519 signature of `message` under the
/// public key `key`.
pub uninterp spec fn ed25519_verifies(key: Seq<u8>, message: Seq<u8>, signature: Seq<u8>) -> bool;

/// Whether `bytes` have the shape of a signature: 64 bytes, the three highest
/// bits of the last one clear, so that the scalar half can lie below the
/// order of the group.
pub open spec fn signature_shaped(bytes: Seq<u8>) -> bool {
    bytes.len() == SIGNATURE_LENGTH && bytes[SIGNATURE_LENGTH - 1] & 0b1110_0000 == 0
}

/// Trusted: `ed25519_dalek::PublicKey::from_bytes`. It refuses any length but
/// 32 and any 32 bytes that do not decompress to a curve point; the contract
/// gives that outcome its name and states the length.
#[verifier::external_body]
fn is_public_key(bytes: &[u8]) -> (valid: bool)
    ensures
        valid == ed25519_public_key(bytes@),
        valid ==> bytes@.len() == PUBLIC_KEY_LENGTH,
{
    ed25519_dalek::PublicKey::from_bytes(bytes).is_ok()
}

/// Trusted: `ed25519_dalek::Signature::from_bytes`. It accepts exactly the
/// byte strings of length 64 whose last byte has its three highest bits
/// clear.
#[verifier::external_body]
fn is_signature(bytes: &[u8]) -> (valid: bool)
    ensures
        valid == signature_shaped(bytes@),
{
    ed25519_dalek::Signature::from_bytes(bytes).is_ok()
}

/// Trusted: `verify` of `ed25519_dalek::Verifier`, as `PublicKey` implements
/// it, on a key and a signature rebuilt from their bytes. The contract names
/// the verdict.
#[verifier::external_body]
fn ed25519_verify(key: &[u8], message: &[u8], signature: &[u8]) -> (valid: bool)
    requires
        ed25519_public_key(key@),
        signature_shaped(signature@),
    ensures
        valid == ed25519_verifies(key@, message@, signature@),
{
    let key = ed25519_dalek::PublicKey::from_bytes(key);
    let signature = ed25519_dalek::Signature::from_bytes(signature);
    match (key, signature) {
        (Ok(key), Ok(signature)) => {
            ed25519_dalek::Verifier::verify(&key, message, &signature).is_ok()
        },
        _ => false,
    }
}

/// Why a base64 text was not accepted as a key or as a signature.
#[derive(Clone, Copy, Debug, PartialEq, Eq, Structural)]
pub enum DecodeError {
    /// The text is not valid base64.
    Encoding,
    /// The text decodes to the wrong number of bytes.
    Length,
    /// The bytes have the right length and are still no key, or no signature.
    Value,
}

/// The key that decoded base64 holds, where `decoded` is `None` for a text
/// that is not base64.
pub open spec fn key_of(decoded: Option<Seq<u8>>) -> Result<Seq<u8>, DecodeError> {
    match decoded {
        None => Err(DecodeError::Encoding),
        Some(bytes) => if bytes.len() != PUBLIC_KEY_LENGTH {
            Err(DecodeError::Length)
        } else if !ed25519_public_key(bytes) {
            Err(DecodeError::Value)
        } else {
            Ok(bytes)
        },
    }
}

/// The signature that decoded base64 holds, where `decoded` is `None` for a
/// text that is not base64.
pub open spec fn signature_of(decoded: Option<Seq<u8>>) -> Result<Seq<u8>, DecodeError> {
    match decoded {
        None => Err(DecodeError::Encoding),
        Some(bytes) => if bytes.len() != SIGNATURE_LENGTH {
            Err(DecodeError::Length)
        } else if !signature_shaped(bytes) {
            Err(DecodeError::Value)
        } else {
            Ok(bytes)
        },
    }
}

/// What a base64 text holds when it is read as a public key.
pub open spec fn decoded_public_key(text: Seq<char>) -> Result<Seq<u8>, DecodeError> {
    key_of(base64_decoded(encode_utf8(text)))
}

/// What a base64 text holds when it is read as a signature.
pub open spec fn decoded_signature(text: Seq<char>) -> Result<Seq<u8>, DecodeError> {
    signature_of(base64_decoded(encode_utf8(text)))
}

/// Whether the base64 text `signature` holds a signature of the exact bytes
/// of `message` under `key`. A text that does not decode to a well-formed
/// signature authenticates nothing.
pub open spec fn authentic(key: Seq<u8>, message: Seq<char>, signature: Seq<char>) -> bool {
    match decoded_signature(signature) {
        Ok(bytes) => ed25519_verifies(key, encode_utf8(message), bytes),
        Err(_) => false,
    }
}

/// The one public key that the service trusts.
#[derive(Debug)]
pub struct TrustedKey {
    bytes: Vec<u8>,
}

/// The signature that comes with a request.
#[derive(Debug)]
pub struct Signature {
    bytes: Vec<u8>,
}

impl View for TrustedKey {
    type V = Seq<u8>;

    closed spec fn view(&self) -> Seq<u8> {
        self.bytes@
    }
}

impl View for Signature {
    type V = Seq<u8>;

    closed spec fn view(&self) -> Seq<u8> {
        self.bytes@
    }
}

impl Clone for TrustedKey {
    fn clone(&self) -> (copy: Self)
        ensures
            copy@ == self@,
    {
        proof {
            use_type_invariant(self);
        }
        TrustedKey { bytes: self.bytes.clone() }
    }
}

impl Clone for Signature {
    fn clone(&self) -> (copy: Self)
        ensures
            copy@ == self@,
    {
        proof {
            use_type_invariant(self);
        }
        Signature { bytes: self.bytes.clone() }
    }
}

impl TrustedKey {
    #[verifier::type_invariant]
    spec fn is_key(&self) -> bool {
        ed25519_public_key(self.bytes@) && self.bytes@.len() == PUBLIC_KEY_LENGTH
    }

    /// Accepts `bytes` as the trusted key if they are an ed25519 public key.
    pub fn from_bytes(bytes: &[u8]) -> (key: Option<TrustedKey>)
        ensures
            key.is_some() == ed25519_public_key(bytes@),
            key.is_some() ==> key.unwrap()@ == bytes@,
    {
        if is_public_key(bytes) {
            Some(TrustedKey { bytes: vstd::slice::slice_to_vec(bytes) })
        } else {
            None
        }
    }

    /// The 32 bytes of the key.
    pub fn to_bytes(&self) -> (bytes: Vec<u8>)
        ensures
            bytes@ == self@,
            bytes@.len() == PUBLIC_KEY_LENGTH,
            ed25519_public_key(bytes@),
    {
        proof {
            use_type_invariant(self);
        }
        self.bytes.clone()
    }

    /// Checks `signature` against the exact bytes of `message`.
    pub fn verify(&self, message: &[u8], signature: &Signature) -> (valid: bool)
        ensures
            valid == ed25519_verifies(self@, message@, signature@),
    {
        proof {
            use_type_invariant(self);
            use_type_invariant(signature);
        }
        ed25519_verify(self.bytes.as_slice(), message, signature.bytes.as_slice())
    }
}

impl Signature {
    #[verifier::type_invariant]
    spec fn is_shaped(&self) -> bool {
        signature_shaped(self.bytes@)
    }

    /// Accepts `bytes` as a signature if they have the shape of one.
    pub fn from_bytes(bytes: &[u8]) -> (signature: Option<Signature>)
        ensures
            signature.is_some() == signature_shaped(bytes@),
            signature.is_some() ==> signature.unwrap()@ == bytes@,
    {
        if is_signature(bytes) {
            Some(Signature { bytes: vstd::slice::slice_to_vec(bytes) })
        } else {
            None
        }
    }

    /// The 64 bytes of the signature.
    pub fn to_bytes(&self) -> (bytes: Vec<u8>)
        ensures
            bytes@ == self@,
            signature_shaped(bytes@),
    {
        proof {
            use_type_invariant(self);
        }
        self.bytes.clone()
    }
}

/// Accepts decoded base64 as the trusted key: the text must have been
/// base64, of exactly 32 bytes, and those bytes a public key.
pub fn key_from_decoded(decoded: Option<Vec<u8>>) -> (key: Result<TrustedKey, DecodeError>)
    ensures
        match key_of(decoded_view(decoded)) {
            Ok(bytes) => key.is_ok() && key.unwrap()@ == bytes,
            Err(error) => key == Err::<TrustedKey, DecodeError>(error),
        },
{
    match decoded {
        None => Err(DecodeError::Encoding),
        Some(raw) => {
            if raw.len() != PUBLIC_KEY_LENGTH {
                Err(DecodeError::Length)
            } else {
                match TrustedKey::from_bytes(raw.as_slice()) {
                    Some(key) => Ok(key),
                    None => Err(DecodeError::Value),
                }
            }
        },
    }
}

/// Accepts decoded base64 as a signature: the text must have been base64, of
/// exactly 64 bytes, and those bytes shaped as a signature.
pub fn signature_from_decoded(decoded: Option<Vec<u8>>) -> (signature: Result<
    Signature,
    DecodeError,
>)
    ensures
        match signature_of(decoded_view(decoded)) {
            Ok(bytes) => signature.is_ok() && signature.unwrap()@ == bytes,
            Err(error) => signature == Err::<Signature, DecodeError>(error),
        },
{
    match decoded {
        None => Err(DecodeError::Encoding),
        Some(raw) => {
            if raw.len() != SIGNATURE_LENGTH {
                Err(DecodeError::Length)
            } else {
                match Signature::from_bytes(raw.as_slice()) {
                    Some(signature) => Ok(signature),
                    None => Err(DecodeError::Value),
                }
            }
        },
    }
}

/// Reads the trusted key from its base64 text.
pub fn decode_public_key_base64(public_key_base64: &str) -> (key: Result<TrustedKey, DecodeError>)
    ensures
        match decoded_public_key(public_key_base64@) {
            Ok(bytes) => key.is_ok() && key.unwrap()@ == bytes,
            Err(error) => key == Err::<TrustedKey, DecodeError>(error),
        },
{
    key_from_decoded(decode(public_key_base64))
}

/// Reads a request's signature from its base64 text.
pub fn decode_signature_base64(signature_base64: &str) -> (signature: Result<
    Signature,
    DecodeError,
>)
    ensures
        match decoded_signature(signature_base64@) {
            Ok(bytes) => signature.is_ok() && signature.unwrap()@ == bytes,
            Err(error) => signature == Err::<Signature, DecodeError>(error),
        },
{
    signature_from_decoded(decode(signature_base64))
}

/// The base64 text of the trusted key; reading it gives the key back.
pub fn encode_public_key_base64(key: &TrustedKey) -> (text: String)
    ensures
        encode_utf8(text@) == base64_encoded(key@),
        decoded_public_key(text@) == Ok::<Seq<u8>, DecodeError>(key@),
{
    let bytes = key.to_bytes();
    encode(bytes.as_slice())
}

/// The base64 text of a signature; reading it gives the signature back.
pub fn encode_signature_base64(signature: &Signature) -> (text: String)
    ensures
        encode_utf8(text@) == base64_encoded(signature@),
        decoded_signature(text@) == Ok::<Seq<u8>, DecodeError>(signature@),
{
    let bytes = signature.to_bytes();
    encode(bytes.as_slice())
}

/// Whether the request's signature text authenticates its message under the
/// trusted key.
pub fn verify_signature(key: &TrustedKey, message: &str, signature_base64: &str) -> (valid: bool)
    ensures
        valid == authentic(key@, message@, signature_base64@),
{
    match decode_signature_base64(signature_base64) {
        Ok(signature) => key.verify(message.as_bytes(), &signature),
        Err(_) => false,
    }
}

} // verus!
