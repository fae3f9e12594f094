//! Canonical text encoding of raw bytes: URL-safe base64 without padding.

use base64::Engine;
use vstd::prelude::*;

verus! {

/// The error of the base64 decoder.
#[verifier::external_type_specification]
#[verifier::external_body]
pub struct ExDecodeError(base64::DecodeError);

/// The unpadded URL-safe base64 text that stands for `bytes`.
pub uninterp spec fn base64url_encoding(bytes: Seq<u8>) -> Seq<char>;

/// The bytes that `text` stands for in unpadded URL-safe base64, if it is an
/// encoding at all.
pub uninterp spec fn base64url_decoding(text: Seq<char>) -> Option<Seq<u8>>;

/// Largest input that the encoder can size its output for.
pub open spec fn encodable_len(len: nat) -> bool {
    len / 3 * 4 + 3 <= usize::MAX
}

/// Encode the given buffer into Base64 URL SAFE without padding.
///
/// Calls `Engine::encode` on `base64::engine::general_purpose::URL_SAFE_NO_PAD`.
/// Trusted: the text is the encoding of the buffer, and that engine decodes
/// the text it wrote back to the bytes it was given.
#[verifier::external_body]
pub fn encode(buf: &[u8]) -> (text: String)
    requires
        encodable_len(buf@.len()),
    ensures
        text@ == base64url_encoding(buf@),
        base64url_decoding(text@) == Some(buf@),
{
    base64::engine::general_purpose::URL_SAFE_NO_PAD.encode(buf)
}

/// Decode the given buffer from Base64 URL SAFE without padding.
///
/// Calls `Engine::decode` on `base64::engine::general_purpose::URL_SAFE_NO_PAD`.
/// Trusted: the call succeeds exactly on the texts that stand for some bytes,
/// and then returns those bytes.
#[verifier::external_body]
pub fn decode(buf: &str) -> (decoded: Result<Vec<u8>, base64::DecodeError>)
    ensures
        match decoded {
            Ok(bytes) => base64url_decoding(buf@) == Some(bytes@),
            Err(_) => base64url_decoding(buf@) is None,
        },
{
    base64::engine::general_purpose::URL_SAFE_NO_PAD.decode(buf)
}

} // verus!
