//! The encodings and digests this client has from other crates.

use base64::Engine as _;
use image::GenericImageView as _;
use sha2::Digest as _;
use vstd::prelude::*;

verus! {

/// The text that the padded standard alphabet of `base64` spells some bytes with.
pub uninterp spec fn base64_text(bytes: Seq<u8>) -> Seq<char>;

/// The bytes that a text of the padded standard alphabet of `base64` spells, if it spells any.
pub uninterp spec fn base64_bytes(text: Seq<char>) -> Option<Seq<u8>>;

/// The SHA-256 digest of some bytes.
pub uninterp spec fn sha256(bytes: Seq<u8>) -> Seq<u8>;

/// `base64::Engine::encode` of the `STANDARD` engine: the padded text of the bytes, which decodes
/// back to them. Bytes whose text would not fit the largest allocation, on which it panics, are
/// left out.
#[verifier::external_body]
fn encode_standard(bytes: &[u8]) -> (text: String)
    requires
        4 * ((bytes@.len() + 2) / 3) <= isize::MAX,
    ensures
        text@ == base64_text(bytes@),
        base64_bytes(text@) == Some(bytes@),
{
    base64::engine::general_purpose::STANDARD.encode(bytes)
}

/// `base64::Engine::decode` of the `STANDARD` engine: the bytes a text spells, or `None` where the
/// engine refuses the text.
#[verifier::external_body]
fn decode_standard(text: &str) -> (bytes: Option<Vec<u8>>)
    ensures
        bytes is Some <==> base64_bytes(text@) is Some,
        bytes matches Some(held) ==> base64_bytes(text@) == Some(held@),
{
    base64::engine::general_purpose::STANDARD.decode(text).ok()
}

/// `sha2::Sha256::digest`: the digest of the bytes, thirty-two of them.
#[verifier::external_body]
fn digest_sha256(bytes: &[u8]) -> (digest: Vec<u8>)
    ensures
        digest@ == sha256(bytes@),
        digest@.len() == 32,
{
    sha2::Sha256::digest(bytes).to_vec()
}

/// `image::load_from_memory`, and `dimensions` of the image it gives: width and height, or `None`
/// where the bytes do not decode. Nothing is claimed of which bytes decode, nor to what: the crate
/// keeps registries of formats and decoders that any code of the process can extend.
#[verifier::external_body]
pub(crate) fn decode_dimensions(bytes: &[u8]) -> (size: Option<(u32, u32)>) {
    image::load_from_memory(bytes).ok().map(|img| img.dimensions())
}

/// Standard base64 with padding, the form every account endpoint speaks.
pub fn b64(bytes: &[u8]) -> (text: String)
    requires
        4 * ((bytes@.len() + 2) / 3) <= isize::MAX,
    ensures
        text@ == base64_text(bytes@),
        base64_bytes(text@) == Some(bytes@),
{
    encode_standard(bytes)
}

/// Decodes standard base64, as challenge payloads and signature fields arrive.
pub fn base64_decode(text: &str) -> (bytes: Option<Vec<u8>>)
    ensures
        bytes is Some <==> base64_bytes(text@) is Some,
        bytes matches Some(held) ==> base64_bytes(text@) == Some(held@),
{
    decode_standard(text)
}

/// The digest an upload is committed with: of exactly the bytes that were sent.
pub fn upload_digest(bytes: &Vec<u8>) -> (digest: Vec<u8>)
    ensures
        digest@ == sha256(bytes@),
        digest@.len() == 32,
{
    digest_sha256(bytes.as_slice())
}

} // verus!
