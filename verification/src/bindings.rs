//! The calls that leave this crate. Each contract here is taken on trust
//! from the documentation or the source of the function it wraps.

use base64::Engine;
use vstd::prelude::*;
use vstd::utf8::{decode_utf8, valid_utf8};

verus! {

/// The text that the standard base64 alphabet, with padding, gives for `data`.
pub uninterp spec fn base64_standard(data: Seq<u8>) -> Seq<char>;

/// Length of the padded base64 text for `n` bytes: four characters for every
/// group of three bytes, the last group filled up.
pub open spec fn encoded_len(n: nat) -> nat {
    (n + 2) / 3 * 4
}

/// Wraps `base64::engine::general_purpose::STANDARD.encode`.
///
/// Trusted: the result is the padded standard encoding of `data`, and it has
/// the length that the engine computes up front for its buffer. The engine
/// panics when that length does not fit in `usize`, so such inputs are left
/// out.
#[verifier::external_body]
pub(crate) fn encode_standard(data: &Vec<u8>) -> (r: String)
    requires
        encoded_len(data@.len()) <= usize::MAX,
    ensures
        r@ == base64_standard(data@),
        r@.len() == encoded_len(data@.len()),
{
    base64::engine::general_purpose::STANDARD.encode(data)
}

/// Wraps `String::from_utf8_lossy`.
///
/// Trusted: bytes that are valid UTF-8 come back as the text they encode.
/// Of other input nothing is claimed; the function replaces what it cannot
/// decode and never fails.
#[verifier::external_body]
pub(crate) fn lossy_text(bytes: &[u8]) -> (r: String)
    ensures
        valid_utf8(bytes@) ==> r@ == decode_utf8(bytes@),
{
    String::from_utf8_lossy(bytes).to_string()
}

/// Wraps `std::path::Path::file_name`.
///
/// Nothing is claimed of the result: which separators end a component
/// depends on the platform.
#[verifier::external_body]
pub(crate) fn final_component(path: &str) -> (r: Option<String>) {
    std::path::Path::new(path).file_name().and_then(|name| name.to_str()).map(String::from)
}

} // verus!
