//! Trusted boundary to the `base64` crate: names for what its standard
//! encoding and decoding return, and the wrappers that make the calls.

use vstd::prelude::*;

verus! {

/// What `base64::decode` (standard alphabet, with padding) returns: the
/// decoded bytes where the input is valid base64, nothing otherwise.
pub uninterp spec fn base64_decoding(s: Seq<char>) -> Option<Seq<u8>>;

/// What `base64::encode` (standard alphabet, with padding) returns.
pub uninterp spec fn base64_encoding(b: Seq<u8>) -> Seq<char>;

#[verifier::external_type_specification]
#[verifier::external_body]
pub struct ExDecodeError(base64::DecodeError);

/// Relies on `base64::decode`: whether an input decodes, and to which bytes,
/// depends on its characters alone.
#[verifier::external_body]
pub fn base64_decode(s: &str) -> (r: Result<Vec<u8>, base64::DecodeError>)
    ensures
        r matches Ok(b) ==> base64_decoding(s@) == Some(b@),
        r is Err ==> base64_decoding(s@) is None,
{
    base64::decode(s)
}

/// Relies on `base64::encode`: the output depends on the input bytes alone,
/// and `base64::decode` accepts it and gives the input bytes back.
#[verifier::external_body]
pub fn base64_encode(data: &[u8]) -> (r: String)
    ensures
        r@ == base64_encoding(data@),
        base64_decoding(r@) == Some(data@),
{
    base64::encode(data)
}

} // verus!
