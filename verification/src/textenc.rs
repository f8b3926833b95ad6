//! Trusted boundary to the text encodings the credential codec rests on:
//! base64 (an outside crate) and UTF-8 (std, specified through vstd's model).

use vstd::prelude::*;
use vstd::utf8::{decode_utf8, valid_utf8};

verus! {

/// What `base64::decode` returns on a given input, by name: `None` where the
/// input is not valid base64, otherwise the decoded bytes.
pub uninterp spec fn spec_base64_decode(s: Seq<char>) -> Option<Seq<u8>>;

/// Relies on `base64::decode`: standard-alphabet base64 decoding, a function
/// of the input characters alone, failing exactly on invalid base64.
#[verifier::external_body]
pub(crate) fn base64_decode(s: &str) -> (r: Option<Vec<u8>>)
    ensures
        match r {
            Some(v) => spec_base64_decode(s@) == Some(v@),
            None => spec_base64_decode(s@) is None,
        },
{
    base64::decode(s).ok()
}

/// Relies on `base64::encode`: produces the standard-alphabet encoding of the
/// input bytes, which `base64::decode` maps back to exactly those bytes.
#[verifier::external_body]
pub(crate) fn base64_encode(b: &Vec<u8>) -> (r: String)
    ensures
        spec_base64_decode(r@) == Some(b@),
{
    base64::encode(b)
}

/// Relies on `String::from_utf8`: succeeds exactly on valid UTF-8 input and
/// then yields the decoded characters, as modeled by vstd's `valid_utf8` and
/// `decode_utf8`.
#[verifier::external_body]
pub(crate) fn utf8_to_string(bytes: Vec<u8>) -> (r: Option<String>)
    ensures
        match r {
            Some(s) => valid_utf8(bytes@) && s@ == decode_utf8(bytes@),
            None => !valid_utf8(bytes@),
        },
{
    String::from_utf8(bytes).ok()
}

} // verus!
