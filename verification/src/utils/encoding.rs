//! Byte-level decoding: Base64 (through the `base64` crate) and UTF-8.

use base64::prelude::BASE64_STANDARD;
use base64::Engine;
use vstd::prelude::*;
use vstd::utf8::{decode_utf8, valid_utf8};

verus! {

/// What the standard Base64 engine of the `base64` crate decodes from the
/// bytes of a string (`None` when the input is not valid padded standard
/// Base64).
pub uninterp spec fn base64_standard_decoding(input: Seq<char>) -> Option<Seq<u8>>;

/// Calls `base64::engine::general_purpose::STANDARD.decode`. The contract
/// only ties the outcome to `base64_standard_decoding` of the input: which
/// strings decode, and to what, is the crate's to decide.
#[verifier::external_body]
pub(crate) fn base64_standard_decode(input: &str) -> (res: Option<Vec<u8>>)
    ensures
        match res {
            Some(bytes) => base64_standard_decoding(input@) == Some(bytes@),
            None => base64_standard_decoding(input@) is None,
        },
{
    BASE64_STANDARD.decode(input).ok()
}

/// Calls `String::from_utf8`. As std documents it, the conversion succeeds
/// exactly on valid UTF-8, and then holds the decoded characters.
#[verifier::external_body]
pub(crate) fn string_from_utf8(bytes: Vec<u8>) -> (res: Option<String>)
    ensures
        res is Some <==> valid_utf8(bytes@),
        res matches Some(s) ==> s@ == decode_utf8(bytes@),
{
    String::from_utf8(bytes).ok()
}

} // verus!
