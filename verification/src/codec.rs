//! Text decoding: standard base64 and UTF-8.
//!
//! UTF-8 is fully modelled by `vstd::utf8`; base64 decoding is named by an
//! uninterpreted function, pinned down by the trusted wrappers below.

use vstd::prelude::*;
use vstd::utf8::{decode_utf8, valid_utf8};
use base64::Engine;

verus! {

/// What decoding a string as standard base64 yields: the decoded bytes, or
/// nothing when the string is not a well-formed base64 encoding.
pub uninterp spec fn b64_decoded(s: Seq<char>) -> Option<Seq<u8>>;

/// Relies on `base64::prelude::BASE64_STANDARD.decode`: the result depends on
/// the input characters alone.
#[verifier::external_body]
pub(crate) fn b64_decode(s: &str) -> (r: Result<Vec<u8>, String>)
    ensures
        r is Ok ==> b64_decoded(s@) == Some(r->Ok_0@),
        r is Err ==> b64_decoded(s@) is None,
{
    base64::prelude::BASE64_STANDARD.decode(s).map_err(|e| e.to_string())
}

/// Relies on `base64::prelude::BASE64_STANDARD.encode`: the engine produces
/// the canonical padded encoding, which its own `decode` accepts and inverts.
#[verifier::external_body]
pub(crate) fn b64_encode(b: &[u8]) -> (r: String)
    ensures
        b64_decoded(r@) == Some(b@),
{
    base64::prelude::BASE64_STANDARD.encode(b)
}

/// Relies on `String::from_utf8`: it succeeds exactly on valid UTF-8 and
/// returns the decoded characters.
#[verifier::external_body]
pub(crate) fn utf8_decode(bytes: Vec<u8>) -> (r: Result<String, String>)
    ensures
        valid_utf8(bytes@) ==> r is Ok && r->Ok_0@ == decode_utf8(bytes@),
        !valid_utf8(bytes@) ==> r is Err,
{
    String::from_utf8(bytes).map_err(|e| e.to_string())
}

} // verus!
