//! Trusted bindings to the base64 and hex codecs. Both codecs are
//! deterministic, so their results are modelled by uninterpreted names; the
//! round-trip facts stated here are what the engine's contracts build on.

use base64::Engine;
use vstd::prelude::*;

verus! {

/// What base64's STANDARD engine encodes `bytes` to.
pub uninterp spec fn b64_of(bytes: Seq<u8>) -> Seq<char>;

/// What base64's STANDARD engine decodes `s` to; `None` where it rejects `s`.
pub uninterp spec fn b64_decoded(s: Seq<char>) -> Option<Seq<u8>>;

/// What `hex::decode` decodes `s` to; `None` where it rejects `s`.
pub uninterp spec fn hex_decoded(s: Seq<char>) -> Option<Seq<u8>>;

/// Relies on base64's `STANDARD` engine `encode`: the result is four
/// characters for every three input bytes (rounded up by padding), is a
/// function of the input alone, and `decode` inverts it.
#[verifier::external_body]
pub(crate) fn b64_encode(bytes: &[u8]) -> (r: String)
    requires
        bytes@.len() <= 0x10_0000_0010,
    ensures
        r@ == b64_of(bytes@),
        r@.len() == ((bytes@.len() + 2) / 3) * 4,
        b64_decoded(r@) == Some(bytes@),
{
    base64::engine::general_purpose::STANDARD.encode(bytes)
}

/// Relies on base64's `STANDARD` engine `decode`: deterministic in the input;
/// it rejects non-canonical padding and set trailing bits, and never panics.
#[verifier::external_body]
pub(crate) fn b64_decode(s: &str) -> (r: Option<Vec<u8>>)
    ensures
        match r {
            Some(b) => b64_decoded(s@) == Some(b@),
            None => b64_decoded(s@) is None,
        },
{
    base64::engine::general_purpose::STANDARD.decode(s).ok()
}

/// Relies on `hex::decode`: deterministic in the input; an even-length string
/// of hex digits decodes to half as many bytes, anything else is rejected.
#[verifier::external_body]
pub(crate) fn hex_decode(s: &str) -> (r: Option<Vec<u8>>)
    ensures
        match r {
            Some(b) => hex_decoded(s@) == Some(b@) && s@.len() == 2 * b@.len(),
            None => hex_decoded(s@) is None,
        },
{
    hex::decode(s).ok()
}

} // verus!
