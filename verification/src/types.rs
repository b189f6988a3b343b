//! The algorithm selector for the data layer, and the fixed sizes of the
//! cryptographic material.

use crate::error::VioletError;
use vstd::prelude::*;

verus! {

/// A DEK is 256 bits.
pub const DEK_SIZE: usize = 32;

/// An AES-GCM nonce is 96 bits.
pub const GCM_NONCE_SIZE: usize = 12;

/// An AES-GCM-SIV nonce is 96 bits.
pub const GCM_SIV_NONCE_SIZE: usize = 12;

/// An authentication tag is 128 bits, for both modes.
pub const GCM_TAG_SIZE: usize = 16;

/// AEAD algorithm used for the data layer. The DEK-wrapping layer always uses
/// AES-256-GCM, whatever this selector says.
#[derive(Debug, Clone, Copy, PartialEq, Eq, Structural)]
pub enum Algorithm {
    Aes256Gcm,
    Aes256GcmSiv,
}

/// Canonical wire identifier of each algorithm.
pub open spec fn spec_algorithm_str(a: Algorithm) -> Seq<char> {
    match a {
        Algorithm::Aes256Gcm => "AES-256-GCM"@,
        Algorithm::Aes256GcmSiv => "AES-256-GCM-SIV"@,
    }
}

/// The algorithm a wire identifier names, if any.
pub open spec fn spec_algorithm_of(s: Seq<char>) -> Option<Algorithm> {
    if s == spec_algorithm_str(Algorithm::Aes256Gcm) {
        Some(Algorithm::Aes256Gcm)
    } else if s == spec_algorithm_str(Algorithm::Aes256GcmSiv) {
        Some(Algorithm::Aes256GcmSiv)
    } else {
        None
    }
}

/// Relies on str's PartialEq: `==` on `&str` compares the character sequences.
#[verifier::external_body]
fn str_eq(a: &str, b: &str) -> (r: bool)
    ensures
        r == (a@ == b@),
{
    a == b
}

impl Algorithm {
    /// The canonical string identifier, as stored in an envelope.
    pub fn as_str(&self) -> (r: &'static str)
        ensures
            r@ == spec_algorithm_str(*self),
    {
        match self {
            Algorithm::Aes256Gcm => "AES-256-GCM",
            Algorithm::Aes256GcmSiv => "AES-256-GCM-SIV",
        }
    }

    /// Parse a wire identifier; unknown strings are rejected.
    pub fn from_str(s: &str) -> (r: Result<Algorithm, VioletError>)
        ensures
            r == match spec_algorithm_of(s@) {
                Some(a) => Ok::<Algorithm, VioletError>(a),
                None => Err::<Algorithm, VioletError>(VioletError::InvalidAlgorithm),
            },
    {
        if str_eq(s, "AES-256-GCM") {
            Ok(Algorithm::Aes256Gcm)
        } else if str_eq(s, "AES-256-GCM-SIV") {
            Ok(Algorithm::Aes256GcmSiv)
        } else {
            Err(VioletError::InvalidAlgorithm)
        }
    }
}

impl Default for Algorithm {
    /// The default data-layer algorithm is AES-256-GCM.
    fn default() -> (r: Self)
        ensures
            r == Algorithm::Aes256Gcm,
    {
        Algorithm::Aes256Gcm
    }
}

/// Re-parsing the canonical identifier of an algorithm yields that algorithm,
/// for every algorithm.
pub proof fn lemma_algorithm_round_trip(a: Algorithm)
    ensures
        spec_algorithm_of(spec_algorithm_str(a)) == Some(a),
{
    reveal_strlit("AES-256-GCM");
    reveal_strlit("AES-256-GCM-SIV");
    assert(spec_algorithm_str(Algorithm::Aes256Gcm).len() == 11);
    assert(spec_algorithm_str(Algorithm::Aes256GcmSiv).len() == 15);
}

} // verus!
