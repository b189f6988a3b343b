//! The key record that the external key service returns.

use crate::encoding::{hex_decode, hex_decoded};
use crate::error::VioletError;
use vstd::prelude::*;
use vstd::string::StringSliceAdditionalSpecFns;

verus! {

/// A key as the key service hands it out: a UUID and the key material as a
/// hex string (64 characters for a 256-bit key). The engine validates the
/// hex decoding and the decoded length itself.
#[derive(Debug, Clone)]
pub struct Key {
    /// UUID identifier for the key.
    pub uuid: String,
    /// Hex-encoded key data.
    pub key: String,
}

impl PartialEq for Key {
    fn eq(&self, other: &Self) -> (r: bool) {
        self.uuid == other.uuid && self.key == other.key
    }
}

impl Eq for Key {

}

impl vstd::std_specs::cmp::PartialEqSpecImpl for Key {
    open spec fn obeys_eq_spec() -> bool {
        true
    }

    /// Two keys are equal when both fields hold the same text.
    open spec fn eq_spec(&self, other: &Self) -> bool {
        self.uuid@ == other.uuid@ && self.key@ == other.key@
    }
}

impl Key {
    /// Decode the hex-encoded key data to raw bytes: two characters per
    /// byte, so a well-formed key string yields half as many bytes.
    pub fn as_bytes(&self) -> (r: Result<Vec<u8>, VioletError>)
        ensures
            match r {
                Ok(b) => hex_decoded(self.key@) == Some(b@) && self.key@.len() == 2 * b@.len(),
                Err(e) => hex_decoded(self.key@) is None && e == VioletError::HexError,
            },
    {
        match hex_decode(self.key.as_str()) {
            Some(b) => Ok(b),
            None => Err(VioletError::HexError),
        }
    }

    /// The key size in bytes: hex spends two characters per byte.
    pub fn size_bytes(&self) -> (r: usize)
        ensures
            r == (vstd::utf8::encode_utf8(self.key@).len() as usize) / 2,
    {
        let s = self.key.as_str();
        proof {
            assert(s.spec_bytes() == vstd::utf8::encode_utf8(self.key@));
        }
        s.len() / 2
    }
}

} // verus!
