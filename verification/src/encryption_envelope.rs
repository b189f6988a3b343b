//! The envelope record: the unit that is persisted or transmitted.

use vstd::prelude::*;

verus! {

/// An encrypted data package: ciphertext, wrapped DEK and the metadata needed
/// to decrypt, all binary fields carried as base64 strings.
///
/// Created once by `EnvelopeEncryptor::encrypt` and immutable thereafter;
/// `EnvelopeEncryptor::decrypt` consumes it without changing it.
#[derive(Debug)]
pub struct EncryptionEnvelope {
    /// UUID of the KEK at the external key service.
    pub key_id: String,
    /// Base64 of the ciphertext of the plaintext under the DEK.
    pub encrypted_data: String,
    /// Base64 of `nonce(12) || wrapped DEK || tag(16)`: the DEK sealed under
    /// the KEK, always with AES-256-GCM.
    pub encrypted_key: String,
    /// Base64 of the data-layer nonce.
    pub iv: String,
    /// Canonical identifier of the data-layer algorithm.
    pub algorithm: String,
    /// Base64 of the data-layer authentication tag; the empty string stands
    /// for a producer that omitted it.
    pub auth_tag: String,
}

impl PartialEq for EncryptionEnvelope {
    fn eq(&self, other: &Self) -> (r: bool) {
        self.key_id == other.key_id && self.encrypted_data == other.encrypted_data
            && self.encrypted_key == other.encrypted_key && self.iv == other.iv
            && self.algorithm == other.algorithm && self.auth_tag == other.auth_tag
    }
}

impl Eq for EncryptionEnvelope {

}

impl vstd::std_specs::cmp::PartialEqSpecImpl for EncryptionEnvelope {
    open spec fn obeys_eq_spec() -> bool {
        true
    }

    /// Two envelopes are equal when all six fields hold the same text.
    open spec fn eq_spec(&self, other: &Self) -> bool {
        &&& self.key_id@ == other.key_id@
        &&& self.encrypted_data@ == other.encrypted_data@
        &&& self.encrypted_key@ == other.encrypted_key@
        &&& self.iv@ == other.iv@
        &&& self.algorithm@ == other.algorithm@
        &&& self.auth_tag@ == other.auth_tag@
    }
}

impl Clone for EncryptionEnvelope {
    /// A clone carries exactly the same fields.
    fn clone(&self) -> (r: Self)
        ensures
            r == *self,
    {
        EncryptionEnvelope {
            key_id: self.key_id.clone(),
            encrypted_data: self.encrypted_data.clone(),
            encrypted_key: self.encrypted_key.clone(),
            iv: self.iv.clone(),
            algorithm: self.algorithm.clone(),
            auth_tag: self.auth_tag.clone(),
        }
    }
}

} // verus!
