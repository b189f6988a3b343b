//! The daemon's request handling, split at its I/O boundary.
//!
//! A request is served in two verified steps with the key-service call
//! between them: `plan_encrypt` / `plan_decrypt` decode the request and say
//! how the KEK must be resolved; `encrypt_with_key` / `decrypt_with_key` take
//! the resolved key and build the response. The connection loop outside the
//! library performs the fetch and passes the result back; every failure it
//! meets becomes an error response via `Response::error`, so no caller input
//! reaches a panic.

use crate::encoding::{b64_decode, b64_decoded, b64_encode, b64_of, hex_decoded};
use crate::encryption_envelope::EncryptionEnvelope;
use crate::envelope::{spec_decrypt, EnvelopeEncryptor};
use crate::error::VioletError;
use crate::gcm::GCM_P_MAX;
use crate::key::Key;
use crate::protocol::{RequestData, Response, ResponseResult};
use crate::types::{spec_algorithm_of, spec_algorithm_str, Algorithm};
use vstd::prelude::*;

verus! {

/// Serves one decoded request. Holds only the key-service endpoint address,
/// so handlers share nothing and requests are independent.
pub struct RequestHandler {
    server_url: String,
}

impl RequestHandler {
    /// The key-service endpoint this handler drives.
    pub closed spec fn spec_server_url(&self) -> Seq<char> {
        self.server_url@
    }

    pub fn new(server_url: &str) -> (r: Self)
        ensures
            r.spec_server_url() == server_url@,
    {
        RequestHandler { server_url: server_url.to_owned() }
    }

    /// The key-service endpoint this handler drives.
    pub fn server_url(&self) -> (r: &str)
        ensures
            r@ == self.spec_server_url(),
    {
        self.server_url.as_str()
    }
}

/// What the connection loop must do next to resolve the KEK for an encrypt
/// request.
#[derive(Debug, Clone)]
pub enum KeyAction {
    /// Fetch the key with this id from the key service.
    Get(String),
    /// Ask the key service to mint a new key.
    Create,
}

/// First half of the encrypt path: decode the base64 plaintext, settle the
/// algorithm (GCM where the request named none), and say how the KEK must be
/// resolved. Fails exactly on malformed base64, with an error response.
pub fn plan_encrypt(data: &RequestData) -> (r: Result<(Vec<u8>, Algorithm, KeyAction), Response>)
    ensures
        match r {
            Ok((p, alg, act)) => {
                &&& b64_decoded(data.plaintext@) == Some(p@)
                &&& alg == (match data.algorithm {
                    Some(a) => a,
                    None => Algorithm::Aes256Gcm,
                })
                &&& (match data.key_id {
                    Some(k) => act matches KeyAction::Get(k2) && k2@ == k@,
                    None => act matches KeyAction::Create,
                })
            },
            Err(resp) => {
                &&& b64_decoded(data.plaintext@) is None
                &&& resp.success == false
                &&& resp.result is None
                &&& (resp.error matches Some(m) && m@ == "Invalid base64: "@
                    + VioletError::Base64Error.spec_message())
            },
        },
{
    let plaintext = match b64_decode(data.plaintext.as_str()) {
        Some(p) => p,
        None => {
            return Err(
                Response::error(
                    String::from_str("Invalid base64: ").concat(
                        VioletError::Base64Error.message().as_str(),
                    ),
                ),
            );
        },
    };
    let algorithm = match &data.algorithm {
        Some(a) => *a,
        None => Algorithm::default(),
    };
    let action = match &data.key_id {
        Some(k) => KeyAction::Get(k.clone()),
        None => KeyAction::Create,
    };
    Ok((plaintext, algorithm, action))
}

/// Second half of the encrypt path, once the KEK is resolved: decode the hex
/// key, run the envelope encryptor, and wrap the outcome in a response.
pub fn encrypt_with_key(plaintext: &[u8], algorithm: Algorithm, key: &Key) -> (r: Response)
    ensures
        hex_decoded(key.key@) is None ==> {
            &&& r.success == false
            &&& r.result is None
            &&& (r.error matches Some(m) && m@ == "Key decode error: "@
                + VioletError::HexError.spec_message())
        },
        hex_decoded(key.key@) matches Some(kb) ==> if kb.len() == 32 && plaintext@.len()
            <= GCM_P_MAX {
            &&& r.success == true
            &&& r.error is None
            &&& (r.result matches Some(ResponseResult::Encrypt { envelope }) && {
                &&& spec_decrypt(envelope, kb) == Ok::<Seq<u8>, VioletError>(plaintext@)
                &&& envelope.key_id@ == key.uuid@
                &&& envelope.algorithm@ == spec_algorithm_str(algorithm)
            })
        } else {
            &&& r.success == false
            &&& r.result is None
            &&& (kb.len() != 32 ==> (r.error matches Some(m) && m@ == "Encryption failed: "@
                + VioletError::InvalidKeySize(kb.len() as usize).spec_message()))
            &&& (kb.len() == 32 ==> (r.error matches Some(m) && m@ == "Encryption failed: "@
                + VioletError::EncryptionFailed.spec_message()))
        },
{
    let kek = match key.as_bytes() {
        Ok(b) => b,
        Err(e) => {
            return Response::error(
                String::from_str("Key decode error: ").concat(e.message().as_str()),
            );
        },
    };
    let encryptor = EnvelopeEncryptor::new(algorithm);
    match encryptor.encrypt(plaintext, kek.as_slice(), key.uuid.clone()) {
        Ok(envelope) => Response::success_encrypt(envelope),
        Err(e) => Response::error(
            String::from_str("Encryption failed: ").concat(e.message().as_str()),
        ),
    }
}

/// First step of the decrypt path: the request must carry an envelope; its
/// `key_id` then names the KEK the connection loop has to fetch.
pub fn plan_decrypt(data: &RequestData) -> (r: Result<EncryptionEnvelope, Response>)
    ensures
        match r {
            Ok(env) => data.envelope matches Some(e) && e == env,
            Err(resp) => {
                &&& data.envelope is None
                &&& resp.success == false
                &&& resp.result is None
                &&& (resp.error matches Some(m) && m@ == "Missing envelope in decrypt request"@)
            },
        },
{
    match &data.envelope {
        Some(env) => Ok(env.clone()),
        None => Err(Response::error(String::from_str("Missing envelope in decrypt request"))),
    }
}

/// Second step of the decrypt path, once the KEK is fetched: decode the hex
/// key, check the envelope's algorithm, run the envelope decryptor, and
/// return the plaintext re-encoded as base64.
pub fn decrypt_with_key(envelope: &EncryptionEnvelope, key: &Key) -> (r: Response)
    ensures
        hex_decoded(key.key@) is None ==> {
            &&& r.success == false
            &&& r.result is None
            &&& (r.error matches Some(m) && m@ == "Key decode error: "@
                + VioletError::HexError.spec_message())
        },
        hex_decoded(key.key@) matches Some(kb) ==> if spec_algorithm_of(
            envelope.algorithm@,
        ) is None {
            &&& r.success == false
            &&& r.result is None
            &&& (r.error matches Some(m) && m@ == "Invalid algorithm: "@
                + VioletError::InvalidAlgorithm.spec_message())
        } else {
            match spec_decrypt(*envelope, kb) {
                Ok(p) => {
                    &&& r.success == true
                    &&& r.error is None
                    &&& (r.result matches Some(ResponseResult::Decrypt { plaintext })
                        && plaintext@ == b64_of(p))
                },
                Err(e) => {
                    &&& r.success == false
                    &&& r.result is None
                    &&& (r.error matches Some(m) && m@ == "Decryption failed: "@
                        + e.spec_message())
                },
            }
        },
{
    let kek = match key.as_bytes() {
        Ok(b) => b,
        Err(e) => {
            return Response::error(
                String::from_str("Key decode error: ").concat(e.message().as_str()),
            );
        },
    };
    let algorithm = match Algorithm::from_str(envelope.algorithm.as_str()) {
        Ok(a) => a,
        Err(e) => {
            return Response::error(
                String::from_str("Invalid algorithm: ").concat(e.message().as_str()),
            );
        },
    };
    let encryptor = EnvelopeEncryptor::new(algorithm);
    match encryptor.decrypt(envelope, kek.as_slice()) {
        Ok(plaintext) => Response::success_decrypt(b64_encode(plaintext.as_slice())),
        Err(e) => Response::error(
            String::from_str("Decryption failed: ").concat(e.message().as_str()),
        ),
    }
}

} // verus!
