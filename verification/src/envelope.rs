//! The envelope encryptor: the two-layer AEAD composition.
//!
//! `spec_decrypt` is the mathematical model of the whole decryption pipeline;
//! `decrypt` returns exactly what it says, and `encrypt` guarantees that the
//! envelope it builds decrypts to the original plaintext under the same KEK.

use crate::bytes::concat_bytes;
use crate::encoding::{b64_decode, b64_decoded, b64_encode};
use crate::encryption_envelope::EncryptionEnvelope;
use crate::error::VioletError;
use crate::gcm;
use crate::gcm_siv;
use crate::random::random_bytes;
use crate::types::{spec_algorithm_of, spec_algorithm_str, Algorithm, DEK_SIZE, GCM_TAG_SIZE};
use vstd::prelude::*;
use vstd::slice::slice_subrange;

verus! {

/// What the data layer under `alg` opens `data` (ciphertext with appended
/// tag) to.
pub open spec fn spec_data_opened(
    alg: Algorithm,
    key: Seq<u8>,
    nonce: Seq<u8>,
    data: Seq<u8>,
) -> Option<Seq<u8>> {
    match alg {
        Algorithm::Aes256Gcm => gcm::gcm_opened(key, nonce, data),
        Algorithm::Aes256GcmSiv => gcm_siv::siv_opened(key, nonce, data),
    }
}

/// The data layer of decryption: the adapter's size checks, then the cipher.
pub open spec fn spec_data_decrypt(
    alg: Algorithm,
    ct: Seq<u8>,
    dek: Seq<u8>,
    iv: Seq<u8>,
    tag: Seq<u8>,
) -> Result<Seq<u8>, VioletError> {
    if iv.len() != 12 {
        Err(VioletError::InvalidNonceSize(iv.len() as usize))
    } else if tag.len() != 16 {
        Err(VioletError::InvalidTagSize(tag.len() as usize))
    } else if ct.len() > gcm::GCM_P_MAX {
        Err(VioletError::DecryptionFailed)
    } else {
        match spec_data_opened(alg, dek, iv, ct + tag) {
            None => Err(VioletError::DecryptionFailed),
            Some(p) => Ok(p),
        }
    }
}

/// Decryption after base64 decoding and algorithm parsing: split the wrapped
/// key package, unwrap the DEK under the KEK with AES-256-GCM, then open the
/// data layer under the DEK.
pub open spec fn spec_decrypt_decoded(
    pkg: Seq<u8>,
    ct: Seq<u8>,
    iv: Seq<u8>,
    tag: Seq<u8>,
    alg: Algorithm,
    kek: Seq<u8>,
) -> Result<Seq<u8>, VioletError> {
    if pkg.len() < 28 {
        Err(VioletError::CryptoError(pkg.len() as usize))
    } else {
        let dek_nonce = pkg.subrange(0, 12);
        let wrapped = pkg.subrange(12, pkg.len() - 16);
        let dek_tag = pkg.subrange(pkg.len() - 16, pkg.len() as int);
        if wrapped.len() > gcm::GCM_P_MAX {
            Err(VioletError::DecryptionFailed)
        } else {
            match gcm::gcm_opened(kek, dek_nonce, wrapped + dek_tag) {
                None => Err(VioletError::DecryptionFailed),
                Some(dek) => if dek.len() != 32 {
                    Err(VioletError::CryptoError(dek.len() as usize))
                } else {
                    spec_data_decrypt(alg, ct, dek, iv, tag)
                },
            }
        }
    }
}

/// The whole decryption pipeline, step for step: KEK size, base64 decoding of
/// the four binary fields, algorithm parsing, then `spec_decrypt_decoded`.
pub open spec fn spec_decrypt(env: EncryptionEnvelope, kek: Seq<u8>) -> Result<
    Seq<u8>,
    VioletError,
> {
    if kek.len() != 32 {
        Err(VioletError::InvalidKeySize(kek.len() as usize))
    } else {
        match b64_decoded(env.encrypted_key@) {
            None => Err(VioletError::Base64Error),
            Some(pkg) => match b64_decoded(env.encrypted_data@) {
                None => Err(VioletError::Base64Error),
                Some(ct) => match b64_decoded(env.iv@) {
                    None => Err(VioletError::Base64Error),
                    Some(iv) => match b64_decoded(env.auth_tag@) {
                        None => Err(VioletError::Base64Error),
                        Some(tag) => match spec_algorithm_of(env.algorithm@) {
                            None => Err(VioletError::InvalidAlgorithm),
                            Some(alg) => spec_decrypt_decoded(pkg, ct, iv, tag, alg, kek),
                        },
                    },
                },
            },
        }
    }
}

/// Envelope encryptor: holds the data-layer algorithm chosen at construction
/// and nothing else, so concurrent uses are independent.
pub struct EnvelopeEncryptor {
    algorithm: Algorithm,
}

impl EnvelopeEncryptor {
    /// The algorithm this encryptor uses for the data layer.
    pub closed spec fn spec_algorithm(&self) -> Algorithm {
        self.algorithm
    }

    pub fn new(algorithm: Algorithm) -> (r: Self)
        ensures
            r.spec_algorithm() == algorithm,
    {
        EnvelopeEncryptor { algorithm }
    }

    /// Encrypt `plaintext` under a fresh random 32-byte DEK, and seal the DEK
    /// under `kek` with AES-256-GCM.
    ///
    /// Succeeds exactly when `kek` is 32 bytes and the plaintext is within
    /// the cipher's length limit; the envelope it returns carries `key_id`,
    /// the canonical algorithm string, a ciphertext of the plaintext's
    /// length, a wrapped-key package of exactly 60 bytes (12-byte nonce,
    /// 32-byte wrapped DEK, 16-byte tag), and decrypts back to `plaintext`
    /// under `kek`.
    pub fn encrypt(&self, plaintext: &[u8], kek: &[u8], key_id: String) -> (r: Result<
        EncryptionEnvelope,
        VioletError,
    >)
        ensures
            kek@.len() != 32 ==> r == Err::<EncryptionEnvelope, VioletError>(
                VioletError::InvalidKeySize(kek@.len() as usize),
            ),
            kek@.len() == 32 && plaintext@.len() > gcm::GCM_P_MAX ==> r == Err::<
                EncryptionEnvelope,
                VioletError,
            >(VioletError::EncryptionFailed),
            kek@.len() == 32 && plaintext@.len() <= gcm::GCM_P_MAX ==> match r {
                Ok(env) => {
                    &&& env.key_id@ == key_id@
                    &&& env.algorithm@ == spec_algorithm_str(self.spec_algorithm())
                    &&& (b64_decoded(env.encrypted_data@) matches Some(ct) && ct.len()
                        == plaintext@.len())
                    &&& (b64_decoded(env.encrypted_key@) matches Some(pkg) && pkg.len() == 60)
                    &&& spec_decrypt(env, kek@) == Ok::<Seq<u8>, VioletError>(plaintext@)
                },
                Err(_) => false,
            },
    {
        if kek.len() != DEK_SIZE {
            return Err(VioletError::InvalidKeySize(kek.len()));
        }
        if plaintext.len() as u64 > gcm::GCM_P_MAX {
            return Err(VioletError::EncryptionFailed);
        }
        let dek = random_bytes(DEK_SIZE);
        let data_result = match self.algorithm {
            Algorithm::Aes256Gcm => gcm::encrypt(plaintext, dek.as_slice()),
            Algorithm::Aes256GcmSiv => gcm_siv::encrypt(plaintext, dek.as_slice()),
        };
        let (ciphertext, data_iv, data_tag) = match data_result {
            Ok(t) => t,
            Err(_) => {
                return unreached();
            },
        };
        let (wrapped, dek_iv, dek_tag) = match gcm::encrypt(dek.as_slice(), kek) {
            Ok(t) => t,
            Err(_) => {
                return unreached();
            },
        };
        let pkg = concat_bytes(
            concat_bytes(dek_iv.as_slice(), wrapped.as_slice()).as_slice(),
            dek_tag.as_slice(),
        );
        let alg = self.algorithm;
        let env = EncryptionEnvelope {
            key_id,
            encrypted_data: b64_encode(ciphertext.as_slice()),
            encrypted_key: b64_encode(pkg.as_slice()),
            iv: b64_encode(data_iv.as_slice()),
            algorithm: alg.as_str().to_owned(),
            auth_tag: b64_encode(data_tag.as_slice()),
        };
        proof {
            crate::types::lemma_algorithm_round_trip(alg);
            assert(pkg@.len() == 60);
            assert(pkg@.subrange(0, 12) =~= dek_iv@);
            assert(pkg@.subrange(12, 44) =~= wrapped@);
            assert(pkg@.subrange(44, 60) =~= dek_tag@);
            assert(spec_decrypt_decoded(pkg@, ciphertext@, data_iv@, data_tag@, alg, kek@) == Ok::<
                Seq<u8>,
                VioletError,
            >(plaintext@));
        }
        Ok(env)
    }

    /// Decrypt an envelope under `kek`; returns exactly what `spec_decrypt`
    /// says, value and error alike.
    pub fn decrypt(&self, envelope: &EncryptionEnvelope, kek: &[u8]) -> (r: Result<
        Vec<u8>,
        VioletError,
    >)
        ensures
            match (r, spec_decrypt(*envelope, kek@)) {
                (Ok(p), Ok(s)) => p@ == s,
                (Err(e), Err(f)) => e == f,
                _ => false,
            },
            r matches Ok(p) ==> p@.len() <= gcm::GCM_P_MAX,
    {
        if kek.len() != DEK_SIZE {
            return Err(VioletError::InvalidKeySize(kek.len()));
        }
        let pkg = match b64_decode(envelope.encrypted_key.as_str()) {
            Some(v) => v,
            None => {
                return Err(VioletError::Base64Error);
            },
        };
        let ciphertext = match b64_decode(envelope.encrypted_data.as_str()) {
            Some(v) => v,
            None => {
                return Err(VioletError::Base64Error);
            },
        };
        let iv = match b64_decode(envelope.iv.as_str()) {
            Some(v) => v,
            None => {
                return Err(VioletError::Base64Error);
            },
        };
        let auth_tag = match b64_decode(envelope.auth_tag.as_str()) {
            Some(v) => v,
            None => {
                return Err(VioletError::Base64Error);
            },
        };
        let algorithm = match Algorithm::from_str(envelope.algorithm.as_str()) {
            Ok(a) => a,
            Err(e) => {
                return Err(e);
            },
        };
        if pkg.len() < 12 + 16 {
            return Err(VioletError::CryptoError(pkg.len()));
        }
        let dek_data_end = pkg.len() - GCM_TAG_SIZE;
        let dek_nonce = slice_subrange(pkg.as_slice(), 0, 12);
        let dek_ciphertext = slice_subrange(pkg.as_slice(), 12, dek_data_end);
        let dek_tag = slice_subrange(pkg.as_slice(), dek_data_end, pkg.len());
        let dek = match gcm::decrypt(dek_ciphertext, kek, dek_nonce, dek_tag) {
            Ok(d) => d,
            Err(e) => {
                return Err(e);
            },
        };
        if dek.len() != DEK_SIZE {
            return Err(VioletError::CryptoError(dek.len()));
        }
        match algorithm {
            Algorithm::Aes256Gcm => gcm::decrypt(
                ciphertext.as_slice(),
                dek.as_slice(),
                iv.as_slice(),
                auth_tag.as_slice(),
            ),
            Algorithm::Aes256GcmSiv => gcm_siv::decrypt(
                ciphertext.as_slice(),
                dek.as_slice(),
                iv.as_slice(),
                auth_tag.as_slice(),
            ),
        }
    }
}

} // verus!
