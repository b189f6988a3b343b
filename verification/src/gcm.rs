//! AES-256-GCM adapter: randomized-nonce authenticated encryption on raw byte
//! buffers, with the tag split from the ciphertext.
//!
//! The cipher itself is trusted: sealing and opening are deterministic in key,
//! nonce and payload, so their results are modelled by uninterpreted names,
//! tied together by the round-trip fact on the sealing binding.

use aes_gcm::aead::Aead;
use aes_gcm::{Aes256Gcm, KeyInit, Nonce};
use crate::error::VioletError;
use crate::random::random_bytes;
use crate::types::{GCM_NONCE_SIZE, GCM_TAG_SIZE};
use vstd::prelude::*;
use vstd::slice::{slice_subrange, slice_to_vec};

verus! {

/// The largest plaintext AES-GCM accepts, in bytes.
pub const GCM_P_MAX: u64 = 0x10_0000_0000;

/// The largest sealed input AES-GCM accepts: a maximal plaintext plus the tag.
pub const GCM_C_MAX: u64 = 0x10_0000_0010;

/// What AES-256-GCM seals `ptext` to under `key` and `nonce`: the ciphertext
/// with the 16-byte tag appended.
pub uninterp spec fn gcm_sealed(key: Seq<u8>, nonce: Seq<u8>, ptext: Seq<u8>) -> Seq<u8>;

/// What AES-256-GCM opens `data` (ciphertext with appended tag) to under
/// `key` and `nonce`; `None` where tag verification fails.
pub uninterp spec fn gcm_opened(key: Seq<u8>, nonce: Seq<u8>, data: Seq<u8>) -> Option<Seq<u8>>;

/// Relies on `Aes256Gcm` through the `Aead` trait: `encrypt` is deterministic
/// in key, nonce and plaintext, appends the 16-byte tag to the ciphertext,
/// succeeds on every plaintext within the length limit, and `decrypt` inverts
/// it.
#[verifier::external_body]
fn gcm_seal_call(key: &[u8], nonce: &[u8], ptext: &[u8]) -> (r: Vec<u8>)
    requires
        key@.len() == 32,
        nonce@.len() == 12,
        ptext@.len() <= GCM_P_MAX,
    ensures
        r@ == gcm_sealed(key@, nonce@, ptext@),
        r@.len() == ptext@.len() + 16,
        gcm_opened(key@, nonce@, r@) == Some(ptext@),
{
    let cipher = Aes256Gcm::new_from_slice(key).unwrap();
    cipher.encrypt(Nonce::from_slice(nonce), ptext).unwrap()
}

/// Relies on `Aes256Gcm` through the `Aead` trait: `decrypt` is deterministic
/// in key, nonce and input; within the length limit that the precondition
/// imposes it rejects inputs shorter than the tag and fails exactly where tag
/// verification fails, recovering a plaintext 16 bytes shorter than the
/// input.
#[verifier::external_body]
fn gcm_open_call(key: &[u8], nonce: &[u8], data: &[u8]) -> (r: Option<Vec<u8>>)
    requires
        key@.len() == 32,
        nonce@.len() == 12,
        data@.len() <= GCM_C_MAX,
    ensures
        match r {
            Some(p) => 16 <= data@.len() && p@.len() + 16 == data@.len() && gcm_opened(
                key@,
                nonce@,
                data@,
            ) == Some(p@),
            None => data@.len() < 16 || gcm_opened(key@, nonce@, data@) is None,
        },
{
    let cipher = Aes256Gcm::new_from_slice(key).unwrap();
    cipher.decrypt(Nonce::from_slice(nonce), data).ok()
}

/// Encrypt `plaintext` under a fresh random 12-byte nonce.
///
/// Returns the ciphertext (same length as the plaintext), the nonce, and the
/// 16-byte tag, in that order. Fails exactly on a key that is not 32 bytes,
/// or on a plaintext beyond AES-GCM's length limit.
pub fn encrypt(plaintext: &[u8], key: &[u8]) -> (r: Result<
    (Vec<u8>, Vec<u8>, Vec<u8>),
    VioletError,
>)
    ensures
        key@.len() != 32 ==> r == Err::<(Vec<u8>, Vec<u8>, Vec<u8>), VioletError>(
            VioletError::InvalidKeySize(key@.len() as usize),
        ),
        key@.len() == 32 && plaintext@.len() > GCM_P_MAX ==> r == Err::<
            (Vec<u8>, Vec<u8>, Vec<u8>),
            VioletError,
        >(VioletError::EncryptionFailed),
        key@.len() == 32 && plaintext@.len() <= GCM_P_MAX ==> match r {
            Ok((ct, nonce, tag)) => {
                &&& ct@.len() == plaintext@.len()
                &&& nonce@.len() == 12
                &&& tag@.len() == 16
                &&& ct@ + tag@ == gcm_sealed(key@, nonce@, plaintext@)
                &&& gcm_opened(key@, nonce@, ct@ + tag@) == Some(plaintext@)
            },
            Err(_) => false,
        },
{
    if key.len() != 32 {
        return Err(VioletError::InvalidKeySize(key.len()));
    }
    if plaintext.len() as u64 > GCM_P_MAX {
        return Err(VioletError::EncryptionFailed);
    }
    let nonce = random_bytes(GCM_NONCE_SIZE);
    let sealed = gcm_seal_call(key, nonce.as_slice(), plaintext);
    let tag_start = sealed.len() - GCM_TAG_SIZE;
    let ciphertext = slice_to_vec(slice_subrange(sealed.as_slice(), 0, tag_start));
    let tag = slice_to_vec(slice_subrange(sealed.as_slice(), tag_start, sealed.len()));
    proof {
        assert(ciphertext@ + tag@ =~= sealed@);
    }
    Ok((ciphertext, nonce, tag))
}

/// Decrypt a ciphertext/nonce/tag triple.
///
/// The key, nonce and tag sizes are validated before the cipher is invoked;
/// an authentication failure is reported as the opaque `DecryptionFailed`.
pub fn decrypt(ciphertext: &[u8], key: &[u8], nonce: &[u8], tag: &[u8]) -> (r: Result<
    Vec<u8>,
    VioletError,
>)
    ensures
        key@.len() != 32 ==> r == Err::<Vec<u8>, VioletError>(
            VioletError::InvalidKeySize(key@.len() as usize),
        ),
        key@.len() == 32 && nonce@.len() != 12 ==> r == Err::<Vec<u8>, VioletError>(
            VioletError::InvalidNonceSize(nonce@.len() as usize),
        ),
        key@.len() == 32 && nonce@.len() == 12 && tag@.len() != 16 ==> r == Err::<
            Vec<u8>,
            VioletError,
        >(VioletError::InvalidTagSize(tag@.len() as usize)),
        key@.len() == 32 && nonce@.len() == 12 && tag@.len() == 16 ==> match r {
            Ok(p) => ciphertext@.len() <= GCM_P_MAX && p@.len() == ciphertext@.len() && gcm_opened(
                key@,
                nonce@,
                ciphertext@ + tag@,
            ) == Some(p@),
            Err(e) => e == VioletError::DecryptionFailed && (ciphertext@.len() > GCM_P_MAX
                || gcm_opened(key@, nonce@, ciphertext@ + tag@) is None),
        },
{
    if key.len() != 32 {
        return Err(VioletError::InvalidKeySize(key.len()));
    }
    if nonce.len() != GCM_NONCE_SIZE {
        return Err(VioletError::InvalidNonceSize(nonce.len()));
    }
    if tag.len() != GCM_TAG_SIZE {
        return Err(VioletError::InvalidTagSize(tag.len()));
    }
    if ciphertext.len() as u64 > GCM_P_MAX {
        return Err(VioletError::DecryptionFailed);
    }
    let data = crate::bytes::concat_bytes(ciphertext, tag);
    match gcm_open_call(key, nonce, data.as_slice()) {
        Some(p) => Ok(p),
        None => Err(VioletError::DecryptionFailed),
    }
}

} // verus!
