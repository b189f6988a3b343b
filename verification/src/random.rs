//! Trusted binding to the process random source.

use rand::RngCore;
use vstd::prelude::*;

verus! {

/// Relies on `rand::thread_rng` / `RngCore::fill_bytes`: the whole buffer is
/// filled. Nothing else can be promised of random bytes.
#[verifier::external_body]
pub(crate) fn random_bytes(n: usize) -> (r: Vec<u8>)
    ensures
        r@.len() == n,
{
    let mut buf = vec![0u8; n];
    rand::thread_rng().fill_bytes(&mut buf);
    buf
}

} // verus!
