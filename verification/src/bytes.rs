//! Small verified byte-buffer helpers shared by the cipher adapters and the
//! envelope packer.

use vstd::prelude::*;
use vstd::slice::{slice_index_get, slice_to_vec};

verus! {

/// `a` followed by `b`, as a fresh buffer.
pub(crate) fn concat_bytes(a: &[u8], b: &[u8]) -> (r: Vec<u8>)
    ensures
        r@ == a@ + b@,
{
    let mut r = slice_to_vec(a);
    let n = b.len();
    assert(r@ =~= a@ + b@.subrange(0, 0));
    for i in 0..n
        invariant
            n == b@.len(),
            r@ == a@ + b@.subrange(0, i as int),
    {
        r.push(*slice_index_get(b, i));
        assert(r@ =~= a@ + b@.subrange(0, i + 1));
    }
    assert(r@ =~= a@ + b@);
    r
}

} // verus!
