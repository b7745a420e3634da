//! The binary marshaller: attribute names and values cross the boundary
//! to the host runtime as raw byte sequences. Nothing here interprets the
//! bytes as text, so embedded null bytes and invalid encodings survive.

use vstd::prelude::*;

verus! {

/// Builds the external-representation buffer for one name or value:
/// sized exactly to the input, every byte copied verbatim.
pub fn to_external(bytes: &[u8]) -> (r: Vec<u8>)
    ensures
        r@ == bytes@,
{
    let n: usize = bytes.len();
    let mut out: Vec<u8> = Vec::with_capacity(n);
    let mut i: usize = 0;
    while i < n
        invariant
            i <= n,
            n == bytes@.len(),
            out@.len() == i,
            forall|j: int| 0 <= j < i ==> out@[j] == bytes@[j],
        decreases n - i,
    {
        out.push(bytes[i]);
        i = i + 1;
    }
    proof {
        assert(out@ =~= bytes@);
    }
    out
}

} // verus!
