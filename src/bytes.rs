//! Fixed-size byte strings.
use vstd::prelude::*;

verus! {

/// Bytewise exclusive or of two byte sequences of the same length.
pub open spec fn xor_seq(a: Seq<u8>, b: Seq<u8>) -> Seq<u8> {
    Seq::new(a.len(), |i: int| a[i] ^ b[i])
}

/// Returns `a XOR b`, byte by byte.
pub fn xor_bytes(a: [u8; 32], b: &[u8; 32]) -> (r: [u8; 32])
    ensures
        r@ == xor_seq(a@, b@),
{
    let mut out = a;
    let mut i: usize = 0;
    while i < 32
        invariant
            i <= 32,
            out@.len() == 32,
            forall|k: int| 0 <= k < i ==> out@[k] == a@[k] ^ b@[k],
            forall|k: int| i <= k < 32 ==> out@[k] == a@[k],
        decreases 32 - i,
    {
        out[i] = out[i] ^ b[i];
        i = i + 1;
    }
    assert(out@ =~= xor_seq(a@, b@));
    out
}

/// Returns whether two 32-byte arrays hold the same bytes.
pub fn bytes_equal(a: &[u8; 32], b: &[u8; 32]) -> (r: bool)
    ensures
        r == (a@ == b@),
{
    let mut i: usize = 0;
    while i < 32
        invariant
            i <= 32,
            a@.len() == 32,
            b@.len() == 32,
            forall|k: int| 0 <= k < i ==> a@[k] == b@[k],
        decreases 32 - i,
    {
        if a[i] != b[i] {
            return false;
        }
        i = i + 1;
    }
    assert(a@ =~= b@);
    true
}

} // verus!
