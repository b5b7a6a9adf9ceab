//! Fixed-size byte strings: comparison, the proof-point check and the
//! big-endian reading of a public signal.
use vstd::prelude::*;

verus! {

/// Whether some byte of `s` is not zero.
pub open spec fn has_nonzero_byte(s: Seq<u8>) -> bool {
    exists|i: int| 0 <= i < s.len() && s[i] != 0
}

/// The unsigned number whose big-endian encoding is the first four bytes of `s`.
pub open spec fn be_u32_prefix(s: Seq<u8>) -> int {
    s[0] * 16777216int + s[1] * 65536int + s[2] * 256int + s[3]
}

/// Compares two 32-byte strings.
pub fn bytes32_eq(a: &[u8; 32], b: &[u8; 32]) -> (r: bool)
    ensures
        r == (*a == *b),
{
    for i in 0..32usize
        invariant
            forall|j: int| 0 <= j < i ==> a[j] == b[j],
    {
        if a[i] != b[i] {
            return false;
        }
    }
    assert(*a =~= *b);
    true
}

} // verus!
