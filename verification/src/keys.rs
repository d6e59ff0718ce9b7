//! Account addresses as plain 32-byte values.

use vstd::prelude::*;

verus! {

/// An account address: the 32 bytes of a public key.
pub type Key = [u8; 32];

/// Compares two addresses byte by byte.
pub fn keys_equal(a: &Key, b: &Key) -> (r: bool)
    ensures
        r == (*a == *b),
{
    broadcast use vstd::array::group_array_axioms;
    let mut i: usize = 0;
    while i < 32
        invariant
            i <= 32,
            forall|j: int| 0 <= j < i ==> a[j] == b[j],
        decreases 32 - i,
    {
        if a[i] != b[i] {
            assert(!(a =~= b));
            return false;
        }
        i = i + 1;
    }
    assert(a =~= b);
    true
}

} // verus!
