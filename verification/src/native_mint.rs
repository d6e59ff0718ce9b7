//! The mint that represents the native token.

use vstd::prelude::*;
use crate::keys::{Key, keys_equal};

verus! {

/// There are 10^9 base units in one native token.
pub const DECIMALS: u8 = 9;

/// The native mint's address, `So11111111111111111111111111111111111111112`.
pub const ID: Key = [
    6, 155, 136, 87, 254, 171, 129, 132, 251, 104, 127, 99, 70, 24, 192, 53,
    218, 196, 57, 220, 26, 235, 59, 85, 152, 160, 240, 0, 0, 0, 0, 1,
];

/// Returns the native mint's address.
pub fn id() -> (r: Key)
    ensures
        r == ID,
{
    ID
}

/// Tells whether `key` is the native mint's address.
pub fn check_id(key: &Key) -> (r: bool)
    ensures
        r == (*key == ID),
{
    let native = ID;
    keys_equal(key, &native)
}

} // verus!
