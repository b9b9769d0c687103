use crate::codec::Address;
use vstd::prelude::*;

verus! {

/// An account record as the runtime hands it to a handler: where it lives,
/// who owns it, and the bytes it holds.
#[derive(Debug, PartialEq, Eq)]
pub struct AccountRecord {
    pub key: Address,
    pub owner: Address,
    pub data: Vec<u8>,
}

/// Whether every byte of the address is zero: the sentinel that stands for
/// "no address".
pub open spec fn is_zero(a: Address) -> bool {
    forall|i: int| 0 <= i < 32 ==> a@[i] == 0
}

/// Whether the address is the all-zero sentinel.
pub fn is_zero_address(a: &Address) -> (r: bool)
    ensures
        r == is_zero(*a),
{
    let mut i: usize = 0;
    while i < 32
        invariant
            i <= 32,
            forall|j: int| 0 <= j < i ==> a@[j] == 0,
        decreases 32 - i,
    {
        if a[i] != 0 {
            return false;
        }
        i = i + 1;
    }
    true
}

} // verus!
