//! The identity of a principal: the party that an operation acts for.

use vstd::prelude::*;

verus! {

/// The length of a principal's textual key.
pub const ADDRESS_LEN: usize = 56;

/// A principal, known by the 56 bytes of its textual key. Two addresses are
/// the same principal exactly when their keys are equal.
#[derive(Clone, Copy, Debug, PartialEq, Eq)]
pub struct Address {
    pub key: [u8; 56],
}

impl Address {
    /// The address with the given key.
    pub fn new(key: [u8; 56]) -> (r: Address)
        ensures
            r.key == key,
    {
        Address { key }
    }

    /// Whether `self` and `other` are the same principal.
    pub fn same(&self, other: &Address) -> (r: bool)
        ensures
            r == (*self == *other),
    {
        let mut i: usize = 0;
        while i < 56
            invariant
                i <= 56,
                forall|j: int| 0 <= j < i ==> self.key[j] == other.key[j],
            decreases 56 - i,
        {
            if self.key[i] != other.key[i] {
                return false;
            }
            i += 1;
        }
        proof {
            assert(self.key =~= other.key);
        }
        true
    }
}

} // verus!
