//! Identities of accounts and authorities.

use vstd::prelude::*;

verus! {

/// The 32-byte identity of an account or of a signing authority.
#[derive(Clone, Copy, Debug)]
pub struct Address {
    pub bytes: [u8; 32],
}

impl Address {
    /// An identity from its 32 bytes.
    pub fn new(bytes: [u8; 32]) -> (a: Address)
        ensures
            a.bytes == bytes,
    {
        Address { bytes }
    }

    /// Whether two identities are the same, byte for byte.
    pub fn same(&self, other: &Address) -> (r: bool)
        ensures
            r == (self.bytes@ == other.bytes@),
    {
        let mut i: usize = 0;
        while i < 32
            invariant
                i <= 32,
                forall|j: int| 0 <= j < i ==> self.bytes@[j] == other.bytes@[j],
            decreases 32 - i,
        {
            if self.bytes[i] != other.bytes[i] {
                return false;
            }
            i += 1;
        }
        assert(self.bytes@ =~= other.bytes@);
        true
    }
}

} // verus!
