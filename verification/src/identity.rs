//! Identities of participants and assets.

use vstd::prelude::*;

verus! {

/// A verified identity: a staker, an administrator or an asset. Two
/// identities are the same when their bytes are.
#[derive(Clone, Copy, Debug, PartialEq, Eq, Hash)]
pub struct Identity {
    pub bytes: [u8; 32],
}

impl Identity {
    /// The identity is the sentinel that stands for "nobody": every byte
    /// is zero.
    pub open spec fn spec_is_unset(&self) -> bool {
        forall|i: int| 0 <= i < 32 ==> self.bytes[i] == 0u8
    }

    /// The sentinel identity.
    pub fn unset() -> (id: Identity)
        ensures
            id.is_unset(),
    {
        Identity { bytes: [0u8; 32] }
    }

    /// Wraps the given bytes.
    pub fn new(bytes: [u8; 32]) -> (id: Identity)
        ensures
            id.bytes == bytes,
    {
        Identity { bytes }
    }

    /// Tells whether this is the sentinel identity.
    #[verifier::when_used_as_spec(spec_is_unset)]
    pub fn is_unset(&self) -> (unset: bool)
        ensures
            unset == self.is_unset(),
    {
        let mut i: usize = 0;
        while i < 32
            invariant
                i <= 32,
                forall|j: int| 0 <= j < i ==> self.bytes[j] == 0u8,
            decreases 32 - i,
        {
            if self.bytes[i] != 0 {
                return false;
            }
            i += 1;
        }
        true
    }

    /// Tells whether two identities are the same.
    pub fn same_as(&self, other: &Identity) -> (same: bool)
        ensures
            same == (*self == *other),
    {
        let mut i: usize = 0;
        while i < 32
            invariant
                i <= 32,
                forall|j: int| 0 <= j < i ==> self.bytes[j] == other.bytes[j],
            decreases 32 - i,
        {
            if self.bytes[i] != other.bytes[i] {
                return false;
            }
            i += 1;
        }
        assert(self.bytes =~= other.bytes);
        true
    }
}

impl Default for Identity {
    fn default() -> (id: Identity)
        ensures
            id.is_unset(),
    {
        Identity::unset()
    }
}

} // verus!
