//! Identities of the parties that the engine deals with.

use vstd::prelude::*;
use vstd::std_specs::cmp::PartialEqSpecImpl;

verus! {

/// An opaque, public-key-sized identifier of a party.
///
/// Two identities are the same party exactly when their bytes agree.
#[derive(Clone, Copy, Debug, Eq, Hash)]
pub struct Identity {
    pub bytes: [u8; 32],
}

impl Identity {
    /// The distinguished identity that stands for "nobody" and marks a seat
    /// that is not taken yet: every byte is zero.
    pub open spec fn nobody() -> Identity {
        Identity { bytes: vstd::array::spec_array_fill_for_copy_type::<u8, 32>(0u8) }
    }

    /// The identity made of the given bytes.
    pub fn new(bytes: [u8; 32]) -> (id: Identity)
        ensures
            id.bytes == bytes,
    {
        Identity { bytes }
    }

    /// Executable form of [`Identity::nobody`].
    pub fn unset() -> (id: Identity)
        ensures
            id == Identity::nobody(),
    {
        Identity { bytes: [0u8; 32] }
    }

    /// Whether this is the identity that stands for "nobody".
    pub fn is_unset(&self) -> (r: bool)
        ensures
            r == (*self == Identity::nobody()),
    {
        *self == Identity::unset()
    }
}

/// An identity stands for "nobody" exactly when all its bytes are zero.
pub proof fn lemma_nobody_is_all_zero(id: Identity)
    ensures
        id == Identity::nobody() <==> forall|i: int| 0 <= i < 32 ==> id.bytes[i] == 0u8,
{
    if forall|i: int| 0 <= i < 32 ==> id.bytes[i] == 0u8 {
        assert(id.bytes =~= Identity::nobody().bytes);
    }
}

impl PartialEq for Identity {
    fn eq(&self, other: &Identity) -> (r: bool) {
        let mut i: usize = 0;
        while i < 32
            invariant
                i <= 32,
                forall|j: int| 0 <= j < i ==> self.bytes[j] == other.bytes[j],
            decreases 32 - i,
        {
            if self.bytes[i] != other.bytes[i] {
                return false;
            }
            i += 1;
        }
        proof {
            assert(self.bytes =~= other.bytes);
        }
        true
    }
}

impl PartialEqSpecImpl for Identity {
    open spec fn obeys_eq_spec() -> bool {
        true
    }

    open spec fn eq_spec(&self, other: &Identity) -> bool {
        *self == *other
    }
}

impl Default for Identity {
    fn default() -> (id: Identity)
        ensures
            id == Identity::nobody(),
    {
        Identity::unset()
    }
}

} // verus!
