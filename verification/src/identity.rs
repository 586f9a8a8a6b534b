//! Principal identities.
//!
//! A principal (the creating authority, the assigned contractor, or any
//! other caller) is named by an opaque 32-byte key. The state machine never
//! interprets the bytes; it only compares identities for equality when it
//! checks a caller's authorization.

use vstd::prelude::*;

verus! {

/// An opaque 32-byte identity of a principal.
#[derive(Clone, Copy, Debug)]
pub struct Identity {
    pub bytes: [u8; 32],
}

impl View for Identity {
    type V = Seq<u8>;

    open spec fn view(&self) -> Seq<u8> {
        self.bytes@
    }
}

impl Identity {
    /// Wraps raw key bytes as an identity.
    pub fn new(bytes: [u8; 32]) -> (r: Identity)
        ensures
            r@ == bytes@,
    {
        Identity { bytes }
    }

    /// Byte-for-byte equality of two identities.
    pub fn same(&self, other: &Identity) -> (r: bool)
        ensures
            r <==> self@ == other@,
    {
        let mut i: usize = 0;
        while i < 32
            invariant
                i <= 32,
                forall|j: int| 0 <= j < i ==> self.bytes@[j] == other.bytes@[j],
            decreases 32 - i,
        {
            if self.bytes[i] != other.bytes[i] {
                assert(self@[i as int] != other@[i as int]);
                return false;
            }
            i += 1;
        }
        assert(self@ =~= other@);
        true
    }
}

} // verus!
