//! Identities of the parties that call the registry.

use vstd::prelude::*;

verus! {

/// An identity, held as the bytes of its canonical encoding.
///
/// Two identities are the same party exactly when their encodings are equal.
#[derive(Clone, Debug, PartialEq, Eq)]
pub struct Identity {
    bytes: Vec<u8>,
}

impl View for Identity {
    type V = Seq<u8>;

    closed spec fn view(&self) -> Seq<u8> {
        self.bytes@
    }
}

impl Identity {
    /// The identity whose encoding is `bytes`.
    pub fn new(bytes: Vec<u8>) -> (id: Identity)
        ensures
            id@ == bytes@,
    {
        Identity { bytes }
    }

    /// The encoding of this identity.
    pub fn as_bytes(&self) -> (bytes: &[u8])
        ensures
            bytes@ == self@,
    {
        self.bytes.as_slice()
    }

    /// Whether `self` and `other` are the same party.
    pub fn same_as(&self, other: &Identity) -> (same: bool)
        ensures
            same == (self@ == other@),
    {
        let same = self.bytes == other.bytes;
        proof {
            assert(same == (self.bytes@ =~= other.bytes@));
        }
        same
    }
}

} // verus!
