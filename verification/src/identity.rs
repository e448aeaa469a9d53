use vstd::prelude::*;

verus! {

/// The authenticated identity of a participant: an opaque 32-byte key.
///
/// Two identities are the same participant exactly when all their bytes agree.
#[derive(Clone, Copy, Debug, PartialEq, Eq, Hash)]
pub struct PlayerId {
    pub bytes: [u8; 32],
}

impl View for PlayerId {
    type V = Seq<u8>;

    open spec fn view(&self) -> Seq<u8> {
        self.bytes@
    }
}

impl PlayerId {
    /// Wraps 32 raw key bytes.
    pub fn new(bytes: [u8; 32]) -> (id: PlayerId)
        ensures
            id.bytes == bytes,
            id@ == bytes@,
    {
        PlayerId { bytes }
    }

    /// Whether `self` and `other` name the same participant.
    pub fn same(&self, other: &PlayerId) -> (r: bool)
        ensures
            r == (*self == *other),
            r == (self@ == other@),
    {
        let mut i: usize = 0;
        while i < 32
            invariant
                i <= 32,
                forall|j: int| 0 <= j < i ==> self.bytes[j] == other.bytes[j],
            decreases 32 - i,
        {
            if self.bytes[i] != other.bytes[i] {
                return false;
            }
            i = i + 1;
        }
        assert(self.bytes =~= other.bytes);
        true
    }
}

} // verus!
