use vstd::prelude::*;

verus! {

/// A 32-byte ledger identity (an account address or a signer's key).
#[derive(Clone, Copy, Debug)]
pub struct Identity {
    pub bytes: [u8; 32],
}

impl Identity {
    /// The all-zero identity, used as the "not set yet" value.
    pub fn zero() -> (r: Identity)
        ensures
            r.is_zero(),
    {
        Identity { bytes: [0u8; 32] }
    }

    pub fn new(bytes: [u8; 32]) -> (r: Identity)
        ensures
            r.bytes@ == bytes@,
    {
        Identity { bytes }
    }

    pub open spec fn is_zero(&self) -> bool {
        forall|i: int| 0 <= i < 32 ==> #[trigger] self.bytes@[i] == 0u8
    }

    /// Two identities are the same when all their bytes agree.
    pub fn same_as(&self, other: &Identity) -> (r: bool)
        ensures
            r == (self.bytes@ == other.bytes@),
    {
        let mut i: usize = 0;
        while i < 32
            invariant
                0 <= i <= 32,
                forall|j: int| 0 <= j < i ==> self.bytes@[j] == other.bytes@[j],
            decreases 32 - i,
        {
            if self.bytes[i] != other.bytes[i] {
                return false;
            }
            i = i + 1;
        }
        assert(self.bytes@ =~= other.bytes@);
        true
    }
}

} // verus!
