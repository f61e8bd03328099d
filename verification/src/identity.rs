use vstd::prelude::*;
use vstd::std_specs::cmp::PartialEqSpecImpl;

verus! {

/// Who owns an account or signs an operation: a 32-byte public key.
///
/// The key made of 32 zero bytes is never a signer. It is what the owner
/// field of an account holds until the account's first operation fills it in.
#[derive(Clone, Copy, Debug, Eq)]
pub struct Identity {
    /// The key, byte for byte.
    pub bytes: [u8; 32],
}

impl PartialEq for Identity {
    fn eq(&self, other: &Identity) -> (r: bool) {
        let mut i: usize = 0;
        while i < 32
            invariant
                i <= 32,
                forall|j: int| 0 <= j < i ==> self.bytes[j] == other.bytes[j],
            decreases 32 - i,
        {
            if self.bytes[i] != other.bytes[i] {
                return false;
            }
            i += 1;
        }
        assert(self.bytes =~= other.bytes);
        true
    }
}

impl PartialEqSpecImpl for Identity {
    open spec fn obeys_eq_spec() -> bool {
        true
    }

    open spec fn eq_spec(&self, other: &Identity) -> bool {
        *self == *other
    }
}

impl Identity {
    /// Whether every byte of the key is zero.
    pub open spec fn unset(self) -> bool {
        forall|i: int| 0 <= i < 32 ==> self.bytes[i] == 0
    }

    /// The key with the given bytes.
    pub fn new(bytes: [u8; 32]) -> (r: Identity)
        ensures
            r.bytes == bytes,
    {
        Identity { bytes }
    }

    /// Tells an account that was never written to from one that has an owner.
    pub fn is_unset(&self) -> (r: bool)
        ensures
            r == self.unset(),
    {
        let mut i: usize = 0;
        while i < 32
            invariant
                i <= 32,
                forall|j: int| 0 <= j < i ==> self.bytes[j] == 0,
            decreases 32 - i,
        {
            if self.bytes[i] != 0 {
                return false;
            }
            i += 1;
        }
        true
    }

    /// There is one unset key only.
    pub proof fn lemma_unset_is_unique(a: Identity, b: Identity)
        requires
            a.unset(),
            b.unset(),
        ensures
            a == b,
    {
        assert(a.bytes =~= b.bytes);
    }
}

impl Default for Identity {
    fn default() -> (r: Identity)
        ensures
            r.unset(),
    {
        Identity { bytes: [0u8; 32] }
    }
}

} // verus!
