//! Thirty-two byte account addresses.

use vstd::prelude::*;
use vstd::std_specs::cmp::PartialEqSpecImpl;

verus! {

/// The address of an account: thirty-two opaque bytes.
///
/// The market engine only ever compares addresses and stores them, so the
/// bytes carry no further structure here.
#[derive(Clone, Copy, Debug)]
pub struct Pubkey {
    pub bytes: [u8; 32],
}

impl Pubkey {
    /// Wraps thirty-two raw bytes as an address.
    pub fn new_from_array(bytes: [u8; 32]) -> (key: Pubkey)
        ensures
            key.bytes == bytes,
    {
        Pubkey { bytes }
    }

    /// Whether the address is the one of thirty-two zero bytes.
    pub open spec fn is_default(self) -> bool {
        forall|i: int| 0 <= i < 32 ==> self.bytes[i] == 0
    }

    /// The raw bytes of the address.
    pub fn to_bytes(&self) -> (bytes: [u8; 32])
        ensures
            bytes == self.bytes,
    {
        self.bytes
    }
}

impl PartialEq for Pubkey {
    /// Two addresses are equal exactly when all thirty-two bytes agree.
    fn eq(&self, other: &Pubkey) -> (same: bool) {
        let mut i: usize = 0;
        while i < 32
            invariant
                i <= 32,
                forall|j: int| 0 <= j < i ==> self.bytes[j] == other.bytes[j],
            decreases 32 - i,
        {
            if self.bytes[i] != other.bytes[i] {
                return false;
            }
            i += 1;
        }
        proof {
            assert(self.bytes =~= other.bytes);
        }
        true
    }
}

impl Eq for Pubkey {

}

impl PartialEqSpecImpl for Pubkey {
    open spec fn obeys_eq_spec() -> bool {
        true
    }

    open spec fn eq_spec(&self, other: &Pubkey) -> bool {
        *self == *other
    }
}

impl Default for Pubkey {
    /// The address of thirty-two zero bytes, which stands for "no address".
    fn default() -> (key: Pubkey)
        ensures
            key.is_default(),
    {
        Pubkey { bytes: [0u8;32] }
    }
}

/// There is only one address of thirty-two zero bytes.
pub proof fn lemma_default_is_unique(a: Pubkey, b: Pubkey)
    requires
        a.is_default(),
        b.is_default(),
    ensures
        a == b,
{
    assert(a.bytes =~= b.bytes);
}

} // verus!
