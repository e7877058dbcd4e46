//! Identities of the parties and records that take part in a loan.

use vstd::prelude::*;
use vstd::std_specs::cmp::PartialEqSpecImpl;

verus! {

/// A 32-byte public key: the identity of a wallet, a collateral mint or a record.
///
/// Two keys are the same identity exactly when all 32 bytes agree.
#[derive(Clone, Copy, Debug)]
pub struct Pubkey {
    pub bytes: [u8; 32],
}

impl Pubkey {
    /// The key made of the given bytes.
    pub fn new_from_array(bytes: [u8; 32]) -> (key: Pubkey)
        ensures
            key.bytes == bytes,
    {
        Pubkey { bytes }
    }

    /// The bytes of the key.
    pub fn to_bytes(&self) -> (bytes: [u8; 32])
        ensures
            bytes == self.bytes,
    {
        self.bytes
    }

    /// The bytes of the key, as a vector.
    pub fn to_vec(&self) -> (bytes: Vec<u8>)
        ensures
            bytes@ == self.bytes@,
    {
        let mut bytes: Vec<u8> = Vec::with_capacity(32);
        let mut i: usize = 0;
        while i < 32
            invariant
                i <= 32,
                bytes@ == self.bytes@.take(i as int),
            decreases 32 - i,
        {
            bytes.push(self.bytes[i]);
            i += 1;
        }
        bytes
    }
}

impl PartialEq for Pubkey {
    fn eq(&self, other: &Pubkey) -> (same: bool) {
        let mut i: usize = 0;
        while i < 32
            invariant
                i <= 32,
                forall|j: int| 0 <= j < i ==> self.bytes[j] == other.bytes[j],
            decreases 32 - i,
        {
            if self.bytes[i] != other.bytes[i] {
                return false;
            }
            i += 1;
        }
        proof {
            assert(self.bytes =~= other.bytes);
        }
        true
    }
}

impl Eq for Pubkey {

}

impl PartialEqSpecImpl for Pubkey {
    open spec fn obeys_eq_spec() -> bool {
        true
    }

    open spec fn eq_spec(&self, other: &Pubkey) -> bool {
        *self == *other
    }
}

} // verus!
