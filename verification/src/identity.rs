//! Identities and the plain quantities that the auction engine works on.
//!
//! An account and a hash are both 32 raw bytes. They are kept as types of
//! their own so that a participant can never be mistaken for an asset name.

use vstd::prelude::*;
use vstd::std_specs::cmp::PartialEqSpecImpl;

verus! {

/// Amount of the chain's currency.
pub type Balance = u128;

/// Height of a block: the engine's unit of time.
pub type BlockNumber = u32;

/// Whether two 32-byte strings hold the same bytes.
pub fn same_bytes(a: &[u8; 32], b: &[u8; 32]) -> (r: bool)
    ensures
        r == (*a == *b),
{
    let mut i: usize = 0;
    while i < 32
        invariant
            i <= 32,
            forall|j: int| 0 <= j < i ==> a[j] == b[j],
        decreases 32 - i,
    {
        if a[i] != b[i] {
            return false;
        }
        i = i + 1;
    }
    assert(*a =~= *b);
    true
}

/// The identity of a participant, of the owner or of a contract.
#[derive(Clone, Copy, Debug)]
pub struct AccountId {
    pub bytes: [u8; 32],
}

impl AccountId {
    /// The account with the given raw bytes.
    pub fn new(bytes: [u8; 32]) -> (id: AccountId)
        ensures
            id.bytes == bytes,
    {
        AccountId { bytes }
    }
}

impl PartialEq for AccountId {
    fn eq(&self, other: &AccountId) -> (r: bool) {
        same_bytes(&self.bytes, &other.bytes)
    }
}

impl Eq for AccountId {

}

impl PartialEqSpecImpl for AccountId {
    open spec fn obeys_eq_spec() -> bool {
        true
    }

    open spec fn eq_spec(&self, other: &AccountId) -> bool {
        *self == *other
    }
}

/// A 32-byte hash: the name of an auctioned asset, or a random value.
#[derive(Clone, Copy, Debug)]
pub struct Hash {
    pub bytes: [u8; 32],
}

impl Hash {
    /// The hash with the given raw bytes.
    pub fn new(bytes: [u8; 32]) -> (h: Hash)
        ensures
            h.bytes == bytes,
    {
        Hash { bytes }
    }

    /// The hash whose bits are all zero.
    pub fn clear() -> (h: Hash)
        ensures
            forall|i: int| 0 <= i < 32 ==> h.bytes[i] == 0u8,
    {
        Hash { bytes: [0u8; 32] }
    }
}

impl PartialEq for Hash {
    fn eq(&self, other: &Hash) -> (r: bool) {
        same_bytes(&self.bytes, &other.bytes)
    }
}

impl Eq for Hash {

}

impl PartialEqSpecImpl for Hash {
    open spec fn obeys_eq_spec() -> bool {
        true
    }

    open spec fn eq_spec(&self, other: &Hash) -> bool {
        *self == *other
    }
}

/// What the host hands to every operation: who calls, at which block, and
/// how much currency came with the call.
#[derive(Clone, Copy, Debug)]
pub struct InvocationContext {
    pub caller: AccountId,
    pub now: BlockNumber,
    pub amount: Balance,
}

} // verus!
