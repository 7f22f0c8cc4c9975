//! The escrow ledger: how much of each participant's money the auction holds.
//!
//! The entries live in the storage hash map of `ink_storage`, keyed by the
//! account's 32 bytes. The map is held in its unbound state, in which it is
//! an ordinary map in memory. Nothing in this file is proved of that map:
//! the functions marked `external_body` state what its source shows.

use vstd::prelude::*;
use crate::identity::{AccountId, Balance};

verus! {

/// The escrowed amounts, by account.
#[verifier::external_body]
pub struct Ledger {
    inner: ink_storage::collections::HashMap<[u8; 32], u128>,
}

/// What a ledger holds: the amount escrowed for each account that has an
/// entry.
pub uninterp spec fn ledger_entries(l: Ledger) -> Map<AccountId, Balance>;

impl View for Ledger {
    type V = Map<AccountId, Balance>;

    open spec fn view(&self) -> Map<AccountId, Balance> {
        ledger_entries(*self)
    }
}

impl Ledger {
    /// `HashMap::new` of `ink_storage`: a map without entries.
    #[verifier::external_body]
    pub(crate) fn new() -> (l: Ledger)
        ensures
            ledger_entries(l) =~= Map::empty(),
    {
        Ledger { inner: ink_storage::collections::HashMap::new() }
    }

    /// `HashMap::len` of `ink_storage`: the number of entries.
    #[verifier::external_body]
    pub(crate) fn len(&self) -> (n: u32)
        ensures
            ledger_entries(*self).dom().finite() ==> n == ledger_entries(*self).dom().len(),
    {
        self.inner.len()
    }

    /// `HashMap::get` of `ink_storage`: the amount stored for `who`, if
    /// there is an entry. The map is left as it was.
    #[verifier::external_body]
    pub(crate) fn get(&self, who: &AccountId) -> (r: Option<Balance>)
        ensures
            r == (if ledger_entries(*self).contains_key(*who) {
                Some(ledger_entries(*self)[*who])
            } else {
                None
            }),
    {
        self.inner.get(&who.bytes).copied()
    }

    /// `HashMap::take` of `ink_storage`: removes the entry of `who` and
    /// returns the amount it held, if there was one.
    #[verifier::external_body]
    pub(crate) fn take(&mut self, who: &AccountId) -> (r: Option<Balance>)
        ensures
            ledger_entries(*final(self)) == ledger_entries(*old(self)).remove(*who),
            r == (if ledger_entries(*old(self)).contains_key(*who) {
                Some(ledger_entries(*old(self))[*who])
            } else {
                None
            }),
    {
        self.inner.take(&who.bytes)
    }

    /// `HashMap::insert` of `ink_storage`: sets the amount of `who`,
    /// replacing an earlier one, which is returned. The map counts its
    /// entries in a `u32`, so a new entry needs the count to be below the
    /// largest `u32`.
    #[verifier::external_body]
    pub(crate) fn insert(&mut self, who: AccountId, amount: Balance) -> (r: Option<Balance>)
        requires
            ledger_entries(*old(self)).dom().finite(),
            ledger_entries(*old(self)).contains_key(who) || ledger_entries(*old(self)).dom().len()
                < u32::MAX,
        ensures
            ledger_entries(*final(self)) == ledger_entries(*old(self)).insert(who, amount),
            r == (if ledger_entries(*old(self)).contains_key(who) {
                Some(ledger_entries(*old(self))[who])
            } else {
                None
            }),
    {
        self.inner.insert(who.bytes, amount)
    }
}

} // verus!
