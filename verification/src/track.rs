//! The snapshot track: for each slot of the auction, the bid that led when
//! the slot was last written.
//!
//! Slot 0 stands for the opening window, slot `k` for the `k`-th block of the
//! ending window. The slots live in the storage vector of `ink_storage`, held
//! in its unbound state, in which it is an ordinary vector in memory. The
//! functions marked `external_body` state what its source shows; the scan for
//! the winner is proved against them.

use vstd::prelude::*;
use crate::events::Error;
use crate::identity::{AccountId, Balance, BlockNumber};

verus! {

/// One slot of the track: the leading bidder and the bid, or nothing.
pub type Snapshot = Option<(AccountId, Balance)>;

/// The fixed sequence of slots.
#[verifier::external_body]
pub struct SnapshotTrack {
    inner: ink_storage::collections::Vec<Option<([u8; 32], u128)>>,
}

#[verifier::external_type_specification]
#[verifier::external_body]
pub struct ExIndexOutOfBounds(ink_storage::collections::vec::IndexOutOfBounds);

/// What a track holds, slot by slot.
pub uninterp spec fn track_slots(t: SnapshotTrack) -> Seq<Snapshot>;

impl SnapshotTrack {
    /// `Vec::new` of `ink_storage`: a vector without elements.
    #[verifier::external_body]
    pub(crate) fn empty() -> (t: SnapshotTrack)
        ensures
            track_slots(t) =~= Seq::empty(),
    {
        SnapshotTrack { inner: ink_storage::collections::Vec::new() }
    }

    /// `Vec::len` of `ink_storage`: the number of slots.
    #[verifier::external_body]
    pub(crate) fn slots(&self) -> (n: u32)
        ensures
            n == track_slots(*self).len(),
    {
        self.inner.len()
    }

    /// `Vec::push` of `ink_storage` with `None`: appends an empty slot. The
    /// vector refuses a push once it holds as many elements as the largest
    /// `u32`.
    #[verifier::external_body]
    pub(crate) fn push_empty(&mut self)
        requires
            track_slots(*old(self)).len() < u32::MAX,
        ensures
            track_slots(*final(self)) == track_slots(*old(self)).push(None),
    {
        self.inner.push(None)
    }

    /// `Vec::get` of `ink_storage`: the slot at `index`, or `None` where
    /// the index is out of bounds.
    #[verifier::external_body]
    pub(crate) fn get(&self, index: u32) -> (r: Option<Snapshot>)
        ensures
            r == (if index < track_slots(*self).len() {
                Some(track_slots(*self)[index as int])
            } else {
                None
            }),
    {
        self.inner.get(index).map(|slot| slot.map(|(who, bid)| (AccountId { bytes: who }, bid)))
    }

    /// `Vec::set` of `ink_storage`: overwrites the slot at `index`. Where
    /// the index is out of bounds it changes nothing and returns the
    /// vector's error.
    #[verifier::external_body]
    pub(crate) fn set(&mut self, index: u32, who: AccountId, bid: Balance) -> (r: Result<
        (),
        ink_storage::collections::vec::IndexOutOfBounds,
    >)
        ensures
            index < track_slots(*old(self)).len() ==> r is Ok && track_slots(*final(self))
                == track_slots(*old(self)).update(index as int, Some((who, bid))),
            index >= track_slots(*old(self)).len() ==> r is Err && track_slots(*final(self))
                == track_slots(*old(self)),
    {
        self.inner.set(index, Some((who.bytes, bid)))
    }
}

/// The bid in the last written slot among the first `upto` slots of
/// `track`.
pub open spec fn nearest_bid(track: Seq<Snapshot>, upto: nat) -> Snapshot
    decreases upto,
{
    if upto == 0 {
        None
    } else if upto - 1 < track.len() && track[upto - 1] is Some {
        track[upto - 1]
    } else {
        nearest_bid(track, (upto - 1) as nat)
    }
}

/// `nearest_bid` finds the written slot with the greatest index below
/// `upto`, and nothing exactly if no slot below `upto` is written.
pub proof fn nearest_bid_is_last_written(track: Seq<Snapshot>, upto: nat)
    ensures
        match nearest_bid(track, upto) {
            Some(entry) => exists|k: int|
                {
                    &&& 0 <= k < upto
                    &&& k < track.len()
                    &&& #[trigger] track[k] == Some(entry)
                    &&& forall|j: int| k < j < upto && j < track.len() ==> track[j] is None
                },
            None => forall|j: int| 0 <= j < upto && j < track.len() ==> track[j] is None,
        },
    decreases upto,
{
    if upto == 0 {
    } else if upto - 1 < track.len() && track[upto - 1] is Some {
        assert(track[upto - 1] == Some(track[upto - 1].unwrap()));
    } else {
        nearest_bid_is_last_written(track, (upto - 1) as nat);
        match nearest_bid(track, (upto - 1) as nat) {
            Some(entry) => {
                let k = choose|k: int|
                    {
                        &&& 0 <= k < upto - 1
                        &&& k < track.len()
                        &&& #[trigger] track[k] == Some(entry)
                        &&& forall|j: int| k < j < upto - 1 && j < track.len() ==> track[j] is None
                    };
                assert(track[k] == Some(entry));
                assert(forall|j: int| k < j < upto && j < track.len() ==> track[j] is None);
            },
            None => {},
        }
    }
}

/// Slots beyond the end of the track hold no bid: looking at more slots
/// than the track has finds what looking at all of them finds.
pub proof fn nearest_bid_beyond_track(track: Seq<Snapshot>, upto: nat)
    requires
        upto >= track.len(),
    ensures
        nearest_bid(track, upto) == nearest_bid(track, track.len()),
    decreases upto,
{
    if upto > track.len() {
        nearest_bid_beyond_track(track, (upto - 1) as nat);
    }
}

impl View for SnapshotTrack {
    type V = Seq<Snapshot>;

    open spec fn view(&self) -> Seq<Snapshot> {
        track_slots(*self)
    }
}

impl SnapshotTrack {
    /// A track for an ending window of `ending` blocks: one slot for the
    /// opening window and one for each block of the ending window, all of
    /// them unwritten.
    pub fn new(ending: BlockNumber) -> (t: SnapshotTrack)
        requires
            ending < u32::MAX,
        ensures
            t@.len() == ending + 1,
            forall|k: int| 0 <= k < t@.len() ==> t@[k] is None,
    {
        let mut track = SnapshotTrack::empty();
        let mut made: u32 = 0;
        while made <= ending
            invariant
                ending < u32::MAX,
                made <= ending + 1,
                track@.len() == made,
                forall|k: int| 0 <= k < track@.len() ==> track@[k] is None,
            decreases ending + 1 - made,
        {
            track.push_empty();
            made = made + 1;
        }
        track
    }

    /// Number of slots.
    pub fn len(&self) -> (n: u32)
        ensures
            n == self@.len(),
    {
        self.slots()
    }

    /// The slot at `index`: `None` where there is no such slot,
    /// `Some(None)` where it is unwritten.
    pub fn snapshot(&self, index: BlockNumber) -> (r: Option<Snapshot>)
        ensures
            r == (if index < self@.len() {
                Some(self@[index as int])
            } else {
                None
            }),
    {
        self.get(index)
    }

    /// Writes the bid of `who` into the slot at `index`. A slot outside the
    /// track is a fault, and the track stays as it was.
    pub fn record(&mut self, index: BlockNumber, who: AccountId, bid: Balance) -> (r: Result<
        (),
        Error,
    >)
        ensures
            index < old(self)@.len() ==> r == Ok::<(), Error>(()) && final(self)@ == old(
                self,
            )@.update(index as int, Some((who, bid))),
            index >= old(self)@.len() ==> r == Err::<(), Error>(Error::WinningDataCorrupted)
                && final(self)@ == old(self)@,
    {
        match self.set(index, who, bid) {
            Ok(_) => Ok(()),
            Err(_) => Err(Error::WinningDataCorrupted),
        }
    }

    /// The bid that led when the candle went out at slot `cutoff`: the one
    /// in the last written slot at or before `cutoff`.
    pub fn nearest(&self, cutoff: BlockNumber) -> (r: Snapshot)
        ensures
            r == nearest_bid(self@, (cutoff + 1) as nat),
    {
        let slots = self.slots();
        let mut upto: u32 = if cutoff < slots {
            cutoff + 1
        } else {
            slots
        };
        proof {
            if cutoff >= slots {
                nearest_bid_beyond_track(self@, (cutoff + 1) as nat);
            }
        }
        while upto > 0
            invariant
                upto <= self@.len(),
                nearest_bid(self@, (cutoff + 1) as nat) == nearest_bid(self@, upto as nat),
            decreases upto,
        {
            let index: u32 = upto - 1;
            match self.get(index) {
                Some(Some(entry)) => {
                    return Some(entry);
                },
                _ => {},
            }
            upto = upto - 1;
        }
        None
    }

    /// All slots, in order.
    pub fn to_vec(&self) -> (r: Vec<Snapshot>)
        ensures
            r@ == self@,
    {
        let n: u32 = self.slots();
        let mut out: Vec<Snapshot> = Vec::new();
        let mut index: u32 = 0;
        while index < n
            invariant
                n == self@.len(),
                index <= n,
                out@ == self@.subrange(0, index as int),
            decreases n - index,
        {
            match self.get(index) {
                Some(slot) => {
                    out.push(slot);
                },
                None => {},
            }
            assert(self@.subrange(0, index + 1) == self@.subrange(0, index as int).push(
                self@[index as int],
            ));
            index = index + 1;
        }
        assert(self@.subrange(0, n as int) == self@);
        out
    }
}

} // verus!
