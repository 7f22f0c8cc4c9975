//! The auction as a mathematical value, and each operation as a function on
//! that value. The contracts of the executable engine and the laws of the
//! auction are stated over these functions.

use vstd::prelude::*;
use crate::entropy::{candle_offset, leading_u32, RandomDraw};
use crate::events::{
    call_verdict, Bid, BidReceipt, CallOutcome, ConstructionError, Error, Payout, Resolution, Reward,
    SettlementError, Subject, Transfer, Winner, WinningOffset,
};
use crate::identity::{AccountId, Balance, BlockNumber};
use crate::phase::{ending_last, phase_at, slot_of, Status};
use crate::track::{nearest_bid, Snapshot};

verus! {

/// Everything an auction consists of.
#[verifier::ext_equal]
pub struct AuctionView {
    pub owner: AccountId,
    pub start_block: BlockNumber,
    pub opening_period: BlockNumber,
    pub ending_period: BlockNumber,
    /// The escrow ledger.
    pub balances: Map<AccountId, Balance>,
    /// The leading bidder.
    pub winning: Option<AccountId>,
    /// The resolved winner.
    pub winner: Snapshot,
    /// Whether a resolution has been made.
    pub finalized: bool,
    /// The snapshot track.
    pub winning_data: Seq<Snapshot>,
    pub reward_contract_address: AccountId,
    /// Kind of subject: 0 for tokens, 1 for a domain.
    pub subject: u8,
    /// The domain that is auctioned, where one was named.
    pub domain: Option<crate::identity::Hash>,
}

/// The stage of the auction at block `now`.
pub open spec fn status_of(v: AuctionView, now: BlockNumber) -> Status {
    phase_at(v.start_block, v.opening_period, v.ending_period, v.finalized, now)
}

/// What is auctioned.
pub open spec fn subject_of(v: AuctionView) -> Subject {
    match v.domain {
        Some(domain) if v.subject == 1 => Subject::Domain(domain),
        _ => Subject::NFTs,
    }
}

/// The amount a new bid must reach: the leading bidder's escrow, or nothing
/// where nobody leads or the leader's escrow is gone.
pub open spec fn leading_amount(v: AuctionView) -> Balance {
    match v.winning {
        Some(w) => if v.balances.contains_key(w) {
            v.balances[w]
        } else {
            0
        },
        None => 0,
    }
}

/// The leading bidder with the amount to reach.
pub open spec fn leading_bid(v: AuctionView) -> Snapshot {
    match v.winning {
        Some(w) => Some((w, leading_amount(v))),
        None => None,
    }
}

// --------------------------------------------------------------- creation

/// Whether an auction can be created at block `now`, and at which block it
/// then starts.
pub open spec fn creation_verdict(
    now: BlockNumber,
    start_block: Option<BlockNumber>,
    subject: u8,
    domain: Option<crate::identity::Hash>,
) -> Result<BlockNumber, ConstructionError> {
    if subject > 1 {
        Err(ConstructionError::UnsupportedSubject)
    } else if subject == 1 && domain is None {
        Err(ConstructionError::MissingDomain)
    } else {
        match start_block {
            Some(start) => if start > now {
                Ok(start)
            } else {
                Err(ConstructionError::BackdatedStart)
            },
            None => if now < u32::MAX {
                Ok((now + 1) as BlockNumber)
            } else {
                Err(ConstructionError::BackdatedStart)
            },
        }
    }
}

/// The auction as it is created: nobody has bid, nothing is resolved.
pub open spec fn fresh(
    owner: AccountId,
    start_block: BlockNumber,
    opening_period: BlockNumber,
    ending_period: BlockNumber,
    subject: u8,
    domain: Option<crate::identity::Hash>,
    reward_contract_address: AccountId,
) -> AuctionView {
    AuctionView {
        owner,
        start_block,
        opening_period,
        ending_period,
        balances: Map::empty(),
        winning: None,
        winner: None,
        finalized: false,
        winning_data: Seq::new((ending_period + 1) as nat, |k: int| None),
        reward_contract_address,
        subject,
        domain,
    }
}

// ---------------------------------------------------------------- bidding

/// Whether a bid of `amount` at block `now` is taken, and into which slot.
pub open spec fn bid_verdict(v: AuctionView, amount: Balance, now: BlockNumber) -> Result<
    BlockNumber,
    Error,
> {
    match slot_of(status_of(v, now)) {
        None => Err(Error::AuctionNotActive),
        Some(slot) => if amount < leading_amount(v) {
            Err(Error::NotOutBidding(amount, leading_amount(v)))
        } else if slot >= v.winning_data.len() {
            Err(Error::WinningDataCorrupted)
        } else {
            Ok(slot)
        },
    }
}

/// The auction after `bidder` has offered `amount` at block `now`.
pub open spec fn after_bid(
    v: AuctionView,
    bidder: AccountId,
    amount: Balance,
    now: BlockNumber,
) -> AuctionView {
    match bid_verdict(v, amount, now) {
        Err(_) => v,
        Ok(slot) => AuctionView {
            balances: v.balances.insert(bidder, amount),
            winning: Some(bidder),
            winning_data: v.winning_data.update(slot as int, Some((bidder, amount))),
            ..v
        },
    }
}

/// What the host owes after that bid.
pub open spec fn bid_report(
    v: AuctionView,
    bidder: AccountId,
    amount: Balance,
    now: BlockNumber,
) -> Result<BidReceipt, Error> {
    match bid_verdict(v, amount, now) {
        Err(e) => Err(e),
        Ok(_) => Ok(
            BidReceipt {
                refund: if v.balances.contains_key(bidder) {
                    Some(Transfer { to: bidder, value: v.balances[bidder] })
                } else {
                    None
                },
                event: Bid { from: bidder, bid: amount },
            },
        ),
    }
}

/// Whether the ledger can take an entry for `who`: the ledger counts its
/// entries in a `u32`.
pub open spec fn has_room(v: AuctionView, who: AccountId) -> bool {
    v.balances.contains_key(who) || v.balances.dom().len() < u32::MAX
}

/// One call for a bid.
pub struct BidAttempt {
    pub bidder: AccountId,
    pub amount: Balance,
    pub block: BlockNumber,
}

/// The auction after the calls `bids`, made in this order.
pub open spec fn after_bids(v: AuctionView, bids: Seq<BidAttempt>) -> AuctionView
    decreases bids.len(),
{
    if bids.len() == 0 {
        v
    } else {
        let last = bids.last();
        after_bid(after_bids(v, bids.drop_last()), last.bidder, last.amount, last.block)
    }
}

/// The last of the calls `bids` that was taken into slot `k`, if any was.
pub open spec fn last_taken_in_slot(v: AuctionView, bids: Seq<BidAttempt>, k: int) -> Snapshot
    decreases bids.len(),
{
    if bids.len() == 0 {
        None
    } else {
        let last = bids.last();
        let before = after_bids(v, bids.drop_last());
        match bid_verdict(before, last.amount, last.block) {
            Ok(slot) if slot == k => Some((last.bidder, last.amount)),
            _ => last_taken_in_slot(v, bids.drop_last(), k),
        }
    }
}

// ------------------------------------------------------------- resolution

/// The slot at which the candle went out according to `draw`.
pub open spec fn cutoff_of(v: AuctionView, draw: RandomDraw) -> int {
    candle_offset(leading_u32(draw.raw.bytes@), v.ending_period)
}

/// The bid that leads when the candle goes out according to `draw`: the
/// one in the last written slot at or before the cutoff.
pub open spec fn candle_pick(v: AuctionView, draw: RandomDraw) -> Snapshot {
    nearest_bid(v.winning_data, (cutoff_of(v, draw) + 1) as nat)
}

/// Whether the random value was unknown until bidding had closed.
pub open spec fn is_mature(v: AuctionView, draw: RandomDraw) -> bool {
    draw.known_since >= ending_last(v.start_block, v.opening_period, v.ending_period)
}

/// Whether the auction waits for a random draw at block `now`: bidding is
/// over, somebody has bid, and no resolution has been made.
pub open spec fn draw_due(v: AuctionView, now: BlockNumber) -> bool {
    &&& v.winner is None
    &&& status_of(v, now) is RfDelay
    &&& v.winning is Some
}

/// Whether a call for resolution at block `now` with `draw` makes the
/// resolution: the auction waits for a draw, the draw is old enough, and
/// the candle finds a bid.
pub open spec fn resolves(v: AuctionView, draw: Option<RandomDraw>, now: BlockNumber) -> bool {
    &&& draw_due(v, now)
    &&& draw is Some
    &&& is_mature(v, draw.unwrap())
    &&& candle_pick(v, draw.unwrap()) is Some
}

/// The ledger after `amount` has left the escrow of `who`.
pub open spec fn debit(balances: Map<AccountId, Balance>, who: AccountId, amount: Balance) -> Map<
    AccountId,
    Balance,
> {
    if balances.contains_key(who) && balances[who] >= amount {
        balances.insert(who, (balances[who] - amount) as Balance)
    } else {
        balances
    }
}

/// The auction after a call for resolution at block `now` with `draw`.
pub open spec fn after_resolve(
    v: AuctionView,
    draw: Option<RandomDraw>,
    now: BlockNumber,
) -> AuctionView {
    if resolves(v, draw, now) {
        let (account, bid) = candle_pick(v, draw.unwrap()).unwrap();
        AuctionView {
            winner: Some((account, bid)),
            finalized: true,
            balances: debit(v.balances, account, bid),
            ..v
        }
    } else {
        v
    }
}

/// What that call reports.
pub open spec fn resolve_report(
    v: AuctionView,
    draw: Option<RandomDraw>,
    now: BlockNumber,
) -> Resolution {
    if resolves(v, draw, now) {
        let (account, bid) = candle_pick(v, draw.unwrap()).unwrap();
        Resolution {
            winner: Some((account, bid)),
            offset: Some(WinningOffset { offset: cutoff_of(v, draw.unwrap()) as BlockNumber }),
            announcement: Some(Winner { account, bid }),
            proceeds: Some(Transfer { to: v.owner, value: bid }),
        }
    } else {
        Resolution { winner: v.winner, offset: None, announcement: None, proceeds: None }
    }
}

// ------------------------------------------------------------- settlement

/// The reward that `to` gets as the winner.
pub open spec fn reward_of(v: AuctionView, to: AccountId) -> Reward {
    Reward { to, contract: v.reward_contract_address, subject: subject_of(v) }
}

/// Whether `to` is the resolved winner.
pub open spec fn is_winner(v: AuctionView, to: AccountId) -> bool {
    v.winner matches Some((account, _)) && account == to
}

/// The reward call that the host has to make before `to` is paid out at
/// block `now`, if any.
pub open spec fn reward_due(v: AuctionView, to: AccountId, now: BlockNumber) -> Option<Reward> {
    if status_of(v, now) == Status::Ended && is_winner(v, to) {
        Some(reward_of(v, to))
    } else {
        None
    }
}

/// Whether `to` is paid out at block `now`, given how the reward call went
/// where one was made. The winner is paid out only after a reward call
/// that went through.
pub open spec fn claim_verdict(
    v: AuctionView,
    to: AccountId,
    now: BlockNumber,
    dispatched: Option<CallOutcome>,
) -> Result<(), SettlementError> {
    if status_of(v, now) != Status::Ended {
        Err(SettlementError::NotEnded)
    } else if v.winner is None {
        Err(SettlementError::WinnerNotDetected)
    } else if is_winner(v, to) {
        match dispatched {
            Some(outcome) => call_verdict(outcome),
            None => Err(SettlementError::RewardNotDispatched),
        }
    } else {
        Ok(())
    }
}

/// The auction after that payout.
pub open spec fn after_claim(
    v: AuctionView,
    to: AccountId,
    now: BlockNumber,
    dispatched: Option<CallOutcome>,
) -> AuctionView {
    if claim_verdict(v, to, now, dispatched) is Ok {
        AuctionView { balances: v.balances.remove(to), ..v }
    } else {
        v
    }
}

/// What the host owes after that payout.
pub open spec fn claim_report(
    v: AuctionView,
    to: AccountId,
    now: BlockNumber,
    dispatched: Option<CallOutcome>,
) -> Result<Payout, SettlementError> {
    match claim_verdict(v, to, now, dispatched) {
        Err(e) => Err(e),
        Ok(_) => Ok(
            Payout {
                reward: if is_winner(v, to) {
                    Some(reward_of(v, to))
                } else {
                    None
                },
                refund: if v.balances.contains_key(to) && v.balances[to] > 0 {
                    Some(Transfer { to, value: v.balances[to] })
                } else {
                    None
                },
            },
        ),
    }
}

// ------------------------------------------------------------- invariants

/// Nobody's escrow exceeds the leading bidder's, and without a leading
/// bidder nobody has an escrow.
pub open spec fn leading_dominates(v: AuctionView) -> bool {
    match v.winning {
        Some(w) => v.balances.contains_key(w) && forall|p: AccountId|
            v.balances.contains_key(p) ==> #[trigger] v.balances[p] <= v.balances[w],
        None => forall|p: AccountId| !(#[trigger] v.balances.contains_key(p)),
    }
}

/// Every bid on the track is covered by its bidder's escrow.
pub open spec fn snapshots_backed(v: AuctionView) -> bool {
    forall|k: int|
        0 <= k < v.winning_data.len() ==> match #[trigger] v.winning_data[k] {
            Some((account, bid)) => v.winning is Some && v.balances.contains_key(account) && bid
                <= v.balances[account],
            None => true,
        }
}

/// What holds of an auction as long as no resolution has been made.
pub open spec fn bidding_invariant(v: AuctionView) -> bool {
    &&& v.winner is None
    &&& leading_dominates(v)
    &&& snapshots_backed(v)
}

/// What holds of every auction that the engine builds and keeps.
pub open spec fn consistent(v: AuctionView) -> bool {
    &&& v.start_block >= 1
    &&& 1 <= v.ending_period < u32::MAX
    &&& v.subject <= 1
    &&& (v.subject == 1 ==> v.domain is Some)
    &&& v.balances.dom().finite()
    &&& v.winning_data.len() == v.ending_period + 1
    &&& (v.winner is Some <==> v.finalized)
    &&& (v.finalized ==> v.winning is Some)
    &&& (!v.finalized ==> bidding_invariant(v))
}

} // verus!
