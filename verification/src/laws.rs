//! What holds of the auction whatever its participants do.

use vstd::prelude::*;
use crate::entropy::RandomDraw;
use crate::events::{CallOutcome, ConstructionError, Error, Resolution, SettlementError};
use crate::identity::{AccountId, Balance, BlockNumber};
use crate::model::{
    after_bid, after_bids, after_claim, after_resolve, bid_report, bid_verdict, candle_pick,
    claim_report, claim_verdict, consistent, creation_verdict, cutoff_of, fresh,
    last_taken_in_slot,
    leading_amount, leading_dominates, resolve_report, resolves, snapshots_backed, status_of,
    AuctionView, BidAttempt,
};
use crate::phase::{ending_last, slot_of, Status};
use crate::track::nearest_bid_is_last_written;

verus! {

/// A newly created auction is consistent.
pub proof fn fresh_is_consistent(
    owner: AccountId,
    start_block: BlockNumber,
    opening_period: BlockNumber,
    ending_period: BlockNumber,
    subject: u8,
    domain: Option<crate::identity::Hash>,
    reward_contract_address: AccountId,
)
    requires
        start_block >= 1,
        1 <= ending_period < u32::MAX,
        subject <= 1,
        subject == 1 ==> domain is Some,
    ensures
        consistent(
            fresh(
                owner,
                start_block,
                opening_period,
                ending_period,
                subject,
                domain,
                reward_contract_address,
            ),
        ),
{
}

/// A bid, taken or turned down, leaves a consistent auction consistent.
pub proof fn bid_keeps_consistent(
    v: AuctionView,
    bidder: AccountId,
    amount: Balance,
    now: BlockNumber,
)
    requires
        consistent(v),
    ensures
        consistent(after_bid(v, bidder, amount, now)),
{
    let after = after_bid(v, bidder, amount, now);
    match bid_verdict(v, amount, now) {
        Err(_) => {},
        Ok(slot) => {
            if !v.finalized {
                assert(leading_dominates(after)) by {
                    assert forall|p: AccountId| after.balances.contains_key(p) implies (
                    #[trigger] after.balances[p]) <= after.balances[bidder] by {
                        if p != bidder {
                            assert(v.balances.contains_key(p));
                            assert(v.balances[p] <= leading_amount(v));
                        }
                    }
                }
                assert(snapshots_backed(after)) by {
                    assert forall|k: int| 0 <= k < after.winning_data.len() implies match (
                    #[trigger] after.winning_data[k]) {
                        Some((account, bid)) => after.winning is Some
                            && after.balances.contains_key(account) && bid
                            <= after.balances[account],
                        None => true,
                    } by {
                        if k != slot {
                            match v.winning_data[k] {
                                Some((account, bid)) => {
                                    assert(v.balances[account] <= leading_amount(v));
                                },
                                None => {},
                            }
                        }
                    }
                }
            }
        },
    }
}

/// A call for resolution leaves a consistent auction consistent.
pub proof fn resolve_keeps_consistent(v: AuctionView, draw: Option<RandomDraw>, now: BlockNumber)
    requires
        consistent(v),
    ensures
        consistent(after_resolve(v, draw, now)),
{
}

/// A payout, made or turned down, leaves a consistent auction consistent.
pub proof fn claim_keeps_consistent(
    v: AuctionView,
    to: AccountId,
    now: BlockNumber,
    dispatched: Option<CallOutcome>,
)
    requires
        consistent(v),
    ensures
        consistent(after_claim(v, to, now, dispatched)),
{
}

/// Any number of calls for a bid leave a consistent auction consistent,
/// and change neither its schedule nor whether it is resolved.
pub proof fn bids_keep_consistent(v: AuctionView, bids: Seq<BidAttempt>)
    requires
        consistent(v),
    ensures
        consistent(after_bids(v, bids)),
        after_bids(v, bids).finalized == v.finalized,
        after_bids(v, bids).winning_data.len() == v.winning_data.len(),
    decreases bids.len(),
{
    if bids.len() > 0 {
        bids_keep_consistent(v, bids.drop_last());
        let last = bids.last();
        bid_keeps_consistent(after_bids(v, bids.drop_last()), last.bidder, last.amount, last.block);
    }
}

/// After any calls for a bid on an auction that is not resolved, no
/// participant's escrow exceeds that of the leading bidder.
pub proof fn leader_is_never_exceeded(v: AuctionView, bids: Seq<BidAttempt>, p: AccountId)
    requires
        consistent(v),
        !v.finalized,
        after_bids(v, bids).balances.contains_key(p),
    ensures
        after_bids(v, bids).winning is Some,
        after_bids(v, bids).balances.contains_key(after_bids(v, bids).winning.unwrap()),
        after_bids(v, bids).balances[p] <= after_bids(v, bids).balances[after_bids(
            v,
            bids,
        ).winning.unwrap()],
        after_bids(v, bids).balances[p] <= leading_amount(after_bids(v, bids)),
{
    bids_keep_consistent(v, bids);
    assert(leading_dominates(after_bids(v, bids)));
}

/// A bid below the leading amount is always turned down and changes
/// nothing. While the auction takes bids the reason is `NotOutBidding`, with
/// the bid and the leading amount.
pub proof fn underbid_is_rejected(
    v: AuctionView,
    bidder: AccountId,
    amount: Balance,
    now: BlockNumber,
)
    requires
        amount < leading_amount(v),
    ensures
        bid_report(v, bidder, amount, now) is Err,
        after_bid(v, bidder, amount, now) == v,
        slot_of(status_of(v, now)) is Some ==> bid_report(v, bidder, amount, now) == Err::<
            crate::events::BidReceipt,
            Error,
        >(Error::NotOutBidding(amount, leading_amount(v))),
{
}

/// On a consistent auction every slot that the clock can give lies on the
/// track: no bid is turned down as `WinningDataCorrupted`.
pub proof fn consistent_track_takes_every_slot(v: AuctionView, amount: Balance, now: BlockNumber)
    requires
        consistent(v),
    ensures
        bid_verdict(v, amount, now) != Err::<BlockNumber, Error>(Error::WinningDataCorrupted),
{
}

/// After any calls for a bid, a slot of the track holds the last bid that
/// was taken into it, and what it held before where none was.
pub proof fn slot_holds_last_taken_bid(v: AuctionView, bids: Seq<BidAttempt>, k: int)
    requires
        0 <= k < v.winning_data.len(),
    ensures
        after_bids(v, bids).winning_data.len() == v.winning_data.len(),
        after_bids(v, bids).winning_data[k] == (match last_taken_in_slot(v, bids, k) {
            Some(entry) => Some(entry),
            None => v.winning_data[k],
        }),
    decreases bids.len(),
{
    if bids.len() > 0 {
        slot_holds_last_taken_bid(v, bids.drop_last(), k);
    }
}

/// On a newly created auction a slot holds the last bid that was taken
/// into it, and nothing where none was.
pub proof fn fresh_slot_holds_last_taken_bid(
    owner: AccountId,
    start_block: BlockNumber,
    opening_period: BlockNumber,
    ending_period: BlockNumber,
    subject: u8,
    domain: Option<crate::identity::Hash>,
    reward_contract_address: AccountId,
    bids: Seq<BidAttempt>,
    k: int,
)
    requires
        0 <= k <= ending_period,
    ensures
        ({
            let v = fresh(
                owner,
                start_block,
                opening_period,
                ending_period,
                subject,
                domain,
                reward_contract_address,
            );
            after_bids(v, bids).winning_data[k] == last_taken_in_slot(v, bids, k)
        }),
{
    let v = fresh(
        owner,
        start_block,
        opening_period,
        ending_period,
        subject,
        domain,
        reward_contract_address,
    );
    slot_holds_last_taken_bid(v, bids, k);
}

/// The bid that the candle picks is a bid on the track, at or before the
/// candle's slot, and every later slot up to the candle's is unwritten.
pub proof fn pick_is_nearest_written_slot(v: AuctionView, draw: RandomDraw)
    requires
        v.ending_period >= 1,
    ensures
        1 <= cutoff_of(v, draw) <= v.ending_period,
        match candle_pick(v, draw) {
            Some(entry) => exists|k: int|
                {
                    &&& 0 <= k <= cutoff_of(v, draw)
                    &&& k < v.winning_data.len()
                    &&& #[trigger] v.winning_data[k] == Some(entry)
                    &&& forall|j: int|
                        k < j <= cutoff_of(v, draw) && j < v.winning_data.len()
                            ==> v.winning_data[j] is None
                },
            None => forall|j: int|
                0 <= j <= cutoff_of(v, draw) && j < v.winning_data.len()
                    ==> v.winning_data[j] is None,
        },
{
    nearest_bid_is_last_written(v.winning_data, (cutoff_of(v, draw) + 1) as nat);
}

/// The pick depends on nothing but the random bytes, the length of the
/// ending window and the track.
pub proof fn pick_depends_on_draw_and_track(
    a: AuctionView,
    b: AuctionView,
    first: RandomDraw,
    second: RandomDraw,
)
    requires
        a.winning_data == b.winning_data,
        a.ending_period == b.ending_period,
        first.raw == second.raw,
    ensures
        candle_pick(a, first) == candle_pick(b, second),
{
}

/// On a consistent auction the winner's escrow covers the winning bid: the
/// resolution takes exactly the winning bid out of it.
pub proof fn winner_covers_winning_bid(v: AuctionView, draw: RandomDraw, now: BlockNumber)
    requires
        consistent(v),
        resolves(v, Some(draw), now),
    ensures
        ({
            let (account, bid) = candle_pick(v, draw).unwrap();
            &&& v.balances.contains_key(account)
            &&& v.balances[account] >= bid
            &&& after_resolve(v, Some(draw), now).balances == v.balances.insert(
                account,
                (v.balances[account] - bid) as Balance,
            )
        }),
{
    pick_is_nearest_written_slot(v, draw);
}

/// Whenever an auction is ended it holds its winner, and the winner was
/// found among the bidders: time alone ends no auction, and without a bid
/// no call resolves.
pub proof fn ended_auction_has_winner(v: AuctionView, now: BlockNumber)
    requires
        consistent(v),
    ensures
        status_of(v, now) == Status::Ended ==> v.winner is Some,
        v.finalized <==> v.winner is Some,
        v.winning is None ==> !v.finalized,
        forall|draw: Option<RandomDraw>| v.winning is None ==> !resolves(v, draw, now),
        forall|to: AccountId, dispatched: Option<CallOutcome>|
            #[trigger] claim_verdict(v, to, now, dispatched) != Err::<(), SettlementError>(
                SettlementError::WinnerNotDetected,
            ),
{
}

/// A call for resolution either finds the winner and ends the auction, or
/// changes nothing and reports nothing new. A winner once set stays.
pub proof fn resolution_finds_winner_or_changes_nothing(
    v: AuctionView,
    draw: Option<RandomDraw>,
    now: BlockNumber,
)
    requires
        consistent(v),
    ensures
        ({
            let after = after_resolve(v, draw, now);
            &&& after.finalized <==> after.winner is Some
            &&& v.finalized ==> after.finalized
            &&& v.winner is Some ==> after.winner == v.winner
            &&& !resolves(v, draw, now) ==> after == v
            &&& resolves(v, draw, now) ==> after.winner == candle_pick(v, draw.unwrap())
        }),
{
}

/// An auction whose start is not after the block of its creation is never
/// created.
pub proof fn backdated_start_is_refused(
    now: BlockNumber,
    start_block: BlockNumber,
    subject: u8,
    domain: Option<crate::identity::Hash>,
)
    requires
        start_block <= now,
    ensures
        creation_verdict(now, Some(start_block), subject, domain) is Err,
        subject <= 1 && (subject == 1 ==> domain is Some) ==> creation_verdict(
            now,
            Some(start_block),
            subject,
            domain,
        ) == Err::<BlockNumber, ConstructionError>(ConstructionError::BackdatedStart),
{
}

/// Once a call has made the resolution, every later call returns the same
/// winner, changes nothing and hands nothing over.
pub proof fn resolution_is_final(
    v: AuctionView,
    draw: Option<RandomDraw>,
    now: BlockNumber,
    later_draw: Option<RandomDraw>,
    later: BlockNumber,
)
    requires
        resolves(v, draw, now),
    ensures
        ({
            let resolved = after_resolve(v, draw, now);
            &&& resolved.finalized
            &&& resolved.winner == resolve_report(v, draw, now).winner
            &&& after_resolve(resolved, later_draw, later) == resolved
            &&& resolve_report(resolved, later_draw, later) == (Resolution {
                winner: resolved.winner,
                offset: None,
                announcement: None,
                proceeds: None,
            })
        }),
{
}

/// A draw that was known before the last block of the ending window
/// resolves nothing: the auction stays as it was and nothing is handed
/// over.
pub proof fn young_draw_commits_nothing(v: AuctionView, draw: RandomDraw, now: BlockNumber)
    requires
        draw.known_since < ending_last(v.start_block, v.opening_period, v.ending_period),
    ensures
        after_resolve(v, Some(draw), now) == v,
        resolve_report(v, Some(draw), now) == (Resolution {
            winner: v.winner,
            offset: None,
            announcement: None,
            proceeds: None,
        }),
{
}

/// After a payout to an account, a second payout to the same account
/// returns no money and leaves the ledger as it is.
pub proof fn second_payout_moves_nothing(
    v: AuctionView,
    to: AccountId,
    now: BlockNumber,
    dispatched: Option<CallOutcome>,
    later: BlockNumber,
    later_dispatched: Option<CallOutcome>,
)
    requires
        claim_verdict(v, to, now, dispatched) is Ok,
    ensures
        ({
            let paid = after_claim(v, to, now, dispatched);
            &&& after_claim(paid, to, later, later_dispatched) == paid
            &&& match claim_report(paid, to, later, later_dispatched) {
                Ok(payout) => payout.refund is None,
                Err(_) => true,
            }
        }),
{
    let paid = after_claim(v, to, now, dispatched);
    assert(paid.balances.remove(to) =~= paid.balances);
}

} // verus!
