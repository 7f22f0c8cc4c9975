//! The auction engine.
//!
//! The engine holds the state of one auction and decides. It neither reads
//! the clock nor moves money: the host says who calls and at which block,
//! and gets back what it has to pay and to publish.

use vstd::prelude::*;
use crate::entropy::{offset_of_draw, RandomDraw};
use crate::events::{
    Bid, BidReceipt, CallOutcome, ConstructionError, Error, Payout, Resolution, Reward,
    SettlementError, Subject, Transfer, Winner, WinningOffset,
};
use crate::identity::{AccountId, Balance, BlockNumber, InvocationContext};
use crate::laws::{
    bid_keeps_consistent, claim_keeps_consistent, fresh_is_consistent, resolve_keeps_consistent,
};
use crate::ledger::Ledger;
use crate::model::{
    after_bid, after_claim, after_resolve, bid_report, bid_verdict, candle_pick, claim_report, consistent,
    creation_verdict, cutoff_of, draw_due, fresh, has_room, is_mature, is_winner,
    leading_amount, leading_bid, resolve_report, reward_due, reward_of, status_of, subject_of,
    AuctionView,
};
use crate::phase::{compute_status, Status};
use crate::track::{Snapshot, SnapshotTrack};

verus! {

/// One candle auction.
pub struct CandleAuction {
    /// Who gets the winning bid.
    owner: AccountId,
    /// First block of the opening window.
    start_block: BlockNumber,
    /// Length of the opening window, in blocks.
    opening_period: BlockNumber,
    /// Length of the ending window, in blocks.
    ending_period: BlockNumber,
    /// The escrow of each bidder: the bidder's latest bid.
    balances: Ledger,
    /// The leading bidder. The winner is found only by the resolution.
    winning: Option<AccountId>,
    /// The winner and the winning bid.
    winner: Option<(AccountId, Balance)>,
    /// Whether the winner was found: set together with the winner, and
    /// never taken back.
    finalized: bool,
    /// The leading bid of each slot.
    winning_data: SnapshotTrack,
    /// The contract that hands the subject over.
    reward_contract_address: AccountId,
    /// Kind of subject: 0 for tokens, 1 for a domain.
    subject: u8,
    /// The auctioned domain.
    domain: Option<crate::identity::Hash>,
}

/// What the candle showed when it was blown.
#[derive(Clone, Copy, Debug, PartialEq, Eq)]
pub struct CandleBlow {
    /// The slot at which the candle went out.
    pub offset: BlockNumber,
    /// The bid that led at that slot.
    pub pick: Snapshot,
}

impl View for CandleAuction {
    type V = AuctionView;

    closed spec fn view(&self) -> AuctionView {
        AuctionView {
            owner: self.owner,
            start_block: self.start_block,
            opening_period: self.opening_period,
            ending_period: self.ending_period,
            balances: self.balances@,
            winning: self.winning,
            winner: self.winner,
            finalized: self.finalized,
            winning_data: self.winning_data@,
            reward_contract_address: self.reward_contract_address,
            subject: self.subject,
            domain: self.domain,
        }
    }
}

impl CandleAuction {
    /// Whether the auction is one that the engine builds and keeps.
    pub open spec fn wf(&self) -> bool {
        consistent(self@)
    }

    /// Whether an auction can be created at the block of the call, and at
    /// which block it then starts: the given one, or the next block where
    /// none is given. An auction is turned down where the kind of subject
    /// is unknown, where a domain is auctioned and none is named, and where
    /// the start is not after the current block.
    pub fn check_creation(
        ctx: &InvocationContext,
        start_block: Option<BlockNumber>,
        subject: u8,
        domain: Option<crate::identity::Hash>,
    ) -> (r: Result<BlockNumber, ConstructionError>)
        ensures
            r == creation_verdict(ctx.now, start_block, subject, domain),
    {
        if subject > 1 {
            return Err(ConstructionError::UnsupportedSubject);
        }
        if subject == 1 && domain.is_none() {
            return Err(ConstructionError::MissingDomain);
        }
        let start_in: BlockNumber = match start_block {
            Some(start) => start,
            None => {
                if ctx.now == u32::MAX {
                    return Err(ConstructionError::BackdatedStart);
                }
                ctx.now + 1
            },
        };
        if start_in <= ctx.now {
            return Err(ConstructionError::BackdatedStart);
        }
        Ok(start_in)
    }

    /// Creates an auction owned by the caller, or turns it down as
    /// `check_creation` says. An auction that is created needs an ending
    /// window of at least one block, for the candle to go out in, and of
    /// fewer blocks than the largest `u32`, for the track to hold a slot
    /// for each.
    pub fn new(
        ctx: &InvocationContext,
        start_block: Option<BlockNumber>,
        opening_period: BlockNumber,
        ending_period: BlockNumber,
        subject: u8,
        domain: Option<crate::identity::Hash>,
        reward_contract_address: AccountId,
    ) -> (r: Result<CandleAuction, ConstructionError>)
        requires
            creation_verdict(ctx.now, start_block, subject, domain) is Ok ==> 1 <= ending_period
                < u32::MAX,
        ensures
            match r {
                Ok(auction) => {
                    &&& creation_verdict(ctx.now, start_block, subject, domain) is Ok
                    &&& auction@ == fresh(
                        ctx.caller,
                        creation_verdict(ctx.now, start_block, subject, domain).unwrap(),
                        opening_period,
                        ending_period,
                        subject,
                        domain,
                        reward_contract_address,
                    )
                    &&& auction.wf()
                },
                Err(e) => creation_verdict(ctx.now, start_block, subject, domain) == Err::<
                    BlockNumber,
                    ConstructionError,
                >(e),
            },
    {
        let start_in: BlockNumber = match CandleAuction::check_creation(
            ctx,
            start_block,
            subject,
            domain,
        ) {
            Ok(start) => start,
            Err(e) => {
                return Err(e);
            },
        };
        let auction = CandleAuction {
            owner: ctx.caller,
            start_block: start_in,
            opening_period,
            ending_period,
            balances: Ledger::new(),
            winning: None,
            winner: None,
            finalized: false,
            winning_data: SnapshotTrack::new(ending_period),
            reward_contract_address,
            subject,
            domain,
        };
        proof {
            let model = fresh(
                ctx.caller,
                start_in,
                opening_period,
                ending_period,
                subject,
                domain,
                reward_contract_address,
            );
            assert(auction@.winning_data =~= model.winning_data);
            assert(auction@ =~= model);
            fresh_is_consistent(
                ctx.caller,
                start_in,
                opening_period,
                ending_period,
                subject,
                domain,
                reward_contract_address,
            );
        }
        Ok(auction)
    }

    /// The stage of the auction at `block`.
    pub fn status(&self, block: BlockNumber) -> (s: Status)
        ensures
            s == status_of(self@, block),
    {
        compute_status(
            self.start_block,
            self.opening_period,
            self.ending_period,
            self.finalized,
            block,
        )
    }

    /// The amount that a new bid must reach.
    pub fn leading_amount(&self) -> (r: Balance)
        ensures
            r == leading_amount(self@),
    {
        match self.winning {
            Some(winning) => match self.balances.get(&winning) {
                Some(balance) => balance,
                None => 0,
            },
            None => 0,
        }
    }

    /// Whether a bid of `bid` at `block` is taken, and into which slot. It
    /// is turned down outside the two bidding windows as
    /// `AuctionNotActive`, and below the leading amount as `NotOutBidding`.
    /// A bid that equals the leading amount is taken.
    pub fn check_bid(&self, bid: Balance, block: BlockNumber) -> (r: Result<BlockNumber, Error>)
        ensures
            r == bid_verdict(self@, bid, block),
    {
        let offset: BlockNumber = match self.status(block).slot() {
            Some(slot) => slot,
            None => {
                return Err(Error::AuctionNotActive);
            },
        };
        let leading = self.leading_amount();
        if bid < leading {
            return Err(Error::NotOutBidding(bid, leading));
        }
        if offset >= self.winning_data.len() {
            return Err(Error::WinningDataCorrupted);
        }
        Ok(offset)
    }

    /// Takes the bid of `bidder` at `block`, or turns it down as
    /// `check_bid` says. A taken bid replaces the bidder's escrow, makes
    /// the bidder lead and is written into the slot of the block. The
    /// earlier escrow is handed back for refund. A bid that is taken needs
    /// room in the ledger.
    pub fn handle_bid(&mut self, bidder: AccountId, bid: Balance, block: BlockNumber) -> (r:
        Result<BidReceipt, Error>)
        requires
            old(self).wf(),
            bid_verdict(old(self)@, bid, block) is Ok ==> has_room(old(self)@, bidder),
        ensures
            final(self).wf(),
            final(self)@ == after_bid(old(self)@, bidder, bid, block),
            r == bid_report(old(self)@, bidder, bid, block),
    {
        proof {
            bid_keeps_consistent(self@, bidder, bid, block);
        }
        let offset: BlockNumber = match self.check_bid(bid, block) {
            Ok(slot) => slot,
            Err(e) => {
                return Err(e);
            },
        };
        match self.winning_data.record(offset, bidder, bid) {
            Ok(_) => {},
            Err(e) => {
                return Err(e);
            },
        }
        let refund = match self.balances.insert(bidder, bid) {
            Some(old_balance) => Some(Transfer { to: bidder, value: old_balance }),
            None => None,
        };
        self.winning = Some(bidder);
        assert(self@ =~= after_bid(old(self)@, bidder, bid, block));
        Ok(BidReceipt { refund, event: Bid { from: bidder, bid } })
    }

    /// Whether the auction waits for a random draw at `block`.
    pub fn draw_due(&self, block: BlockNumber) -> (r: bool)
        ensures
            r == draw_due(self@, block),
    {
        if self.winner.is_some() || self.winning.is_none() {
            return false;
        }
        match self.status(block) {
            Status::RfDelay(_) => true,
            _ => false,
        }
    }

    /// Blows the candle with `draw`. A draw that could have been known
    /// before the ending window was over shows nothing. Any other draw
    /// gives the slot at which the candle went out, and the bid that led
    /// there.
    pub fn blow_candle(&self, draw: &RandomDraw) -> (r: Option<CandleBlow>)
        requires
            self.wf(),
        ensures
            r == (if is_mature(self@, *draw) {
                Some(
                    CandleBlow {
                        offset: cutoff_of(self@, *draw) as BlockNumber,
                        pick: candle_pick(self@, *draw),
                    },
                )
            } else {
                None
            }),
    {
        let ending_period_last_block: u64 = self.start_block as u64 + self.opening_period as u64
            + self.ending_period as u64 - 1;
        if ending_period_last_block <= draw.known_since as u64 {
            match offset_of_draw(&draw.raw, self.ending_period) {
                Some(offset) => Some(CandleBlow { offset, pick: self.winning_data.nearest(offset) }),
                None => None,
            }
        } else {
            None
        }
    }

    /// Finds the winner, if it is time to and `draw` allows it.
    ///
    /// A winner once found is returned again and nothing changes. Else the
    /// candle is blown only while the resolution is pending, somebody has
    /// bid, and `draw` holds a value that was unknown until the ending
    /// window was over. Where the candle finds a bid the call ends the
    /// auction for good: the bid that led when the candle went out wins,
    /// its amount leaves the winner's escrow and is handed over for the
    /// owner. Where no slot at or before the candle's was written nothing
    /// changes, and a later draw may still find the winner.
    pub fn detect_winner(&mut self, draw: Option<RandomDraw>, block: BlockNumber) -> (r:
        Resolution)
        requires
            old(self).wf(),
        ensures
            final(self).wf(),
            final(self)@ == after_resolve(old(self)@, draw, block),
            r == resolve_report(old(self)@, draw, block),
    {
        proof {
            resolve_keeps_consistent(self@, draw, block);
        }
        let unchanged = Resolution {
            winner: self.winner,
            offset: None,
            announcement: None,
            proceeds: None,
        };
        if !self.draw_due(block) {
            return unchanged;
        }
        let blow = match draw {
            Some(d) => match self.blow_candle(&d) {
                Some(blow) => blow,
                None => {
                    return unchanged;
                },
            },
            None => {
                return unchanged;
            },
        };
        match blow.pick {
            Some((account, bid)) => {
                self.finalized = true;
                self.winner = Some((account, bid));
                match self.balances.get(&account) {
                    Some(balance) => {
                        if balance >= bid {
                            self.balances.insert(account, balance - bid);
                        }
                    },
                    None => {},
                }
                assert(self@ =~= after_resolve(old(self)@, draw, block));
                Resolution {
                    winner: Some((account, bid)),
                    offset: Some(WinningOffset { offset: blow.offset }),
                    announcement: Some(Winner { account, bid }),
                    proceeds: Some(Transfer { to: self.owner, value: bid }),
                }
            },
            None => unchanged,
        }
    }

    /// The reward for an auction of tokens: the winner may move the
    /// auction's tokens.
    pub fn give_nft(&self, to: AccountId) -> (r: Reward)
        ensures
            r == (Reward { to, contract: self@.reward_contract_address, subject: Subject::NFTs }),
    {
        Reward { to, contract: self.reward_contract_address, subject: Subject::NFTs }
    }

    /// The reward for an auction of a domain: the domain goes to the
    /// winner. Without a domain there is nothing to give.
    pub fn give_domain(&self, to: AccountId) -> (r: Option<Reward>)
        ensures
            r == (match self@.domain {
                Some(domain) => Some(
                    Reward {
                        to,
                        contract: self@.reward_contract_address,
                        subject: Subject::Domain(domain),
                    },
                ),
                None => None,
            }),
    {
        match self.domain {
            Some(domain) => Some(
                Reward {
                    to,
                    contract: self.reward_contract_address,
                    subject: Subject::Domain(domain),
                },
            ),
            None => None,
        }
    }

    /// The reward that `to` gets as the winner, by the kind of subject.
    pub fn reward_for(&self, to: AccountId) -> (r: Reward)
        ensures
            r == reward_of(self@, to),
    {
        if self.subject == 1 {
            match self.give_domain(to) {
                Some(reward) => reward,
                None => self.give_nft(to),
            }
        } else {
            self.give_nft(to)
        }
    }

    /// Whether `to` is the winner.
    pub fn is_winner(&self, to: &AccountId) -> (r: bool)
        ensures
            r == is_winner(self@, *to),
    {
        match self.winner {
            Some((account, _)) => account == *to,
            None => false,
        }
    }

    /// The call that the host has to make on the rewarding contract before
    /// it asks for the payout of `to`: set where the auction has ended and
    /// `to` has won it.
    pub fn reward_due(&self, to: AccountId, block: BlockNumber) -> (r: Option<Reward>)
        ensures
            r == reward_due(self@, to, block),
    {
        if self.status(block) == Status::Ended && self.is_winner(&to) {
            Some(self.reward_for(to))
        } else {
            None
        }
    }

    /// Pays `to` out at `block`. `dispatched` says how the reward call went
    /// where the host made one.
    ///
    /// Nothing is paid before the auction has ended, nor to the winner
    /// where the reward call was not made or failed: in each case the
    /// auction stays as it was. Else the escrow of `to` leaves the ledger
    /// and is handed back for refund if it is not zero, and the winner's
    /// reward is reported.
    pub fn pay_back(&mut self, to: AccountId, block: BlockNumber, dispatched: Option<CallOutcome>)
        -> (r: Result<Payout, SettlementError>)
        requires
            old(self).wf(),
        ensures
            final(self).wf(),
            final(self)@ == after_claim(old(self)@, to, block, dispatched),
            r == claim_report(old(self)@, to, block, dispatched),
    {
        proof {
            claim_keeps_consistent(self@, to, block, dispatched);
        }
        if self.status(block) != Status::Ended {
            return Err(SettlementError::NotEnded);
        }
        if self.winner.is_none() {
            return Err(SettlementError::WinnerNotDetected);
        }
        let mut reward: Option<Reward> = None;
        if self.is_winner(&to) {
            match dispatched {
                Some(outcome) => {
                    match outcome.verdict() {
                        Ok(_) => {},
                        Err(e) => {
                            return Err(e);
                        },
                    }
                    reward = Some(self.reward_for(to));
                },
                None => {
                    return Err(SettlementError::RewardNotDispatched);
                },
            }
        }
        let refund = match self.balances.take(&to) {
            Some(balance) => if balance > 0 {
                Some(Transfer { to, value: balance })
            } else {
                None
            },
            None => None,
        };
        assert(self@ =~= after_claim(old(self)@, to, block, dispatched));
        Ok(Payout { reward, refund })
    }

    /// The owner, who gets the winning bid.
    pub fn owner(&self) -> (r: AccountId)
        ensures
            r == self@.owner,
    {
        self.owner
    }

    /// First block of the opening window.
    pub fn start_block(&self) -> (r: BlockNumber)
        ensures
            r == self@.start_block,
    {
        self.start_block
    }

    /// Length of the opening window, in blocks.
    pub fn opening_period(&self) -> (r: BlockNumber)
        ensures
            r == self@.opening_period,
    {
        self.opening_period
    }

    /// Length of the ending window, in blocks.
    pub fn ending_period(&self) -> (r: BlockNumber)
        ensures
            r == self@.ending_period,
    {
        self.ending_period
    }

    /// The auctioned domain, where one was named.
    pub fn domain(&self) -> (r: Option<crate::identity::Hash>)
        ensures
            r == self@.domain,
    {
        self.domain
    }

    /// Whether the winner was found.
    pub fn is_finalized(&self) -> (r: bool)
        ensures
            r == self@.finalized,
    {
        self.finalized
    }

    /// The leading bidder.
    pub fn winning(&self) -> (r: Option<AccountId>)
        ensures
            r == self@.winning,
    {
        self.winning
    }

    /// The escrow of `who`, if there is one.
    pub fn balance_of(&self, who: &AccountId) -> (r: Option<Balance>)
        ensures
            r == (if self@.balances.contains_key(*who) {
                Some(self@.balances[*who])
            } else {
                None
            }),
    {
        self.balances.get(who)
    }

    /// Number of accounts with an escrow.
    pub fn participants(&self) -> (r: u32)
        requires
            self.wf(),
        ensures
            r == self@.balances.dom().len(),
    {
        self.balances.len()
    }

    /// Whether the ledger can take a bid of `who`.
    pub fn has_room_for(&self, who: &AccountId) -> (r: bool)
        requires
            self.wf(),
        ensures
            r == has_room(self@, *who),
    {
        self.balances.get(who).is_some() || self.balances.len() < u32::MAX
    }

    /// The snapshot track: the leading bid of each slot.
    pub fn winning_data(&self) -> (r: Vec<Snapshot>)
        ensures
            r@ == self@.winning_data,
    {
        self.winning_data.to_vec()
    }

    /// What is auctioned.
    pub fn get_subject(&self) -> (r: Subject)
        ensures
            r == subject_of(self@),
    {
        match self.domain {
            Some(domain) => if self.subject == 1 {
                Subject::Domain(domain)
            } else {
                Subject::NFTs
            },
            None => Subject::NFTs,
        }
    }

    /// The rewarding contract.
    pub fn get_contract(&self) -> (r: AccountId)
        ensures
            r == self@.reward_contract_address,
    {
        self.reward_contract_address
    }

    /// The stage of the auction at the block of the call.
    pub fn get_status(&self, ctx: &InvocationContext) -> (s: Status)
        ensures
            s == status_of(self@, ctx.now),
    {
        self.status(ctx.now)
    }

    /// Finds the winner at the block of the call: see `detect_winner`.
    pub fn find_winner(&mut self, ctx: &InvocationContext, draw: Option<RandomDraw>) -> (r:
        Resolution)
        requires
            old(self).wf(),
        ensures
            final(self).wf(),
            final(self)@ == after_resolve(old(self)@, draw, ctx.now),
            r == resolve_report(old(self)@, draw, ctx.now),
    {
        self.detect_winner(draw, ctx.now)
    }

    /// The leading bidder with the amount that a new bid must reach.
    pub fn get_winning(&self) -> (r: Option<(AccountId, Balance)>)
        ensures
            r == leading_bid(self@),
    {
        match self.winning {
            Some(winning) => Some((winning, self.leading_amount())),
            None => None,
        }
    }

    /// The winner and the winning bid, once found.
    pub fn get_winner(&self) -> (r: Option<(AccountId, Balance)>)
        ensures
            r == self@.winner,
    {
        self.winner
    }

    /// Takes the caller's bid of the amount that came with the call: see
    /// `handle_bid`.
    pub fn bid(&mut self, ctx: &InvocationContext) -> (r: Result<BidReceipt, Error>)
        requires
            old(self).wf(),
            bid_verdict(old(self)@, ctx.amount, ctx.now) is Ok ==> has_room(old(self)@, ctx.caller),
        ensures
            final(self).wf(),
            final(self)@ == after_bid(old(self)@, ctx.caller, ctx.amount, ctx.now),
            r == bid_report(old(self)@, ctx.caller, ctx.amount, ctx.now),
    {
        self.handle_bid(ctx.caller, ctx.amount, ctx.now)
    }

    /// Pays the caller out: see `pay_back`.
    pub fn payout(&mut self, ctx: &InvocationContext, dispatched: Option<CallOutcome>) -> (r:
        Result<Payout, SettlementError>)
        requires
            old(self).wf(),
        ensures
            final(self).wf(),
            final(self)@ == after_claim(old(self)@, ctx.caller, ctx.now, dispatched),
            r == claim_report(old(self)@, ctx.caller, ctx.now, dispatched),
    {
        self.pay_back(ctx.caller, ctx.now, dispatched)
    }
}

} // verus!
