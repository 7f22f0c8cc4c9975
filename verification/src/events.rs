//! What the engine reports to its host: the observations to publish, the
//! money to move, and the reasons for turning an operation down.

use vstd::prelude::*;
use crate::identity::{AccountId, Balance, BlockNumber};

verus! {

/// Why a bid was turned down.
#[derive(Clone, Copy, Debug, PartialEq, Eq, Structural)]
pub enum Error {
    /// The auction takes no bids at this block.
    AuctionNotActive,
    /// The bid is below the leading one. Holds the bid and the leading
    /// amount, in this order.
    NotOutBidding(Balance, Balance),
    /// The slot of the bid lies outside the snapshot track.
    WinningDataCorrupted,
}

/// Why no auction was created.
#[derive(Clone, Copy, Debug, PartialEq, Eq, Structural)]
pub enum ConstructionError {
    /// The kind of subject is none of those that can be rewarded.
    UnsupportedSubject,
    /// A domain is auctioned and none was named.
    MissingDomain,
    /// The start is not after the block of creation.
    BackdatedStart,
}

/// Why a payout was turned down.
#[derive(Clone, Copy, Debug, PartialEq, Eq, Structural)]
pub enum SettlementError {
    /// No resolution has been made yet.
    NotEnded,
    /// The auction has ended and holds no winner.
    WinnerNotDetected,
    /// There is no contract to call at the rewarding address.
    NotAContract,
    /// The rewarding contract failed.
    RewardFailed,
    /// The winner asks for the payout and no reward call was made.
    RewardNotDispatched,
}

/// What is auctioned.
#[derive(Clone, Copy, Debug, PartialEq, Eq)]
pub enum Subject {
    /// The right to move the auction's tokens.
    NFTs,
    /// A domain name.
    Domain(crate::identity::Hash),
}

/// A bid was accepted.
#[derive(Clone, Copy, Debug, PartialEq, Eq)]
pub struct Bid {
    pub from: AccountId,
    pub bid: Balance,
}

/// The slot at which the candle went out.
#[derive(Clone, Copy, Debug, PartialEq, Eq, Structural)]
pub struct WinningOffset {
    pub offset: BlockNumber,
}

/// The winner was found.
#[derive(Clone, Copy, Debug, PartialEq, Eq)]
pub struct Winner {
    pub account: AccountId,
    pub bid: Balance,
}

/// The winner is rewarded: the call to make on the rewarding contract, and
/// the observation to publish once it is made.
#[derive(Clone, Copy, Debug, PartialEq, Eq)]
pub struct Reward {
    pub to: AccountId,
    pub contract: AccountId,
    pub subject: Subject,
}

/// Money that the host has to move out of the auction's custody.
#[derive(Clone, Copy, Debug, PartialEq, Eq)]
pub struct Transfer {
    pub to: AccountId,
    pub value: Balance,
}

/// How a call to the rewarding contract went.
#[derive(Clone, Copy, Debug, PartialEq, Eq, Structural)]
pub enum CallOutcome {
    /// The contract ran and returned.
    Returned,
    /// There is no code at the address.
    CodeNotFound,
    /// The address is not one that can be called.
    NotCallable,
    /// Anything else went wrong.
    Failed,
}

/// What the host owes after an accepted bid.
#[derive(Clone, Copy, Debug, PartialEq, Eq)]
pub struct BidReceipt {
    /// The bidder's earlier escrow, to be returned.
    pub refund: Option<Transfer>,
    pub event: Bid,
}

/// What a call for resolution found and did.
#[derive(Clone, Copy, Debug, PartialEq, Eq)]
pub struct Resolution {
    /// The resolved winner as it stands after the call.
    pub winner: Option<(AccountId, Balance)>,
    /// Set where this call found the winner: the slot at which the candle
    /// went out.
    pub offset: Option<WinningOffset>,
    /// Set where this call found the winner.
    pub announcement: Option<Winner>,
    /// The winning bid, to be paid to the owner.
    pub proceeds: Option<Transfer>,
}

/// What the host owes after a payout.
#[derive(Clone, Copy, Debug, PartialEq, Eq)]
pub struct Payout {
    /// Set where the caller is the winner: the reward that was delivered.
    pub reward: Option<Reward>,
    /// The caller's escrow, to be returned.
    pub refund: Option<Transfer>,
}

impl Subject {
    /// Selector of the message on the rewarding contract that hands this
    /// subject over.
    pub fn selector(&self) -> (r: [u8; 4])
        ensures
            r@ == reward_selector(*self),
    {
        match self {
            Subject::NFTs => [0xFE, 0xED, 0xBA, 0xBE],
            Subject::Domain(_) => [0xFE, 0xED, 0xDE, 0xED],
        }
    }
}

/// Selector of the rewarding message for each kind of subject.
pub open spec fn reward_selector(subject: Subject) -> Seq<u8> {
    match subject {
        Subject::NFTs => seq![0xFEu8, 0xEDu8, 0xBAu8, 0xBEu8],
        Subject::Domain(_) => seq![0xFEu8, 0xEDu8, 0xDEu8, 0xEDu8],
    }
}

/// What a failed call to the rewarding contract means for the payout.
pub open spec fn call_verdict(outcome: CallOutcome) -> Result<(), SettlementError> {
    match outcome {
        CallOutcome::Returned => Ok(()),
        CallOutcome::CodeNotFound => Err(SettlementError::NotAContract),
        CallOutcome::NotCallable => Err(SettlementError::NotAContract),
        CallOutcome::Failed => Err(SettlementError::RewardFailed),
    }
}

impl CallOutcome {
    /// Whether the call went through, and if not, which fault the payout
    /// ends with.
    pub fn verdict(&self) -> (r: Result<(), SettlementError>)
        ensures
            r == call_verdict(*self),
    {
        match self {
            CallOutcome::Returned => Ok(()),
            CallOutcome::CodeNotFound => Err(SettlementError::NotAContract),
            CallOutcome::NotCallable => Err(SettlementError::NotAContract),
            CallOutcome::Failed => Err(SettlementError::RewardFailed),
        }
    }
}

} // verus!
