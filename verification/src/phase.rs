//! The phase clock: which stage an auction is in at a given block.
//!
//! The stage follows from the schedule and the block alone, with one
//! exception: an auction is `Ended` only once a resolution has been made.
//! Time by itself leads no further than `RfDelay`.

use vstd::prelude::*;
use crate::identity::BlockNumber;

verus! {

/// Stage of an auction.
#[derive(Clone, Copy, Debug, PartialEq, Eq, Structural)]
pub enum Status {
    /// The start block has not been reached.
    NotStarted,
    /// The opening window: bids are collected into slot 0.
    OpeningPeriod,
    /// The ending window. The number is the slot of the current block,
    /// from 1 to the length of the window.
    EndingPeriod(BlockNumber),
    /// The candle was blown and the winner is found.
    Ended,
    /// Bidding is over and no resolution has been made yet. The number
    /// says how many blocks have passed since the ending window closed.
    RfDelay(BlockNumber),
}

/// Stage of an auction as the clock alone gives it, whatever has been
/// resolved.
#[derive(Clone, Copy, Debug, PartialEq, Eq, Structural)]
pub enum AuctionStatus {
    NotStarted,
    OpeningPeriod,
    EndingPeriod,
    Ended,
}

/// Last block of the opening window. It lies before `start` where the
/// window is empty.
pub open spec fn opening_last(start: BlockNumber, opening: BlockNumber) -> int {
    start + opening - 1
}

/// Last block of the ending window.
pub open spec fn ending_last(start: BlockNumber, opening: BlockNumber, ending: BlockNumber) -> int {
    start + opening + ending - 1
}

/// The stage at block `now` of an auction with the given schedule.
pub open spec fn phase_at(
    start: BlockNumber,
    opening: BlockNumber,
    ending: BlockNumber,
    finalized: bool,
    now: BlockNumber,
) -> Status {
    if now < start {
        Status::NotStarted
    } else if now <= opening_last(start, opening) {
        Status::OpeningPeriod
    } else if now <= ending_last(start, opening, ending) {
        Status::EndingPeriod((now - opening_last(start, opening)) as BlockNumber)
    } else if finalized {
        Status::Ended
    } else {
        Status::RfDelay((now - ending_last(start, opening, ending) - 1) as BlockNumber)
    }
}

/// The slot of the snapshot track that a bid made in stage `s` is recorded
/// in, if the stage takes bids at all.
pub open spec fn slot_of(s: Status) -> Option<BlockNumber> {
    match s {
        Status::OpeningPeriod => Some(0u32),
        Status::EndingPeriod(offset) => Some(offset),
        _ => None,
    }
}

/// The stage that the clock alone gives for `s`.
pub open spec fn coarse(s: Status) -> AuctionStatus {
    match s {
        Status::NotStarted => AuctionStatus::NotStarted,
        Status::OpeningPeriod => AuctionStatus::OpeningPeriod,
        Status::EndingPeriod(_) => AuctionStatus::EndingPeriod,
        Status::Ended => AuctionStatus::Ended,
        Status::RfDelay(_) => AuctionStatus::Ended,
    }
}

/// Computes the stage at block `now`.
pub fn compute_status(
    start: BlockNumber,
    opening: BlockNumber,
    ending: BlockNumber,
    finalized: bool,
    now: BlockNumber,
) -> (s: Status)
    ensures
        s == phase_at(start, opening, ending, finalized, now),
{
    let first: u64 = start as u64;
    let after_opening: u64 = first + opening as u64;
    let after_ending: u64 = after_opening + ending as u64;
    let at: u64 = now as u64;
    if at >= first {
        if at >= after_opening {
            if at >= after_ending {
                if !finalized {
                    Status::RfDelay((at - after_ending) as u32)
                } else {
                    Status::Ended
                }
            } else {
                Status::EndingPeriod((at - after_opening + 1) as u32)
            }
        } else {
            Status::OpeningPeriod
        }
    } else {
        Status::NotStarted
    }
}

impl Status {
    /// The slot that a bid made in this stage is recorded in.
    pub fn slot(&self) -> (r: Option<BlockNumber>)
        ensures
            r == slot_of(*self),
    {
        match self {
            Status::OpeningPeriod => Some(0),
            Status::EndingPeriod(offset) => Some(*offset),
            _ => None,
        }
    }

    /// The stage that the clock alone gives: a pending resolution counts
    /// as ended.
    pub fn by_clock(&self) -> (r: AuctionStatus)
        ensures
            r == coarse(*self),
    {
        match self {
            Status::NotStarted => AuctionStatus::NotStarted,
            Status::OpeningPeriod => AuctionStatus::OpeningPeriod,
            Status::EndingPeriod(_) => AuctionStatus::EndingPeriod,
            Status::Ended => AuctionStatus::Ended,
            Status::RfDelay(_) => AuctionStatus::Ended,
        }
    }
}

/// The stage in each window of the schedule: before the start nothing has
/// begun, the opening window is `OpeningPeriod`, and a block of the ending
/// window is `EndingPeriod` with its distance from the end of the opening
/// window as the slot, which runs from 1 to the window's length. After the
/// ending window the stage is `Ended` exactly if a resolution was made.
pub proof fn phase_by_window(
    start: BlockNumber,
    opening: BlockNumber,
    ending: BlockNumber,
    finalized: bool,
    now: BlockNumber,
)
    ensures
        now < start ==> phase_at(start, opening, ending, finalized, now) == Status::NotStarted,
        start <= now <= start + opening - 1 ==> phase_at(start, opening, ending, finalized, now)
            == Status::OpeningPeriod,
        start + opening <= now <= start + opening + ending - 1 ==> {
            &&& phase_at(start, opening, ending, finalized, now) == Status::EndingPeriod(
                (now - (start + opening - 1)) as BlockNumber,
            )
            &&& 1 <= now - (start + opening - 1) <= ending
        },
        now > start + opening + ending - 1 && finalized ==> phase_at(
            start,
            opening,
            ending,
            finalized,
            now,
        ) == Status::Ended,
        now > start + opening + ending - 1 && !finalized ==> phase_at(
            start,
            opening,
            ending,
            finalized,
            now,
        ) == Status::RfDelay((now - (start + opening + ending)) as BlockNumber),
        (phase_at(start, opening, ending, finalized, now) == Status::Ended) ==> finalized,
{
}

/// The clock's own stage does not depend on whether a resolution was made.
pub proof fn clock_ignores_resolution(
    start: BlockNumber,
    opening: BlockNumber,
    ending: BlockNumber,
    now: BlockNumber,
)
    ensures
        coarse(phase_at(start, opening, ending, true, now)) == coarse(
            phase_at(start, opening, ending, false, now),
        ),
{
}

} // verus!
