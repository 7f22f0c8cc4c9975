use candle_auction::auction::CandleAuction;
use candle_auction::events::Error;
use candle_auction::identity::{AccountId, BlockNumber, InvocationContext};
use candle_auction::phase::AuctionStatus;

fn caller() -> AccountId {
    AccountId::new([0x01; 32])
}

fn at(now: BlockNumber) -> InvocationContext {
    InvocationContext { caller: caller(), now, amount: 500 }
}

fn auction(now: BlockNumber, start: Option<BlockNumber>, opening: u32, ending: u32) -> CandleAuction {
    CandleAuction::new(&at(now), start, opening, ending, 0, None, AccountId::new([0x06; 32]))
        .unwrap()
}

#[test]
fn lib_new_works() {
    let candle_auction = auction(0, Some(10), 5, 10);
    assert_eq!(candle_auction.start_block(), 10);
    assert_eq!(candle_auction.get_status(&at(0)).by_clock(), AuctionStatus::NotStarted);
}

#[test]
fn lib_new_default_start_block_works() {
    let candle_auction = auction(12, None, 5, 10);
    assert_eq!(candle_auction.start_block(), 13);
    assert_eq!(candle_auction.get_status(&at(12)).by_clock(), AuctionStatus::NotStarted);
}

#[test]
fn lib_auction_statuses_returned_correctly() {
    //  [1][2][3][4][5][6][7][8][9][10][11][12][13]
    //     | opening  |             ending    |
    let candle_auction = auction(0, Some(2), 4, 7);

    assert_eq!(candle_auction.get_status(&at(0)).by_clock(), AuctionStatus::NotStarted);
    assert_eq!(candle_auction.get_status(&at(1)).by_clock(), AuctionStatus::NotStarted);
    assert_eq!(candle_auction.get_status(&at(2)).by_clock(), AuctionStatus::OpeningPeriod);
    assert_eq!(candle_auction.get_status(&at(5)).by_clock(), AuctionStatus::OpeningPeriod);
    assert_eq!(candle_auction.get_status(&at(6)).by_clock(), AuctionStatus::EndingPeriod);
    assert_eq!(candle_auction.get_status(&at(12)).by_clock(), AuctionStatus::EndingPeriod);
    assert_eq!(candle_auction.get_status(&at(13)).by_clock(), AuctionStatus::Ended);
}

#[test]
#[should_panic]
fn lib_cannot_bid_until_started() {
    let mut candle_auction = auction(0, Some(5), 5, 10);
    let taken = candle_auction.bid(&at(0));
    assert_eq!(taken, Err(Error::AuctionNotActive));
    taken.unwrap();
}

#[test]
#[should_panic]
fn lib_cannot_bid_when_ended() {
    let mut candle_auction = auction(0, None, 5, 10);
    let taken = candle_auction.bid(&at(16));
    assert_eq!(taken, Err(Error::AuctionNotActive));
    taken.unwrap();
}
