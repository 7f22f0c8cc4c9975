use candle_auction::auction::CandleAuction;
use candle_auction::entropy::{RandomDraw, RF_DELAY};
use candle_auction::events::{
    BidReceipt, CallOutcome, ConstructionError, Error, Payout, SettlementError, Transfer,
};
use candle_auction::identity::{AccountId, Balance, BlockNumber, InvocationContext};
use candle_auction::phase::Status;

const DEFAULT_CALLEE_HASH: [u8; 32] = [0x06; 32];

fn alice() -> AccountId {
    AccountId::new([0x01; 32])
}

fn bob() -> AccountId {
    AccountId::new([0x02; 32])
}

fn charlie() -> AccountId {
    AccountId::new([0x03; 32])
}

fn at(caller: AccountId, now: BlockNumber, amount: Balance) -> InvocationContext {
    InvocationContext { caller, now, amount }
}

/// A draw that is old enough at `now` and puts the candle out at `cutoff`.
fn draw(cutoff: u32, now: BlockNumber) -> RandomDraw {
    let mut raw = [0u8; 32];
    raw[..4].copy_from_slice(&(cutoff - 1).to_le_bytes());
    RandomDraw { raw: candle_auction::identity::Hash::new(raw), known_since: now }
}

fn create_auction(
    owner: AccountId,
    now: BlockNumber,
    start_at: Option<BlockNumber>,
    opening_period: BlockNumber,
    ending_period: BlockNumber,
    subject: u8,
) -> CandleAuction {
    let made = CandleAuction::new(
        &at(owner, now, 0),
        start_at,
        opening_period,
        ending_period,
        subject,
        Some(candle_auction::identity::Hash::clear()),
        AccountId::new(DEFAULT_CALLEE_HASH),
    );
    match made {
        Ok(auction) => auction,
        Err(ConstructionError::UnsupportedSubject) => {
            panic!("Only subjects [0,1] are supported so far!")
        }
        Err(ConstructionError::MissingDomain) => panic!("A domain auction needs a domain!"),
        Err(ConstructionError::BackdatedStart) => {
            panic!("Auction is allowed to be scheduled to future blocks only!")
        }
    }
}

fn bid(auction: &mut CandleAuction, who: AccountId, now: BlockNumber, amount: Balance) -> BidReceipt {
    match auction.bid(&at(who, now, amount)) {
        Err(Error::AuctionNotActive) => panic!("Auction isn't active!"),
        Err(Error::NotOutBidding(bid_new, bid_quo)) => {
            panic!("You can't outbid {} with {}", bid_quo, bid_new)
        }
        Err(Error::WinningDataCorrupted) => panic!("Auction's winning data corrupted!"),
        Ok(receipt) => receipt,
    }
}

/// Pays out as a host does whose rewarding contract answers.
fn payout(auction: &mut CandleAuction, who: AccountId, now: BlockNumber) -> Payout {
    let dispatched = auction.reward_due(who, now).map(|_| CallOutcome::Returned);
    match auction.payout(&at(who, now, 0), dispatched) {
        Err(SettlementError::NotEnded) => panic!("Auction is not Ended, no payback is possible!"),
        Err(SettlementError::WinnerNotDetected) => {
            panic!("Winner is not detected, no payback is possible!")
        }
        Err(e) => panic!("Got error {:?} while trying to call the rewarding contract", e),
        Ok(paid) => paid,
    }
}

#[test]
fn new_works() {
    let auction = create_auction(alice(), 0, Some(10), 5, 10, 0);
    assert_eq!(auction.start_block(), 10);
    assert_eq!(auction.get_status(&at(alice(), 0, 0)), Status::NotStarted);
}

#[test]
fn new_default_start_block_works() {
    let auction = create_auction(alice(), 12, None, 5, 10, 0);
    assert_eq!(auction.start_block(), 13);
    assert_eq!(auction.get_status(&at(alice(), 12, 0)), Status::NotStarted);
}

#[test]
fn dns_auction_new_works() {
    let auction_with_domain = CandleAuction::new(
        &at(alice(), 0, 0),
        Some(10),
        5,
        10,
        1,
        Some(candle_auction::identity::Hash::new([0x99; 32])),
        AccountId::new(DEFAULT_CALLEE_HASH),
    )
    .unwrap();
    assert_eq!(auction_with_domain.start_block(), 10);
    assert_eq!(
        auction_with_domain.domain(),
        Some(candle_auction::identity::Hash::new([0x99; 32]))
    );
    assert_eq!(auction_with_domain.get_status(&at(alice(), 0, 0)), Status::NotStarted);

    let auction_no_domain = create_auction(alice(), 0, Some(10), 5, 10, 1);

    assert_eq!(auction_no_domain.domain(), Some(candle_auction::identity::Hash::clear()));
}

#[test]
#[should_panic(expected = "Auction is allowed to be scheduled to future blocks only!")]
fn cannot_init_backdated_auction() {
    create_auction(alice(), 27, Some(1), 10, 20, 0);
}

#[test]
#[should_panic(expected = "Auction isn't active!")]
fn cannot_bid_until_started() {
    let mut auction = create_auction(alice(), 0, Some(5), 5, 10, 0);
    assert_eq!(auction.bid(&at(alice(), 0, 500)), Err(Error::AuctionNotActive));
    bid(&mut auction, alice(), 0, 500);
}

#[test]
fn auction_statuses_returned_correctly() {
    //  [1][2][3][4][5][6][7][8][9][10][11][12][13]
    //     | opening  |             ending    |
    let mut auction = create_auction(alice(), 0, Some(2), 4, 7, 0);

    assert_eq!(auction.get_status(&at(alice(), 0, 0)), Status::NotStarted);
    assert_eq!(auction.get_status(&at(alice(), 1, 0)), Status::NotStarted);
    assert_eq!(auction.get_status(&at(alice(), 2, 0)), Status::OpeningPeriod);
    assert_eq!(auction.get_status(&at(alice(), 5, 0)), Status::OpeningPeriod);
    assert_eq!(auction.get_status(&at(alice(), 6, 0)), Status::EndingPeriod(1));
    bid(&mut auction, alice(), 6, 100);
    assert_eq!(auction.get_status(&at(alice(), 12, 0)), Status::EndingPeriod(7));
    assert_eq!(auction.get_status(&at(alice(), 13, 0)), Status::RfDelay(0));
    assert_eq!(auction.get_status(&at(alice(), 57, 0)), Status::RfDelay(57 - 13));
    assert_eq!(auction.get_status(&at(alice(), 94, 0)), Status::RfDelay(81));
    auction.find_winner(&at(alice(), 94, 0), Some(draw(3, 94)));
    assert_eq!(auction.get_status(&at(alice(), 94, 0)), Status::Ended);
}

#[test]
fn winner_gets_change_back() {
    let mut auction = create_auction(charlie(), 0, Some(2), 4, 7, 0);

    // Alice bids 100 in the opening period
    bid(&mut auction, alice(), 3, 100);
    // and then she overbids herself in the last block of the ending period
    let receipt = bid(&mut auction, alice(), 12, 101);
    assert_eq!(receipt.refund, Some(Transfer { to: alice(), value: 100 }));

    // the candle goes out before her second bid
    let now = 13 + RF_DELAY;
    let found = auction.find_winner(&at(charlie(), now, 0), Some(draw(4, now)));

    assert_eq!(auction.get_winner(), Some((alice(), 100)));
    // Charlie as auction owner gets only 100 paid out to him
    assert_eq!(found.proceeds, Some(Transfer { to: charlie(), value: 100 }));
    let to_owner = payout(&mut auction, charlie(), now);
    assert_eq!(to_owner.refund, None);

    // and `change` 1 is left to Alice balance
    let change = auction.balance_of(&alice()).unwrap();
    assert_eq!(change, 1);
    // she gets it back with her payout
    let to_alice = payout(&mut auction, alice(), now);
    assert_eq!(to_alice.refund, Some(Transfer { to: alice(), value: 1 }));
}

#[test]
#[should_panic(expected = "Ended")]
fn not_ended_no_payout() {
    let mut auction = create_auction(alice(), 0, Some(1), 10, 20, 0);

    bid(&mut auction, alice(), 27, 100);

    assert_eq!(auction.payout(&at(bob(), 33, 100), None), Err(SettlementError::NotEnded));
    payout(&mut auction, bob(), 33);
}

#[test]
#[should_panic(expected = "Winner is not detected, no payback is possible!")]
fn no_winner_no_payout() {
    let mut auction = create_auction(alice(), 0, Some(1), 10, 20, 0);

    // Alice bids at last block of the Ending period
    bid(&mut auction, alice(), 30, 100);

    // the candle goes out before that bid
    let now = 31 + RF_DELAY;
    auction.find_winner(&at(alice(), now, 0), Some(draw(19, now)));

    // as winner is not detected the auction is not ended,
    // hence the payout is not possible
    assert_eq!(auction.get_winner(), None);
    assert_eq!(auction.get_status(&at(alice(), now, 0)), Status::RfDelay(RF_DELAY));
    assert_eq!(auction.payout(&at(alice(), now, 0), None), Err(SettlementError::NotEnded));
    assert_eq!(auction.balance_of(&alice()), Some(100));

    // a later candle goes out at the last block
    auction.find_winner(&at(alice(), now + 1, 0), Some(draw(20, now + 1)));
    if auction.get_winner().is_none() {
        payout(&mut auction, alice(), now + 1);
    } else {
        panic!("Winner is not detected, no payback is possible!")
    }
}

#[test]
#[should_panic(expected = "Auction isn't active!")]
fn cannot_bid_when_ended() {
    let mut auction = create_auction(alice(), 0, None, 5, 10, 0);
    assert_eq!(auction.bid(&at(alice(), 16, 500)), Err(Error::AuctionNotActive));
    bid(&mut auction, alice(), 16, 500);
}

#[test]
fn bidding_works() {
    let mut auction = create_auction(alice(), 0, None, 5, 10, 0);
    let mut contract_balance: Balance = 0;
    // Bob bids 100
    let receipt = bid(&mut auction, bob(), 1, 100);
    assert_eq!(receipt.refund, None);
    // bid is accepted
    assert_eq!(auction.balance_of(&bob()), Some(100));
    // and Bob is currently winning
    assert_eq!(auction.winning(), Some(bob()));

    // Bob bids 125
    contract_balance += 101;
    let receipt = bid(&mut auction, bob(), 2, 125);
    if let Some(refund) = receipt.refund {
        assert_eq!(refund.to, bob());
        contract_balance -= refund.value;
    }

    // new bid is accepted: balance is updated
    assert_eq!(auction.balance_of(&bob()), Some(125));
    // and Bob is still winning
    assert_eq!(auction.winning(), Some(bob()));
    // and contract paid back the first bid
    assert_eq!(contract_balance, 1);
}

#[test]
fn winning_data_constructed_correctly() {
    let mut auction = create_auction(alice(), 0, Some(2), 4, 7, 0);

    // winning_data initialized with Nones
    assert_eq!(auction.winning_data(), vec![None; 8]);

    bid(&mut auction, alice(), 3, 100);
    bid(&mut auction, bob(), 5, 101);
    // the top of these bids goes to index 0
    assert_eq!(
        auction.winning_data(),
        vec![Some((bob(), 101)), None, None, None, None, None, None, None]
    );

    bid(&mut auction, alice(), 7, 102);
    bid(&mut auction, bob(), 9, 103);
    bid(&mut auction, alice(), 11, 104);

    assert_eq!(
        auction.winning_data(),
        vec![
            Some((bob(), 101)),
            None,
            Some((alice(), 102)),
            None,
            Some((bob(), 103)),
            None,
            Some((alice(), 104)),
            None
        ]
    );
}

#[test]
fn no_winner_until_ended() {
    let mut auction = create_auction(alice(), 0, None, 5, 10, 0);
    bid(&mut auction, alice(), 1, 100);
    bid(&mut auction, bob(), 15, 101);

    // no winner yet determined
    assert_eq!(auction.detect_winner(Some(draw(3, 15)), 15).winner, None);
    assert_eq!(auction.get_winner(), None);
    assert!(!auction.is_finalized());
}

#[test]
fn winner_is_random_and_no_override() {
    let mut auction = create_auction(alice(), 0, Some(2), 4, 7, 0);

    bid(&mut auction, alice(), 3, 100);
    bid(&mut auction, bob(), 5, 101);
    bid(&mut auction, alice(), 7, 102);
    bid(&mut auction, bob(), 9, 103);
    bid(&mut auction, alice(), 11, 104);

    // auction ends
    let end = 13 + RF_DELAY;
    let w1 = auction.detect_winner(Some(draw(1, end)), end).winner.unwrap();
    auction.get_winner().expect("Candle winner SHOULD be detected!");

    let mut candles = Vec::<(AccountId, Balance)>::new();
    candles.push(w1);
    for i in 1..10 {
        let now = end + i;
        let blown = auction.blow_candle(&draw(1 + i % 7, now)).unwrap();
        candles.push(blown.pick.unwrap());
        // winner cannot be overriden
        assert_eq!(
            auction.get_winner().unwrap(),
            auction.detect_winner(Some(draw(1 + i % 7, now)), now).winner.unwrap()
        );
    }
    assert_ne!(candles, vec![w1; 10], "candle should be random!");
}

#[test]
fn win_and_payout_work() {
    // Charlie is auction owner, Alice and Bob are bidders
    let mut auction = create_auction(charlie(), 0, None, 5, 10, 0);
    // balances: [alice's, bob's, charlie's, contract's]
    let mut balances: [Balance; 4] = [1000, 1000, 1000, 1000];
    let index = |who: AccountId| {
        if who == alice() {
            0
        } else if who == bob() {
            1
        } else {
            2
        }
    };
    let mut pay = |balances: &mut [Balance; 4], transfer: Option<Transfer>| {
        if let Some(t) = transfer {
            balances[index(t.to)] += t.value;
            balances[3] = balances[3].wrapping_sub(t.value);
        }
    };

    let receipt = bid(&mut auction, alice(), 3, 100);
    pay(&mut balances, receipt.refund);
    let receipt = bid(&mut auction, bob(), 4, 101);
    pay(&mut balances, receipt.refund);

    let balances_before = balances;

    // Charlie invokes winner determination
    let now = 16 + RF_DELAY;
    let found = auction.find_winner(&at(charlie(), now, 0), Some(draw(6, now)));
    pay(&mut balances, found.proceeds);

    // Bob wins (with bid 101)
    assert_eq!(auction.get_winner(), Some((bob(), 101)));

    // payout claimed by looser Alice
    let paid = payout(&mut auction, alice(), now);
    pay(&mut balances, paid.refund);
    // payout claimed by auction owner Charlie
    let paid = payout(&mut auction, charlie(), now);
    pay(&mut balances, paid.refund);

    let mut balances_diff = [0; 4];
    for i in 0..4 {
        balances_diff[i] = balances[i].wrapping_sub(balances_before[i]);
    }

    // Alice gets back her bidded amount => diff = +100
    // Bob as winner gets no money back => diff = 0
    // Charlie as owner gets Bobs bid  => diff = +101
    // Contract pays bid amount to Alice and Bob's bid goes to Charlie => diff = -100 - 101 = -201
    assert_eq!(balances_diff, [100, 0, 101, 0u128.wrapping_sub(201)]);

    // Contract ledger cleared, except winner's balance
    assert_eq!(auction.participants(), 1);
}
