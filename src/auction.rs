use vstd::prelude::*;

use crate::account::AccountId;
use crate::transfer::{custody_flow, lemma_flow_concat, lemma_flow_one, party_flow, Transfer};

verus! {

/// Why an auction transition was refused.
#[derive(Clone, Copy, Debug, PartialEq, Eq, Structural)]
pub enum AuctionError {
    InvalidTimeRange,
    NotStarted,
    Ended,
    NotEnded,
    BidTooLow,
    BidBelowReserve,
    HasBids,
    NoBids,
    Unauthorized,
}

/// The persisted record of a timed ascending auction. Its custody account holds
/// exactly `highest_bid_lamports`.
#[derive(Clone, Copy, Debug)]
pub struct Auction {
    pub merchant: AccountId,
    pub start_time_unix: i64,
    /// The deadline; accepted bids inside the anti-snipe window push it forward.
    pub end_time_unix: i64,
    pub reserve_price_lamports: u64,
    pub min_increment_lamports: u64,
    pub anti_snipe_window_secs: i64,
    pub highest_bidder: Option<AccountId>,
    pub highest_bid_lamports: u64,
    pub bump: u8,
}

impl Auction {
    /// No standing bid means nothing held.
    pub open spec fn wf(&self) -> bool {
        self.highest_bidder is None ==> self.highest_bid_lamports == 0
    }
}

/// The error that refuses a bid of `amount` at time `now`, if any.
pub open spec fn bid_rejection(a: Auction, amount: u64, now: i64) -> Option<AuctionError> {
    if now < a.start_time_unix {
        Some(AuctionError::NotStarted)
    } else if now >= a.end_time_unix {
        Some(AuctionError::Ended)
    } else if a.highest_bidder is Some && amount < a.highest_bid_lamports
        + a.min_increment_lamports {
        Some(AuctionError::BidTooLow)
    } else if a.highest_bidder is None && amount < a.reserve_price_lamports {
        Some(AuctionError::BidBelowReserve)
    } else {
        None
    }
}

/// The deadline after a bid at `now`: when the time left is under a positive
/// window, it becomes `now + window` (capped at the largest timestamp).
pub open spec fn extended_end(end: i64, now: i64, window: i64) -> i64 {
    if window > 0 && end - now < window {
        if now + window > i64::MAX {
            i64::MAX
        } else {
            (now + window) as i64
        }
    } else {
        end
    }
}

/// The record after an accepted bid.
pub open spec fn after_bid(a: Auction, bidder: AccountId, amount: u64, now: i64) -> Auction {
    Auction {
        highest_bidder: Some(bidder),
        highest_bid_lamports: amount,
        end_time_unix: extended_end(a.end_time_unix, now, a.anti_snipe_window_secs),
        ..a
    }
}

/// The movements of an accepted bid: the standing bid, if any, back to its
/// bidder, then the new bid into custody.
pub open spec fn bid_transfers(a: Auction, bidder: AccountId, amount: u64) -> Seq<Transfer> {
    match a.highest_bidder {
        Some(prev) => seq![
            Transfer::Payout { to: prev, amount: a.highest_bid_lamports },
            Transfer::Deposit { from: bidder, amount },
        ],
        None => seq![Transfer::Deposit { from: bidder, amount }],
    }
}

/// Opens an auction for `merchant`; the window must not be empty.
pub fn create_auction(
    merchant: AccountId,
    start_time_unix: i64,
    end_time_unix: i64,
    reserve_price_lamports: u64,
    min_increment_lamports: u64,
    anti_snipe_window_secs: i64,
    bump: u8,
) -> (r: Result<Auction, AuctionError>)
    ensures
        start_time_unix >= end_time_unix ==> r == Err::<Auction, AuctionError>(
            AuctionError::InvalidTimeRange,
        ),
        start_time_unix < end_time_unix ==> r == Ok::<Auction, AuctionError>(
            (Auction {
                merchant,
                start_time_unix,
                end_time_unix,
                reserve_price_lamports,
                min_increment_lamports,
                anti_snipe_window_secs,
                highest_bidder: None,
                highest_bid_lamports: 0,
                bump,
            }),
        ),
        r matches Ok(a) ==> a.wf(),
{
    if start_time_unix >= end_time_unix {
        return Err(AuctionError::InvalidTimeRange);
    }
    Ok(Auction {
        merchant,
        start_time_unix,
        end_time_unix,
        reserve_price_lamports,
        min_increment_lamports,
        anti_snipe_window_secs,
        highest_bidder: None,
        highest_bid_lamports: 0,
        bump,
    })
}

/// Places a bid of `amount_lamports` by `bidder` at ledger time `now`.
///
/// On success the record names the new highest bid, the deadline is pushed
/// forward when the bid lands inside the anti-snipe window, and the returned
/// movements refund the previous highest bidder in full and take the new bid
/// into custody. On failure the record is unchanged and nothing moves.
pub fn place_bid(auction: &mut Auction, bidder: AccountId, amount_lamports: u64, now: i64) -> (r:
    Result<Vec<Transfer>, AuctionError>)
    ensures
        match r {
            Err(e) => {
                &&& bid_rejection(*old(auction), amount_lamports, now) == Some(e)
                &&& *final(auction) == *old(auction)
            },
            Ok(ts) => {
                &&& bid_rejection(*old(auction), amount_lamports, now) is None
                &&& *final(auction) == after_bid(*old(auction), bidder, amount_lamports, now)
                &&& ts@ == bid_transfers(*old(auction), bidder, amount_lamports)
            },
        },
        final(auction).end_time_unix >= old(auction).end_time_unix,
        old(auction).wf() ==> final(auction).wf(),
{
    if now < auction.start_time_unix {
        return Err(AuctionError::NotStarted);
    }
    if now >= auction.end_time_unix {
        return Err(AuctionError::Ended);
    }
    match auction.highest_bidder {
        Some(_) => {
            let needed: u128 = auction.highest_bid_lamports as u128
                + auction.min_increment_lamports as u128;
            if (amount_lamports as u128) < needed {
                return Err(AuctionError::BidTooLow);
            }
        },
        None => {
            if amount_lamports < auction.reserve_price_lamports {
                return Err(AuctionError::BidBelowReserve);
            }
        },
    }
    let mut transfers: Vec<Transfer> = Vec::new();
    if let Some(prev) = auction.highest_bidder {
        transfers.push(Transfer::Payout { to: prev, amount: auction.highest_bid_lamports });
    }
    transfers.push(Transfer::Deposit { from: bidder, amount: amount_lamports });
    proof {
        assert(transfers@ =~= bid_transfers(*old(auction), bidder, amount_lamports));
    }
    auction.highest_bidder = Some(bidder);
    auction.highest_bid_lamports = amount_lamports;
    let window = auction.anti_snipe_window_secs;
    if window > 0 {
        let time_left: i128 = auction.end_time_unix as i128 - now as i128;
        if time_left < window as i128 {
            let extended: i128 = now as i128 + window as i128;
            if extended > i64::MAX as i128 {
                auction.end_time_unix = i64::MAX;
            } else {
                auction.end_time_unix = extended as i64;
            }
        }
    }
    Ok(transfers)
}

/// The error that refuses settlement at time `now`, if any.
pub open spec fn settle_rejection(a: Auction, now: i64) -> Option<AuctionError> {
    if now < a.end_time_unix {
        Some(AuctionError::NotEnded)
    } else if a.highest_bidder is None {
        Some(AuctionError::NoBids)
    } else {
        None
    }
}

/// The record after settlement: the winning bid has left custody.
pub open spec fn after_settle(a: Auction) -> Auction {
    Auction { highest_bidder: None, highest_bid_lamports: 0, ..a }
}

/// Settles an ended auction: the highest bid moves from custody to the
/// merchant, and the record no longer holds a standing bid, so a second
/// settlement finds nothing to pay. On failure nothing changes or moves.
pub fn settle(auction: &mut Auction, now: i64) -> (r: Result<Transfer, AuctionError>)
    ensures
        match r {
            Err(e) => {
                &&& settle_rejection(*old(auction), now) == Some(e)
                &&& *final(auction) == *old(auction)
            },
            Ok(t) => {
                &&& settle_rejection(*old(auction), now) is None
                &&& t == Transfer::Payout {
                    to: old(auction).merchant,
                    amount: old(auction).highest_bid_lamports,
                }
                &&& *final(auction) == after_settle(*old(auction))
            },
        },
        old(auction).wf() ==> final(auction).wf(),
{
    if now < auction.end_time_unix {
        return Err(AuctionError::NotEnded);
    }
    if auction.highest_bidder.is_none() {
        return Err(AuctionError::NoBids);
    }
    let payout = Transfer::Payout { to: auction.merchant, amount: auction.highest_bid_lamports };
    auction.highest_bidder = None;
    auction.highest_bid_lamports = 0;
    Ok(payout)
}

/// Whether `caller` may cancel the auction.
pub open spec fn may_cancel(a: Auction, caller: AccountId) -> bool {
    caller == a.merchant
}

/// Lets the merchant close an auction that never received a bid, at any time.
/// Fails with `Unauthorized` for anyone else, then with `HasBids` when a bid stands.
pub fn cancel_no_bids(auction: &Auction, caller: AccountId) -> (r: Result<(), AuctionError>)
    ensures
        !may_cancel(*auction, caller) ==> r == Err::<(), AuctionError>(AuctionError::Unauthorized),
        may_cancel(*auction, caller) && auction.highest_bidder is Some ==> r == Err::<
            (),
            AuctionError,
        >(AuctionError::HasBids),
        may_cancel(*auction, caller) && auction.highest_bidder is None ==> r == Ok::<
            (),
            AuctionError,
        >(()),
{
    if !(caller == auction.merchant) {
        return Err(AuctionError::Unauthorized);
    }
    if auction.highest_bidder.is_some() {
        return Err(AuctionError::HasBids);
    }
    Ok(())
}

/// One bid submitted to an auction.
pub struct BidAttempt {
    pub bidder: AccountId,
    pub amount: u64,
    pub now: i64,
}

/// The record and the movements after submitting `bids` in order; a refused
/// bid changes nothing and moves nothing.
pub open spec fn bid_run(a: Auction, bids: Seq<BidAttempt>) -> (Auction, Seq<Transfer>)
    decreases bids.len(),
{
    if bids.len() == 0 {
        (a, Seq::empty())
    } else {
        let (prev, ts) = bid_run(a, bids.drop_last());
        let b = bids.last();
        if bid_rejection(prev, b.amount, b.now) is Some {
            (prev, ts)
        } else {
            (after_bid(prev, b.bidder, b.amount, b.now), ts + bid_transfers(prev, b.bidder, b.amount))
        }
    }
}

/// Over any sequence of bids on an auction without bids, custody holds exactly
/// the current highest bid, the current highest bidder is down exactly that
/// bid, and every other account, each outbid bidder included, is even.
pub proof fn lemma_bid_run_custody(a: Auction, bids: Seq<BidAttempt>, who: AccountId)
    requires
        a.highest_bidder is None,
        a.highest_bid_lamports == 0,
    ensures
        ({
            let (end, ts) = bid_run(a, bids);
            &&& end.wf()
            &&& custody_flow(ts) == end.highest_bid_lamports
            &&& party_flow(ts, who) == (if end.highest_bidder == Some(who) {
                -(end.highest_bid_lamports as int)
            } else {
                0
            })
        }),
    decreases bids.len(),
{
    if bids.len() > 0 {
        lemma_bid_run_custody(a, bids.drop_last(), who);
        let (prev, ts) = bid_run(a, bids.drop_last());
        let b = bids.last();
        if bid_rejection(prev, b.amount, b.now) is None {
            let step = bid_transfers(prev, b.bidder, b.amount);
            lemma_flow_concat(ts, step, who);
            match prev.highest_bidder {
                Some(p) => {
                    let back = Transfer::Payout { to: p, amount: prev.highest_bid_lamports };
                    let take = Transfer::Deposit { from: b.bidder, amount: b.amount };
                    assert(step =~= seq![back] + seq![take]);
                    lemma_flow_concat(seq![back], seq![take], who);
                    lemma_flow_one(back, who);
                    lemma_flow_one(take, who);
                },
                None => {
                    lemma_flow_one(Transfer::Deposit { from: b.bidder, amount: b.amount }, who);
                },
            }
        }
    }
}

/// Settling twice never pays twice: after a settlement at `t1`, a settlement
/// at any later `t2` fails with `NoBids`.
pub proof fn lemma_settle_once(a: Auction, t1: i64, t2: i64)
    requires
        settle_rejection(a, t1) is None,
        t1 <= t2,
    ensures
        settle_rejection(after_settle(a), t2) == Some(AuctionError::NoBids),
{
}

} // verus!
