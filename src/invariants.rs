//! Facts that hold across operations.
use crate::auction::with_bid;
use crate::ledger::{
    free_of, ledger_wf, lemma_total_fits, reserve_spec, reserved_of, unreserve_spec, total_of, AccountBalance, MAX_BALANCE,
};
use crate::status::{
    bid_check, bid_escrow, buy_now_check, escrow_matches, ledger_after_bid, ledger_after_buy_now,
    ledger_after_cancel,
    lemma_bid_keeps_escrow,
};
use crate::types::{Auction, Nft, TransactionalStatus};
use vstd::prelude::*;

verus! {

/// An asset is always in exactly one transactional mode.
pub proof fn lemma_status_has_one_mode(s: TransactionalStatus)
    ensures
        (if s is Idle { 1int } else { 0 }) + (if s is BuyNow { 1int } else { 0 }) + (
        if s is InitiatedOfferToMember { 1int } else { 0 }) + (if s is Auction { 1int } else { 0 })
            == 1,
{
}

/// An auction without a bid holds no escrow: the ledger it starts on is its own base.
pub proof fn lemma_new_auction_holds_no_escrow(m: Map<u64, AccountBalance>, a: Auction)
    requires
        a.last_bid is None,
    ensures
        escrow_matches(m, m, a),
{
}

/// Once a bid has been placed, the escrow of the auction is held by the latest bidder's
/// account alone, and it is exactly that bid's amount.
pub proof fn lemma_escrow_is_last_bid(
    base: Map<u64, AccountBalance>,
    m: Map<u64, AccountBalance>,
    a: Auction,
    bidder: u64,
    account: u64,
    amount: u64,
    now: u64,
)
    requires
        escrow_matches(base, m, with_bid(a, bidder, account, amount, now)),
    ensures
        reserved_of(m, account) == reserved_of(base, account) + amount,
        forall|x: u64| x != account ==> #[trigger] reserved_of(m, x) == reserved_of(base, x),
{
    assert(reserved_of(m, account) == reserved_of(base, account) + amount);
    assert forall|x: u64| x != account implies #[trigger] reserved_of(m, x) == reserved_of(base, x) by {
        assert(reserved_of(m, x) == reserved_of(base, x) + bid_escrow(
            with_bid(a, bidder, account, amount, now),
            x,
        ));
    }
}

/// A buyer who can pay the fixed price may buy, and the price moves in full from the
/// buyer's free balance to the seller's; escrow is untouched.
pub proof fn lemma_buy_now_round_trip(
    m: Map<u64, AccountBalance>,
    nft: Nft,
    seller: u64,
    buyer: u64,
)
    requires
        ledger_wf(m),
        nft.transactional_status is BuyNow,
        free_of(m, buyer) >= nft.transactional_status->BuyNow_0,
        seller != buyer,
        total_of(m, seller) + nft.transactional_status->BuyNow_0 <= MAX_BALANCE,
    ensures
        buy_now_check(nft, m, buyer) is Ok,
        ({
            let price = nft.transactional_status->BuyNow_0;
            let after = ledger_after_buy_now(m, seller, buyer, price);
            &&& free_of(after, buyer) == free_of(m, buyer) - price
            &&& free_of(after, seller) == free_of(m, seller) + price
            &&& reserved_of(after, buyer) == reserved_of(m, buyer)
            &&& reserved_of(after, seller) == reserved_of(m, seller)
            &&& forall|x: u64|
                x != buyer && x != seller ==> #[trigger] free_of(after, x) == free_of(m, x)
                    && reserved_of(after, x) == reserved_of(m, x)
        }),
{
    lemma_total_fits(m, buyer);
}

/// One attempt to bid: bidder, paying account, amount and block.
pub type BidAttempt = (u64, u64, u64, u64);

/// The asset and ledger after the attempts in `bids`, in order; a refused attempt changes nothing.
pub open spec fn after_bids(nft: Nft, m: Map<u64, AccountBalance>, bids: Seq<BidAttempt>) -> (
    Nft,
    Map<u64, AccountBalance>,
)
    decreases bids.len(),
{
    if bids.len() == 0 {
        (nft, m)
    } else {
        let prev = after_bids(nft, m, bids.drop_last());
        let b = bids.last();
        if bid_check(prev.0, prev.1, b.1, b.2, b.3) is Ok {
            let a = prev.0.transactional_status->Auction_0;
            (
                Nft {
                    transactional_status: TransactionalStatus::Auction(
                        with_bid(a, b.0, b.1, b.2, b.3),
                    ),
                    ..prev.0
                },
                ledger_after_bid(prev.1, a, b.1, b.2),
            )
        } else {
            prev
        }
    }
}

proof fn lemma_bid_keeps_wf(m: Map<u64, AccountBalance>, a: Auction, account: u64, amount: u64)
    requires
        ledger_wf(m),
        free_of(m, account) >= amount,
    ensures
        ledger_wf(ledger_after_bid(m, a, account, amount)),
{
    lemma_total_fits(m, account);
    let m1 = reserve_spec(m, account, amount as nat);
    assert(ledger_wf(m1));
    if let Some(b) = a.last_bid {
        lemma_total_fits(m1, b.bidder_account_id);
        assert(ledger_wf(unreserve_spec(m1, b.bidder_account_id, b.amount as nat)));
    }
}

/// However many bids are placed on an auction that began without one, every account's escrow
/// is what it held before the auction, plus the standing bid's amount for the account that
/// placed it; every earlier bidder's escrow has been released.
pub proof fn lemma_escrow_over_bids(nft: Nft, m: Map<u64, AccountBalance>, bids: Seq<BidAttempt>)
    requires
        ledger_wf(m),
        nft.transactional_status is Auction,
        nft.transactional_status->Auction_0.last_bid is None,
    ensures
        ({
            let r = after_bids(nft, m, bids);
            &&& ledger_wf(r.1)
            &&& r.0.transactional_status is Auction
            &&& escrow_matches(m, r.1, r.0.transactional_status->Auction_0)
        }),
    decreases bids.len(),
{
    if bids.len() > 0 {
        lemma_escrow_over_bids(nft, m, bids.drop_last());
        let prev = after_bids(nft, m, bids.drop_last());
        let b = bids.last();
        if bid_check(prev.0, prev.1, b.1, b.2, b.3) is Ok {
            let a = prev.0.transactional_status->Auction_0;
            lemma_bid_keeps_wf(prev.1, a, b.1, b.2);
            lemma_bid_keeps_escrow(m, prev.1, a, b.0, b.1, b.2, b.3);
        }
    }
}

/// Cancelling an auction after any bids releases every escrow it took: each account's
/// reserved balance is back to what it was before the auction.
pub proof fn lemma_cancel_after_bids_releases_escrow(
    nft: Nft,
    m: Map<u64, AccountBalance>,
    bids: Seq<BidAttempt>,
)
    requires
        ledger_wf(m),
        nft.transactional_status is Auction,
        nft.transactional_status->Auction_0.last_bid is None,
    ensures
        ({
            let r = after_bids(nft, m, bids);
            forall|x: u64|
                #[trigger] reserved_of(ledger_after_cancel(r.1, r.0.transactional_status), x)
                    == reserved_of(m, x)
        }),
{
    lemma_escrow_over_bids(nft, m, bids);
    let r = after_bids(nft, m, bids);
    let a = r.0.transactional_status->Auction_0;
    assert forall|x: u64|
        #[trigger] reserved_of(ledger_after_cancel(r.1, r.0.transactional_status), x)
            == reserved_of(m, x) by {
        assert(reserved_of(r.1, x) == reserved_of(m, x) + bid_escrow(a, x));
        if let Some(b) = a.last_bid {
            assert(reserved_of(r.1, b.bidder_account_id) == reserved_of(m, b.bidder_account_id)
                + b.amount);
        }
    }
}

} // verus!
