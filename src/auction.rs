//! The rules of a running auction: when it may end, what a bid must reach, and what a
//! late bid does to an English auction's end.
use crate::config::Module;
use crate::error::Error;
use crate::types::{Auction, AuctionType, Bid, EnglishAuctionDetails};
use vstd::prelude::*;

verus! {

pub const MAX_BLOCK: u64 = 0xffff_ffff_ffff_ffff;

/// An English auction may end once its duration has passed since its start; an open one at any time.
pub open spec fn completable(a: Auction, now: u64) -> bool {
    match a.auction_type {
        AuctionType::English(d) => now >= a.starts_at + d.auction_duration,
        AuctionType::Open(_) => true,
    }
}

/// The least amount the next bid may offer.
pub open spec fn min_next_bid(a: Auction) -> nat {
    match a.last_bid {
        Some(b) => (b.amount + a.minimal_bid_step) as nat,
        None => a.starting_price as nat,
    }
}

/// A bid at `now` moves an English auction's end to at least `extension_period` after `now`
/// (as far as a block number reaches); an open auction is unchanged.
pub open spec fn extended_type(t: AuctionType, starts_at: u64, now: u64) -> AuctionType {
    match t {
        AuctionType::English(d) => {
            let wanted = (now - starts_at) + d.extension_period;
            let reach = if wanted <= MAX_BLOCK { wanted } else { MAX_BLOCK as int };
            if reach > d.auction_duration {
                AuctionType::English(
                    EnglishAuctionDetails { auction_duration: reach as u64, ..d },
                )
            } else {
                t
            }
        },
        AuctionType::Open(_) => t,
    }
}

/// The auction after a bid of `amount` by `bidder`, paid from `account`, at block `now`.
pub open spec fn with_bid(a: Auction, bidder: u64, account: u64, amount: u64, now: u64) -> Auction {
    Auction {
        auction_type: extended_type(a.auction_type, a.starts_at, now),
        last_bid: Some(
            Bid { bidder, bidder_account_id: account, amount, made_at_block: now },
        ),
        ..a
    }
}

impl Auction {
    /// Fails unless `member` holds the standing bid.
    pub fn ensure_caller_is_last_bidder(&self, member: u64) -> (r: Result<(), Error>)
        ensures
            r == (if self.last_bid is Some && self.last_bid->0.bidder == member {
                Ok(())
            } else {
                Err(Error::NotLastBidder)
            }),
    {
        match self.last_bid {
            Some(b) if b.bidder == member => Ok(()),
            _ => Err(Error::NotLastBidder),
        }
    }

    /// Whether `amount` reaches the least the next bid may offer.
    pub fn bid_is_enough(&self, amount: u64) -> (r: bool)
        ensures
            r == (amount >= min_next_bid(*self)),
    {
        match self.last_bid {
            Some(b) => b.amount as u128 + self.minimal_bid_step as u128 <= amount as u128,
            None => amount >= self.starting_price,
        }
    }

    /// Installs a new standing bid and, for an English auction, pushes its end out if the bid
    /// comes within the extension period of it.
    pub fn with_new_bid(self, bidder: u64, account: u64, amount: u64, now: u64) -> (r: Auction)
        requires
            now >= self.starts_at,
        ensures
            r == with_bid(self, bidder, account, amount, now),
    {
        let auction_type = match self.auction_type {
            AuctionType::English(d) => {
                let elapsed = now - self.starts_at;
                let reach = if elapsed <= MAX_BLOCK - d.extension_period {
                    elapsed + d.extension_period
                } else {
                    MAX_BLOCK
                };
                if reach > d.auction_duration {
                    AuctionType::English(EnglishAuctionDetails { auction_duration: reach, ..d })
                } else {
                    self.auction_type
                }
            },
            AuctionType::Open(_) => self.auction_type,
        };
        Auction {
            auction_type,
            last_bid: Some(
                Bid { bidder, bidder_account_id: account, amount, made_at_block: now },
            ),
            ..self
        }
    }
}

impl Module {
    /// Fails unless the auction may end at block `now`.
    pub fn ensure_auction_can_be_completed(auction: &Auction, now: u64) -> (r: Result<(), Error>)
        ensures
            r == (if completable(*auction, now) {
                Ok(())
            } else {
                Err(Error::AuctionCannotBeCompleted)
            }),
    {
        let can_be_completed = match auction.auction_type {
            AuctionType::English(d) => now >= auction.starts_at && now - auction.starts_at
                >= d.auction_duration,
            AuctionType::Open(_) => true,
        };
        if can_be_completed {
            Ok(())
        } else {
            Err(Error::AuctionCannotBeCompleted)
        }
    }
}

} // verus!
