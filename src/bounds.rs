//! Checks of sale parameters against the configured limits.
use crate::config::Module;
use crate::error::Error;
use crate::types::{AuctionParams, AuctionType, Perbill};
use vstd::prelude::*;

verus! {

/// Above `max` is the upper error, below `min` the lower one; the upper bound is checked first.
pub open spec fn bounds_check(v: nat, min: nat, max: nat, upper: Error, lower: Error) -> Result<
    (),
    Error,
> {
    if v > max {
        Err(upper)
    } else if v < min {
        Err(lower)
    } else {
        Ok(())
    }
}

/// The first of two checks that fails.
pub open spec fn first_failure(a: Result<(), Error>, b: Result<(), Error>) -> Result<(), Error> {
    if a is Err {
        a
    } else {
        b
    }
}

/// A start must lie strictly after `now` and at most `max_delta` after it.
pub open spec fn starts_at_check(starts_at: nat, now: nat, max_delta: nat) -> Result<(), Error> {
    if starts_at <= now {
        Err(Error::StartsAtLowerBoundExceeded)
    } else if starts_at > now + max_delta {
        Err(Error::StartsAtUpperBoundExceeded)
    } else {
        Ok(())
    }
}

impl Module {
    pub open spec fn auction_duration_check(&self, d: u64) -> Result<(), Error> {
        bounds_check(d as nat, self.bounds.min_auction_duration as nat,
            self.bounds.max_auction_duration as nat,
            Error::AuctionDurationUpperBoundExceeded, Error::AuctionDurationLowerBoundExceeded)
    }

    pub open spec fn extension_period_check(&self, e: u64) -> Result<(), Error> {
        bounds_check(e as nat, self.bounds.min_auction_extension_period as nat,
            self.bounds.max_auction_extension_period as nat,
            Error::ExtensionPeriodUpperBoundExceeded, Error::ExtensionPeriodLowerBoundExceeded)
    }

    pub open spec fn bid_lock_duration_check(&self, d: u64) -> Result<(), Error> {
        bounds_check(d as nat, self.bounds.min_bid_lock_duration as nat,
            self.bounds.max_bid_lock_duration as nat,
            Error::BidLockDurationUpperBoundExceeded, Error::BidLockDurationLowerBoundExceeded)
    }

    pub open spec fn bid_step_check(&self, s: u64) -> Result<(), Error> {
        bounds_check(s as nat, self.bounds.min_bid_step as nat, self.bounds.max_bid_step as nat,
            Error::AuctionBidStepUpperBoundExceeded, Error::AuctionBidStepLowerBoundExceeded)
    }

    pub open spec fn starting_price_check(&self, p: u64) -> Result<(), Error> {
        bounds_check(p as nat, self.bounds.min_starting_price as nat,
            self.bounds.max_starting_price as nat,
            Error::StartingPriceUpperBoundExceeded, Error::StartingPriceLowerBoundExceeded)
    }

    pub open spec fn royalty_check(&self, r: Perbill) -> Result<(), Error> {
        bounds_check(r.parts as nat, self.bounds.min_creator_royalty.parts as nat,
            self.bounds.max_creator_royalty.parts as nat,
            Error::RoyaltyUpperBoundExceeded, Error::RoyaltyLowerBoundExceeded)
    }

    /// The checks of an auction's parameters at block `now`, in order; the first failure counts.
    pub open spec fn auction_params_check(&self, p: AuctionParams, now: u64) -> Result<(), Error> {
        let by_type = match p.auction_type {
            AuctionType::English(d) => first_failure(
                first_failure(
                    self.auction_duration_check(d.auction_duration),
                    self.extension_period_check(d.extension_period),
                ),
                if d.auction_duration >= d.extension_period {
                    Ok(())
                } else {
                    Err(Error::ExtensionExceedsDuration)
                },
            ),
            AuctionType::Open(d) => self.bid_lock_duration_check(d.bid_lock_duration),
        };
        let start = match p.starts_at {
            Some(s) => starts_at_check(s as nat, now as nat,
                self.bounds.auction_starts_at_max_delta as nat),
            None => Ok(()),
        };
        first_failure(
            first_failure(
                first_failure(by_type, self.starting_price_check(p.starting_price)),
                self.bid_step_check(p.minimal_bid_step),
            ),
            start,
        )
    }

    pub fn ensure_auction_duration_bounds_satisfied(&self, duration: u64) -> (r: Result<(), Error>)
        ensures
            r == self.auction_duration_check(duration),
    {
        if duration > self.bounds.max_auction_duration {
            Err(Error::AuctionDurationUpperBoundExceeded)
        } else if duration < self.bounds.min_auction_duration {
            Err(Error::AuctionDurationLowerBoundExceeded)
        } else {
            Ok(())
        }
    }

    pub fn ensure_extension_period_bounds_satisfied(&self, extension_period: u64) -> (r: Result<
        (),
        Error,
    >)
        ensures
            r == self.extension_period_check(extension_period),
    {
        if extension_period > self.bounds.max_auction_extension_period {
            Err(Error::ExtensionPeriodUpperBoundExceeded)
        } else if extension_period < self.bounds.min_auction_extension_period {
            Err(Error::ExtensionPeriodLowerBoundExceeded)
        } else {
            Ok(())
        }
    }

    pub fn ensure_bid_lock_duration_bounds_satisfied(&self, bid_lock_duration: u64) -> (r: Result<
        (),
        Error,
    >)
        ensures
            r == self.bid_lock_duration_check(bid_lock_duration),
    {
        if bid_lock_duration > self.bounds.max_bid_lock_duration {
            Err(Error::BidLockDurationUpperBoundExceeded)
        } else if bid_lock_duration < self.bounds.min_bid_lock_duration {
            Err(Error::BidLockDurationLowerBoundExceeded)
        } else {
            Ok(())
        }
    }

    pub fn ensure_bid_step_bounds_satisfied(&self, bid_step: u64) -> (r: Result<(), Error>)
        ensures
            r == self.bid_step_check(bid_step),
    {
        if bid_step > self.bounds.max_bid_step {
            Err(Error::AuctionBidStepUpperBoundExceeded)
        } else if bid_step < self.bounds.min_bid_step {
            Err(Error::AuctionBidStepLowerBoundExceeded)
        } else {
            Ok(())
        }
    }

    /// Upper bound first, then lower, as for every other limit.
    pub fn ensure_starting_price_bounds_satisfied(&self, starting_price: u64) -> (r: Result<
        (),
        Error,
    >)
        ensures
            r == self.starting_price_check(starting_price),
    {
        if starting_price > self.bounds.max_starting_price {
            Err(Error::StartingPriceUpperBoundExceeded)
        } else if starting_price < self.bounds.min_starting_price {
            Err(Error::StartingPriceLowerBoundExceeded)
        } else {
            Ok(())
        }
    }

    pub fn ensure_royalty_bounds_satisfied(&self, royalty: Perbill) -> (r: Result<(), Error>)
        ensures
            r == self.royalty_check(royalty),
    {
        if royalty.parts > self.bounds.max_creator_royalty.parts {
            Err(Error::RoyaltyUpperBoundExceeded)
        } else if royalty.parts < self.bounds.min_creator_royalty.parts {
            Err(Error::RoyaltyLowerBoundExceeded)
        } else {
            Ok(())
        }
    }

    pub fn ensure_starts_at_delta_bounds_satisfied(&self, starts_at: u64, now: u64) -> (r: Result<
        (),
        Error,
    >)
        ensures
            r == starts_at_check(starts_at as nat, now as nat,
                self.bounds.auction_starts_at_max_delta as nat),
    {
        if starts_at <= now {
            Err(Error::StartsAtLowerBoundExceeded)
        } else if starts_at - now > self.bounds.auction_starts_at_max_delta {
            Err(Error::StartsAtUpperBoundExceeded)
        } else {
            Ok(())
        }
    }

    /// Checks an auction's parameters at block `now`.
    pub fn validate_auction_params(&self, auction_params: &AuctionParams, now: u64) -> (r: Result<
        (),
        Error,
    >)
        ensures
            r == self.auction_params_check(*auction_params, now),
    {
        match auction_params.auction_type {
            AuctionType::English(d) => {
                self.ensure_auction_duration_bounds_satisfied(d.auction_duration)?;
                self.ensure_extension_period_bounds_satisfied(d.extension_period)?;
                if d.auction_duration < d.extension_period {
                    return Err(Error::ExtensionExceedsDuration);
                }
            },
            AuctionType::Open(d) => {
                self.ensure_bid_lock_duration_bounds_satisfied(d.bid_lock_duration)?;
            },
        }
        self.ensure_starting_price_bounds_satisfied(auction_params.starting_price)?;
        self.ensure_bid_step_bounds_satisfied(auction_params.minimal_bid_step)?;
        if let Some(starts_at) = auction_params.starts_at {
            self.ensure_starts_at_delta_bounds_satisfied(starts_at, now)?;
        }
        Ok(())
    }
}

} // verus!
