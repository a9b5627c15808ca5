//! Why an operation was refused.
use vstd::prelude::*;

verus! {

#[derive(Clone, Copy, Debug, PartialEq, Eq, Structural)]
pub enum Error {
    AuctionDurationUpperBoundExceeded,
    AuctionDurationLowerBoundExceeded,
    ExtensionPeriodUpperBoundExceeded,
    ExtensionPeriodLowerBoundExceeded,
    BidLockDurationUpperBoundExceeded,
    BidLockDurationLowerBoundExceeded,
    AuctionBidStepUpperBoundExceeded,
    AuctionBidStepLowerBoundExceeded,
    StartingPriceUpperBoundExceeded,
    StartingPriceLowerBoundExceeded,
    RoyaltyUpperBoundExceeded,
    RoyaltyLowerBoundExceeded,
    StartsAtLowerBoundExceeded,
    StartsAtUpperBoundExceeded,
    ExtensionExceedsDuration,
    AuctionCannotBeCompleted,
    AuctionDidNotStart,
    NotInAuctionState,
    LastBidDoesNotExist,
    NotLastBidder,
    BidIsTooLow,
    BidLockNotExpired,
    ActionNotAllowed,
    NFTNotInBuyNowState,
    NoIncomingOffers,
    PendingTransactionalStatusWasAlreadySet,
    InsufficientBalance,
    RateExceedsWhole,
}

} // verus!
