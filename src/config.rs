//! The engine's fixed configuration.
use crate::error::Error;
use crate::types::{Perbill, BILLION};
use vstd::prelude::*;

verus! {

/// The configured limits on what a sale may be started with; each pair is (min, max).
#[derive(Clone, Copy, Debug, PartialEq, Eq, Structural)]
pub struct BoundsPolicy {
    pub min_auction_duration: u64,
    pub max_auction_duration: u64,
    pub min_auction_extension_period: u64,
    pub max_auction_extension_period: u64,
    pub min_bid_lock_duration: u64,
    pub max_bid_lock_duration: u64,
    pub min_bid_step: u64,
    pub max_bid_step: u64,
    pub min_starting_price: u64,
    pub max_starting_price: u64,
    pub min_creator_royalty: Perbill,
    pub max_creator_royalty: Perbill,
    pub auction_starts_at_max_delta: u64,
}

/// The engine: its limits, the fee it keeps on each settled sale and where that fee goes.
#[derive(Clone, Copy, Debug, PartialEq, Eq, Structural)]
pub struct Module {
    pub bounds: BoundsPolicy,
    pub platform_fee_percentage: Perbill,
    pub treasury_account_id: u64,
}

impl Module {
    /// The fee rate and the royalty bounds are each at most a whole.
    pub open spec fn wf(&self) -> bool {
        &&& self.platform_fee_percentage.is_valid()
        &&& self.bounds.min_creator_royalty.is_valid()
        &&& self.bounds.max_creator_royalty.is_valid()
    }

    /// An engine with these limits, fee rate and treasury; refused where a rate exceeds a whole.
    pub fn new(bounds: BoundsPolicy, platform_fee_percentage: Perbill, treasury_account_id: u64) -> (r: Result<Module, Error>)
        ensures
            ({
                let m = Module { bounds, platform_fee_percentage, treasury_account_id };
                &&& m.wf() ==> r == Ok::<Module, Error>(m)
                &&& !m.wf() ==> r == Err::<Module, Error>(Error::RateExceedsWhole)
            }),
    {
        if platform_fee_percentage.parts > BILLION || bounds.min_creator_royalty.parts > BILLION
            || bounds.max_creator_royalty.parts > BILLION {
            return Err(Error::RateExceedsWhole);
        }
        Ok(Module { bounds, platform_fee_percentage, treasury_account_id })
    }
}

} // verus!
