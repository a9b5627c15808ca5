//! The asset record, its transactional status and the auction it may be in.
use vstd::prelude::*;

verus! {

/// Parts of a billion that make a whole.
pub const BILLION: u32 = 1_000_000_000;

/// A rate in parts per billion; parts above a billion count as a billion.
#[derive(Clone, Copy, Debug, PartialEq, Eq, Structural)]
pub struct Perbill {
    pub parts: u32,
}

/// `rate` of `amount`, rounded down.
pub open spec fn portion(rate: Perbill, amount: nat) -> nat {
    (amount * rate.effective()) / (BILLION as nat)
}

impl Perbill {
    /// The parts this rate counts, at most a billion.
    pub open spec fn effective(self) -> nat {
        if self.parts <= BILLION {
            self.parts as nat
        } else {
            BILLION as nat
        }
    }

    /// Whether the rate is at most a whole.
    pub open spec fn is_valid(self) -> bool {
        self.parts <= BILLION
    }

    /// `parts` billionths; above a billion it is a whole.
    pub fn from_parts(parts: u32) -> (r: Perbill)
        ensures
            parts <= BILLION ==> r.parts == parts,
            parts > BILLION ==> r.parts == BILLION,
    {
        if parts <= BILLION {
            Perbill { parts }
        } else {
            Perbill { parts: BILLION }
        }
    }

    /// `percent` hundredths; above a hundred it is a whole.
    pub fn from_percent(percent: u32) -> (r: Perbill)
        ensures
            percent <= 100 ==> r.parts == percent * 10_000_000,
            percent > 100 ==> r.parts == BILLION,
    {
        if percent <= 100 {
            Perbill { parts: percent * 10_000_000 }
        } else {
            Perbill { parts: BILLION }
        }
    }

    /// This rate of `amount`, rounded down; never more than `amount`.
    pub fn mul_floor(self, amount: u64) -> (r: u64)
        ensures
            r as nat == portion(self, amount as nat),
            r <= amount,
    {
        let p: u32 = if self.parts <= BILLION { self.parts } else { BILLION };
        proof {
            lemma_portion_at_most(amount as nat, p as nat);
        }
        ((amount as u128) * (p as u128) / (BILLION as u128)) as u64
    }
}

proof fn lemma_portion_at_most(amount: nat, p: nat)
    requires
        p <= BILLION,
    ensures
        (amount * p) / (BILLION as nat) <= amount,
        amount * p <= amount * (BILLION as nat),
{
    assert(amount * p <= amount * (BILLION as nat)) by (nonlinear_arith)
        requires p <= BILLION;
    assert((amount * p) / (BILLION as nat) <= amount) by (nonlinear_arith)
        requires amount * p <= amount * (BILLION as nat);
}

/// Who holds the asset: the channel it was issued in, or a member.
#[derive(Clone, Copy, Debug, PartialEq, Eq, Structural)]
pub enum NftOwner {
    ChannelOwner,
    Member(u64),
}

/// The standing top bid of an auction, whose amount is held in escrow.
#[derive(Clone, Copy, Debug, PartialEq, Eq, Structural)]
pub struct Bid {
    pub bidder: u64,
    pub bidder_account_id: u64,
    pub amount: u64,
    pub made_at_block: u64,
}

#[derive(Clone, Copy, Debug, PartialEq, Eq, Structural)]
pub struct EnglishAuctionDetails {
    pub extension_period: u64,
    pub auction_duration: u64,
}

#[derive(Clone, Copy, Debug, PartialEq, Eq, Structural)]
pub struct OpenAuctionDetails {
    pub bid_lock_duration: u64,
}

#[derive(Clone, Copy, Debug, PartialEq, Eq, Structural)]
pub enum AuctionType {
    English(EnglishAuctionDetails),
    Open(OpenAuctionDetails),
}

/// What an auction is started with.
#[derive(Clone, Copy, Debug, PartialEq, Eq, Structural)]
pub struct AuctionParams {
    pub auction_type: AuctionType,
    pub starting_price: u64,
    pub minimal_bid_step: u64,
    pub starts_at: Option<u64>,
}

/// A running auction.
#[derive(Clone, Copy, Debug, PartialEq, Eq, Structural)]
pub struct Auction {
    pub starting_price: u64,
    pub minimal_bid_step: u64,
    pub auction_type: AuctionType,
    pub starts_at: u64,
    pub last_bid: Option<Bid>,
}

/// The one transaction the asset is in.
#[derive(Clone, Copy, Debug, PartialEq, Eq, Structural)]
pub enum TransactionalStatus {
    Idle,
    InitiatedOfferToMember(u64, Option<u64>),
    Auction(Auction),
    BuyNow(u64),
}

/// The asset record.
#[derive(Clone, Copy, Debug, PartialEq, Eq, Structural)]
pub struct Nft {
    pub owner: NftOwner,
    pub transactional_status: TransactionalStatus,
    pub creator_royalty: Option<Perbill>,
}

impl Nft {
    /// The same record with no transaction in progress.
    pub fn set_idle_transactional_status(self) -> (r: Nft)
        ensures
            r == (Nft { transactional_status: TransactionalStatus::Idle, ..self }),
    {
        Nft { transactional_status: TransactionalStatus::Idle, ..self }
    }
}

} // verus!
