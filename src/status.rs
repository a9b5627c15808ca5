//! The asset's transactions: starting one, bidding, buying, accepting an offer, completing an
//! auction and cancelling. Each operation either fails with nothing changed or applies whole.
use crate::auction::{completable, min_next_bid, with_bid};
use crate::config::Module;
use crate::error::Error;
use crate::ledger::{
    deposit_spec, free_of, ledger_wf, reserve_spec, lemma_total_fits, reserved_of, slash_spec, unreserve_spec, AccountBalance,
    Ledger,
};
use crate::settlement::payment_spec;
use crate::types::{Auction, AuctionParams, AuctionType, Bid, Nft, NftOwner, TransactionalStatus};
use vstd::prelude::*;

verus! {

/// What the standing bid of `auction` holds in escrow from account `a`.
pub open spec fn bid_escrow(auction: Auction, a: u64) -> nat {
    match auction.last_bid {
        Some(b) => if b.bidder_account_id == a {
            b.amount as nat
        } else {
            0
        },
        None => 0,
    }
}

/// Every account's escrow in `m` is what it held in `base` plus what the standing bid of
/// `auction` holds from it, and nothing else.
pub open spec fn escrow_matches(
    base: Map<u64, AccountBalance>,
    m: Map<u64, AccountBalance>,
    auction: Auction,
) -> bool {
    forall|a: u64| #[trigger] reserved_of(m, a) == reserved_of(base, a) + bid_escrow(auction, a)
}

/// The escrow that an asset's status holds: only an auction with a standing bid holds any.
pub open spec fn status_escrow_matches(
    base: Map<u64, AccountBalance>,
    m: Map<u64, AccountBalance>,
    s: TransactionalStatus,
) -> bool {
    match s {
        TransactionalStatus::Auction(a) => escrow_matches(base, m, a),
        _ => forall|a: u64| #[trigger] reserved_of(m, a) == reserved_of(base, a),
    }
}

/// Which check refuses a bid, in the order they are made.
pub open spec fn bid_check(
    nft: Nft,
    m: Map<u64, AccountBalance>,
    account: u64,
    amount: u64,
    now: u64,
) -> Result<(), Error> {
    match nft.transactional_status {
        TransactionalStatus::Auction(a) => if now < a.starts_at {
            Err(Error::AuctionDidNotStart)
        } else if free_of(m, account) < amount {
            Err(Error::InsufficientBalance)
        } else if amount < min_next_bid(a) {
            Err(Error::BidIsTooLow)
        } else {
            Ok(())
        },
        _ => Err(Error::NotInAuctionState),
    }
}

/// The ledger after a bid: the new amount is reserved, then the bid it replaces is released.
pub open spec fn ledger_after_bid(
    m: Map<u64, AccountBalance>,
    a: Auction,
    account: u64,
    amount: u64,
) -> Map<u64, AccountBalance> {
    let m1 = reserve_spec(m, account, amount as nat);
    match a.last_bid {
        Some(b) => unreserve_spec(m1, b.bidder_account_id, b.amount as nat),
        None => m1,
    }
}

/// The ledger after a cancel: a standing bid's escrow is released in full.
pub open spec fn ledger_after_cancel(m: Map<u64, AccountBalance>, s: TransactionalStatus) -> Map<
    u64,
    AccountBalance,
> {
    match s {
        TransactionalStatus::Auction(a) => match a.last_bid {
            Some(b) => unreserve_spec(m, b.bidder_account_id, b.amount as nat),
            None => m,
        },
        _ => m,
    }
}

/// The ledger after a fixed-price sale: the price leaves the buyer's free balance and reaches
/// the seller's.
pub open spec fn ledger_after_buy_now(
    m: Map<u64, AccountBalance>,
    seller: u64,
    buyer: u64,
    price: u64,
) -> Map<u64, AccountBalance> {
    deposit_spec(slash_spec(m, buyer, price as nat), seller, price as nat)
}

/// Which check refuses a purchase at the fixed price.
pub open spec fn buy_now_check(nft: Nft, m: Map<u64, AccountBalance>, buyer: u64) -> Result<
    (),
    Error,
> {
    match nft.transactional_status {
        TransactionalStatus::BuyNow(price) => if free_of(m, buyer) >= price {
            Ok(())
        } else {
            Err(Error::InsufficientBalance)
        },
        _ => Err(Error::NFTNotInBuyNowState),
    }
}

/// Which check refuses the acceptance of an offer by `member`.
pub open spec fn offer_check(
    nft: Nft,
    m: Map<u64, AccountBalance>,
    member: u64,
    account: u64,
) -> Result<(), Error> {
    match nft.transactional_status {
        TransactionalStatus::InitiatedOfferToMember(to, price) => if to != member {
            Err(Error::NoIncomingOffers)
        } else if price is Some && free_of(m, account) < price->0 {
            Err(Error::InsufficientBalance)
        } else {
            Ok(())
        },
        _ => Err(Error::NoIncomingOffers),
    }
}

/// Which check refuses the withdrawal of a bid by `member` at block `now`.
pub open spec fn cancel_bid_check(nft: Nft, member: u64, now: u64) -> Result<(), Error> {
    match nft.transactional_status {
        TransactionalStatus::Auction(a) => if !(a.last_bid is Some && a.last_bid->0.bidder
            == member) {
            Err(Error::NotLastBidder)
        } else {
            match a.auction_type {
                AuctionType::Open(d) => if now < a.last_bid->0.made_at_block
                    + d.bid_lock_duration {
                    Err(Error::BidLockNotExpired)
                } else {
                    Ok(())
                },
                AuctionType::English(_) => Err(Error::ActionNotAllowed),
            }
        },
        _ => Err(Error::NotInAuctionState),
    }
}

/// Which check refuses the completion of an auction at block `now`.
pub open spec fn settle_check(nft: Nft, now: u64) -> Result<(), Error> {
    match nft.transactional_status {
        TransactionalStatus::Auction(a) => if !completable(a, now) {
            Err(Error::AuctionCannotBeCompleted)
        } else if a.last_bid is None {
            Err(Error::LastBidDoesNotExist)
        } else {
            Ok(())
        },
        _ => Err(Error::NotInAuctionState),
    }
}

/// A bid keeps the escrow of an auction in step with its standing bid.
pub proof fn lemma_bid_keeps_escrow(
    base: Map<u64, AccountBalance>,
    m: Map<u64, AccountBalance>,
    a: Auction,
    bidder: u64,
    account: u64,
    amount: u64,
    now: u64,
)
    requires
        escrow_matches(base, m, a),
        free_of(m, account) >= amount,
        ledger_wf(m),
    ensures
        escrow_matches(base, ledger_after_bid(m, a, account, amount), with_bid(a, bidder, account, amount, now)),
{
    let m2 = ledger_after_bid(m, a, account, amount);
    let a2 = with_bid(a, bidder, account, amount, now);
    assert forall|x: u64| #[trigger] reserved_of(m2, x) == reserved_of(base, x) + bid_escrow(a2, x) by {
        assert(reserved_of(m, x) == reserved_of(base, x) + bid_escrow(a, x));
        let m1 = reserve_spec(m, account, amount as nat);
        lemma_total_fits(m, account);
        if let Some(b) = a.last_bid {
            assert(reserved_of(m, b.bidder_account_id) == reserved_of(base, b.bidder_account_id) + b.amount);
            assert(reserved_of(m1, b.bidder_account_id) >= b.amount);
        }
    }
}

impl Module {
    /// Fails unless `participant` can move `bid` into escrow.
    pub fn ensure_has_sufficient_balance(ledger: &Ledger, participant: u64, bid: u64) -> (r: Result<
        (),
        Error,
    >)
        ensures
            r == (if free_of(ledger@, participant) >= bid {
                Ok(())
            } else {
                Err(Error::InsufficientBalance)
            }),
    {
        if ledger.can_reserve(participant, bid) {
            Ok(())
        } else {
            Err(Error::InsufficientBalance)
        }
    }

    /// Fails unless `participant` can spend `balance` from its free funds.
    pub fn ensure_sufficient_free_balance(ledger: &Ledger, participant: u64, balance: u64) -> (r:
        Result<(), Error>)
        ensures
            r == (if free_of(ledger@, participant) >= balance {
                Ok(())
            } else {
                Err(Error::InsufficientBalance)
            }),
    {
        if ledger.can_slash(participant, balance) {
            Ok(())
        } else {
            Err(Error::InsufficientBalance)
        }
    }

    /// Fails unless the asset is for sale at a fixed price that `participant` can pay.
    pub fn ensure_can_buy_now(ledger: &Ledger, nft: &Nft, participant: u64) -> (r: Result<
        (),
        Error,
    >)
        ensures
            r == buy_now_check(*nft, ledger@, participant),
    {
        if let TransactionalStatus::BuyNow(price) = nft.transactional_status {
            Self::ensure_sufficient_free_balance(ledger, participant, price)
        } else {
            Err(Error::NFTNotInBuyNowState)
        }
    }

    /// Fails unless the asset is offered to `participant` at a price it can pay.
    pub fn ensure_new_pending_offer_available_to_proceed(
        ledger: &Ledger,
        nft: &Nft,
        participant: u64,
        participant_account_id: u64,
    ) -> (r: Result<(), Error>)
        ensures
            r == offer_check(*nft, ledger@, participant, participant_account_id),
    {
        match nft.transactional_status {
            TransactionalStatus::InitiatedOfferToMember(to, price) if participant == to => {
                if let Some(price) = price {
                    Self::ensure_sufficient_free_balance(ledger, participant_account_id, price)?;
                }
                Ok(())
            },
            _ => Err(Error::NoIncomingOffers),
        }
    }

    /// Ends whatever transaction the asset is in, releasing a standing bid's escrow.
    /// On an idle asset nothing changes.
    pub fn cancel_transaction(ledger: &mut Ledger, nft: Nft) -> (r: Nft)
        requires
            old(ledger).wf(),
        ensures
            final(ledger).wf(),
            r == (Nft { transactional_status: TransactionalStatus::Idle, ..nft }),
            final(ledger)@ == ledger_after_cancel(old(ledger)@, nft.transactional_status),
            forall|base: Map<u64, AccountBalance>|
                #[trigger] status_escrow_matches(base, old(ledger)@, nft.transactional_status)
                    ==> forall|a: u64| #[trigger] reserved_of(final(ledger)@, a) == reserved_of(base, a),
    {
        let ghost m0 = ledger@;
        if let TransactionalStatus::Auction(auction) = nft.transactional_status {
            if let Some(last_bid) = auction.last_bid {
                ledger.unreserve(last_bid.bidder_account_id, last_bid.amount);
                proof {
                    assert forall|base: Map<u64, AccountBalance>|
                        #[trigger] status_escrow_matches(base, m0, nft.transactional_status)
                        implies forall|a: u64| #[trigger] reserved_of(ledger@, a) == reserved_of(base, a) by {
                        assert(reserved_of(m0, last_bid.bidder_account_id) == reserved_of(base, last_bid.bidder_account_id) + last_bid.amount);
                        assert forall|a: u64| #[trigger] reserved_of(ledger@, a) == reserved_of(base, a) by {
                            assert(reserved_of(m0, a) == reserved_of(base, a) + bid_escrow(auction, a));
                        }
                    }
                }
            } else {
                proof {
                    assert forall|base: Map<u64, AccountBalance>|
                        #[trigger] status_escrow_matches(base, m0, nft.transactional_status)
                        implies forall|a: u64| #[trigger] reserved_of(ledger@, a) == reserved_of(base, a) by {
                        assert forall|a: u64| #[trigger] reserved_of(ledger@, a) == reserved_of(base, a) by {
                            assert(reserved_of(m0, a) == reserved_of(base, a) + bid_escrow(auction, a));
                        }
                    }
                }
            }
        }
        nft.set_idle_transactional_status()
    }

    /// Sells the asset at its fixed price: the buyer pays the seller in full and becomes owner.
    /// Outside a fixed-price sale nothing changes.
    pub fn buy_now(
        ledger: &mut Ledger,
        nft: Nft,
        owner_account_id: u64,
        new_owner_account_id: u64,
        new_owner: u64,
    ) -> (r: Nft)
        requires
            old(ledger).wf(),
            match nft.transactional_status {
                TransactionalStatus::BuyNow(price) => free_of(old(ledger)@, new_owner_account_id)
                    >= price,
                _ => true,
            },
        ensures
            final(ledger).wf(),
            match nft.transactional_status {
                TransactionalStatus::BuyNow(price) => {
                    &&& r == (Nft {
                        owner: NftOwner::Member(new_owner),
                        transactional_status: TransactionalStatus::Idle,
                        ..nft
                    })
                    &&& final(ledger)@ == ledger_after_buy_now(
                        old(ledger)@,
                        owner_account_id,
                        new_owner_account_id,
                        price,
                    )
                },
                _ => r == nft && final(ledger)@ == old(ledger)@,
            },
    {
        let mut nft = nft;
        if let TransactionalStatus::BuyNow(price) = nft.transactional_status {
            ledger.slash(new_owner_account_id, price);
            ledger.deposit_creating(owner_account_id, price);
            nft.owner = NftOwner::Member(new_owner);
            nft.set_idle_transactional_status()
        } else {
            nft
        }
    }

    /// Completes an offer: the member it was made to pays its price, if any, and becomes owner.
    /// The price is escrowed and then settled with royalty and fee. Outside an offer nothing
    /// changes.
    pub fn complete_nft_offer(
        &self,
        ledger: &mut Ledger,
        nft: Nft,
        owner_account_id: u64,
        new_owner_account_id: u64,
        creator_reward_account_id: Option<u64>,
    ) -> (r: Nft)
        requires
            old(ledger).wf(),
            match nft.transactional_status {
                TransactionalStatus::InitiatedOfferToMember(_, Some(price)) => free_of(
                    old(ledger)@,
                    new_owner_account_id,
                ) >= price,
                _ => true,
            },
        ensures
            final(ledger).wf(),
            match nft.transactional_status {
                TransactionalStatus::InitiatedOfferToMember(to, price) => {
                    &&& r == (Nft {
                        owner: NftOwner::Member(to),
                        transactional_status: TransactionalStatus::Idle,
                        ..nft
                    })
                    &&& final(ledger)@ == match price {
                        Some(p) => payment_spec(
                            reserve_spec(old(ledger)@, new_owner_account_id, p as nat),
                            self.platform_fee_percentage,
                            self.treasury_account_id,
                            nft.creator_royalty,
                            p as nat,
                            new_owner_account_id,
                            Some(owner_account_id),
                            creator_reward_account_id,
                        ),
                        None => old(ledger)@,
                    }
                },
                _ => r == nft && final(ledger)@ == old(ledger)@,
            },
    {
        let mut nft = nft;
        if let TransactionalStatus::InitiatedOfferToMember(to, price) = nft.transactional_status {
            if let Some(price) = price {
                ledger.reserve(new_owner_account_id, price);
                self.complete_payment(
                    ledger,
                    nft.creator_royalty,
                    price,
                    new_owner_account_id,
                    Some(owner_account_id),
                    creator_reward_account_id,
                );
            }
            nft.owner = NftOwner::Member(to);
            nft.set_idle_transactional_status()
        } else {
            nft
        }
    }

    /// Completes an auction with its winning bid: the escrowed amount is settled with royalty
    /// and fee, and the bidder becomes owner.
    pub fn complete_auction(
        &self,
        ledger: &mut Ledger,
        nft: Nft,
        last_bid: Bid,
        owner_account_id: Option<u64>,
        creator_reward_account_id: Option<u64>,
    ) -> (r: Nft)
        requires
            old(ledger).wf(),
        ensures
            final(ledger).wf(),
            r == (Nft {
                owner: NftOwner::Member(last_bid.bidder),
                transactional_status: TransactionalStatus::Idle,
                ..nft
            }),
            final(ledger)@ == payment_spec(
                old(ledger)@,
                self.platform_fee_percentage,
                self.treasury_account_id,
                nft.creator_royalty,
                last_bid.amount as nat,
                last_bid.bidder_account_id,
                owner_account_id,
                creator_reward_account_id,
            ),
    {
        let mut nft = nft;
        self.complete_payment(
            ledger,
            nft.creator_royalty,
            last_bid.amount,
            last_bid.bidder_account_id,
            owner_account_id,
            creator_reward_account_id,
        );
        nft.owner = NftOwner::Member(last_bid.bidder);
        nft.transactional_status = TransactionalStatus::Idle;
        nft
    }

    /// Puts an idle asset up for sale at `price`.
    pub fn start_buy_now(nft: &mut Nft, price: u64) -> (r: Result<(), Error>)
        ensures
            old(nft).transactional_status is Idle ==> r is Ok && *final(nft) == (Nft {
                transactional_status: TransactionalStatus::BuyNow(price),
                ..*old(nft)
            }),
            !(old(nft).transactional_status is Idle) ==> r == Err::<(), Error>(
                Error::PendingTransactionalStatusWasAlreadySet,
            ) && *final(nft) == *old(nft),
    {
        if let TransactionalStatus::Idle = nft.transactional_status {
            nft.transactional_status = TransactionalStatus::BuyNow(price);
            Ok(())
        } else {
            Err(Error::PendingTransactionalStatusWasAlreadySet)
        }
    }

    /// Offers an idle asset to member `to`, for `price` or for nothing.
    pub fn start_offer(nft: &mut Nft, to: u64, price: Option<u64>) -> (r: Result<(), Error>)
        ensures
            old(nft).transactional_status is Idle ==> r is Ok && *final(nft) == (Nft {
                transactional_status: TransactionalStatus::InitiatedOfferToMember(to, price),
                ..*old(nft)
            }),
            !(old(nft).transactional_status is Idle) ==> r == Err::<(), Error>(
                Error::PendingTransactionalStatusWasAlreadySet,
            ) && *final(nft) == *old(nft),
    {
        if let TransactionalStatus::Idle = nft.transactional_status {
            nft.transactional_status = TransactionalStatus::InitiatedOfferToMember(to, price);
            Ok(())
        } else {
            Err(Error::PendingTransactionalStatusWasAlreadySet)
        }
    }

    /// Puts an idle asset up for auction at block `now`, starting at `starts_at` or at once.
    pub fn start_auction(&self, nft: &mut Nft, auction_params: &AuctionParams, now: u64) -> (r:
        Result<(), Error>)
        ensures
            !(old(nft).transactional_status is Idle) ==> r == Err::<(), Error>(
                Error::PendingTransactionalStatusWasAlreadySet,
            ),
            old(nft).transactional_status is Idle ==> r == self.auction_params_check(
                *auction_params,
                now,
            ),
            r is Err ==> *final(nft) == *old(nft),
            r is Ok ==> *final(nft) == (Nft {
                transactional_status: TransactionalStatus::Auction(
                    Auction {
                        starting_price: auction_params.starting_price,
                        minimal_bid_step: auction_params.minimal_bid_step,
                        auction_type: auction_params.auction_type,
                        starts_at: match auction_params.starts_at {
                            Some(s) => s,
                            None => now,
                        },
                        last_bid: None,
                    },
                ),
                ..*old(nft)
            }),
    {
        if let TransactionalStatus::Idle = nft.transactional_status {
            self.validate_auction_params(auction_params, now)?;
            let starts_at = match auction_params.starts_at {
                Some(s) => s,
                None => now,
            };
            nft.transactional_status = TransactionalStatus::Auction(
                Auction {
                    starting_price: auction_params.starting_price,
                    minimal_bid_step: auction_params.minimal_bid_step,
                    auction_type: auction_params.auction_type,
                    starts_at,
                    last_bid: None,
                },
            );
            Ok(())
        } else {
            Err(Error::PendingTransactionalStatusWasAlreadySet)
        }
    }

    /// Bids `amount` from `bidder_account_id` at block `now`. The amount goes into escrow and
    /// the bid it outbids is released; an English auction's end moves out on a late bid.
    pub fn place_bid(
        ledger: &mut Ledger,
        nft: &mut Nft,
        bidder: u64,
        bidder_account_id: u64,
        amount: u64,
        now: u64,
    ) -> (r: Result<(), Error>)
        requires
            old(ledger).wf(),
        ensures
            final(ledger).wf(),
            r == bid_check(*old(nft), old(ledger)@, bidder_account_id, amount, now),
            r is Err ==> *final(nft) == *old(nft) && final(ledger)@ == old(ledger)@,
            r is Ok ==> {
                let a = old(nft).transactional_status->Auction_0;
                &&& *final(nft) == (Nft {
                    transactional_status: TransactionalStatus::Auction(
                        with_bid(a, bidder, bidder_account_id, amount, now),
                    ),
                    ..*old(nft)
                })
                &&& final(ledger)@ == ledger_after_bid(old(ledger)@, a, bidder_account_id, amount)
            },
            forall|base: Map<u64, AccountBalance>|
                #[trigger] status_escrow_matches(base, old(ledger)@, old(nft).transactional_status)
                    ==> status_escrow_matches(base, final(ledger)@, final(nft).transactional_status),
    {
        let ghost m0 = ledger@;
        let auction = match nft.transactional_status {
            TransactionalStatus::Auction(a) => a,
            _ => return Err(Error::NotInAuctionState),
        };
        if now < auction.starts_at {
            return Err(Error::AuctionDidNotStart);
        }
        Self::ensure_has_sufficient_balance(ledger, bidder_account_id, amount)?;
        if !auction.bid_is_enough(amount) {
            return Err(Error::BidIsTooLow);
        }
        ledger.reserve(bidder_account_id, amount);
        if let Some(prev) = auction.last_bid {
            ledger.unreserve(prev.bidder_account_id, prev.amount);
        }
        nft.transactional_status = TransactionalStatus::Auction(
            auction.with_new_bid(bidder, bidder_account_id, amount, now),
        );
        proof {
            assert forall|base: Map<u64, AccountBalance>|
                #[trigger] status_escrow_matches(base, m0, TransactionalStatus::Auction(auction))
                implies status_escrow_matches(base, ledger@, nft.transactional_status) by {
                lemma_bid_keeps_escrow(base, m0, auction, bidder, bidder_account_id, amount, now);
            }
        }
        Ok(())
    }

    /// Withdraws the standing bid of an open auction once its lock has passed, releasing its
    /// escrow. A bid in an English auction cannot be withdrawn.
    pub fn cancel_bid(ledger: &mut Ledger, nft: &mut Nft, member: u64, now: u64) -> (r: Result<
        (),
        Error,
    >)
        requires
            old(ledger).wf(),
        ensures
            final(ledger).wf(),
            r == cancel_bid_check(*old(nft), member, now),
            r is Err ==> *final(nft) == *old(nft) && final(ledger)@ == old(ledger)@,
            r is Ok ==> {
                let a = old(nft).transactional_status->Auction_0;
                let b = a.last_bid->0;
                &&& *final(nft) == (Nft {
                    transactional_status: TransactionalStatus::Auction(
                        Auction { last_bid: None, ..a },
                    ),
                    ..*old(nft)
                })
                &&& final(ledger)@ == unreserve_spec(
                    old(ledger)@,
                    b.bidder_account_id,
                    b.amount as nat,
                )
            },
            forall|base: Map<u64, AccountBalance>|
                #[trigger] status_escrow_matches(base, old(ledger)@, old(nft).transactional_status)
                    ==> status_escrow_matches(base, final(ledger)@, final(nft).transactional_status),
    {
        let ghost m0 = ledger@;
        let auction = match nft.transactional_status {
            TransactionalStatus::Auction(a) => a,
            _ => return Err(Error::NotInAuctionState),
        };
        auction.ensure_caller_is_last_bidder(member)?;
        let last_bid = match auction.last_bid {
            Some(b) => b,
            None => return Err(Error::NotLastBidder),
        };
        match auction.auction_type {
            AuctionType::Open(d) => {
                if now < last_bid.made_at_block || now - last_bid.made_at_block
                    < d.bid_lock_duration {
                    return Err(Error::BidLockNotExpired);
                }
            },
            AuctionType::English(_) => {
                return Err(Error::ActionNotAllowed);
            },
        }
        ledger.unreserve(last_bid.bidder_account_id, last_bid.amount);
        nft.transactional_status = TransactionalStatus::Auction(
            Auction { last_bid: None, ..auction },
        );
        proof {
            let a2 = Auction { last_bid: None, ..auction };
            assert forall|base: Map<u64, AccountBalance>|
                #[trigger] status_escrow_matches(base, m0, TransactionalStatus::Auction(auction))
                implies status_escrow_matches(base, ledger@, nft.transactional_status) by {
                assert(reserved_of(m0, last_bid.bidder_account_id) == reserved_of(
                    base,
                    last_bid.bidder_account_id,
                ) + last_bid.amount);
                assert forall|x: u64| #[trigger] reserved_of(ledger@, x) == reserved_of(base, x)
                    + bid_escrow(a2, x) by {
                    assert(reserved_of(m0, x) == reserved_of(base, x) + bid_escrow(auction, x));
                }
            }
        }
        Ok(())
    }

    /// Buys an asset that is for sale at a fixed price.
    pub fn buy_nft(
        ledger: &mut Ledger,
        nft: &mut Nft,
        owner_account_id: u64,
        buyer_account_id: u64,
        buyer: u64,
    ) -> (r: Result<(), Error>)
        requires
            old(ledger).wf(),
        ensures
            final(ledger).wf(),
            r == buy_now_check(*old(nft), old(ledger)@, buyer_account_id),
            r is Err ==> *final(nft) == *old(nft) && final(ledger)@ == old(ledger)@,
            r is Ok ==> {
                &&& *final(nft) == (Nft {
                    owner: NftOwner::Member(buyer),
                    transactional_status: TransactionalStatus::Idle,
                    ..*old(nft)
                })
                &&& final(ledger)@ == ledger_after_buy_now(
                    old(ledger)@,
                    owner_account_id,
                    buyer_account_id,
                    old(nft).transactional_status->BuyNow_0,
                )
            },
    {
        Self::ensure_can_buy_now(ledger, nft, buyer_account_id)?;
        *nft = Self::buy_now(ledger, *nft, owner_account_id, buyer_account_id, buyer);
        Ok(())
    }

    /// Accepts the offer made to `member`, who pays from `member_account_id`.
    pub fn accept_offer(
        &self,
        ledger: &mut Ledger,
        nft: &mut Nft,
        owner_account_id: u64,
        member: u64,
        member_account_id: u64,
        creator_reward_account_id: Option<u64>,
    ) -> (r: Result<(), Error>)
        requires
            old(ledger).wf(),
        ensures
            final(ledger).wf(),
            r == offer_check(*old(nft), old(ledger)@, member, member_account_id),
            r is Err ==> *final(nft) == *old(nft) && final(ledger)@ == old(ledger)@,
            r is Ok ==> {
                &&& *final(nft) == (Nft {
                    owner: NftOwner::Member(member),
                    transactional_status: TransactionalStatus::Idle,
                    ..*old(nft)
                })
                &&& final(ledger)@ == match old(nft).transactional_status->InitiatedOfferToMember_1 {
                    Some(p) => payment_spec(
                        reserve_spec(old(ledger)@, member_account_id, p as nat),
                        self.platform_fee_percentage,
                        self.treasury_account_id,
                        old(nft).creator_royalty,
                        p as nat,
                        member_account_id,
                        Some(owner_account_id),
                        creator_reward_account_id,
                    ),
                    None => old(ledger)@,
                }
            },
    {
        Self::ensure_new_pending_offer_available_to_proceed(ledger, nft, member, member_account_id)?;
        *nft = self.complete_nft_offer(
            ledger,
            *nft,
            owner_account_id,
            member_account_id,
            creator_reward_account_id,
        );
        Ok(())
    }

    /// Completes an auction at block `now` in favour of its standing bid.
    pub fn settle_auction(
        &self,
        ledger: &mut Ledger,
        nft: &mut Nft,
        owner_account_id: Option<u64>,
        creator_reward_account_id: Option<u64>,
        now: u64,
    ) -> (r: Result<(), Error>)
        requires
            old(ledger).wf(),
        ensures
            final(ledger).wf(),
            r == settle_check(*old(nft), now),
            r is Err ==> *final(nft) == *old(nft) && final(ledger)@ == old(ledger)@,
            r is Ok ==> {
                let b = old(nft).transactional_status->Auction_0.last_bid->0;
                &&& *final(nft) == (Nft {
                    owner: NftOwner::Member(b.bidder),
                    transactional_status: TransactionalStatus::Idle,
                    ..*old(nft)
                })
                &&& final(ledger)@ == payment_spec(
                    old(ledger)@,
                    self.platform_fee_percentage,
                    self.treasury_account_id,
                    old(nft).creator_royalty,
                    b.amount as nat,
                    b.bidder_account_id,
                    owner_account_id,
                    creator_reward_account_id,
                )
            },
    {
        let auction = match nft.transactional_status {
            TransactionalStatus::Auction(a) => a,
            _ => return Err(Error::NotInAuctionState),
        };
        Self::ensure_auction_can_be_completed(&auction, now)?;
        let last_bid = match auction.last_bid {
            Some(b) => b,
            None => return Err(Error::LastBidDoesNotExist),
        };
        *nft = self.complete_auction(
            ledger,
            *nft,
            last_bid,
            owner_account_id,
            creator_reward_account_id,
        );
        Ok(())
    }
}

} // verus!
