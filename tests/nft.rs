use nft_settlement::auction::MAX_BLOCK;
use nft_settlement::config::{BoundsPolicy, Module};
use nft_settlement::error::Error;
use nft_settlement::ledger::Ledger;
use nft_settlement::types::{
    Auction, AuctionParams, AuctionType, Bid, EnglishAuctionDetails, Nft, NftOwner,
    OpenAuctionDetails, Perbill, TransactionalStatus,
};

const TREASURY: u64 = 999;

fn bounds() -> BoundsPolicy {
    BoundsPolicy {
        min_auction_duration: 10,
        max_auction_duration: 1000,
        min_auction_extension_period: 1,
        max_auction_extension_period: 100,
        min_bid_lock_duration: 1,
        max_bid_lock_duration: 100,
        min_bid_step: 1,
        max_bid_step: 500,
        min_starting_price: 1,
        max_starting_price: 10_000,
        min_creator_royalty: Perbill::from_percent(1),
        max_creator_royalty: Perbill::from_percent(50),
        auction_starts_at_max_delta: 200,
    }
}

fn module() -> Module {
    Module::new(bounds(), Perbill::from_percent(2), TREASURY).unwrap()
}

fn idle_nft(royalty: Option<Perbill>) -> Nft {
    Nft { owner: NftOwner::ChannelOwner, transactional_status: TransactionalStatus::Idle, creator_royalty: royalty }
}

fn english(duration: u64, extension: u64, starts_at: u64) -> Nft {
    let auction = Auction {
        starting_price: 100,
        minimal_bid_step: 10,
        auction_type: AuctionType::English(EnglishAuctionDetails {
            extension_period: extension,
            auction_duration: duration,
        }),
        starts_at,
        last_bid: None,
    };
    Nft { transactional_status: TransactionalStatus::Auction(auction), ..idle_nft(None) }
}

fn funded(accounts: &[(u64, u64)]) -> Ledger {
    let mut l = Ledger::new();
    for (a, v) in accounts {
        l.deposit_creating(*a, *v);
    }
    l
}

fn auction_of(nft: &Nft) -> Auction {
    match nft.transactional_status {
        TransactionalStatus::Auction(a) => a,
        _ => panic!("not in an auction"),
    }
}

#[test]
fn completion_waits_for_duration() {
    let nft = english(50, 10, 100);
    let a = auction_of(&nft);
    assert_eq!(Module::ensure_auction_can_be_completed(&a, 149), Err(Error::AuctionCannotBeCompleted));
    assert_eq!(Module::ensure_auction_can_be_completed(&a, 150), Ok(()));
    assert_eq!(Module::ensure_auction_can_be_completed(&a, 50), Err(Error::AuctionCannotBeCompleted));
}

#[test]
fn open_auction_completes_any_time() {
    let a = Auction {
        starting_price: 1,
        minimal_bid_step: 1,
        auction_type: AuctionType::Open(OpenAuctionDetails { bid_lock_duration: 5 }),
        starts_at: 100,
        last_bid: None,
    };
    assert_eq!(Module::ensure_auction_can_be_completed(&a, 100), Ok(()));
}

#[test]
fn late_bid_extends_english_auction() {
    let mut nft = english(50, 10, 100);
    let mut ledger = funded(&[(1, 1000)]);
    assert_eq!(Module::place_bid(&mut ledger, &mut nft, 11, 1, 200, 145), Ok(()));
    let a = auction_of(&nft);
    assert_eq!(Module::ensure_auction_can_be_completed(&a, 150), Err(Error::AuctionCannotBeCompleted));
    assert_eq!(Module::ensure_auction_can_be_completed(&a, 154), Err(Error::AuctionCannotBeCompleted));
    assert_eq!(Module::ensure_auction_can_be_completed(&a, 155), Ok(()));
}

#[test]
fn early_bid_keeps_end() {
    let mut nft = english(50, 10, 100);
    let mut ledger = funded(&[(1, 1000)]);
    assert_eq!(Module::place_bid(&mut ledger, &mut nft, 11, 1, 200, 120), Ok(()));
    let a = auction_of(&nft);
    assert_eq!(Module::ensure_auction_can_be_completed(&a, 150), Ok(()));
}

#[test]
fn bids_keep_only_last_escrow() {
    let mut nft = english(50, 10, 100);
    let mut ledger = funded(&[(1, 1000), (2, 1000), (3, 1000)]);
    assert_eq!(Module::place_bid(&mut ledger, &mut nft, 11, 1, 100, 100), Ok(()));
    assert_eq!(ledger.reserved_balance(1), 100);
    assert_eq!(Module::place_bid(&mut ledger, &mut nft, 12, 2, 110, 101), Ok(()));
    assert_eq!(ledger.reserved_balance(1), 0);
    assert_eq!(ledger.free_balance(1), 1000);
    assert_eq!(ledger.reserved_balance(2), 110);
    assert_eq!(Module::place_bid(&mut ledger, &mut nft, 13, 3, 300, 102), Ok(()));
    assert_eq!(ledger.reserved_balance(2), 0);
    assert_eq!(ledger.free_balance(2), 1000);
    assert_eq!(ledger.reserved_balance(3), 300);
    assert_eq!(ledger.free_balance(3), 700);
    let last = auction_of(&nft).last_bid.unwrap();
    assert_eq!(last, Bid { bidder: 13, bidder_account_id: 3, amount: 300, made_at_block: 102 });
}

#[test]
fn bid_errors() {
    let mut nft = english(50, 10, 100);
    let mut ledger = funded(&[(1, 1000), (2, 50)]);
    assert_eq!(Module::place_bid(&mut ledger, &mut nft, 11, 1, 200, 99), Err(Error::AuctionDidNotStart));
    assert_eq!(Module::place_bid(&mut ledger, &mut nft, 12, 2, 200, 100), Err(Error::InsufficientBalance));
    assert_eq!(Module::place_bid(&mut ledger, &mut nft, 11, 1, 99, 100), Err(Error::BidIsTooLow));
    assert_eq!(Module::place_bid(&mut ledger, &mut nft, 11, 1, 100, 100), Ok(()));
    assert_eq!(Module::place_bid(&mut ledger, &mut nft, 11, 1, 109, 101), Err(Error::BidIsTooLow));
    assert_eq!(ledger.reserved_balance(1), 100);
    let mut idle = idle_nft(None);
    assert_eq!(Module::place_bid(&mut ledger, &mut idle, 11, 1, 100, 100), Err(Error::NotInAuctionState));
}

#[test]
fn settlement_split_with_royalty() {
    let m = module();
    let mut ledger = funded(&[(1, 1000)]);
    ledger.reserve(1, 1000);
    m.complete_payment(&mut ledger, Some(Perbill::from_percent(5)), 1000, 1, Some(2), Some(3));
    assert_eq!(ledger.free_balance(2), 930);
    assert_eq!(ledger.free_balance(3), 50);
    assert_eq!(ledger.free_balance(TREASURY), 20);
    assert_eq!(ledger.reserved_balance(1), 0);
    assert_eq!(ledger.free_balance(1), 0);
}

#[test]
fn settlement_without_royalty() {
    let m = module();
    let mut ledger = funded(&[(1, 1000)]);
    ledger.reserve(1, 1000);
    m.complete_payment(&mut ledger, None, 1000, 1, Some(2), Some(3));
    assert_eq!(ledger.free_balance(2), 980);
    assert_eq!(ledger.free_balance(3), 0);
    assert_eq!(ledger.free_balance(TREASURY), 20);
}

#[test]
fn settlement_royalty_without_reward_account_is_burned() {
    let m = module();
    let mut ledger = funded(&[(1, 1000)]);
    ledger.reserve(1, 1000);
    m.complete_payment(&mut ledger, Some(Perbill::from_percent(5)), 1000, 1, Some(2), None);
    assert_eq!(ledger.free_balance(2), 930);
    assert_eq!(ledger.free_balance(TREASURY), 20);
}

#[test]
fn settlement_caps_royalty_at_what_fee_leaves() {
    let m = Module::new(bounds(), Perbill::from_percent(50), TREASURY).unwrap();
    let mut ledger = funded(&[(1, 100)]);
    ledger.reserve(1, 100);
    m.complete_payment(&mut ledger, Some(Perbill::from_percent(50)), 100, 1, Some(2), Some(3));
    assert_eq!(ledger.free_balance(2), 0);
    assert_eq!(ledger.free_balance(3), 50);
    assert_eq!(ledger.free_balance(TREASURY), 50);

    let m = Module::new(bounds(), Perbill::from_percent(60), TREASURY).unwrap();
    let mut ledger = funded(&[(1, 100)]);
    ledger.reserve(1, 100);
    m.complete_payment(&mut ledger, Some(Perbill::from_percent(50)), 100, 1, Some(2), Some(3));
    assert_eq!(ledger.free_balance(2), 0);
    assert_eq!(ledger.free_balance(3), 40);
    assert_eq!(ledger.free_balance(TREASURY), 60);
}

#[test]
fn offer_and_auction_never_pay_out_more_than_price() {
    let m = Module::new(bounds(), Perbill::from_percent(50), TREASURY).unwrap();
    let mut nft = Nft {
        transactional_status: TransactionalStatus::InitiatedOfferToMember(7, Some(100)),
        ..idle_nft(Some(Perbill::from_percent(50)))
    };
    let mut ledger = funded(&[(70, 100)]);
    assert_eq!(m.accept_offer(&mut ledger, &mut nft, 2, 7, 70, Some(3)), Ok(()));
    assert_eq!(ledger.free_balance(2), 0);
    assert_eq!(ledger.free_balance(3), 50);
    assert_eq!(ledger.free_balance(TREASURY), 50);
    assert_eq!(ledger.free_balance(70), 0);

    let mut ledger = funded(&[(1, 100)]);
    ledger.reserve(1, 100);
    let bid = Bid { bidder: 9, bidder_account_id: 1, amount: 100, made_at_block: 3 };
    let mut won = english(50, 10, 0);
    won.creator_royalty = Some(Perbill::from_percent(50));
    m.complete_auction(&mut ledger, won, bid, Some(2), Some(3));
    assert_eq!(ledger.free_balance(2), 0);
    assert_eq!(ledger.free_balance(3), 50);
    assert_eq!(ledger.free_balance(TREASURY), 50);
}

#[test]
fn module_refuses_rates_above_whole() {
    let over = Perbill { parts: 1_000_000_001 };
    assert_eq!(Module::new(bounds(), over, TREASURY), Err(Error::RateExceedsWhole));
    let b = BoundsPolicy { max_creator_royalty: over, ..bounds() };
    assert_eq!(Module::new(b, Perbill::from_percent(2), TREASURY), Err(Error::RateExceedsWhole));
    let b = BoundsPolicy { min_creator_royalty: over, ..bounds() };
    assert_eq!(Module::new(b, Perbill::from_percent(2), TREASURY), Err(Error::RateExceedsWhole));
    assert!(Module::new(bounds(), Perbill::from_percent(100), TREASURY).is_ok());
}

#[test]
fn helpers_leave_other_modes_unchanged() {
    let m = module();
    let mut ledger = funded(&[(1, 1000)]);
    let offer = Nft {
        transactional_status: TransactionalStatus::InitiatedOfferToMember(5, Some(10)),
        ..idle_nft(None)
    };
    assert_eq!(Module::buy_now(&mut ledger, offer, 2, 1, 42), offer);
    let sale = Nft { transactional_status: TransactionalStatus::BuyNow(10), ..idle_nft(None) };
    assert_eq!(m.complete_nft_offer(&mut ledger, sale, 2, 1, None), sale);
    assert_eq!(ledger.free_balance(1), 1000);
    assert_eq!(ledger.free_balance(2), 0);
}

#[test]
fn perbill_rounds_down_and_caps() {
    assert_eq!(Perbill::from_percent(5).mul_floor(1000), 50);
    assert_eq!(Perbill::from_percent(5).mul_floor(39), 1);
    assert_eq!(Perbill::from_parts(2_000_000_000).parts, 1_000_000_000);
    assert_eq!(Perbill { parts: 2_000_000_000 }.mul_floor(77), 77);
    assert_eq!(Perbill::from_percent(250).parts, 1_000_000_000);
    assert_eq!(Perbill::from_percent(100).mul_floor(u64::MAX), u64::MAX);
}

#[test]
fn buy_now_round_trip() {
    let mut nft = Nft { transactional_status: TransactionalStatus::BuyNow(500), ..idle_nft(None) };
    let mut ledger = funded(&[(1, 700), (2, 100)]);
    assert_eq!(Module::buy_nft(&mut ledger, &mut nft, 2, 1, 42), Ok(()));
    assert_eq!(nft.owner, NftOwner::Member(42));
    assert_eq!(nft.transactional_status, TransactionalStatus::Idle);
    assert_eq!(ledger.free_balance(1), 200);
    assert_eq!(ledger.free_balance(2), 600);
}

#[test]
fn buy_now_errors() {
    let mut nft = Nft { transactional_status: TransactionalStatus::BuyNow(500), ..idle_nft(None) };
    let mut ledger = funded(&[(1, 499)]);
    assert_eq!(Module::buy_nft(&mut ledger, &mut nft, 2, 1, 42), Err(Error::InsufficientBalance));
    assert_eq!(nft.transactional_status, TransactionalStatus::BuyNow(500));
    let mut idle = idle_nft(None);
    assert_eq!(Module::buy_nft(&mut ledger, &mut idle, 2, 1, 42), Err(Error::NFTNotInBuyNowState));
    // reserved funds are not spendable
    let mut ledger = funded(&[(1, 600)]);
    ledger.reserve(1, 200);
    assert_eq!(Module::buy_nft(&mut ledger, &mut nft, 2, 1, 42), Err(Error::InsufficientBalance));
}

#[test]
fn cancel_releases_bid() {
    let mut nft = english(50, 10, 100);
    let mut ledger = funded(&[(1, 1000)]);
    assert_eq!(Module::place_bid(&mut ledger, &mut nft, 11, 1, 300, 110), Ok(()));
    assert_eq!(ledger.reserved_balance(1), 300);
    let nft = Module::cancel_transaction(&mut ledger, nft);
    assert_eq!(nft.transactional_status, TransactionalStatus::Idle);
    assert_eq!(ledger.reserved_balance(1), 0);
    assert_eq!(ledger.free_balance(1), 1000);
}

#[test]
fn cancel_idle_is_no_op() {
    let mut ledger = funded(&[(1, 1000)]);
    let nft = idle_nft(Some(Perbill::from_percent(3)));
    let after = Module::cancel_transaction(&mut ledger, nft);
    assert_eq!(after, nft);
    assert_eq!(ledger.free_balance(1), 1000);
}

#[test]
fn cancel_offer_and_buy_now() {
    let mut ledger = Ledger::new();
    let offer = Nft { transactional_status: TransactionalStatus::InitiatedOfferToMember(5, Some(10)), ..idle_nft(None) };
    assert_eq!(Module::cancel_transaction(&mut ledger, offer).transactional_status, TransactionalStatus::Idle);
    let sale = Nft { transactional_status: TransactionalStatus::BuyNow(10), ..idle_nft(None) };
    assert_eq!(Module::cancel_transaction(&mut ledger, sale).transactional_status, TransactionalStatus::Idle);
}

#[test]
fn start_modes_only_from_idle() {
    let m = module();
    let mut nft = idle_nft(None);
    assert_eq!(Module::start_buy_now(&mut nft, 10), Ok(()));
    assert_eq!(nft.transactional_status, TransactionalStatus::BuyNow(10));
    assert_eq!(Module::start_offer(&mut nft, 3, None), Err(Error::PendingTransactionalStatusWasAlreadySet));
    let params = AuctionParams {
        auction_type: AuctionType::Open(OpenAuctionDetails { bid_lock_duration: 5 }),
        starting_price: 100,
        minimal_bid_step: 10,
        starts_at: None,
    };
    assert_eq!(m.start_auction(&mut nft, &params, 7), Err(Error::PendingTransactionalStatusWasAlreadySet));
    assert_eq!(nft.transactional_status, TransactionalStatus::BuyNow(10));
    let mut nft = idle_nft(None);
    assert_eq!(Module::start_offer(&mut nft, 3, Some(40)), Ok(()));
    assert_eq!(nft.transactional_status, TransactionalStatus::InitiatedOfferToMember(3, Some(40)));
    let mut nft = idle_nft(None);
    assert_eq!(m.start_auction(&mut nft, &params, 7), Ok(()));
    let a = auction_of(&nft);
    assert_eq!(a.starts_at, 7);
    assert_eq!(a.last_bid, None);
    assert_eq!(a.starting_price, 100);
}

fn english_params(duration: u64, extension: u64) -> AuctionParams {
    AuctionParams {
        auction_type: AuctionType::English(EnglishAuctionDetails {
            extension_period: extension,
            auction_duration: duration,
        }),
        starting_price: 100,
        minimal_bid_step: 10,
        starts_at: None,
    }
}

#[test]
fn auction_params_errors() {
    let m = module();
    assert_eq!(m.validate_auction_params(&english_params(50, 10), 0), Ok(()));
    assert_eq!(m.validate_auction_params(&english_params(1001, 10), 0), Err(Error::AuctionDurationUpperBoundExceeded));
    assert_eq!(m.validate_auction_params(&english_params(9, 5), 0), Err(Error::AuctionDurationLowerBoundExceeded));
    assert_eq!(m.validate_auction_params(&english_params(500, 101), 0), Err(Error::ExtensionPeriodUpperBoundExceeded));
    assert_eq!(m.validate_auction_params(&english_params(50, 0), 0), Err(Error::ExtensionPeriodLowerBoundExceeded));
    assert_eq!(m.validate_auction_params(&english_params(20, 30), 0), Err(Error::ExtensionExceedsDuration));
    let open = |lock: u64| AuctionParams {
        auction_type: AuctionType::Open(OpenAuctionDetails { bid_lock_duration: lock }),
        ..english_params(50, 10)
    };
    assert_eq!(m.validate_auction_params(&open(101), 0), Err(Error::BidLockDurationUpperBoundExceeded));
    assert_eq!(m.validate_auction_params(&open(0), 0), Err(Error::BidLockDurationLowerBoundExceeded));
    let p = AuctionParams { starting_price: 10_001, ..english_params(50, 10) };
    assert_eq!(m.validate_auction_params(&p, 0), Err(Error::StartingPriceUpperBoundExceeded));
    let p = AuctionParams { starting_price: 0, ..english_params(50, 10) };
    assert_eq!(m.validate_auction_params(&p, 0), Err(Error::StartingPriceLowerBoundExceeded));
    let p = AuctionParams { minimal_bid_step: 501, ..english_params(50, 10) };
    assert_eq!(m.validate_auction_params(&p, 0), Err(Error::AuctionBidStepUpperBoundExceeded));
    let p = AuctionParams { minimal_bid_step: 0, ..english_params(50, 10) };
    assert_eq!(m.validate_auction_params(&p, 0), Err(Error::AuctionBidStepLowerBoundExceeded));
    let p = AuctionParams { starts_at: Some(100), ..english_params(50, 10) };
    assert_eq!(m.validate_auction_params(&p, 100), Err(Error::StartsAtLowerBoundExceeded));
    assert_eq!(m.validate_auction_params(&p, 99), Ok(()));
    let p = AuctionParams { starts_at: Some(301), ..english_params(50, 10) };
    assert_eq!(m.validate_auction_params(&p, 100), Err(Error::StartsAtUpperBoundExceeded));
    let p = AuctionParams { starts_at: Some(300), ..english_params(50, 10) };
    assert_eq!(m.validate_auction_params(&p, 100), Ok(()));
    // the first failing check decides
    let p = AuctionParams { starting_price: 0, minimal_bid_step: 0, ..english_params(1001, 10) };
    assert_eq!(m.validate_auction_params(&p, 0), Err(Error::AuctionDurationUpperBoundExceeded));
}

#[test]
fn royalty_bounds() {
    let m = module();
    assert_eq!(m.ensure_royalty_bounds_satisfied(Perbill::from_percent(10)), Ok(()));
    assert_eq!(m.ensure_royalty_bounds_satisfied(Perbill::from_percent(51)), Err(Error::RoyaltyUpperBoundExceeded));
    assert_eq!(m.ensure_royalty_bounds_satisfied(Perbill::from_parts(0)), Err(Error::RoyaltyLowerBoundExceeded));
}

#[test]
fn accept_offer_with_price() {
    let m = module();
    let mut nft = Nft {
        transactional_status: TransactionalStatus::InitiatedOfferToMember(7, Some(1000)),
        ..idle_nft(Some(Perbill::from_percent(5)))
    };
    let mut ledger = funded(&[(70, 1500)]);
    assert_eq!(m.accept_offer(&mut ledger, &mut nft, 2, 8, 70, Some(3)), Err(Error::NoIncomingOffers));
    assert_eq!(m.accept_offer(&mut ledger, &mut nft, 2, 7, 70, Some(3)), Ok(()));
    assert_eq!(nft.owner, NftOwner::Member(7));
    assert_eq!(nft.transactional_status, TransactionalStatus::Idle);
    assert_eq!(ledger.free_balance(70), 500);
    assert_eq!(ledger.reserved_balance(70), 0);
    assert_eq!(ledger.free_balance(2), 930);
    assert_eq!(ledger.free_balance(3), 50);
    assert_eq!(ledger.free_balance(TREASURY), 20);
}

#[test]
fn accept_offer_errors() {
    let m = module();
    let mut nft = Nft {
        transactional_status: TransactionalStatus::InitiatedOfferToMember(7, Some(1000)),
        ..idle_nft(None)
    };
    let mut ledger = funded(&[(70, 999)]);
    assert_eq!(m.accept_offer(&mut ledger, &mut nft, 2, 7, 70, None), Err(Error::InsufficientBalance));
    let mut idle = idle_nft(None);
    assert_eq!(m.accept_offer(&mut ledger, &mut idle, 2, 7, 70, None), Err(Error::NoIncomingOffers));
    let mut free_offer = Nft {
        transactional_status: TransactionalStatus::InitiatedOfferToMember(7, None),
        ..idle_nft(None)
    };
    assert_eq!(m.accept_offer(&mut ledger, &mut free_offer, 2, 7, 70, None), Ok(()));
    assert_eq!(free_offer.owner, NftOwner::Member(7));
    assert_eq!(ledger.free_balance(70), 999);
}

#[test]
fn settle_auction_pays_owner() {
    let m = module();
    let mut nft = english(50, 10, 100);
    nft.creator_royalty = Some(Perbill::from_percent(5));
    let mut ledger = funded(&[(1, 1000), (2, 1000)]);
    assert_eq!(m.settle_auction(&mut ledger, &mut nft, Some(5), Some(6), 150), Err(Error::LastBidDoesNotExist));
    assert_eq!(Module::place_bid(&mut ledger, &mut nft, 11, 1, 500, 110), Ok(()));
    assert_eq!(Module::place_bid(&mut ledger, &mut nft, 12, 2, 1000, 120), Ok(()));
    assert_eq!(m.settle_auction(&mut ledger, &mut nft, Some(5), Some(6), 149), Err(Error::AuctionCannotBeCompleted));
    assert_eq!(m.settle_auction(&mut ledger, &mut nft, Some(5), Some(6), 150), Ok(()));
    assert_eq!(nft.owner, NftOwner::Member(12));
    assert_eq!(nft.transactional_status, TransactionalStatus::Idle);
    assert_eq!(ledger.free_balance(1), 1000);
    assert_eq!(ledger.reserved_balance(2), 0);
    assert_eq!(ledger.free_balance(2), 0);
    assert_eq!(ledger.free_balance(5), 930);
    assert_eq!(ledger.free_balance(6), 50);
    assert_eq!(ledger.free_balance(TREASURY), 20);
    let mut idle = idle_nft(None);
    assert_eq!(m.settle_auction(&mut ledger, &mut idle, None, None, 150), Err(Error::NotInAuctionState));
}

#[test]
fn complete_auction_helper() {
    let m = module();
    let mut ledger = funded(&[(1, 400)]);
    ledger.reserve(1, 400);
    let bid = Bid { bidder: 9, bidder_account_id: 1, amount: 400, made_at_block: 3 };
    let nft = m.complete_auction(&mut ledger, english(50, 10, 0), bid, None, None);
    assert_eq!(nft.owner, NftOwner::Member(9));
    assert_eq!(nft.transactional_status, TransactionalStatus::Idle);
    assert_eq!(ledger.reserved_balance(1), 0);
    assert_eq!(ledger.free_balance(TREASURY), 8);
}

#[test]
fn cancel_bid_rules() {
    let open = Auction {
        starting_price: 10,
        minimal_bid_step: 1,
        auction_type: AuctionType::Open(OpenAuctionDetails { bid_lock_duration: 5 }),
        starts_at: 0,
        last_bid: None,
    };
    let mut nft = Nft { transactional_status: TransactionalStatus::Auction(open), ..idle_nft(None) };
    let mut ledger = funded(&[(1, 100)]);
    assert_eq!(Module::cancel_bid(&mut ledger, &mut nft, 11, 10), Err(Error::NotLastBidder));
    assert_eq!(Module::place_bid(&mut ledger, &mut nft, 11, 1, 20, 10), Ok(()));
    assert_eq!(Module::cancel_bid(&mut ledger, &mut nft, 12, 20), Err(Error::NotLastBidder));
    assert_eq!(Module::cancel_bid(&mut ledger, &mut nft, 11, 14), Err(Error::BidLockNotExpired));
    assert_eq!(Module::cancel_bid(&mut ledger, &mut nft, 11, 15), Ok(()));
    assert_eq!(auction_of(&nft).last_bid, None);
    assert_eq!(ledger.free_balance(1), 100);
    assert_eq!(ledger.reserved_balance(1), 0);

    let mut eng = english(50, 10, 0);
    assert_eq!(Module::place_bid(&mut ledger, &mut eng, 11, 1, 100, 10), Ok(()));
    assert_eq!(Module::cancel_bid(&mut ledger, &mut eng, 11, 40), Err(Error::ActionNotAllowed));
}

#[test]
fn last_bidder_check() {
    let mut a = auction_of(&english(50, 10, 0));
    assert_eq!(a.ensure_caller_is_last_bidder(3), Err(Error::NotLastBidder));
    a.last_bid = Some(Bid { bidder: 3, bidder_account_id: 30, amount: 100, made_at_block: 1 });
    assert_eq!(a.ensure_caller_is_last_bidder(3), Ok(()));
    assert_eq!(a.ensure_caller_is_last_bidder(4), Err(Error::NotLastBidder));
    assert!(a.bid_is_enough(110));
    assert!(!a.bid_is_enough(109));
}

#[test]
fn extension_saturates_at_max_block() {
    let a = auction_of(&english(50, 10, 0));
    let b = a.with_new_bid(1, 1, 100, MAX_BLOCK - 3);
    match b.auction_type {
        AuctionType::English(d) => assert_eq!(d.auction_duration, MAX_BLOCK),
        _ => panic!("type changed"),
    }
}

#[test]
fn ledger_operations() {
    let mut l = Ledger::new();
    assert_eq!(l.deposit_creating(1, 100), 100);
    assert!(l.can_reserve(1, 100));
    assert!(!l.can_reserve(1, 101));
    l.reserve(1, 60);
    assert_eq!(l.free_balance(1), 40);
    assert!(!l.can_slash(1, 41));
    l.unreserve(1, 100);
    assert_eq!(l.free_balance(1), 100);
    assert_eq!(l.reserved_balance(1), 0);
    l.reserve(1, 30);
    l.slash_reserved(1, 50);
    assert_eq!(l.reserved_balance(1), 0);
    l.slash(1, 500);
    assert_eq!(l.free_balance(1), 0);
    assert_eq!(l.deposit_creating(2, u64::MAX), u64::MAX);
    assert_eq!(l.deposit_creating(2, 5), 0);
}
