//! Ownership and settlement engine for a tradeable asset record: fixed-price
//! sales, offers to one member and escrowed auctions.
pub mod ledger;
pub mod error;
pub mod types;
pub mod config;
pub mod bounds;
pub mod settlement;
pub mod auction;
pub mod status;
pub mod invariants;
