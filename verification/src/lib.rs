//! A verified order-book snapshot record: a two-sided price ladder for one
//! market, read by anyone and mutated only by its registered authority.
//!
//! The crate proves the record's mutation contract: every operation either
//! passes all of its validation checks and commits the new field values as a
//! unit, or fails with a named error and leaves the record untouched.

pub mod entry;
pub mod errors;
pub mod laws;
pub mod level;
pub mod orderbook;
pub mod pubkey;

pub use entry::{
    authorized, deprecate, initialize, transfer_authority, undeprecate, update_asks, update_bids,
    update_bids_and_asks, update_market,
};
pub use errors::CustomError;
pub use level::{PriceLevel, LEVEL_CAPACITY};
pub use orderbook::L2Orderbook;
pub use pubkey::Pubkey;
