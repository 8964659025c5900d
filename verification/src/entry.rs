use vstd::prelude::*;

use crate::errors::CustomError;
use crate::level::{zeroed_ladder, PriceLevel};
use crate::orderbook::{exact_capacity, positive, L2Orderbook};
use crate::pubkey::Pubkey;

verus! {

/// The authorization guard: succeeds exactly when the caller's identity
/// matches the record's registered authority, and otherwise refuses with
/// `InvalidAuthority`. Every operation except creation runs it first.
pub fn authorized(orderbook: &L2Orderbook, signer: &Pubkey) -> (r: Result<(), CustomError>)
    ensures
        r is Ok <==> signer@ == orderbook.authority@,
        r is Err ==> r == Err::<(), CustomError>(CustomError::InvalidAuthority),
{
    if *signer == orderbook.authority {
        Ok(())
    } else {
        Err(CustomError::InvalidAuthority)
    }
}

/// Creates the record. No pre-existing authority is checked: creation
/// establishes the first authority unconditionally from its input.
pub fn initialize(
    orderbook: &mut L2Orderbook,
    authority: Pubkey,
    market: String,
    base_currency: String,
    quote_currency: String,
    minimum_size_increment: u64,
    minimum_price_increment: u64,
    price_exponent: i8,
    size_exponent: i8,
    now: i64,
) -> (r: Result<(), CustomError>)
    ensures
        r == old(orderbook).create_result(
            market@,
            base_currency@,
            quote_currency@,
            minimum_size_increment,
            minimum_price_increment,
        ),
        r is Err ==> *final(orderbook) == *old(orderbook),
        r is Ok ==> {
            &&& final(orderbook).authority == authority
            &&& final(orderbook).market_name == market
            &&& final(orderbook).base_currency_name == base_currency
            &&& final(orderbook).quote_currency_name == quote_currency
            &&& final(orderbook).price_exponent == price_exponent
            &&& final(orderbook).size_exponent == size_exponent
            &&& final(orderbook).minimum_price_increment == minimum_price_increment
            &&& final(orderbook).minimum_size_increment == minimum_size_increment
            &&& final(orderbook).created_at == now
            &&& final(orderbook).updated_at == now
            &&& final(orderbook).bids@ == zeroed_ladder()
            &&& final(orderbook).asks@ == zeroed_ladder()
            &&& final(orderbook).is_initialized
            &&& !final(orderbook).is_deprecated
        },
        r is Ok ==> final(orderbook).wf(),
        old(orderbook).wf() ==> final(orderbook).wf(),
{
    orderbook.create(
        authority,
        market,
        base_currency,
        quote_currency,
        minimum_size_increment,
        minimum_price_increment,
        price_exponent,
        size_exponent,
        now,
    )
}

/// Replaces both ladders, after the authorization guard.
pub fn update_bids_and_asks(
    orderbook: &mut L2Orderbook,
    signer: &Pubkey,
    bids: Vec<PriceLevel>,
    asks: Vec<PriceLevel>,
    now: i64,
) -> (r: Result<(), CustomError>)
    requires
        old(orderbook).is_initialized,
    ensures
        signer@ != old(orderbook).authority@ ==> r == Err::<(), CustomError>(
            CustomError::InvalidAuthority,
        ) && *final(orderbook) == *old(orderbook),
        signer@ == old(orderbook).authority@ ==> {
            &&& r == L2Orderbook::update_ladders_result(bids@, asks@)
            &&& (r is Err ==> *final(orderbook) == *old(orderbook))
            &&& (r is Ok ==> *final(orderbook) == (L2Orderbook {
                bids,
                asks,
                updated_at: now,
                ..*old(orderbook)
            }))
        },
        old(orderbook).wf() ==> final(orderbook).wf(),
{
    authorized(orderbook, signer)?;
    orderbook.update_bids_and_asks(bids, asks, now)
}

/// Replaces the bid ladder, after the authorization guard.
pub fn update_bids(
    orderbook: &mut L2Orderbook,
    signer: &Pubkey,
    bids: Vec<PriceLevel>,
    now: i64,
) -> (r: Result<(), CustomError>)
    requires
        old(orderbook).is_initialized,
    ensures
        signer@ != old(orderbook).authority@ ==> r == Err::<(), CustomError>(
            CustomError::InvalidAuthority,
        ) && *final(orderbook) == *old(orderbook),
        signer@ == old(orderbook).authority@ ==> {
            &&& (r is Ok <==> exact_capacity(bids@))
            &&& (r is Err ==> r == Err::<(), CustomError>(CustomError::BidsLengthIncorrect)
                && *final(orderbook) == *old(orderbook))
            &&& (r is Ok ==> *final(orderbook) == (L2Orderbook {
                bids,
                updated_at: now,
                ..*old(orderbook)
            }))
        },
        old(orderbook).wf() ==> final(orderbook).wf(),
{
    authorized(orderbook, signer)?;
    orderbook.update_bids(bids, now)
}

/// Replaces the ask ladder, after the authorization guard.
pub fn update_asks(
    orderbook: &mut L2Orderbook,
    signer: &Pubkey,
    asks: Vec<PriceLevel>,
    now: i64,
) -> (r: Result<(), CustomError>)
    requires
        old(orderbook).is_initialized,
    ensures
        signer@ != old(orderbook).authority@ ==> r == Err::<(), CustomError>(
            CustomError::InvalidAuthority,
        ) && *final(orderbook) == *old(orderbook),
        signer@ == old(orderbook).authority@ ==> {
            &&& (r is Ok <==> exact_capacity(asks@))
            &&& (r is Err ==> r == Err::<(), CustomError>(CustomError::AsksLengthIncorrect)
                && *final(orderbook) == *old(orderbook))
            &&& (r is Ok ==> *final(orderbook) == (L2Orderbook {
                asks,
                updated_at: now,
                ..*old(orderbook)
            }))
        },
        old(orderbook).wf() ==> final(orderbook).wf(),
{
    authorized(orderbook, signer)?;
    orderbook.update_asks(asks, now)
}

/// Replaces the three label fields, after the authorization guard.
pub fn update_market(
    orderbook: &mut L2Orderbook,
    signer: &Pubkey,
    market: String,
    base_currency: String,
    quote_currency: String,
    now: i64,
) -> (r: Result<(), CustomError>)
    requires
        old(orderbook).is_initialized,
    ensures
        signer@ != old(orderbook).authority@ ==> r == Err::<(), CustomError>(
            CustomError::InvalidAuthority,
        ) && *final(orderbook) == *old(orderbook),
        signer@ == old(orderbook).authority@ ==> {
            &&& r == L2Orderbook::update_market_result(market@, base_currency@, quote_currency@)
            &&& (r is Err ==> *final(orderbook) == *old(orderbook))
            &&& (r is Ok ==> *final(orderbook) == (L2Orderbook {
                market_name: market,
                base_currency_name: base_currency,
                quote_currency_name: quote_currency,
                updated_at: now,
                ..*old(orderbook)
            }))
        },
        old(orderbook).wf() ==> final(orderbook).wf(),
{
    authorized(orderbook, signer)?;
    orderbook.update_market(market, base_currency, quote_currency, now)
}

/// Retires the market, after the authorization guard.
pub fn deprecate(orderbook: &mut L2Orderbook, signer: &Pubkey, now: i64) -> (r: Result<
    (),
    CustomError,
>)
    requires
        old(orderbook).is_initialized,
    ensures
        signer@ != old(orderbook).authority@ ==> r == Err::<(), CustomError>(
            CustomError::InvalidAuthority,
        ) && *final(orderbook) == *old(orderbook),
        signer@ == old(orderbook).authority@ ==> {
            &&& r == old(orderbook).set_deprecated_result()
            &&& (r is Err ==> *final(orderbook) == *old(orderbook))
            &&& (r is Ok ==> *final(orderbook) == (L2Orderbook {
                is_deprecated: true,
                updated_at: now,
                ..*old(orderbook)
            }))
        },
        old(orderbook).wf() ==> final(orderbook).wf(),
{
    authorized(orderbook, signer)?;
    orderbook.set_deprecated(now)
}

/// Re-activates the market, after the authorization guard. Deliberately
/// unguarded against the record not being deprecated.
pub fn undeprecate(orderbook: &mut L2Orderbook, signer: &Pubkey, now: i64) -> (r: Result<
    (),
    CustomError,
>)
    requires
        old(orderbook).is_initialized,
    ensures
        signer@ != old(orderbook).authority@ ==> r == Err::<(), CustomError>(
            CustomError::InvalidAuthority,
        ) && *final(orderbook) == *old(orderbook),
        signer@ == old(orderbook).authority@ ==> r is Ok && *final(orderbook) == (L2Orderbook {
            is_deprecated: false,
            updated_at: now,
            ..*old(orderbook)
        }),
        old(orderbook).wf() ==> final(orderbook).wf(),
{
    authorized(orderbook, signer)?;
    orderbook.set_not_deprecated(now)
}

/// Hands the record to a new authority, after the authorization guard run
/// against the current one. No further validation is applied to the new
/// identity.
pub fn transfer_authority(
    orderbook: &mut L2Orderbook,
    signer: &Pubkey,
    new_authority: Pubkey,
    now: i64,
) -> (r: Result<(), CustomError>)
    requires
        old(orderbook).is_initialized,
    ensures
        signer@ != old(orderbook).authority@ ==> r == Err::<(), CustomError>(
            CustomError::InvalidAuthority,
        ) && *final(orderbook) == *old(orderbook),
        signer@ == old(orderbook).authority@ ==> r is Ok && *final(orderbook) == (L2Orderbook {
            authority: new_authority,
            updated_at: now,
            ..*old(orderbook)
        }),
        old(orderbook).wf() ==> final(orderbook).wf(),
{
    authorized(orderbook, signer)?;
    orderbook.transfer_authority(new_authority, now)
}

} // verus!
