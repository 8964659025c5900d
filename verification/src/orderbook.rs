use vstd::prelude::*;

use crate::errors::CustomError;
use crate::level::{make_zeroed_ladder, zeroed_ladder, PriceLevel, LEVEL_CAPACITY};
use crate::pubkey::Pubkey;

verus! {

/// A label is acceptable when it holds at least one character.
pub open spec fn non_empty(label: Seq<char>) -> bool {
    label.len() > 0
}

/// A tick size is acceptable when it is strictly greater than zero.
pub open spec fn positive(increment: u64) -> bool {
    increment > 0
}

/// A supplied ladder is acceptable when it holds exactly the fixed capacity.
pub open spec fn exact_capacity(levels: Seq<PriceLevel>) -> bool {
    levels.len() == LEVEL_CAPACITY
}

/// The authoritative snapshot of one market's two-sided price ladder.
///
/// The record starts uninitialized; a single successful `create` moves it to
/// the active state and no operation ever moves it back. Every mutation is
/// all-or-nothing: either all of its validation checks pass and the new field
/// values are committed together with a fresh `updated_at`, or the operation
/// returns a named error and the record is left exactly as it was.
pub struct L2Orderbook {
    /// The sole identity permitted to mutate the record.
    pub authority: Pubkey,
    /// Human-readable market label; non-empty once initialized.
    pub market_name: String,
    /// Human-readable base-currency label; non-empty once initialized.
    pub base_currency_name: String,
    /// Human-readable quote-currency label; non-empty once initialized.
    pub quote_currency_name: String,
    /// Decimal scaling of raw price units; informational only.
    pub price_exponent: i8,
    /// Decimal scaling of raw size units; informational only.
    pub size_exponent: i8,
    /// Price tick size; strictly positive once initialized.
    pub minimum_price_increment: u64,
    /// Size tick size; strictly positive once initialized.
    pub minimum_size_increment: u64,
    /// Clock value at creation; set once, never changed afterwards.
    pub created_at: i64,
    /// Clock value of the most recent successful mutation.
    pub updated_at: i64,
    /// Bid-side ladder; exactly `LEVEL_CAPACITY` rungs once initialized.
    pub bids: Vec<PriceLevel>,
    /// Ask-side ladder; exactly `LEVEL_CAPACITY` rungs once initialized.
    pub asks: Vec<PriceLevel>,
    /// False until the first successful `create`, true forever after.
    pub is_initialized: bool,
    /// Marks the market as retired without deleting the record.
    pub is_deprecated: bool,
}

impl L2Orderbook {
    /// Worst-case serialized width of the record, as an exact sum over the
    /// field list: the 32-byte authority, three labels of a 4-byte length
    /// prefix plus a 12-byte payload cap, two exponent bytes, two 8-byte tick
    /// sizes, two 8-byte timestamps, two ladders of `LEVEL_CAPACITY` rungs at
    /// 16 bytes each, and two flag bytes. Storage for a record must reserve
    /// exactly this many bytes at creation time.
    pub const MAXIMUM_SIZE: usize = 32 + 3 * (4 + 12) + 1 + 1 + 8 + 8 + 8 + 8 + 2 * (
    LEVEL_CAPACITY * 16) + 1 + 1;

    /// The record's standing invariant: once it is initialized, all three
    /// labels are non-empty, both tick sizes are strictly positive, and both
    /// ladders hold exactly the fixed capacity.
    pub open spec fn wf(self) -> bool {
        self.is_initialized ==> {
            &&& non_empty(self.market_name@)
            &&& non_empty(self.base_currency_name@)
            &&& non_empty(self.quote_currency_name@)
            &&& positive(self.minimum_price_increment)
            &&& positive(self.minimum_size_increment)
            &&& exact_capacity(self.bids@)
            &&& exact_capacity(self.asks@)
        }
    }

    /// The exact outcome of `create`: the first failing check names the
    /// error, and creation succeeds exactly when the record is still
    /// uninitialized, the labels are non-empty and the tick sizes positive.
    pub open spec fn create_result(
        self,
        market: Seq<char>,
        base_currency: Seq<char>,
        quote_currency: Seq<char>,
        minimum_size_increment: u64,
        minimum_price_increment: u64,
    ) -> Result<(), CustomError> {
        if self.is_initialized {
            Err(CustomError::OrderbookAlreadyInitialized)
        } else if !non_empty(market) {
            Err(CustomError::MarketEmpty)
        } else if !non_empty(base_currency) {
            Err(CustomError::BaseCurrencyEmpty)
        } else if !non_empty(quote_currency) {
            Err(CustomError::QuoteCurrencyEmpty)
        } else if !positive(minimum_size_increment) {
            Err(CustomError::MinimumSizeIncrementZero)
        } else if !positive(minimum_price_increment) {
            Err(CustomError::MinimumPriceIncrementZero)
        } else {
            Ok(())
        }
    }

    /// The exact outcome of `update_market`.
    pub open spec fn update_market_result(
        market: Seq<char>,
        base_currency: Seq<char>,
        quote_currency: Seq<char>,
    ) -> Result<(), CustomError> {
        if !non_empty(market) {
            Err(CustomError::MarketEmpty)
        } else if !non_empty(base_currency) {
            Err(CustomError::BaseCurrencyEmpty)
        } else if !non_empty(quote_currency) {
            Err(CustomError::QuoteCurrencyEmpty)
        } else {
            Ok(())
        }
    }

    /// The exact outcome of `update_bids_and_asks`: the bid ladder is
    /// checked before the ask ladder.
    pub open spec fn update_ladders_result(
        bids: Seq<PriceLevel>,
        asks: Seq<PriceLevel>,
    ) -> Result<(), CustomError> {
        if !exact_capacity(bids) {
            Err(CustomError::BidsLengthIncorrect)
        } else if !exact_capacity(asks) {
            Err(CustomError::AsksLengthIncorrect)
        } else {
            Ok(())
        }
    }

    /// The exact outcome of `set_deprecated`: it succeeds exactly when the
    /// record is not already deprecated.
    pub open spec fn set_deprecated_result(self) -> Result<(), CustomError> {
        if self.is_deprecated {
            Err(CustomError::OrderbookAlreadyDeprecated)
        } else {
            Ok(())
        }
    }

    /// Moves the record out of the uninitialized state, populating every
    /// field: the caller-supplied metadata, both timestamps stamped to `now`,
    /// and both ladders zero-filled at full capacity.
    pub fn create(
        &mut self,
        authority: Pubkey,
        market: String,
        base_currency: String,
        quote_currency: String,
        minimum_size_increment: u64,
        minimum_price_increment: u64,
        price_exponent: i8,
        size_exponent: i8,
        now: i64,
    ) -> (r: Result<(), CustomError>)
        ensures
            r == old(self).create_result(
                market@,
                base_currency@,
                quote_currency@,
                minimum_size_increment,
                minimum_price_increment,
            ),
            r is Err ==> *final(self) == *old(self),
            r is Ok ==> {
                &&& final(self).authority == authority
                &&& final(self).market_name == market
                &&& final(self).base_currency_name == base_currency
                &&& final(self).quote_currency_name == quote_currency
                &&& final(self).price_exponent == price_exponent
                &&& final(self).size_exponent == size_exponent
                &&& final(self).minimum_price_increment == minimum_price_increment
                &&& final(self).minimum_size_increment == minimum_size_increment
                &&& final(self).created_at == now
                &&& final(self).updated_at == now
                &&& final(self).bids@ == zeroed_ladder()
                &&& final(self).asks@ == zeroed_ladder()
                &&& final(self).is_initialized
                &&& !final(self).is_deprecated
            },
            r is Ok ==> final(self).wf(),
            old(self).wf() ==> final(self).wf(),
    {
        if self.is_initialized {
            return Err(CustomError::OrderbookAlreadyInitialized);
        }
        if market.as_str().is_empty() {
            return Err(CustomError::MarketEmpty);
        }
        if base_currency.as_str().is_empty() {
            return Err(CustomError::BaseCurrencyEmpty);
        }
        if quote_currency.as_str().is_empty() {
            return Err(CustomError::QuoteCurrencyEmpty);
        }
        if minimum_size_increment == 0 {
            return Err(CustomError::MinimumSizeIncrementZero);
        }
        if minimum_price_increment == 0 {
            return Err(CustomError::MinimumPriceIncrementZero);
        }
        self.authority = authority;
        self.created_at = now;
        self.updated_at = now;
        self.market_name = market;
        self.base_currency_name = base_currency;
        self.quote_currency_name = quote_currency;
        self.minimum_size_increment = minimum_size_increment;
        self.minimum_price_increment = minimum_price_increment;
        self.price_exponent = price_exponent;
        self.size_exponent = size_exponent;
        self.bids = make_zeroed_ladder();
        self.asks = make_zeroed_ladder();
        self.is_initialized = true;
        self.is_deprecated = false;
        Ok(())
    }

    /// Re-validates and replaces the three label fields, stamping
    /// `updated_at`; every other field keeps its value.
    pub fn update_market(
        &mut self,
        market: String,
        base_currency: String,
        quote_currency: String,
        now: i64,
    ) -> (r: Result<(), CustomError>)
        requires
            old(self).is_initialized,
        ensures
            r == Self::update_market_result(market@, base_currency@, quote_currency@),
            r is Err ==> *final(self) == *old(self),
            r is Ok ==> *final(self) == (L2Orderbook {
                market_name: market,
                base_currency_name: base_currency,
                quote_currency_name: quote_currency,
                updated_at: now,
                ..*old(self)
            }),
            old(self).wf() ==> final(self).wf(),
    {
        if market.as_str().is_empty() {
            return Err(CustomError::MarketEmpty);
        }
        if base_currency.as_str().is_empty() {
            return Err(CustomError::BaseCurrencyEmpty);
        }
        if quote_currency.as_str().is_empty() {
            return Err(CustomError::QuoteCurrencyEmpty);
        }
        self.market_name = market;
        self.base_currency_name = base_currency;
        self.quote_currency_name = quote_currency;
        self.updated_at = now;
        Ok(())
    }

    /// Wholesale replace of both ladders, stamping `updated_at`; no merge,
    /// the new ladders fully supersede the old ones.
    pub fn update_bids_and_asks(
        &mut self,
        bids: Vec<PriceLevel>,
        asks: Vec<PriceLevel>,
        now: i64,
    ) -> (r: Result<(), CustomError>)
        requires
            old(self).is_initialized,
        ensures
            r == Self::update_ladders_result(bids@, asks@),
            r is Err ==> *final(self) == *old(self),
            r is Ok ==> *final(self) == (L2Orderbook { bids, asks, updated_at: now, ..*old(
                self,
            ) }),
            old(self).wf() ==> final(self).wf(),
    {
        if bids.len() != LEVEL_CAPACITY {
            return Err(CustomError::BidsLengthIncorrect);
        }
        if asks.len() != LEVEL_CAPACITY {
            return Err(CustomError::AsksLengthIncorrect);
        }
        self.bids = bids;
        self.asks = asks;
        self.updated_at = now;
        Ok(())
    }

    /// Wholesale replace of the bid ladder alone, stamping `updated_at`;
    /// the ask ladder and every other field keep their values.
    pub fn update_bids(&mut self, bids: Vec<PriceLevel>, now: i64) -> (r: Result<
        (),
        CustomError,
    >)
        requires
            old(self).is_initialized,
        ensures
            r is Ok <==> exact_capacity(bids@),
            r is Err ==> r == Err::<(), CustomError>(CustomError::BidsLengthIncorrect)
                && *final(self) == *old(self),
            r is Ok ==> *final(self) == (L2Orderbook { bids, updated_at: now, ..*old(self) }),
            old(self).wf() ==> final(self).wf(),
    {
        if bids.len() != LEVEL_CAPACITY {
            return Err(CustomError::BidsLengthIncorrect);
        }
        self.bids = bids;
        self.updated_at = now;
        Ok(())
    }

    /// Wholesale replace of the ask ladder alone, stamping `updated_at`;
    /// the bid ladder and every other field keep their values.
    pub fn update_asks(&mut self, asks: Vec<PriceLevel>, now: i64) -> (r: Result<
        (),
        CustomError,
    >)
        requires
            old(self).is_initialized,
        ensures
            r is Ok <==> exact_capacity(asks@),
            r is Err ==> r == Err::<(), CustomError>(CustomError::AsksLengthIncorrect)
                && *final(self) == *old(self),
            r is Ok ==> *final(self) == (L2Orderbook { asks, updated_at: now, ..*old(self) }),
            old(self).wf() ==> final(self).wf(),
    {
        if asks.len() != LEVEL_CAPACITY {
            return Err(CustomError::AsksLengthIncorrect);
        }
        self.asks = asks;
        self.updated_at = now;
        Ok(())
    }

    /// Retires the market: flips `is_deprecated` to true and stamps
    /// `updated_at`; fails if the record is already deprecated.
    pub fn set_deprecated(&mut self, now: i64) -> (r: Result<(), CustomError>)
        requires
            old(self).is_initialized,
        ensures
            r == old(self).set_deprecated_result(),
            r is Err ==> *final(self) == *old(self),
            r is Ok ==> *final(self) == (L2Orderbook {
                is_deprecated: true,
                updated_at: now,
                ..*old(self)
            }),
            old(self).wf() ==> final(self).wf(),
    {
        if self.is_deprecated {
            return Err(CustomError::OrderbookAlreadyDeprecated);
        }
        self.is_deprecated = true;
        self.updated_at = now;
        Ok(())
    }

    /// Re-activates the market: force-sets `is_deprecated` to false and
    /// stamps `updated_at`. Deliberately unguarded, so it also succeeds on a
    /// record that is not deprecated — the asymmetry with `set_deprecated`
    /// is kept as designed.
    pub fn set_not_deprecated(&mut self, now: i64) -> (r: Result<(), CustomError>)
        requires
            old(self).is_initialized,
        ensures
            r is Ok,
            *final(self) == (L2Orderbook { is_deprecated: false, updated_at: now, ..*old(self) }),
            old(self).wf() ==> final(self).wf(),
    {
        self.is_deprecated = false;
        self.updated_at = now;
        Ok(())
    }

    /// Replaces the record's authority with a caller-supplied new identity,
    /// with no further validation, and stamps `updated_at`.
    pub fn transfer_authority(&mut self, authority: Pubkey, now: i64) -> (r: Result<
        (),
        CustomError,
    >)
        requires
            old(self).is_initialized,
        ensures
            r is Ok,
            *final(self) == (L2Orderbook { authority, updated_at: now, ..*old(self) }),
            old(self).wf() ==> final(self).wf(),
    {
        self.authority = authority;
        self.updated_at = now;
        Ok(())
    }

    /// Replaces the size tick size and its paired display exponent together,
    /// stamping `updated_at`; fails if the tick size is not positive.
    pub fn update_minimum_size_increment_and_exponent(
        &mut self,
        minimum_size_increment: u64,
        size_exponent: i8,
        now: i64,
    ) -> (r: Result<(), CustomError>)
        requires
            old(self).is_initialized,
        ensures
            r is Ok <==> positive(minimum_size_increment),
            r is Err ==> r == Err::<(), CustomError>(CustomError::MinimumSizeIncrementZero)
                && *final(self) == *old(self),
            r is Ok ==> *final(self) == (L2Orderbook {
                minimum_size_increment,
                size_exponent,
                updated_at: now,
                ..*old(self)
            }),
            old(self).wf() ==> final(self).wf(),
    {
        if minimum_size_increment == 0 {
            return Err(CustomError::MinimumSizeIncrementZero);
        }
        self.minimum_size_increment = minimum_size_increment;
        self.size_exponent = size_exponent;
        self.updated_at = now;
        Ok(())
    }

    /// Replaces the price tick size and its paired display exponent together,
    /// stamping `updated_at`; fails if the tick size is not positive.
    pub fn update_minimum_price_increment_and_exponent(
        &mut self,
        minimum_price_increment: u64,
        price_exponent: i8,
        now: i64,
    ) -> (r: Result<(), CustomError>)
        requires
            old(self).is_initialized,
        ensures
            r is Ok <==> positive(minimum_price_increment),
            r is Err ==> r == Err::<(), CustomError>(CustomError::MinimumPriceIncrementZero)
                && *final(self) == *old(self),
            r is Ok ==> *final(self) == (L2Orderbook {
                minimum_price_increment,
                price_exponent,
                updated_at: now,
                ..*old(self)
            }),
            old(self).wf() ==> final(self).wf(),
    {
        if minimum_price_increment == 0 {
            return Err(CustomError::MinimumPriceIncrementZero);
        }
        self.minimum_price_increment = minimum_price_increment;
        self.price_exponent = price_exponent;
        self.updated_at = now;
        Ok(())
    }
}

impl Default for L2Orderbook {
    /// A record in its uninitialized state: the all-zero authority, empty
    /// labels, zero metadata and timestamps, both ladders zero-filled at
    /// full capacity, and both lifecycle flags false.
    fn default() -> (r: L2Orderbook)
        ensures
            r.authority@ == Seq::new(32, |i: int| 0u8),
            r.market_name@ == Seq::<char>::empty(),
            r.base_currency_name@ == Seq::<char>::empty(),
            r.quote_currency_name@ == Seq::<char>::empty(),
            r.price_exponent == 0,
            r.size_exponent == 0,
            r.minimum_price_increment == 0,
            r.minimum_size_increment == 0,
            r.created_at == 0,
            r.updated_at == 0,
            r.bids@ == zeroed_ladder(),
            r.asks@ == zeroed_ladder(),
            !r.is_initialized,
            !r.is_deprecated,
            r.wf(),
    {
        L2Orderbook {
            authority: Pubkey::default(),
            market_name: String::new(),
            base_currency_name: String::new(),
            quote_currency_name: String::new(),
            minimum_size_increment: 0,
            minimum_price_increment: 0,
            price_exponent: 0,
            size_exponent: 0,
            created_at: 0,
            updated_at: 0,
            bids: make_zeroed_ladder(),
            asks: make_zeroed_ladder(),
            is_initialized: false,
            is_deprecated: false,
        }
    }
}

} // verus!
