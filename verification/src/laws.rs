use vstd::prelude::*;

use crate::errors::CustomError;
use crate::level::PriceLevel;
use crate::orderbook::L2Orderbook;

verus! {

/// Creation on an already-initialized record is always refused with
/// `OrderbookAlreadyInitialized`, whatever else the input holds; `create`'s
/// own contract then guarantees the record is left exactly as it was.
pub proof fn lemma_create_refused_once_initialized(
    book: L2Orderbook,
    market: Seq<char>,
    base_currency: Seq<char>,
    quote_currency: Seq<char>,
    minimum_size_increment: u64,
    minimum_price_increment: u64,
)
    requires
        book.is_initialized,
    ensures
        book.create_result(
            market,
            base_currency,
            quote_currency,
            minimum_size_increment,
            minimum_price_increment,
        ) == Err::<(), CustomError>(CustomError::OrderbookAlreadyInitialized),
{
}

/// Replacing the bid ladder and then, immediately after, the ask ladder
/// leaves each side holding exactly the ladder supplied for it: the two
/// updates are independent. The hypotheses are the committed states that
/// `update_bids` and `update_asks` promise on success.
pub proof fn lemma_sides_independent(
    b0: L2Orderbook,
    b1: L2Orderbook,
    b2: L2Orderbook,
    bids: Vec<PriceLevel>,
    asks: Vec<PriceLevel>,
    t1: i64,
    t2: i64,
)
    requires
        b1 == (L2Orderbook { bids, updated_at: t1, ..b0 }),
        b2 == (L2Orderbook { asks, updated_at: t2, ..b1 }),
    ensures
        b2.bids == bids,
        b2.asks == asks,
        b2.authority == b0.authority,
        b2.is_initialized == b0.is_initialized,
        b2.is_deprecated == b0.is_deprecated,
        b2.created_at == b0.created_at,
{
}

/// Deprecating twice in a row: after one successful deprecation — whose
/// committed state is the hypothesis, as `set_deprecated` promises it — a
/// second attempt is refused with `OrderbookAlreadyDeprecated`, and the
/// flag remains set. `set_deprecated`'s own contract then guarantees the
/// refused call changes no field.
pub proof fn lemma_deprecate_twice(b0: L2Orderbook, b1: L2Orderbook, t1: i64)
    requires
        !b0.is_deprecated,
        b1 == (L2Orderbook { is_deprecated: true, updated_at: t1, ..b0 }),
    ensures
        b1.set_deprecated_result() == Err::<(), CustomError>(
            CustomError::OrderbookAlreadyDeprecated,
        ),
        b1.is_deprecated,
{
}

} // verus!
