use vstd::prelude::*;

verus! {

/// The reasons an operation on the order-book record can be refused.
///
/// Every failure is a caller-input or precondition violation; the record is
/// left untouched whenever one of these is returned. Lifecycle and
/// authorization violations are distinct variants from input-shape
/// violations, so a caller can tell "you may not" from "you supplied
/// something invalid".
#[derive(Clone, Copy, Debug, PartialEq, Eq, Structural)]
pub enum CustomError {
    /// A market label argument was empty.
    MarketEmpty,
    /// A base-currency label argument was empty.
    BaseCurrencyEmpty,
    /// A quote-currency label argument was empty.
    QuoteCurrencyEmpty,
    /// A size tick-size argument was not strictly positive.
    MinimumSizeIncrementZero,
    /// A price tick-size argument was not strictly positive.
    MinimumPriceIncrementZero,
    /// Creation was attempted on a record that is already initialized.
    OrderbookAlreadyInitialized,
    /// A supplied bid ladder did not have exactly the fixed capacity.
    BidsLengthIncorrect,
    /// A supplied ask ladder did not have exactly the fixed capacity.
    AsksLengthIncorrect,
    /// A deprecation was attempted on a record that is already deprecated.
    OrderbookAlreadyDeprecated,
    /// The caller's identity did not match the record's authority.
    InvalidAuthority,
}

} // verus!
