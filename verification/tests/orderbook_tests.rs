use l2ob::{
    authorized, deprecate, initialize, transfer_authority, undeprecate, update_asks, update_bids,
    update_bids_and_asks, update_market, CustomError, L2Orderbook, PriceLevel, Pubkey,
    LEVEL_CAPACITY,
};

fn key(b: u8) -> Pubkey {
    Pubkey::new([b; 32])
}

fn ladder(price: u64, size: u64) -> Vec<PriceLevel> {
    let mut v = Vec::new();
    for _ in 0..LEVEL_CAPACITY {
        v.push(PriceLevel { price, size });
    }
    v
}

fn created_book(authority: Pubkey, now: i64) -> L2Orderbook {
    let mut book = L2Orderbook::default();
    let r = initialize(
        &mut book,
        authority,
        "BTC-USD".to_owned(),
        "BTC".to_owned(),
        "USD".to_owned(),
        1,
        1,
        -2,
        -4,
        now,
    );
    assert_eq!(r, Ok(()));
    book
}

#[test]
fn create_populates_every_field() {
    let auth = key(1);
    let book = created_book(auth, 100);
    assert!(book.is_initialized);
    assert!(!book.is_deprecated);
    assert_eq!(book.created_at, 100);
    assert_eq!(book.updated_at, 100);
    assert_eq!(book.created_at, book.updated_at);
    assert_eq!(book.market_name, "BTC-USD");
    assert_eq!(book.base_currency_name, "BTC");
    assert_eq!(book.quote_currency_name, "USD");
    assert_eq!(book.minimum_size_increment, 1);
    assert_eq!(book.minimum_price_increment, 1);
    assert_eq!(book.price_exponent, -2);
    assert_eq!(book.size_exponent, -4);
    assert_eq!(book.authority, auth);
    assert_eq!(book.bids.len(), LEVEL_CAPACITY);
    assert_eq!(book.asks.len(), LEVEL_CAPACITY);
    for level in book.bids.iter().chain(book.asks.iter()) {
        assert_eq!(*level, PriceLevel { price: 0, size: 0 });
    }
}

#[test]
fn create_on_initialized_record_fails_and_changes_nothing() {
    let mut book = created_book(key(1), 100);
    let r = initialize(
        &mut book,
        key(2),
        "ETH-USD".to_owned(),
        "ETH".to_owned(),
        "USD".to_owned(),
        5,
        5,
        0,
        0,
        200,
    );
    assert_eq!(r, Err(CustomError::OrderbookAlreadyInitialized));
    assert_eq!(book.authority, key(1));
    assert_eq!(book.market_name, "BTC-USD");
    assert_eq!(book.base_currency_name, "BTC");
    assert_eq!(book.quote_currency_name, "USD");
    assert_eq!(book.minimum_size_increment, 1);
    assert_eq!(book.minimum_price_increment, 1);
    assert_eq!(book.price_exponent, -2);
    assert_eq!(book.size_exponent, -4);
    assert_eq!(book.created_at, 100);
    assert_eq!(book.updated_at, 100);
    assert!(book.is_initialized);
    assert!(!book.is_deprecated);
}

#[test]
fn create_rejects_empty_market() {
    let mut book = L2Orderbook::default();
    let r = initialize(
        &mut book,
        key(1),
        String::new(),
        "BTC".to_owned(),
        "USD".to_owned(),
        1,
        1,
        0,
        0,
        100,
    );
    assert_eq!(r, Err(CustomError::MarketEmpty));
    assert!(!book.is_initialized);
}

#[test]
fn create_rejects_empty_base_currency() {
    let mut book = L2Orderbook::default();
    let r = initialize(
        &mut book,
        key(1),
        "BTC-USD".to_owned(),
        String::new(),
        "USD".to_owned(),
        1,
        1,
        0,
        0,
        100,
    );
    assert_eq!(r, Err(CustomError::BaseCurrencyEmpty));
    assert!(!book.is_initialized);
}

#[test]
fn create_rejects_empty_quote_currency() {
    let mut book = L2Orderbook::default();
    let r = initialize(
        &mut book,
        key(1),
        "BTC-USD".to_owned(),
        "BTC".to_owned(),
        String::new(),
        1,
        1,
        0,
        0,
        100,
    );
    assert_eq!(r, Err(CustomError::QuoteCurrencyEmpty));
    assert!(!book.is_initialized);
}

#[test]
fn create_rejects_zero_size_increment() {
    let mut book = L2Orderbook::default();
    let r = initialize(
        &mut book,
        key(1),
        "BTC-USD".to_owned(),
        "BTC".to_owned(),
        "USD".to_owned(),
        0,
        1,
        0,
        0,
        100,
    );
    assert_eq!(r, Err(CustomError::MinimumSizeIncrementZero));
    assert!(!book.is_initialized);
}

#[test]
fn create_rejects_zero_price_increment() {
    let mut book = L2Orderbook::default();
    let r = initialize(
        &mut book,
        key(1),
        "BTC-USD".to_owned(),
        "BTC".to_owned(),
        "USD".to_owned(),
        1,
        0,
        0,
        0,
        100,
    );
    assert_eq!(r, Err(CustomError::MinimumPriceIncrementZero));
    assert!(!book.is_initialized);
}

#[test]
fn unauthorized_caller_changes_no_field() {
    let auth = key(1);
    let stranger = key(9);
    let mut book = created_book(auth, 100);

    let r = update_bids(&mut book, &stranger, ladder(5, 5), 101);
    assert_eq!(r, Err(CustomError::InvalidAuthority));
    let r = update_asks(&mut book, &stranger, ladder(5, 5), 101);
    assert_eq!(r, Err(CustomError::InvalidAuthority));
    let r = update_bids_and_asks(&mut book, &stranger, ladder(5, 5), ladder(6, 6), 101);
    assert_eq!(r, Err(CustomError::InvalidAuthority));
    let r = update_market(
        &mut book,
        &stranger,
        "X".to_owned(),
        "Y".to_owned(),
        "Z".to_owned(),
        101,
    );
    assert_eq!(r, Err(CustomError::InvalidAuthority));
    let r = deprecate(&mut book, &stranger, 101);
    assert_eq!(r, Err(CustomError::InvalidAuthority));
    let r = undeprecate(&mut book, &stranger, 101);
    assert_eq!(r, Err(CustomError::InvalidAuthority));
    let r = transfer_authority(&mut book, &stranger, stranger, 101);
    assert_eq!(r, Err(CustomError::InvalidAuthority));

    assert_eq!(book.authority, auth);
    assert_eq!(book.market_name, "BTC-USD");
    assert_eq!(book.updated_at, 100);
    assert!(!book.is_deprecated);
    for level in book.bids.iter().chain(book.asks.iter()) {
        assert_eq!(*level, PriceLevel { price: 0, size: 0 });
    }
}

#[test]
fn update_bids_then_asks_are_independent() {
    let auth = key(1);
    let mut book = created_book(auth, 100);
    let bids = ladder(10, 1);
    let asks = ladder(11, 2);

    assert_eq!(update_bids(&mut book, &auth, bids.clone(), 101), Ok(()));
    assert_eq!(update_asks(&mut book, &auth, asks.clone(), 102), Ok(()));

    assert_eq!(book.bids, bids);
    assert_eq!(book.asks, asks);
    assert_eq!(book.updated_at, 102);
}

#[test]
fn update_bids_and_asks_replaces_both_sides() {
    let auth = key(1);
    let mut book = created_book(auth, 100);
    let bids = ladder(10, 1);
    let asks = ladder(11, 2);
    assert_eq!(
        update_bids_and_asks(&mut book, &auth, bids.clone(), asks.clone(), 105),
        Ok(())
    );
    assert_eq!(book.bids, bids);
    assert_eq!(book.asks, asks);
    assert_eq!(book.updated_at, 105);
}

#[test]
fn wrong_length_ladders_are_rejected() {
    let auth = key(1);
    let mut book = created_book(auth, 100);
    let mut short = ladder(10, 1);
    short.pop();

    let r = update_bids(&mut book, &auth, short.clone(), 101);
    assert_eq!(r, Err(CustomError::BidsLengthIncorrect));
    let r = update_asks(&mut book, &auth, short.clone(), 101);
    assert_eq!(r, Err(CustomError::AsksLengthIncorrect));
    let r = update_bids_and_asks(&mut book, &auth, short.clone(), ladder(1, 1), 101);
    assert_eq!(r, Err(CustomError::BidsLengthIncorrect));
    let r = update_bids_and_asks(&mut book, &auth, ladder(1, 1), short, 101);
    assert_eq!(r, Err(CustomError::AsksLengthIncorrect));

    assert_eq!(book.updated_at, 100);
    for level in book.bids.iter().chain(book.asks.iter()) {
        assert_eq!(*level, PriceLevel { price: 0, size: 0 });
    }
}

#[test]
fn deprecate_twice_fails_and_flag_stays_set() {
    let auth = key(1);
    let mut book = created_book(auth, 100);
    assert_eq!(deprecate(&mut book, &auth, 101), Ok(()));
    assert!(book.is_deprecated);
    assert_eq!(book.updated_at, 101);

    assert_eq!(
        deprecate(&mut book, &auth, 102),
        Err(CustomError::OrderbookAlreadyDeprecated)
    );
    assert!(book.is_deprecated);
    assert_eq!(book.updated_at, 101);
}

#[test]
fn undeprecate_is_deliberately_unguarded() {
    let auth = key(1);
    let mut book = created_book(auth, 100);
    assert!(!book.is_deprecated);
    assert_eq!(undeprecate(&mut book, &auth, 101), Ok(()));
    assert!(!book.is_deprecated);
    assert_eq!(book.updated_at, 101);

    assert_eq!(deprecate(&mut book, &auth, 102), Ok(()));
    assert!(book.is_deprecated);
    assert_eq!(undeprecate(&mut book, &auth, 103), Ok(()));
    assert!(!book.is_deprecated);
    assert_eq!(book.updated_at, 103);
}

#[test]
fn mutations_allowed_while_deprecated() {
    let auth = key(1);
    let mut book = created_book(auth, 100);
    assert_eq!(deprecate(&mut book, &auth, 101), Ok(()));
    assert_eq!(update_bids(&mut book, &auth, ladder(3, 4), 102), Ok(()));
    assert!(book.is_deprecated);
    assert_eq!(book.bids, ladder(3, 4));
    assert_eq!(book.updated_at, 102);
}

#[test]
fn scenario_btc_usd_create_then_zero_bids() {
    let auth = key(1);
    let mut book = created_book(auth, 100);

    let zeros = ladder(0, 0);
    assert_eq!(update_bids(&mut book, &auth, zeros.clone(), 107), Ok(()));

    assert_eq!(book.bids, zeros);
    assert_eq!(book.updated_at, 107);
    assert_eq!(book.asks, ladder(0, 0));
    assert_eq!(book.created_at, 100);
    assert_eq!(book.market_name, "BTC-USD");
    assert_eq!(book.base_currency_name, "BTC");
    assert_eq!(book.quote_currency_name, "USD");
    assert_eq!(book.minimum_size_increment, 1);
    assert_eq!(book.minimum_price_increment, 1);
    assert_eq!(book.price_exponent, -2);
    assert_eq!(book.size_exponent, -4);
    assert!(book.is_initialized);
    assert!(!book.is_deprecated);
}

#[test]
fn transfer_authority_hands_over_control() {
    let a = key(1);
    let b = key(2);
    let mut book = created_book(a, 100);

    assert_eq!(transfer_authority(&mut book, &a, b, 101), Ok(()));
    assert_eq!(book.authority, b);
    assert_eq!(book.updated_at, 101);

    let r = update_bids(&mut book, &a, ladder(7, 7), 102);
    assert_eq!(r, Err(CustomError::InvalidAuthority));
    assert_eq!(book.updated_at, 101);

    assert_eq!(update_bids(&mut book, &b, ladder(7, 7), 103), Ok(()));
    assert_eq!(book.bids, ladder(7, 7));
    assert_eq!(book.updated_at, 103);
}

#[test]
fn update_market_replaces_labels_only() {
    let auth = key(1);
    let mut book = created_book(auth, 100);
    assert_eq!(
        update_market(
            &mut book,
            &auth,
            "ETH-USD".to_owned(),
            "ETH".to_owned(),
            "USDC".to_owned(),
            110,
        ),
        Ok(())
    );
    assert_eq!(book.market_name, "ETH-USD");
    assert_eq!(book.base_currency_name, "ETH");
    assert_eq!(book.quote_currency_name, "USDC");
    assert_eq!(book.updated_at, 110);
    assert_eq!(book.created_at, 100);
    assert_eq!(book.minimum_size_increment, 1);
    assert_eq!(book.authority, auth);
}

#[test]
fn update_market_rejects_empty_labels() {
    let auth = key(1);
    let mut book = created_book(auth, 100);
    let r = update_market(
        &mut book,
        &auth,
        String::new(),
        "ETH".to_owned(),
        "USD".to_owned(),
        110,
    );
    assert_eq!(r, Err(CustomError::MarketEmpty));
    let r = update_market(
        &mut book,
        &auth,
        "ETH-USD".to_owned(),
        String::new(),
        "USD".to_owned(),
        110,
    );
    assert_eq!(r, Err(CustomError::BaseCurrencyEmpty));
    let r = update_market(
        &mut book,
        &auth,
        "ETH-USD".to_owned(),
        "ETH".to_owned(),
        String::new(),
        110,
    );
    assert_eq!(r, Err(CustomError::QuoteCurrencyEmpty));
    assert_eq!(book.market_name, "BTC-USD");
    assert_eq!(book.updated_at, 100);
}

#[test]
fn tick_size_updates_validate_positivity() {
    let auth = key(1);
    let mut book = created_book(auth, 100);

    assert_eq!(
        book.update_minimum_size_increment_and_exponent(25, -3, 111),
        Ok(())
    );
    assert_eq!(book.minimum_size_increment, 25);
    assert_eq!(book.size_exponent, -3);
    assert_eq!(book.updated_at, 111);

    assert_eq!(
        book.update_minimum_size_increment_and_exponent(0, -5, 112),
        Err(CustomError::MinimumSizeIncrementZero)
    );
    assert_eq!(book.minimum_size_increment, 25);
    assert_eq!(book.size_exponent, -3);
    assert_eq!(book.updated_at, 111);

    assert_eq!(
        book.update_minimum_price_increment_and_exponent(50, -6, 113),
        Ok(())
    );
    assert_eq!(book.minimum_price_increment, 50);
    assert_eq!(book.price_exponent, -6);
    assert_eq!(book.updated_at, 113);

    assert_eq!(
        book.update_minimum_price_increment_and_exponent(0, -7, 114),
        Err(CustomError::MinimumPriceIncrementZero)
    );
    assert_eq!(book.minimum_price_increment, 50);
    assert_eq!(book.price_exponent, -6);
    assert_eq!(book.updated_at, 113);
}

#[test]
fn authorized_compares_identity_bytes() {
    let auth = key(1);
    let book = created_book(auth, 100);
    assert_eq!(authorized(&book, &key(1)), Ok(()));
    assert_eq!(
        authorized(&book, &key(2)),
        Err(CustomError::InvalidAuthority)
    );
    let mut almost = [1u8; 32];
    almost[31] = 2;
    assert_eq!(
        authorized(&book, &Pubkey::new(almost)),
        Err(CustomError::InvalidAuthority)
    );
}

#[test]
fn pubkey_equality_is_byte_equality() {
    assert_eq!(key(3), key(3));
    assert_ne!(key(3), key(4));
    let mut almost = [3u8; 32];
    almost[0] = 4;
    assert_ne!(key(3), Pubkey::new(almost));
    assert_eq!(Pubkey::default(), key(0));
}

#[test]
fn default_record_is_uninitialized() {
    let book = L2Orderbook::default();
    assert!(!book.is_initialized);
    assert!(!book.is_deprecated);
    assert_eq!(book.market_name, "");
    assert_eq!(book.base_currency_name, "");
    assert_eq!(book.quote_currency_name, "");
    assert_eq!(book.minimum_size_increment, 0);
    assert_eq!(book.minimum_price_increment, 0);
    assert_eq!(book.created_at, 0);
    assert_eq!(book.updated_at, 0);
    assert_eq!(book.authority, Pubkey::default());
    assert_eq!(book.bids.len(), LEVEL_CAPACITY);
    assert_eq!(book.asks.len(), LEVEL_CAPACITY);
    for level in book.bids.iter().chain(book.asks.iter()) {
        assert_eq!(*level, PriceLevel { price: 0, size: 0 });
    }
}

#[test]
fn maximum_size_is_the_exact_field_sum() {
    assert_eq!(LEVEL_CAPACITY, 64);
    assert_eq!(
        L2Orderbook::MAXIMUM_SIZE,
        32 + 3 * (4 + 12) + 1 + 1 + 8 + 8 + 8 + 8 + 2 * (64 * 16) + 1 + 1
    );
    assert_eq!(L2Orderbook::MAXIMUM_SIZE, 2164);
}
