use market_maker::{
    estimate_kappa, estimate_kappa_blended, estimate_lambda, estimate_lambda2,
    generate_trades_unif, parse_u64_str, trade_is_buy, BuySellUnsure, TradeStat, FP,
};

#[test]
fn test_estimate_lambda_empty_input() {
    let empty_trades_vec = Vec::new();
    let lambd = estimate_lambda(FP, &empty_trades_vec);
    assert_eq!(lambd, FP);
}

#[test]
fn test_estimate_lambda_one_per_minute() {
    let trades_vec = generate_trades_unif(0, 600000000000, 10);
    let lambd = estimate_lambda(FP, &trades_vec);
    assert_eq!(lambd, FP);
}

#[test]
fn test_estimate_lambda2_one_per_minute() {
    let trades = generate_trades_unif(0, 600000000000, 10);
    let lambd = estimate_lambda2(FP, 600000000000, 600000000000, &trades);
    assert_eq!(lambd, FP);
}

#[test]
fn estimate_lambda_single_trade_returns_prior() {
    let trades = vec![TradeStat {
        timestamp: 42,
        price: 98,
        size: 1,
        block_best_bid: 99,
        block_best_ask: 101,
    }];
    assert_eq!(estimate_lambda(777, &trades), 777);
    assert_eq!(estimate_lambda2(777, 1000, 10, &Vec::new()), 777);
    assert_eq!(estimate_kappa(777, 1000, 10, &Vec::new(), 1), 777);
}

#[test]
fn estimate_lambda2_out_of_window_returns_prior() {
    // One old trade far outside the window: nothing qualifies.
    let trades = vec![TradeStat {
        timestamp: 0,
        price: 98,
        size: 1,
        block_best_bid: 99,
        block_best_ask: 101,
    }];
    assert_eq!(estimate_lambda2(555, 1_000_000, 10, &trades), 555);
}

#[test]
fn estimate_lambda2_zero_elapsed_returns_prior() {
    // The only qualifying trade is stamped exactly at the clock: no time
    // has elapsed, so the prior survives.
    let trades = vec![TradeStat {
        timestamp: 1000,
        price: 98,
        size: 1,
        block_best_bid: 99,
        block_best_ask: 101,
    }];
    assert_eq!(estimate_lambda2(555, 1000, 10_000, &trades), 555);
}

#[test]
fn estimate_kappa_exact_value() {
    // Each trade sits 2 units from the mid of (99, 101), so the distance
    // sum over 10 trades is 20 units and kappa = 10 / 20 = 0.5.
    let trades = generate_trades_unif(0, 600000000000, 10);
    let kappa = estimate_kappa(FP, 600000000000, 600000000000, &trades, 1);
    assert_eq!(kappa, 500_000);
}

#[test]
fn estimate_kappa_blended_weights() {
    let trades = generate_trades_unif(0, 600000000000, 10);
    // Full weight: the fresh estimate; zero weight: the prior.
    assert_eq!(
        estimate_kappa_blended(FP, FP, 600000000000, 600000000000, &trades, 1),
        500_000
    );
    assert_eq!(
        estimate_kappa_blended(FP, 0, 600000000000, 600000000000, &trades, 1),
        FP
    );
    // Half weight: the midpoint of 0.5 and 1.0.
    assert_eq!(
        estimate_kappa_blended(FP, FP / 2, 600000000000, 600000000000, &trades, 1),
        750_000
    );
}

#[test]
fn trade_side_classification() {
    let buy = TradeStat { timestamp: 0, price: 102, size: 1, block_best_bid: 99, block_best_ask: 101 };
    let sell = TradeStat { timestamp: 0, price: 98, size: 1, block_best_bid: 99, block_best_ask: 101 };
    let unsure = TradeStat { timestamp: 0, price: 100, size: 1, block_best_bid: 99, block_best_ask: 101 };
    assert!(matches!(trade_is_buy(buy), BuySellUnsure::Buy));
    assert!(matches!(trade_is_buy(sell), BuySellUnsure::Sell));
    assert!(matches!(trade_is_buy(unsure), BuySellUnsure::Unsure));
}

#[test]
fn parse_price_strings() {
    assert_eq!(parse_u64_str("123"), Some(123));
    assert_eq!(parse_u64_str("0"), Some(0));
    assert_eq!(parse_u64_str("18446744073709551615"), Some(u64::MAX));
    assert_eq!(parse_u64_str(""), None);
    assert_eq!(parse_u64_str("12a"), None);
    assert_eq!(parse_u64_str("-5"), None);
    assert_eq!(parse_u64_str("1.5"), None);
    assert_eq!(parse_u64_str("18446744073709551616"), None);
}
