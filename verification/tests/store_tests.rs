use market_maker::{AssetInfo, MarketDataInfo, MarketInfo, PositionInfo, TradeInfo, VegaStore};

fn test_market() -> MarketInfo {
    MarketInfo {
        id: String::from("market-1"),
        instrument_name: String::from("FUT-1"),
        decimal_places: 2,
        position_decimal_places: 1,
        settlement_asset: String::from("asset-1"),
    }
}

fn test_assets() -> Vec<AssetInfo> {
    vec![AssetInfo { id: String::from("asset-1"), decimals: 5 }]
}

fn snapshot(ts: u64, bid: &str, ask: &str) -> MarketDataInfo {
    MarketDataInfo {
        timestamp: ts,
        best_bid_price: String::from(bid),
        best_offer_price: String::from(ask),
    }
}

fn new_store() -> VegaStore {
    VegaStore::new(test_market(), snapshot(0, "9900", "10100"), test_assets())
}

#[test]
fn store_getters_round_trip() {
    let store = new_store();
    assert_eq!(store.get_market().id, "market-1");
    assert_eq!(store.get_market_data().best_bid_price, "9900");
    assert_eq!(store.get_asset(String::from("asset-1")).decimals, 5);
    assert_eq!(store.get_assets().len(), 1);
    assert!(store.get_trades().is_empty());
    assert!(store.get_position(&String::from("nobody")).is_none());
}

#[test]
fn positions_upsert_by_identity() {
    let mut store = new_store();
    store.save_positions(vec![
        PositionInfo { party_id: String::from("alice"), open_volume: 5 },
        PositionInfo { party_id: String::from("bob"), open_volume: -3 },
    ]);
    assert_eq!(store.get_position(&String::from("alice")).unwrap().open_volume, 5);
    assert_eq!(store.get_position(&String::from("bob")).unwrap().open_volume, -3);
    // Upsert replaces rather than duplicates.
    store.save_positions(vec![PositionInfo { party_id: String::from("alice"), open_volume: 7 }]);
    assert_eq!(store.get_position(&String::from("alice")).unwrap().open_volume, 7);
    assert_eq!(store.get_position(&String::from("bob")).unwrap().open_volume, -3);
}

#[test]
fn save_trade_joins_contemporaneous_snapshot() {
    let mut store = new_store();
    store.save_market_data(snapshot(100, "9950", "10050"));
    store.save_trade(&TradeInfo { timestamp: 100, price: String::from("10000"), size: 3 });
    let trades = store.get_trades();
    assert_eq!(trades.len(), 1);
    assert_eq!(trades[0].price, 10000);
    assert_eq!(trades[0].size, 3);
    assert_eq!(trades[0].block_best_bid, 9950);
    assert_eq!(trades[0].block_best_ask, 10050);
}

#[test]
fn save_trade_without_snapshot_gets_zero_quotes() {
    let mut store = new_store();
    store.save_trade(&TradeInfo { timestamp: 12345, price: String::from("10000"), size: 1 });
    let trades = store.get_trades();
    assert_eq!(trades.len(), 1);
    assert_eq!(trades[0].block_best_bid, 0);
    assert_eq!(trades[0].block_best_ask, 0);
}

#[test]
fn non_numeric_trade_price_is_dropped() {
    let mut store = new_store();
    store.save_trade(&TradeInfo { timestamp: 10, price: String::from("not-a-number"), size: 1 });
    assert!(store.get_trades().is_empty());
    // The stream is not aborted: the next good trade is recorded.
    store.save_trade(&TradeInfo { timestamp: 20, price: String::from("123"), size: 1 });
    assert_eq!(store.get_trades().len(), 1);
}

#[test]
fn out_of_order_trade_is_dropped() {
    let mut store = new_store();
    store.save_trade(&TradeInfo { timestamp: 100, price: String::from("10"), size: 1 });
    store.save_trade(&TradeInfo { timestamp: 50, price: String::from("11"), size: 1 });
    let trades = store.get_trades();
    assert_eq!(trades.len(), 1);
    assert_eq!(trades[0].timestamp, 100);
}

#[test]
fn update_trades_patches_retroactively() {
    let mut store = new_store();
    // The trade arrives before the snapshot of its block.
    store.save_trade(&TradeInfo { timestamp: 77, price: String::from("10000"), size: 1 });
    assert_eq!(store.get_trades()[0].block_best_bid, 0);
    store.save_market_data(snapshot(77, "9970", "10030"));
    let trades = store.get_trades();
    assert_eq!(trades[0].block_best_bid, 9970);
    assert_eq!(trades[0].block_best_ask, 10030);
}

#[test]
fn update_trades_ignores_non_numeric_fields() {
    let mut store = new_store();
    store.save_market_data(snapshot(77, "9970", "10030"));
    store.save_trade(&TradeInfo { timestamp: 77, price: String::from("10000"), size: 1 });
    // A later snapshot of the same block with one bad field patches only
    // the good one.
    store.save_market_data(snapshot(77, "garbled", "10040"));
    let trades = store.get_trades();
    assert_eq!(trades[0].block_best_bid, 9970);
    assert_eq!(trades[0].block_best_ask, 10040);
}

#[test]
fn prune_drops_everything_older() {
    let mut store = new_store();
    for ts in [10u64, 20, 30] {
        store.save_trade(&TradeInfo { timestamp: ts, price: String::from("5"), size: 1 });
    }
    store.prune_trades_older_than(25);
    let trades = store.get_trades();
    assert_eq!(trades.len(), 1);
    assert!(trades.iter().all(|t| t.timestamp >= 25));
    // Pruning at an arbitrary higher threshold empties the log.
    store.prune_trades_older_than(1000);
    assert!(store.get_trades().is_empty());
}

#[test]
fn trade_log_capacity_evicts_oldest() {
    let mut store = new_store();
    for i in 0..10002u64 {
        store.save_trade(&TradeInfo { timestamp: i, price: String::from("5"), size: 1 });
    }
    let trades = store.get_trades();
    assert_eq!(trades.len(), 10001);
    // The first recorded trade was evicted.
    assert_eq!(trades[0].timestamp, 1);
}

#[test]
fn snapshot_history_evicts_least_recently_used() {
    let mut store = new_store();
    // The store starts with the snapshot at timestamp 0; a thousand more
    // distinct timestamps push the history one past its capacity, so the
    // least recently used entry — timestamp 0 — is evicted.
    for ts in 1..=1000u64 {
        store.save_market_data(snapshot(ts, &format!("{}", 9000 + ts), &format!("{}", 9100 + ts)));
    }
    // A trade at the evicted timestamp finds no snapshot: zero quotes.
    store.save_trade(&TradeInfo { timestamp: 0, price: String::from("9500"), size: 1 });
    // A trade at a retained timestamp finds its snapshot.
    store.save_trade(&TradeInfo { timestamp: 500, price: String::from("9510"), size: 1 });
    let trades = store.get_trades();
    assert_eq!(trades[0].block_best_bid, 0);
    assert_eq!(trades[0].block_best_ask, 0);
    assert_eq!(trades[1].block_best_bid, 9500);
    assert_eq!(trades[1].block_best_ask, 9600);
}

#[test]
fn snapshot_history_refreshes_on_use() {
    let mut store = new_store();
    for ts in 1..=999u64 {
        store.save_market_data(snapshot(ts, "9000", "9100"));
    }
    // The history is now exactly full (timestamps 0..=999). Touch the
    // oldest entry by recording a trade against it, freshening it.
    store.save_trade(&TradeInfo { timestamp: 0, price: String::from("9050"), size: 1 });
    assert_eq!(store.get_trades()[0].block_best_bid, 9900);
    // One more snapshot evicts the least recently used entry, which is now
    // timestamp 1, not timestamp 0.
    store.save_market_data(snapshot(1000, "9000", "9100"));
    store.save_trade(&TradeInfo { timestamp: 1, price: String::from("9060"), size: 1 });
    store.save_trade(&TradeInfo { timestamp: 2, price: String::from("9070"), size: 1 });
    let trades = store.get_trades();
    // Timestamp 1 was evicted: zero quotes; timestamp 2 survives.
    assert_eq!(trades[1].block_best_bid, 0);
    assert_eq!(trades[2].block_best_bid, 9000);
}
