use market_maker::{
    config_validation, config_within_limits, get_batch, get_close_batch, get_order_size_mm_linear,
    run_strategy_tick_live,
    get_liquidity_cancellation_transaction, get_liquidity_submission_transaction,
    run_strategy_tick, AssetInfo, Config, ConfigError, Decimals, MarketDataInfo, MarketInfo,
    PositionInfo, PositionSituation, RefPrice, Side, TickAction, TradeInfo, VegaStore, FP,
};

fn test_market() -> MarketInfo {
    MarketInfo {
        id: String::from("market-1"),
        instrument_name: String::from("FUT-1"),
        decimal_places: 2,
        position_decimal_places: 1,
        settlement_asset: String::from("asset-1"),
    }
}

fn test_decimals() -> Decimals {
    Decimals::new(&test_market(), &AssetInfo { id: String::from("asset-1"), decimals: 5 })
}

fn new_store(bid: &str, ask: &str) -> VegaStore {
    VegaStore::new(
        test_market(),
        MarketDataInfo {
            timestamp: 0,
            best_bid_price: String::from(bid),
            best_offer_price: String::from(ask),
        },
        vec![AssetInfo { id: String::from("asset-1"), decimals: 5 }],
    )
}

fn base_config() -> Config {
    Config {
        vega_market: String::from("market-1"),
        bond_amount: 50,
        lp_fee_bid: 2_000,
        volume_of_notional: 1000,
        buy_to_sell_ratio: FP,
        levels: 2,
        // step of 0.05 and tick of 0.01 in instrument terms: 5 and 1
        // market units at two price decimals.
        step: 50_000,
        tick_size: 10_000,
        price_range_factor: 500_000,
        q_lower: -3,
        q_upper: 3,
        pos_lim_scaling: 2_000_000,
        kappa: 500_000,
        kappa_weight: FP,
        lambd: 200_000,
        phi: 100_000,
        binance_price_scaling: FP,
        ref_price_scaling: FP,
        use_mid: false,
        use_vega_bidask: true,
        use_binance_bidask: false,
        use_bybit_bidask: false,
        use_vega_trades: true,
        allow_negative_offset: false,
        gtt_length: 60,
        dispose_prob: FP / 2,
        dispose_q_lower: -10,
        dispose_q_upper: 10,
        submission_rate: 3 * FP,
        dryrun: true,
    }
}

#[test]
fn config_validation_accepts_and_reports() {
    let good = base_config();
    assert_eq!(config_validation(&good), Ok(()));
    assert!(config_within_limits(&good));

    let mut c = base_config();
    c.step = 0;
    assert_eq!(config_validation(&c), Err(ConfigError::ZeroStep));
    let mut c = base_config();
    c.tick_size = 0;
    assert_eq!(config_validation(&c), Err(ConfigError::ZeroTickSize));
    let mut c = base_config();
    c.q_lower = 3;
    assert_eq!(config_validation(&c), Err(ConfigError::InvalidInventoryBounds));
    let mut c = base_config();
    c.pos_lim_scaling = FP - 1;
    assert_eq!(config_validation(&c), Err(ConfigError::PositionLimitScalingBelowOne));
    let mut c = base_config();
    c.kappa = 0;
    assert_eq!(config_validation(&c), Err(ConfigError::ZeroKappa));
    let mut c = base_config();
    c.kappa_weight = FP + 1;
    assert_eq!(config_validation(&c), Err(ConfigError::KappaWeightAboveOne));
    let mut c = base_config();
    c.use_vega_bidask = false;
    assert_eq!(config_validation(&c), Err(ConfigError::NoReferenceSource));
    let mut c = base_config();
    c.dispose_prob = FP + 1;
    assert_eq!(config_validation(&c), Err(ConfigError::DisposeProbabilityAboveOne));
    let mut c = base_config();
    c.dispose_q_lower = 10;
    assert_eq!(config_validation(&c), Err(ConfigError::InvalidDisposalBounds));
    let mut c = base_config();
    c.submission_rate = 100;
    assert_eq!(config_validation(&c), Err(ConfigError::SubmissionRateTooLow));
    let mut c = base_config();
    c.buy_to_sell_ratio = 0;
    assert_eq!(config_validation(&c), Err(ConfigError::ZeroBuyToSellRatio));
    let mut c = base_config();
    c.ref_price_scaling = 0;
    assert_eq!(config_validation(&c), Err(ConfigError::ZeroRefPriceScaling));
    let mut c = base_config();
    c.price_range_factor = 0;
    assert_eq!(config_validation(&c), Err(ConfigError::ZeroPriceRangeFactor));
}

#[test]
fn batch_ladder_prices_and_sizes() {
    let d = test_decimals();
    let batch = get_batch(
        String::from("market-1"),
        false,
        10000,
        10000,
        10010,
        0,
        0,
        10,
        PositionSituation::Normal,
        5000,
        10,
        PositionSituation::Normal,
        5000,
        2,
        5,
        1,
        1000,
        &d,
        false,
        123,
        false,
        false,
    );
    assert_eq!(batch.cancellations.len(), 1);
    assert_eq!(batch.cancellations[0].market_id, "market-1");
    assert_eq!(batch.cancellations[0].order_id, "");
    assert_eq!(batch.submissions.len(), 4);

    // Buy ladder descends from the bid reference by the offset and steps.
    assert_eq!(batch.submissions[0].price, 9990);
    assert_eq!(batch.submissions[1].price, 9985);
    assert!(matches!(batch.submissions[0].side, Side::Buy));
    // Quadratic ramp: ceil(63 * 1000 * (i+1)^2 * 1000 / (20 * 10000 * 8)).
    assert_eq!(batch.submissions[0].size, 40);
    assert_eq!(batch.submissions[1].size, 158);

    // Sell ladder ascends from the ask reference.
    assert_eq!(batch.submissions[2].price, 10020);
    assert_eq!(batch.submissions[3].price, 10025);
    assert!(matches!(batch.submissions[2].side, Side::Sell));
    assert_eq!(batch.submissions[2].size, 40);
    assert_eq!(batch.submissions[3].size, 158);

    for o in batch.submissions.iter() {
        assert_eq!(o.expires_at, 123);
        assert!(o.post_only);
        assert!(!o.reduce_only);
        assert_eq!(o.market_id, "market-1");
    }
}

#[test]
fn batch_edge_and_disposal_orders() {
    let d = test_decimals();
    let batch = get_batch(
        String::from("market-1"),
        false,
        10000,
        10000,
        10010,
        0,
        0,
        10,
        PositionSituation::OnTheEdge,
        5000,
        10,
        PositionSituation::HardStop,
        5000,
        2,
        5,
        1,
        1000,
        &d,
        false,
        123,
        true,
        false,
    );
    // One edge buy plus the short-disposal buy; nothing on the stopped
    // ask side.
    assert_eq!(batch.submissions.len(), 2);
    // Edge order at the worst offset: 10000 - 5000 = 5000; sized to meet
    // the full notional at that one price: ceil(11 * 1000 * 1000 / (10 * 5000)).
    assert_eq!(batch.submissions[0].price, 5000);
    assert_eq!(batch.submissions[0].size, 220);
    assert!(batch.submissions[0].post_only);
    // Disposal buy one unit inside the ask reference plus offset.
    assert_eq!(batch.submissions[1].price, 10010 + 10 - 1);
    assert_eq!(batch.submissions[1].size, 1);
    assert!(matches!(batch.submissions[1].side, Side::Buy));
    assert!(!batch.submissions[1].post_only);
}

#[test]
fn batch_buy_capped_below_venue_ask() {
    let d = test_decimals();
    let batch = get_batch(
        String::from("market-1"),
        false,
        10000,
        10000,
        10010,
        9980,
        9985,
        10,
        PositionSituation::Normal,
        5000,
        10,
        PositionSituation::HardStop,
        5000,
        1,
        5,
        1,
        1000,
        &d,
        false,
        123,
        false,
        false,
    );
    // The raw buy price 9990 would cross the venue's best ask 9985: it is
    // capped one tick below it.
    assert_eq!(batch.submissions[0].price, 9984);
}

#[test]
fn linear_ramp_sizes() {
    let d = test_decimals();
    // ceil(1.1 * 2 * 1000 * (i+1) * 1000 / (10000 * 4)) at two levels.
    assert_eq!(get_order_size_mm_linear(0, 1000, 2, 10000, &d), 55);
    assert_eq!(get_order_size_mm_linear(1, 1000, 2, 10000, &d), 110);
}

#[test]
fn close_batch_only_cancels() {
    let batch = get_close_batch(String::from("market-1"));
    assert_eq!(batch.cancellations.len(), 1);
    assert!(batch.submissions.is_empty());
}

#[test]
fn dry_run_builds_but_never_submits() {
    let c = base_config();
    let mut store = new_store("9900", "10100");
    let party = String::from("party-1");
    let r = run_strategy_tick(&c, &mut store, &party, 0, 0, 1_000_000, FP, FP);
    assert!(!matches!(r, TickAction::Submit(_)));
    match r {
        TickAction::DryRun(batch) => {
            assert_eq!(batch.cancellations.len(), 1);
            assert!(!batch.submissions.is_empty());
        },
        _ => panic!("expected a dry-run batch"),
    }
}

#[test]
fn live_tick_submits() {
    let mut c = base_config();
    c.dryrun = false;
    let mut store = new_store("9900", "10100");
    let party = String::from("party-1");
    let r = run_strategy_tick(&c, &mut store, &party, 0, 0, 1_000_000, FP, FP);
    assert!(matches!(r, TickAction::Submit(_)));
}

#[test]
fn unreadable_vega_quote_skips_tick() {
    let c = base_config();
    let mut store = new_store("garbled", "10100");
    let party = String::from("party-1");
    let r = run_strategy_tick(&c, &mut store, &party, 0, 0, 1_000_000, FP, FP);
    assert!(matches!(r, TickAction::Skip));
}

#[test]
fn tick_prunes_old_trades() {
    let c = base_config();
    let mut store = new_store("9900", "10100");
    let party = String::from("party-1");
    store.save_trade(&TradeInfo { timestamp: 5, price: String::from("9950"), size: 1 });
    let now: u64 = 10_000_000_000_000;
    store.save_trade(&TradeInfo { timestamp: now - 1, price: String::from("9950"), size: 1 });
    let _ = run_strategy_tick(&c, &mut store, &party, 0, 0, now, FP, FP);
    // The trade from far outside the half-hour estimation window is gone.
    let trades = store.get_trades();
    assert_eq!(trades.len(), 1);
    assert_eq!(trades[0].timestamp, now - 1);
}

#[test]
fn tick_respects_hard_stop() {
    let mut c = base_config();
    c.dryrun = true;
    let mut store = new_store("9900", "10100");
    let party = String::from("party-1");
    // A position far above the scaled upper bound stops the bid side; the
    // draws passed here never fire a disposal order.
    store.save_positions(vec![PositionInfo { party_id: String::from("party-1"), open_volume: 9 }]);
    let r = run_strategy_tick(&c, &mut store, &party, 0, 0, 1_000_000, FP, FP);
    match r {
        TickAction::DryRun(batch) => {
            // Only the ask ladder: two levels, no bid orders.
            assert_eq!(batch.submissions.len(), 2);
            assert!(batch.submissions.iter().all(|o| matches!(o.side, Side::Sell)));
        },
        _ => panic!("expected a dry-run batch"),
    }
}

#[test]
fn live_draws_still_never_submit_in_dry_run() {
    // The live tick draws its own disposal randomness; with a flat
    // position no draw can fire, and dry run still never submits.
    let c = base_config();
    let mut store = new_store("9900", "10100");
    let party = String::from("party-1");
    let r = run_strategy_tick_live(&c, &mut store, &party, 0, 0, 1_000_000);
    assert!(!matches!(r, TickAction::Submit(_)));
    assert!(matches!(r, TickAction::DryRun(_)));
}

#[test]
fn liquidity_transactions_scale_commitment() {
    let d = test_decimals();
    let sub = get_liquidity_submission_transaction(
        String::from("market-1"),
        50,
        2_000,
        String::from("basic_mm_bot"),
        &d,
    );
    assert_eq!(sub.commitment_amount, 5_000_000);
    assert_eq!(sub.fee, 2_000);
    assert_eq!(sub.reference, "basic_mm_bot");
    let cancel = get_liquidity_cancellation_transaction(String::from("market-1"));
    assert_eq!(cancel.market_id, "market-1");
}

#[test]
fn ref_price_slot_last_write_wins() {
    let mut rp = RefPrice::new();
    assert_eq!(rp.get(), (0, 0));
    rp.set(100, 101);
    rp.set(99, 102);
    assert_eq!(rp.get(), (99, 102));
}
