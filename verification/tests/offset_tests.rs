use market_maker::{
    ask_side_situation, bid_side_situation, calculate_offsets, combine_reference_prices,
    decide_disposal, offsets_from_position, Decimals, PositionSituation, AssetInfo, MarketInfo,
};

#[test]
fn test_calculate_offsets() {
    let q_lower = -3;
    let q_upper = 3;
    let kappa = 500_000;
    let lambd = 200_000;
    let phi = 100_000;

    let (buy_deltas, sell_deltas) = calculate_offsets(q_lower, q_upper, kappa, lambd, phi);

    // Check we can run and get the right lengths
    assert_eq!(buy_deltas.len(), (q_upper - q_lower) as usize);
    assert_eq!(sell_deltas.len(), (q_upper - q_lower) as usize);
}

#[test]
fn test_offsets_from_position() {
    let q_lower = -3;
    let q_upper = 3;

    // first test 0 position
    let pos = 0;
    let (buy_deltas, sell_deltas) = calculate_offsets(q_lower, q_upper, 500_000, 200_000, 100_000);
    let (ask_offset, submit_asks, bid_offset, submit_bids) =
        offsets_from_position(buy_deltas, sell_deltas, q_lower, q_upper, pos);

    // With zero position we want to submit both asks and bids and we want the offsets equal
    assert_eq!(submit_asks, true);
    assert_eq!(submit_bids, true);
    assert_eq!(ask_offset, bid_offset);

    // test position at lower boundary
    let pos: i64 = -3;
    let (buy_deltas, sell_deltas) = calculate_offsets(q_lower, q_upper, 500_000, 200_000, 100_000);
    let (_ask_offset, submit_asks, bid_offset, submit_bids) =
        offsets_from_position(buy_deltas, sell_deltas, q_lower, q_upper, pos);

    // With pos at lower boundary we don't want to sell, we want to buy
    assert_eq!(submit_asks, false);
    assert_eq!(submit_bids, true);
    let inv_low_bdry_bid = bid_offset;

    // test position below lower boundary
    let pos: i64 = -4;
    let (buy_deltas, sell_deltas) = calculate_offsets(q_lower, q_upper, 500_000, 200_000, 100_000);
    let (_ask_offset, submit_asks, bid_offset, submit_bids) =
        offsets_from_position(buy_deltas, sell_deltas, q_lower, q_upper, pos);

    // With pos below lower boundary we don't want to sell, we want to buy
    assert_eq!(submit_asks, false);
    assert_eq!(submit_bids, true);
    assert_eq!(bid_offset, inv_low_bdry_bid);

    // test position at upper boundary
    let pos: i64 = 3;
    let (buy_deltas, sell_deltas) = calculate_offsets(q_lower, q_upper, 500_000, 200_000, 100_000);
    let (ask_offset, submit_asks, _bid_offset, submit_bids) =
        offsets_from_position(buy_deltas, sell_deltas, q_lower, q_upper, pos);

    // With pos at upper boundary we don't want to buy, we want to sell
    assert_eq!(submit_asks, true);
    assert_eq!(submit_bids, false);
    assert_eq!(ask_offset, inv_low_bdry_bid); // and we want the extreme offsets matching

    // test position above upper boundary
    let pos: i64 = 4;
    let (buy_deltas, sell_deltas) = calculate_offsets(q_lower, q_upper, 500_000, 200_000, 100_000);
    let (ask_offset, submit_asks, _bid_offset, submit_bids) =
        offsets_from_position(buy_deltas, sell_deltas, q_lower, q_upper, pos);

    // With pos above upper boundary we don't want to buy, we want to sell
    assert_eq!(submit_asks, true);
    assert_eq!(submit_bids, false);
    assert_eq!(ask_offset, inv_low_bdry_bid); // and we want the extreme offsets matching
}

#[test]
fn zero_phi_gives_flat_ladder() {
    // With no risk aversion the scale term vanishes and every level quotes
    // the bare half-spread 1/kappa = 2.0.
    let (buy_deltas, sell_deltas) = calculate_offsets(-2, 2, 500_000, 200_000, 0);
    for d in buy_deltas.iter() {
        assert_eq!(*d, 2_000_000);
    }
    for d in sell_deltas.iter() {
        assert_eq!(*d, 2_000_000);
    }
}

#[test]
fn combine_two_venues_conservatively() {
    // Venue A (bid 100, ask 101) and venue B (bid 99, ask 102): the used
    // bid is the smaller bid and the used ask the larger ask.
    let combined = combine_reference_prices(true, true, 100, 101, 99, 102);
    assert_eq!(combined, Some((99, 102)));
}

#[test]
fn combine_single_or_no_venue() {
    assert_eq!(combine_reference_prices(true, false, 100, 101, 99, 102), Some((100, 101)));
    assert_eq!(combine_reference_prices(false, true, 100, 101, 99, 102), Some((99, 102)));
    assert_eq!(combine_reference_prices(false, false, 100, 101, 99, 102), None);
    // A non-positive price on an enabled venue defers the tick.
    assert_eq!(combine_reference_prices(true, true, 0, 101, 99, 102), None);
    assert_eq!(combine_reference_prices(true, true, 100, 101, 99, 0), None);
}

#[test]
fn risk_gate_states() {
    // Quoting allowed: always normal.
    assert_eq!(
        ask_side_situation(true, -10, -3, 2_000_000),
        PositionSituation::Normal
    );
    // Disallowed and beyond the scaled bound -3 * 2.0 = -6: hard stop.
    assert_eq!(
        ask_side_situation(false, -10, -3, 2_000_000),
        PositionSituation::HardStop
    );
    // Disallowed but inside the scaled bound: on the edge.
    assert_eq!(
        ask_side_situation(false, -5, -3, 2_000_000),
        PositionSituation::OnTheEdge
    );
    assert_eq!(
        bid_side_situation(true, 10, 3, 2_000_000),
        PositionSituation::Normal
    );
    assert_eq!(
        bid_side_situation(false, 10, 3, 2_000_000),
        PositionSituation::HardStop
    );
    assert_eq!(
        bid_side_situation(false, 5, 3, 2_000_000),
        PositionSituation::OnTheEdge
    );
}

#[test]
fn disposal_draw_threshold() {
    assert!(decide_disposal(0, 1));
    assert!(!decide_disposal(1, 1));
    assert!(decide_disposal(999_999, 1_000_000));
    assert!(!decide_disposal(500_000, 0));
}

#[test]
fn decimals_factors_and_conversions() {
    let mkt = MarketInfo {
        id: String::from("m"),
        instrument_name: String::from("inst"),
        decimal_places: 2,
        position_decimal_places: 1,
        settlement_asset: String::from("a"),
    };
    let asset = AssetInfo { id: String::from("a"), decimals: 5 };
    let d = Decimals::new(&mkt, &asset);
    assert_eq!(d.price_factor, 100);
    assert_eq!(d.position_factor, 10);
    assert_eq!(d.asset_factor, 100_000);
    // 1.5 in fixed point is 150 market price units at two decimals.
    assert_eq!(d.to_market_price_precision(1_500_000), 150);
    // 150 market units back to fixed point.
    assert_eq!(d.from_market_price_precision(150), 1_500_000);
    assert_eq!(d.to_market_position_precision(2_000_000), 20);
    assert_eq!(d.from_asset_precision(1_000_000), 10);
}
