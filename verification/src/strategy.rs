//! The per-tick decision of the strategy loop: read the store, combine
//! reference prices, re-estimate the market parameters over the pruned
//! trade history, derive the optimal offsets and the per-side risk state,
//! and build the order batch — or skip the tick when the reference data is
//! not usable. The process around the library performs the submission.

use vstd::prelude::*;

use crate::batch::{
    buy_price_spec, buy_ref_spec, eff_offset, get_batch, level_price, mm_size_spec, order_fields,
    quad_size_spec, sell_price_spec, sell_ref_spec, side_count, BatchMarketInstructions, Side,
    PRICE_MAX, STEP_MAX,
};
use crate::combiner::{combine_reference_prices, combine_spec};
use crate::config::{config_limits_spec, config_validation_spec, Config};
use crate::decimals::Decimals;
use crate::estimates::{
    estimate_kappa_blended, estimate_kappa_spec, estimate_lambda2, estimate_lambda2_spec,
};
use crate::fixed::{pow10, sat_div, FP};
use crate::offsets::{
    buy_delta, calculate_offsets, clamp_pos, inv_kappa_spec, offset_scale_spec,
    offsets_from_position, sell_delta, OFFSET_UNBOUNDED, PARAM_MAX,
};
use crate::risk::{
    ask_side_situation, ask_situation_spec, bid_side_situation, bid_situation_spec,
    decide_disposal, PositionSituation,
};
use crate::store::{find_position, keep_recent, parse_price_spec, VegaStore};

verus! {

/// The window, in nanoseconds, over which trades feed the estimators: half
/// an hour.
pub const ESTIMATION_INTERVAL_NS: u64 = 1_800_000_000_000;

/// What one tick resolves to: skip without touching the market, or an
/// order batch — submitted live, or only built and logged under dry run.
pub enum TickAction {
    Skip,
    DryRun(BatchMarketInstructions),
    Submit(BatchMarketInstructions),
}

/// The smaller of two values.
pub open spec fn min64(a: int, b: int) -> int {
    if a < b {
        a
    } else {
        b
    }
}

/// A fixed-point instrument distance brought to market units and clamped
/// into the builder's price range, sign preserved.
pub open spec fn offset_units_spec(off_fp: int, pf: int) -> int {
    if off_fp >= 0 {
        min64(off_fp * pf / (FP as int), PRICE_MAX as int)
    } else {
        -min64((-off_fp) * pf / (FP as int), PRICE_MAX as int)
    }
}

/// The widest offset allowed this tick: the mid price times the price
/// range factor less a safety margin of one thousandth, clamped into the
/// builder's price range.
pub open spec fn worst_offset_spec(mid_fp: int, prf: int) -> int {
    if prf >= 1000 {
        min64(mid_fp * (prf - 1000) / (FP as int), PRICE_MAX as int)
    } else {
        -min64(mid_fp * (1000 - prf) / (FP as int), PRICE_MAX as int)
    }
}

/// An estimated parameter clamped into the range the offset calculator
/// accepts.
pub open spec fn clamp_param_spec(x: int) -> int {
    if x < 1 {
        1
    } else if x > PARAM_MAX {
        PARAM_MAX as int
    } else {
        x
    }
}

/// The age threshold trades are pruned to: half an hour before `now`.
pub open spec fn tick_threshold(now: u64) -> u64 {
    if now > ESTIMATION_INTERVAL_NS {
        (now - ESTIMATION_INTERVAL_NS) as u64
    } else {
        0
    }
}

/// Everything the batch builder is handed for one tick, fully determined
/// by the configuration, the store, the external quotes, the clock and the
/// two disposal draws.
pub struct QuoteInputs {
    pub use_mid: bool,
    pub mid: int,
    pub used_bid: int,
    pub used_ask: int,
    pub vega_bid: int,
    pub vega_ask: int,
    pub bid_offset_u: int,
    pub ask_offset_u: int,
    pub worst_u: int,
    pub bid_sit: PositionSituation,
    pub ask_sit: PositionSituation,
    pub step_u: int,
    pub tick_u: int,
    pub expires_at: u64,
    pub dispose_short: bool,
    pub dispose_long: bool,
    pub pf: int,
    pub posf: int,
}

/// What the tick decides: `None` when it must be skipped — no usable
/// combined reference price, a reference beyond the model's price range,
/// or degenerate step or tick scales — and otherwise the batch builder's
/// exact inputs.
pub open spec fn tick_decision(
    c: Config,
    store: VegaStore,
    party: Seq<char>,
    ext_bid: u64,
    ext_ask: u64,
    now: u64,
    draw_short: u64,
    draw_long: u64,
) -> Option<QuoteInputs> {
    let mkt = store.market_spec();
    let pf = pow10(mkt.decimal_places as nat) as int;
    let posf = pow10(mkt.position_decimal_places as nat) as int;
    let md = store.market_data_spec();
    let vega_bid: u64 = if parse_price_spec(md.best_bid_price@) is Some {
        parse_price_spec(md.best_bid_price@)->0
    } else {
        0
    };
    let vega_ask: u64 = if parse_price_spec(md.best_offer_price@) is Some {
        parse_price_spec(md.best_offer_price@)->0
    } else {
        0
    };
    let comb = combine_spec(
        c.use_vega_bidask,
        c.use_binance_bidask,
        vega_bid,
        vega_ask,
        ext_bid,
        ext_ask,
    );
    if comb is None {
        None
    } else {
        let used_bid = (comb->0).0;
        let used_ask = (comb->0).1;
        if used_bid > PRICE_MAX || used_ask > PRICE_MAX || vega_bid > PRICE_MAX || vega_ask
            > PRICE_MAX {
            None
        } else {
            let step_u = sat_div(c.step * pf, FP as int);
            let tick_u = sat_div(c.tick_size * pf, FP as int);
            if step_u > STEP_MAX || tick_u == 0 || tick_u > STEP_MAX {
                None
            } else {
                let position: int = if find_position(store.positions_spec(), party) is Some {
                    (find_position(store.positions_spec(), party)->0).open_volume as int
                } else {
                    0
                };
                let trades0 = store.trades_spec();
                let pruned = keep_recent(trades0, tick_threshold(now));
                let lambd0: int = if trades0.len() > 0 {
                    estimate_lambda2_spec(c.lambd, now, ESTIMATION_INTERVAL_NS, pruned) as int
                } else {
                    c.lambd as int
                };
                let kappa0: int = if trades0.len() > 0 {
                    (c.kappa_weight * estimate_kappa_spec(
                        c.kappa,
                        now,
                        ESTIMATION_INTERVAL_NS,
                        pruned,
                        pow10(mkt.decimal_places as nat) as u64,
                    ) + (FP - c.kappa_weight) * c.kappa) / (FP as int)
                } else {
                    c.kappa as int
                };
                let lambd = clamp_param_spec(lambd0);
                let kappa = clamp_param_spec(kappa0);
                let inv = inv_kappa_spec(kappa);
                let scale = offset_scale_spec(kappa, lambd, c.phi as int);
                let pos_c = clamp_pos(position, c.q_lower as int, c.q_upper as int);
                let can_ask = pos_c > c.q_lower;
                let can_bid = pos_c < c.q_upper;
                let ask_fp: int = if can_ask {
                    sell_delta(inv, scale, pos_c)
                } else {
                    OFFSET_UNBOUNDED as int
                };
                let bid_fp: int = if can_bid {
                    buy_delta(inv, scale, pos_c)
                } else {
                    OFFSET_UNBOUNDED as int
                };
                let mid_u: int = (used_bid + used_ask) / 2;
                let mid_fp = sat_div(mid_u * FP, pf);
                let worst_fp = worst_offset_spec(mid_fp, c.price_range_factor as int);
                let ask2 = min64(ask_fp, worst_fp);
                let bid2 = min64(bid_fp, worst_fp);
                let gtt_ns: int = c.gtt_length * 1_000_000_000;
                Some(
                    QuoteInputs {
                        use_mid: c.use_mid,
                        mid: mid_u,
                        used_bid: used_bid as int,
                        used_ask: used_ask as int,
                        vega_bid: vega_bid as int,
                        vega_ask: vega_ask as int,
                        bid_offset_u: offset_units_spec(bid2, pf),
                        ask_offset_u: offset_units_spec(ask2, pf),
                        worst_u: offset_units_spec(worst_fp, pf),
                        bid_sit: bid_situation_spec(can_bid, position, c.q_upper as int,
                            c.pos_lim_scaling as int),
                        ask_sit: ask_situation_spec(can_ask, position, c.q_lower as int,
                            c.pos_lim_scaling as int),
                        step_u,
                        tick_u,
                        expires_at: (if now + gtt_ns > u64::MAX {
                            u64::MAX
                        } else {
                            (now + gtt_ns) as u64
                        }),
                        dispose_short: position <= c.dispose_q_lower && draw_short
                            < c.dispose_prob,
                        dispose_long: position >= c.dispose_q_upper && draw_long < c.dispose_prob,
                        pf,
                        posf,
                    },
                )
            }
        }
    }
}

/// Whether a built batch is exactly what the batch builder promises for
/// the given inputs: one cancel-all, the per-side ladders or edge orders,
/// and at most one disposal order.
pub open spec fn batch_matches(
    b: BatchMarketInstructions,
    market_id: Seq<char>,
    c: Config,
    qi: QuoteInputs,
) -> bool {
    let b_ref = buy_ref_spec(qi.use_mid, qi.mid, qi.used_bid);
    let s_ref = sell_ref_spec(qi.use_mid, qi.mid, qi.used_ask);
    let nb = side_count(qi.bid_sit, c.levels as int);
    let na = side_count(qi.ask_sit, c.levels as int);
    let von = c.volume_of_notional as int;
    &&& b.cancellations@.len() == 1
    &&& b.cancellations@[0].market_id@ == market_id
    &&& b.cancellations@[0].order_id@.len() == 0
    &&& b.submissions@.len() == nb + na + (if qi.dispose_short || qi.dispose_long {
        1int
    } else {
        0int
    })
    &&& (qi.bid_sit is Normal ==> forall|i: int|
        0 <= i < c.levels ==> order_fields(
            #[trigger] b.submissions@[i],
            market_id,
            Side::Buy,
            buy_price_spec(b_ref, eff_offset(qi.bid_offset_u, c.allow_negative_offset), i,
                qi.step_u, qi.vega_ask, qi.tick_u),
            quad_size_spec(von, i, c.levels as int, b_ref, qi.pf, qi.posf),
            qi.expires_at,
            true,
        ))
    &&& (qi.bid_sit is OnTheEdge ==> order_fields(
        b.submissions@[0],
        market_id,
        Side::Buy,
        buy_price_spec(b_ref, qi.worst_u, 0, qi.step_u, qi.vega_ask, qi.tick_u),
        mm_size_spec(
            von,
            1,
            buy_price_spec(b_ref, qi.worst_u, 0, qi.step_u, qi.vega_ask, qi.tick_u),
            qi.pf,
            qi.posf,
        ),
        qi.expires_at,
        true,
    ))
    &&& (qi.ask_sit is Normal ==> forall|i: int|
        0 <= i < c.levels ==> order_fields(
            #[trigger] b.submissions@[nb + i],
            market_id,
            Side::Sell,
            sell_price_spec(s_ref, eff_offset(qi.ask_offset_u, c.allow_negative_offset), i,
                qi.step_u, qi.vega_bid, qi.tick_u),
            quad_size_spec(von, i, c.levels as int, s_ref, qi.pf, qi.posf),
            qi.expires_at,
            true,
        ))
    &&& (qi.ask_sit is OnTheEdge ==> order_fields(
        b.submissions@[nb],
        market_id,
        Side::Sell,
        sell_price_spec(s_ref, qi.worst_u, 0, qi.step_u, qi.vega_bid, qi.tick_u),
        mm_size_spec(
            von,
            1,
            sell_price_spec(s_ref, qi.worst_u, 0, qi.step_u, qi.vega_bid, qi.tick_u),
            qi.pf,
            qi.posf,
        ),
        qi.expires_at,
        true,
    ))
    &&& (qi.dispose_short ==> order_fields(
        b.submissions@[nb + na],
        market_id,
        Side::Buy,
        level_price(s_ref + qi.ask_offset_u - 1, qi.tick_u),
        1,
        qi.expires_at,
        false,
    ))
    &&& (!qi.dispose_short && qi.dispose_long ==> order_fields(
        b.submissions@[nb + na],
        market_id,
        Side::Sell,
        level_price(b_ref - qi.bid_offset_u + 1, qi.tick_u),
        1,
        qi.expires_at,
        false,
    ))
}

/// Clamps an estimated parameter into `[1, PARAM_MAX]`.
fn clamp_param(x: u64) -> (r: u64)
    ensures
        r == clamp_param_spec(x as int),
{
    if x < 1 {
        1
    } else if x > PARAM_MAX {
        PARAM_MAX
    } else {
        x
    }
}

/// Computes `offset_units_spec` exactly.
fn offset_units(off_fp: i64, pf: u64) -> (r: i64)
    requires
        1 <= pf <= 1_000_000_000_000_000_000,
    ensures
        r == offset_units_spec(off_fp as int, pf as int),
        -(PRICE_MAX as int) <= r <= PRICE_MAX,
{
    if off_fp >= 0 {
        let wide: u128 = crate::fixed::mul_u64_u128(off_fp as u64, pf) / (FP as u128);
        if wide > PRICE_MAX as u128 {
            PRICE_MAX as i64
        } else {
            wide as u64 as i64
        }
    } else {
        let mag: u64 = if off_fp == i64::MIN {
            proof {
                assert(-(off_fp as int) == 0x8000_0000_0000_0000);
            }
            0x8000_0000_0000_0000u64
        } else {
            (-off_fp) as u64
        };
        let wide: u128 = crate::fixed::mul_u64_u128(mag, pf) / (FP as u128);
        if wide > PRICE_MAX as u128 {
            -(PRICE_MAX as i64)
        } else {
            -(wide as u64 as i64)
        }
    }
}

/// Computes `worst_offset_spec` exactly.
fn worst_offset(mid_fp: u64, prf: u64) -> (r: i64)
    requires
        prf <= PARAM_MAX,
    ensures
        r == worst_offset_spec(mid_fp as int, prf as int),
        -(PRICE_MAX as int) <= r <= PRICE_MAX,
{
    if prf >= 1000 {
        let wide: u128 = crate::fixed::mul_u64_u128(mid_fp, prf - 1000) / (FP as u128);
        if wide > PRICE_MAX as u128 {
            PRICE_MAX as i64
        } else {
            wide as u64 as i64
        }
    } else {
        let wide: u128 = crate::fixed::mul_u64_u128(mid_fp, 1000 - prf) / (FP as u128);
        if wide > PRICE_MAX as u128 {
            -(PRICE_MAX as i64)
        } else {
            -(wide as u64 as i64)
        }
    }
}

/// The smaller of two offsets.
fn min_i64(a: i64, b: i64) -> (r: i64)
    ensures
        r == min64(a as int, b as int),
{
    if a < b {
        a
    } else {
        b
    }
}

/// Runs one tick of the strategy against the given draws: reads the store,
/// combines the reference prices, prunes the trade log and re-estimates
/// lambda and kappa over it, derives the offsets and per-side risk states,
/// and builds the batch. Returns `Skip` — leaving the store untouched —
/// exactly when the combined reference price is unusable; otherwise the
/// built batch, as a dry-run action whenever the configuration says so, so
/// that a dry run never submits.
#[verifier::rlimit(100)]
pub fn run_strategy_tick(
    c: &Config,
    store: &mut VegaStore,
    party_id: &String,
    ext_bid: u64,
    ext_ask: u64,
    now: u64,
    draw_short: u64,
    draw_long: u64,
) -> (r: TickAction)
    requires
        old(store).wf(),
        config_validation_spec(*c) is Ok,
        config_limits_spec(*c),
    ensures
        final(store).wf(),
        final(store).market_spec() == old(store).market_spec(),
        final(store).market_data_spec() == old(store).market_data_spec(),
        final(store).history_spec() == old(store).history_spec(),
        final(store).positions_spec() == old(store).positions_spec(),
        final(store).assets_spec() == old(store).assets_spec(),
        final(store).trades_spec() == (if tick_decision(
            *c,
            *old(store),
            party_id@,
            ext_bid,
            ext_ask,
            now,
            draw_short,
            draw_long,
        ) is Some && old(store).trades_spec().len() > 0 {
            keep_recent(old(store).trades_spec(), tick_threshold(now))
        } else {
            old(store).trades_spec()
        }),
        c.dryrun ==> !(r is Submit),
        (r is Skip) <==> tick_decision(
            *c,
            *old(store),
            party_id@,
            ext_bid,
            ext_ask,
            now,
            draw_short,
            draw_long,
        ) is None,
        (tick_decision(*c, *old(store), party_id@, ext_bid, ext_ask, now, draw_short, draw_long)
            matches Some(qi) ==> {
            &&& (c.dryrun <==> r matches TickAction::DryRun(_))
            &&& (!c.dryrun <==> r matches TickAction::Submit(_))
            &&& (r matches TickAction::DryRun(b) ==> batch_matches(b, c.vega_market@, *c, qi))
            &&& (r matches TickAction::Submit(b) ==> batch_matches(b, c.vega_market@, *c, qi))
        }),
{
    let ghost store0 = *old(store);
    let mkt = store.get_market();
    let asset = store.get_asset(mkt.settlement_asset.clone());
    let d = Decimals::new(&mkt, &asset);

    let md = store.get_market_data();
    let vega_bid: u64 = match crate::fixed::parse_u64_str(md.best_bid_price.as_str()) {
        Some(v) => v,
        None => 0,
    };
    let vega_ask: u64 = match crate::fixed::parse_u64_str(md.best_offer_price.as_str()) {
        Some(v) => v,
        None => 0,
    };
    let combined = combine_reference_prices(
        c.use_vega_bidask,
        c.use_binance_bidask,
        vega_bid,
        vega_ask,
        ext_bid,
        ext_ask,
    );
    let (used_bid, used_ask): (u64, u64) = match combined {
        Some(p) => p,
        None => {
            return TickAction::Skip;
        },
    };
    if used_bid > PRICE_MAX || used_ask > PRICE_MAX || vega_bid > PRICE_MAX || vega_ask
        > PRICE_MAX {
        return TickAction::Skip;
    }
    let step_u = d.to_market_price_precision(c.step);
    let tick_u = d.to_market_price_precision(c.tick_size);
    if step_u > STEP_MAX || tick_u == 0 || tick_u > STEP_MAX {
        return TickAction::Skip;
    }

    let position: i64 = match store.get_position(party_id) {
        Some(p) => p.open_volume,
        None => 0,
    };

    let mut lambd = c.lambd;
    let mut kappa = c.kappa;
    let had_trades = store.get_trades().len() > 0;
    if had_trades {
        let threshold: u64 = if now > ESTIMATION_INTERVAL_NS {
            now - ESTIMATION_INTERVAL_NS
        } else {
            0
        };
        store.prune_trades_older_than(threshold);
        let trades = store.get_trades();
        lambd = estimate_lambda2(lambd, now, ESTIMATION_INTERVAL_NS, &trades);
        kappa = estimate_kappa_blended(
            kappa,
            c.kappa_weight,
            now,
            ESTIMATION_INTERVAL_NS,
            &trades,
            d.price_factor,
        );
    }
    let lambd_c = clamp_param(lambd);
    let kappa_c = clamp_param(kappa);

    let (buy_deltas, sell_deltas) = calculate_offsets(c.q_lower, c.q_upper, kappa_c, lambd_c,
        c.phi);
    let (ask_off_fp, submit_asks, bid_off_fp, submit_bids) = offsets_from_position(
        buy_deltas,
        sell_deltas,
        c.q_lower,
        c.q_upper,
        position,
    );
    proof {
        let pos_c = clamp_pos(position as int, c.q_lower as int, c.q_upper as int);
        assert(c.q_lower + 1 + (pos_c - c.q_lower - 1) == pos_c);
        assert(c.q_lower + (pos_c - c.q_lower) == pos_c);
    }

    let mid_u: u64 = (used_bid + used_ask) / 2;
    let mid_fp = d.from_market_price_precision(mid_u);
    let worst_fp = worst_offset(mid_fp, c.price_range_factor);
    let ask2 = min_i64(ask_off_fp, worst_fp);
    let bid2 = min_i64(bid_off_fp, worst_fp);

    let ask_sit = ask_side_situation(submit_asks, position, c.q_lower, c.pos_lim_scaling);
    let bid_sit = bid_side_situation(submit_bids, position, c.q_upper, c.pos_lim_scaling);

    let dispose_short: bool = if position <= c.dispose_q_lower {
        decide_disposal(draw_short, c.dispose_prob)
    } else {
        false
    };
    let dispose_long: bool = if position >= c.dispose_q_upper {
        decide_disposal(draw_long, c.dispose_prob)
    } else {
        false
    };

    let bid_off_u = offset_units(bid2, d.price_factor);
    let ask_off_u = offset_units(ask2, d.price_factor);
    let worst_u = offset_units(worst_fp, d.price_factor);

    let gtt_ns: u64 = c.gtt_length * 1_000_000_000;
    let expires_at: u64 = if now > u64::MAX - gtt_ns {
        u64::MAX
    } else {
        now + gtt_ns
    };

    let batch = get_batch(
        c.vega_market.clone(),
        c.use_mid,
        mid_u,
        used_bid,
        used_ask,
        vega_bid,
        vega_ask,
        bid_off_u,
        bid_sit,
        worst_u,
        ask_off_u,
        ask_sit,
        worst_u,
        c.levels,
        step_u,
        tick_u,
        c.volume_of_notional,
        &d,
        c.allow_negative_offset,
        expires_at,
        dispose_short,
        dispose_long,
    );
    if c.dryrun {
        TickAction::DryRun(batch)
    } else {
        TickAction::Submit(batch)
    }
}

/// Relies on `rand::random_range`: a uniform draw from `[0, bound)`.
#[verifier::external_body]
fn draw_below(bound: u64) -> (r: u64)
    requires
        bound >= 1,
    ensures
        r < bound,
{
    rand::random_range(0..bound)
}

/// Runs one tick with freshly drawn disposal randomness: whatever the two
/// uniform draws turn out to be, the tick behaves as [`run_strategy_tick`]
/// does for them — in particular a dry run never submits, and the store is
/// pruned exactly as on any non-skipped tick.
pub fn run_strategy_tick_live(
    c: &Config,
    store: &mut VegaStore,
    party_id: &String,
    ext_bid: u64,
    ext_ask: u64,
    now: u64,
) -> (r: TickAction)
    requires
        old(store).wf(),
        config_validation_spec(*c) is Ok,
        config_limits_spec(*c),
    ensures
        final(store).wf(),
        final(store).market_spec() == old(store).market_spec(),
        final(store).market_data_spec() == old(store).market_data_spec(),
        final(store).history_spec() == old(store).history_spec(),
        final(store).positions_spec() == old(store).positions_spec(),
        final(store).assets_spec() == old(store).assets_spec(),
        c.dryrun ==> !(r is Submit),
        (exists|ds: u64, dl: u64|
            {
                &&& ds < FP
                &&& dl < FP
                &&& ((r is Skip) <==> tick_decision(*c, *old(store), party_id@, ext_bid, ext_ask,
                    now, ds, dl) is None)
                &&& final(store).trades_spec() == (if tick_decision(*c, *old(store), party_id@,
                    ext_bid, ext_ask, now, ds, dl) is Some && old(store).trades_spec().len() > 0 {
                    keep_recent(old(store).trades_spec(), tick_threshold(now))
                } else {
                    old(store).trades_spec()
                })
                &&& (tick_decision(*c, *old(store), party_id@, ext_bid, ext_ask, now, ds, dl)
                    matches Some(qi) ==> {
                    &&& (c.dryrun <==> r matches TickAction::DryRun(_))
                    &&& (!c.dryrun <==> r matches TickAction::Submit(_))
                    &&& (r matches TickAction::DryRun(b) ==> batch_matches(b, c.vega_market@, *c,
                        qi))
                    &&& (r matches TickAction::Submit(b) ==> batch_matches(b, c.vega_market@, *c,
                        qi))
                })
            }),
{
    let draw_short = draw_below(FP);
    let draw_long = draw_below(FP);
    let r = run_strategy_tick(c, store, party_id, ext_bid, ext_ask, now, draw_short, draw_long);
    proof {
        assert(draw_short < FP && draw_long < FP);
    }
    r
}

} // verus!
