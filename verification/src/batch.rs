//! The order-batch builder: turns the tick's decision — reference prices,
//! offsets, per-side risk state and decimals — into one atomic batch of a
//! cancel-all plus concretely priced and sized limit orders, all in
//! integer market units.

use vstd::prelude::*;

use crate::decimals::Decimals;
use crate::fixed::{ceil_div_sat, ceil_div_sat_u128, mul_u64_u128};
use crate::risk::PositionSituation;

verus! {

/// Which side of the book an order rests on.
#[derive(Clone, Copy, Debug, PartialEq, Eq, Structural)]
pub enum Side {
    Buy,
    Sell,
}

/// One limit order of the batch: price in integer market price units, size
/// in integer market position units, expiring at `expires_at` nanoseconds.
pub struct OrderSubmission {
    pub market_id: String,
    pub price: u64,
    pub size: u64,
    pub side: Side,
    pub expires_at: u64,
    pub post_only: bool,
    pub reduce_only: bool,
}

/// A cancellation of all resting orders of one market.
pub struct OrderCancellation {
    pub order_id: String,
    pub market_id: String,
}

/// One atomic batch: cancel everything resting, then submit the new
/// orders.
pub struct BatchMarketInstructions {
    pub cancellations: Vec<OrderCancellation>,
    pub submissions: Vec<OrderSubmission>,
}

/// Largest reference price, in market units, the builder accepts.
pub const PRICE_MAX: u64 = 1_000_000_000_000_000_000;

/// Largest tick or level step, in market units, the builder accepts.
pub const STEP_MAX: u64 = 1_000_000_000_000;

/// Largest target notional the builder accepts.
pub const NOTIONAL_MAX: u64 = 1_000_000_000_000;

/// Most ladder levels the builder accepts.
pub const LEVELS_MAX: u64 = 100;

/// A quote offset with negative values disallowed is floored at zero.
pub open spec fn eff_offset(off: int, allow_negative: bool) -> int {
    if !allow_negative && off < 0 {
        0
    } else {
        off
    }
}

/// A computed price brought onto the venue's grid: truncated to a
/// multiple of the tick, and floored at one tick so it stays positive.
pub open spec fn level_price(raw: int, tick: int) -> int {
    if raw < tick {
        tick
    } else {
        raw - (raw % tick)
    }
}

/// A buy price capped strictly below the venue's best ask: at most one
/// tick under it, whenever a positive best ask is known.
pub open spec fn cap_buy(raw: int, vega_ask: int, tick: int) -> int {
    if vega_ask > 0 && raw > vega_ask - tick {
        vega_ask - tick
    } else {
        raw
    }
}

/// A sell price floored strictly above the venue's best bid: at least one
/// tick over it, whenever a positive best bid is known.
pub open spec fn floor_sell(raw: int, vega_bid: int, tick: int) -> int {
    if vega_bid > 0 && raw < vega_bid + tick {
        vega_bid + tick
    } else {
        raw
    }
}

/// The price of buy ladder level `i`: the reference minus the offset and
/// `i` steps, capped below the best ask, on the tick grid.
pub open spec fn buy_price_spec(
    ref_u: int,
    off: int,
    i: int,
    step: int,
    vega_ask: int,
    tick: int,
) -> int {
    level_price(cap_buy(ref_u - off - i * step, vega_ask, tick), tick)
}

/// The price of sell ladder level `i`: the reference plus the offset and
/// `i` steps, floored above the best bid, on the tick grid.
pub open spec fn sell_price_spec(
    ref_u: int,
    off: int,
    i: int,
    step: int,
    vega_bid: int,
    tick: int,
) -> int {
    level_price(floor_sell(ref_u + off + i * step, vega_bid, tick), tick)
}

/// The quadratic-ramp size of ladder level `i`, in position units:
/// calibrated so the ladder's notional meets the target with a five
/// percent buffer, `ceil(1.05 * 3 * notional * (i+1)^2 * price_factor *
/// position_factor / (ref_price * levels^3))`.
pub open spec fn quad_size_spec(
    von: int,
    i: int,
    levels: int,
    ref_u: int,
    pf: int,
    posf: int,
) -> int {
    ceil_div_sat(63 * von * (i + 1) * (i + 1) * pf * posf, 20 * ref_u * levels * levels * levels)
}

/// The linear-ramp size of ladder level `i`, in position units: the
/// optional alternative calibration, `ceil(1.1 * 2 * notional * (i+1) *
/// price_factor * position_factor / (price * levels^2))`.
pub open spec fn linear_size_spec(
    von: int,
    i: int,
    levels: int,
    price_u: int,
    pf: int,
    posf: int,
) -> int {
    ceil_div_sat(22 * von * (i + 1) * pf * posf, 10 * price_u * levels * levels)
}

/// The single-order size meeting the target notional at one price with a
/// ten percent buffer, in position units: `ceil(1.1 * notional *
/// price_factor * position_factor / (price * levels))`.
pub open spec fn mm_size_spec(von: int, levels: int, price_u: int, pf: int, posf: int) -> int {
    ceil_div_sat(11 * von * pf * posf, 10 * price_u * levels)
}


/// A value at or above the tick, truncated to the tick grid, stays at or
/// above one tick and never grows.
proof fn lemma_tick_floor(c: int, tick: int)
    requires
        1 <= tick <= c,
    ensures
        tick <= c - (c % tick) <= c,
{
    vstd::arithmetic::div_mod::lemma_fundamental_div_mod(c, tick);
    vstd::arithmetic::div_mod::lemma_mod_bound(c, tick);
    assert(c / tick >= 1) by {
        vstd::arithmetic::div_mod::lemma_div_is_ordered(tick, c, tick);
        vstd::arithmetic::div_mod::lemma_div_by_self(tick);
    }
    assert(tick * (c / tick) >= tick * 1) by (nonlinear_arith)
        requires tick >= 1, c / tick >= 1;
}

/// Computes `buy_price_spec` exactly.
fn buy_price(ref_u: u64, off: i64, i: u64, step: u64, vega_ask: u64, tick: u64) -> (p: u64)
    requires
        ref_u <= PRICE_MAX,
        -(PRICE_MAX as int) <= off <= PRICE_MAX,
        i < LEVELS_MAX,
        step <= STEP_MAX,
        vega_ask <= PRICE_MAX,
        1 <= tick <= STEP_MAX,
    ensures
        p == buy_price_spec(ref_u as int, off as int, i as int, step as int, vega_ask as int,
            tick as int),
        tick <= p <= 3 * PRICE_MAX,
{
    proof {
        assert((i as int) * (step as int) <= 100 * 1_000_000_000_000) by (nonlinear_arith)
            requires 0 <= i <= 100, 0 <= step <= 1_000_000_000_000;
    }
    let raw: i128 = ref_u as i128 - off as i128 - (i as i128) * (step as i128);
    let capped: i128 = if vega_ask > 0 && raw > vega_ask as i128 - tick as i128 {
        vega_ask as i128 - tick as i128
    } else {
        raw
    };
    if capped < tick as i128 {
        tick
    } else {
        let c: u64 = capped as u64;
        proof {
            lemma_tick_floor(c as int, tick as int);
        }
        c - c % tick
    }
}

/// Computes `sell_price_spec` exactly.
fn sell_price(ref_u: u64, off: i64, i: u64, step: u64, vega_bid: u64, tick: u64) -> (p: u64)
    requires
        ref_u <= PRICE_MAX,
        -(PRICE_MAX as int) <= off <= PRICE_MAX,
        i < LEVELS_MAX,
        step <= STEP_MAX,
        vega_bid <= PRICE_MAX,
        1 <= tick <= STEP_MAX,
    ensures
        p == sell_price_spec(ref_u as int, off as int, i as int, step as int, vega_bid as int,
            tick as int),
        tick <= p <= 3 * PRICE_MAX,
{
    proof {
        assert((i as int) * (step as int) <= 100 * 1_000_000_000_000) by (nonlinear_arith)
            requires 0 <= i <= 100, 0 <= step <= 1_000_000_000_000;
    }
    let raw: i128 = ref_u as i128 + off as i128 + (i as i128) * (step as i128);
    let floored: i128 = if vega_bid > 0 && raw < vega_bid as i128 + tick as i128 {
        vega_bid as i128 + tick as i128
    } else {
        raw
    };
    if floored < tick as i128 {
        tick
    } else {
        let c: u64 = floored as u64;
        proof {
            lemma_tick_floor(c as int, tick as int);
        }
        c - c % tick
    }
}

/// The quadratic-ramp order size for ladder level `i` against the target
/// notional; see `quad_size_spec`.
pub fn get_order_size_mm_quadratic(
    i: u64,
    volume_of_notional: u64,
    num_levels: u64,
    ref_price: u64,
    d: &Decimals,
) -> (r: u64)
    requires
        d.wf(),
        i < num_levels,
        1 <= num_levels <= LEVELS_MAX,
        volume_of_notional <= NOTIONAL_MAX,
        1 <= ref_price,
    ensures
        r == quad_size_spec(
            volume_of_notional as int,
            i as int,
            num_levels as int,
            ref_price as int,
            d.price_factor as int,
            d.position_factor as int,
        ),
{
    let scale: u128 = mul_u64_u128(d.price_factor, d.position_factor);
    proof {
        assert((i + 1) * (i + 1) <= 10000) by (nonlinear_arith)
            requires 1 <= i + 1 <= 100;
        assert(63 * (volume_of_notional as int) * (((i + 1) * (i + 1)) as int) <= 63
            * 1_000_000_000_000 * 10000) by (nonlinear_arith)
            requires
                volume_of_notional <= 1_000_000_000_000,
                0 <= ((i + 1) * (i + 1)) as int <= 10000,
        ;
        assert(1 <= num_levels * num_levels <= 10000) by (nonlinear_arith)
            requires 1 <= num_levels <= 100;
        assert((num_levels * num_levels) * num_levels <= 1_000_000 && 1 <= (num_levels
            * num_levels) * num_levels) by (nonlinear_arith)
            requires 1 <= num_levels <= 100, 1 <= num_levels * num_levels <= 10000;
    }
    let lvl: u128 = ((i + 1) * (i + 1)) as u128;
    let m1: u128 = 63 * (volume_of_notional as u128) * lvl;
    proof {
        assert(m1 * scale <= 630_000_000_000_000_000 * 1_000_000_000_000_000_000)
            by (nonlinear_arith)
            requires
                0 <= m1 <= 630_000_000_000_000_000,
                0 <= scale <= 1_000_000_000_000_000_000,
        ;
    }
    let num: u128 = m1 * scale;
    let cube: u128 = ((num_levels * num_levels) * num_levels) as u128;
    proof {
        assert(20 * (ref_price as int) * (cube as int) <= 20 * 0xffff_ffff_ffff_ffff * 1_000_000
            && 1 <= 20 * (ref_price as int) * (cube as int)) by (nonlinear_arith)
            requires
                1 <= ref_price <= 0xffff_ffff_ffff_ffff,
                1 <= cube as int <= 1_000_000,
        ;
    }
    let den: u128 = 20 * (ref_price as u128) * cube;
    let r = ceil_div_sat_u128(num, den);
    proof {
        assert(m1 * scale == 63 * (volume_of_notional as int) * ((i as int) + 1) * ((i as int) + 1)
            * (d.price_factor as int) * (d.position_factor as int)) by (nonlinear_arith)
            requires
                m1 == 63 * (volume_of_notional as int) * (((i as int) + 1) * ((i as int) + 1)),
                scale == (d.price_factor as int) * (d.position_factor as int),
        ;
        assert(20 * (ref_price as int) * (cube as int) == 20 * (ref_price as int) * (
        num_levels as int) * (num_levels as int) * (num_levels as int)) by (nonlinear_arith)
            requires cube == ((num_levels as int) * (num_levels as int)) * (num_levels as int);
    }
    r
}

/// The linear-ramp order size for ladder level `i`, the configurable
/// alternative calibration; see `linear_size_spec`.
pub fn get_order_size_mm_linear(
    i: u64,
    volume_of_notional: u64,
    num_levels: u64,
    price: u64,
    d: &Decimals,
) -> (r: u64)
    requires
        d.wf(),
        i < num_levels,
        1 <= num_levels <= LEVELS_MAX,
        volume_of_notional <= NOTIONAL_MAX,
        1 <= price,
    ensures
        r == linear_size_spec(
            volume_of_notional as int,
            i as int,
            num_levels as int,
            price as int,
            d.price_factor as int,
            d.position_factor as int,
        ),
{
    let scale: u128 = mul_u64_u128(d.price_factor, d.position_factor);
    proof {
        assert(22 * (volume_of_notional as int) * ((i as int) + 1) <= 22 * 1_000_000_000_000
            * 100) by (nonlinear_arith)
            requires volume_of_notional <= 1_000_000_000_000, 1 <= i + 1 <= 100;
        assert(10 * (price as int) * (num_levels as int) <= 10 * 0xffff_ffff_ffff_ffff * 100)
            by (nonlinear_arith)
            requires 1 <= price <= 0xffff_ffff_ffff_ffff, 1 <= num_levels <= 100;
        assert(10 * (price as int) * (num_levels as int) * (num_levels as int) <= 10
            * 0xffff_ffff_ffff_ffff * 10000 && 1 <= 10 * (price as int) * (num_levels as int) * (
        num_levels as int)) by (nonlinear_arith)
            requires 1 <= price <= 0xffff_ffff_ffff_ffff, 1 <= num_levels <= 100;
    }
    let m1: u128 = 22 * (volume_of_notional as u128) * ((i + 1) as u128);
    proof {
        assert(m1 * scale <= 2_200_000_000_000_000 * 1_000_000_000_000_000_000)
            by (nonlinear_arith)
            requires 0 <= m1 <= 2_200_000_000_000_000, 0 <= scale <= 1_000_000_000_000_000_000;
    }
    let num: u128 = m1 * scale;
    let den: u128 = 10 * (price as u128) * (num_levels as u128) * (num_levels as u128);
    let r = ceil_div_sat_u128(num, den);
    proof {
        assert(m1 * scale == 22 * (volume_of_notional as int) * ((i as int) + 1) * (
        d.price_factor as int) * (d.position_factor as int)) by (nonlinear_arith)
            requires
                m1 == 22 * (volume_of_notional as int) * ((i as int) + 1),
                scale == (d.price_factor as int) * (d.position_factor as int),
        ;
    }
    r
}

/// The single-order size meeting the target notional at one price; see
/// `mm_size_spec`.
pub fn get_order_size_mm(volume_of_notional: u64, num_levels: u64, price: u64, d: &Decimals) -> (r:
    u64)
    requires
        d.wf(),
        1 <= num_levels <= LEVELS_MAX,
        volume_of_notional <= NOTIONAL_MAX,
        1 <= price,
    ensures
        r == mm_size_spec(
            volume_of_notional as int,
            num_levels as int,
            price as int,
            d.price_factor as int,
            d.position_factor as int,
        ),
{
    let scale: u128 = mul_u64_u128(d.price_factor, d.position_factor);
    let m1: u128 = 11 * (volume_of_notional as u128);
    proof {
        assert(m1 * scale <= 11_000_000_000_000 * 1_000_000_000_000_000_000) by (nonlinear_arith)
            requires 0 <= m1 <= 11_000_000_000_000, 0 <= scale <= 1_000_000_000_000_000_000;
        assert(10 * (price as int) * (num_levels as int) <= 10 * 0xffff_ffff_ffff_ffff * 100 && 1
            <= 10 * (price as int) * (num_levels as int)) by (nonlinear_arith)
            requires 1 <= price <= 0xffff_ffff_ffff_ffff, 1 <= num_levels <= 100;
    }
    let num: u128 = m1 * scale;
    let den: u128 = 10 * (price as u128) * (num_levels as u128);
    let r = ceil_div_sat_u128(num, den);
    proof {
        assert(m1 * scale == 11 * (volume_of_notional as int) * (d.price_factor as int) * (
        d.position_factor as int)) by (nonlinear_arith)
            requires
                m1 == 11 * (volume_of_notional as int),
                scale == (d.price_factor as int) * (d.position_factor as int),
        ;
    }
    r
}

/// The reference price the buy ladder descends from.
pub open spec fn buy_ref_spec(use_mid: bool, mid: int, bid: int) -> int {
    if use_mid {
        mid
    } else {
        bid
    }
}

/// The reference price the sell ladder ascends from.
pub open spec fn sell_ref_spec(use_mid: bool, mid: int, ask: int) -> int {
    if use_mid {
        mid
    } else {
        ask
    }
}

/// How many orders a side contributes: the full ladder when quoting
/// normally, a single order on the edge, none under a hard stop.
pub open spec fn side_count(s: PositionSituation, levels: int) -> int {
    if s is Normal {
        levels
    } else if s is OnTheEdge {
        1
    } else {
        0
    }
}

/// All fields of one order of the batch.
pub open spec fn order_fields(
    o: OrderSubmission,
    market_id: Seq<char>,
    side: Side,
    price: int,
    size: int,
    expires_at: u64,
    post_only: bool,
) -> bool {
    &&& o.market_id@ == market_id
    &&& o.side == side
    &&& o.price == price
    &&& o.size == size
    &&& o.expires_at == expires_at
    &&& o.post_only == post_only
    &&& o.reduce_only == false
}

/// Computes `level_price` exactly, for the disposal orders that go on the
/// tick grid without a cross-book cap.
fn tick_round(raw: i64, tick: u64) -> (p: u64)
    requires
        -3_000_000_000_000_000_000 <= raw <= 3_000_000_000_000_000_000,
        1 <= tick <= STEP_MAX,
    ensures
        p == level_price(raw as int, tick as int),
{
    if raw < tick as i64 {
        tick
    } else {
        let c: u64 = raw as u64;
        proof {
            lemma_tick_floor(c as int, tick as int);
        }
        c - c % tick
    }
}

/// Builds the tick's atomic batch: a cancellation of everything resting,
/// the buy and sell ladders (or single edge orders) as the per-side risk
/// states dictate, and at most one single-unit disposal order nudging the
/// inventory toward neutral. Prices are integer market units on the tick
/// grid, capped against the venue's opposing best quote; sizes are integer
/// position units from the quadratic notional ramp.
#[verifier::rlimit(100)]
pub fn get_batch(
    market_id: String,
    use_mid: bool,
    mid_price: u64,
    best_bid: u64,
    best_ask: u64,
    vega_best_bid: u64,
    vega_best_ask: u64,
    bid_offset: i64,
    bid_side_situation: PositionSituation,
    worst_bid_offset: i64,
    ask_offset: i64,
    ask_side_situation: PositionSituation,
    worst_ask_offset: i64,
    num_levels: u64,
    step: u64,
    tick_size: u64,
    volume_of_notional: u64,
    d: &Decimals,
    allow_negative_offset: bool,
    expires_at: u64,
    dispose_of_short_pos: bool,
    dispose_of_long_pos: bool,
) -> (r: BatchMarketInstructions)
    requires
        d.wf(),
        1 <= num_levels <= LEVELS_MAX,
        volume_of_notional <= NOTIONAL_MAX,
        1 <= tick_size <= STEP_MAX,
        step <= STEP_MAX,
        1 <= mid_price <= PRICE_MAX,
        1 <= best_bid <= PRICE_MAX,
        1 <= best_ask <= PRICE_MAX,
        vega_best_bid <= PRICE_MAX,
        vega_best_ask <= PRICE_MAX,
        -(PRICE_MAX as int) <= bid_offset <= PRICE_MAX,
        -(PRICE_MAX as int) <= ask_offset <= PRICE_MAX,
        -(PRICE_MAX as int) <= worst_bid_offset <= PRICE_MAX,
        -(PRICE_MAX as int) <= worst_ask_offset <= PRICE_MAX,
    ensures
        r.cancellations@.len() == 1,
        r.cancellations@[0].market_id@ == market_id@,
        r.cancellations@[0].order_id@.len() == 0,
        r.submissions@.len() == side_count(bid_side_situation, num_levels as int) + side_count(
            ask_side_situation,
            num_levels as int,
        ) + (if dispose_of_short_pos || dispose_of_long_pos {
            1int
        } else {
            0int
        }),
        ({
            let b_ref = buy_ref_spec(use_mid, mid_price as int, best_bid as int);
            let s_ref = sell_ref_spec(use_mid, mid_price as int, best_ask as int);
            let nb = side_count(bid_side_situation, num_levels as int);
            let na = side_count(ask_side_situation, num_levels as int);
            let pf = d.price_factor as int;
            let posf = d.position_factor as int;
            &&& (bid_side_situation is Normal ==> forall|i: int|
                0 <= i < num_levels ==> order_fields(
                    #[trigger] r.submissions@[i],
                    market_id@,
                    Side::Buy,
                    buy_price_spec(
                        b_ref,
                        eff_offset(bid_offset as int, allow_negative_offset),
                        i,
                        step as int,
                        vega_best_ask as int,
                        tick_size as int,
                    ),
                    quad_size_spec(volume_of_notional as int, i, num_levels as int, b_ref, pf,
                        posf),
                    expires_at,
                    true,
                ))
            &&& (bid_side_situation is OnTheEdge ==> order_fields(
                r.submissions@[0],
                market_id@,
                Side::Buy,
                buy_price_spec(
                    b_ref,
                    worst_bid_offset as int,
                    0,
                    step as int,
                    vega_best_ask as int,
                    tick_size as int,
                ),
                mm_size_spec(
                    volume_of_notional as int,
                    1,
                    buy_price_spec(
                        b_ref,
                        worst_bid_offset as int,
                        0,
                        step as int,
                        vega_best_ask as int,
                        tick_size as int,
                    ),
                    pf,
                    posf,
                ),
                expires_at,
                true,
            ))
            &&& (ask_side_situation is Normal ==> forall|i: int|
                0 <= i < num_levels ==> order_fields(
                    #[trigger] r.submissions@[nb + i],
                    market_id@,
                    Side::Sell,
                    sell_price_spec(
                        s_ref,
                        eff_offset(ask_offset as int, allow_negative_offset),
                        i,
                        step as int,
                        vega_best_bid as int,
                        tick_size as int,
                    ),
                    quad_size_spec(volume_of_notional as int, i, num_levels as int, s_ref, pf,
                        posf),
                    expires_at,
                    true,
                ))
            &&& (ask_side_situation is OnTheEdge ==> order_fields(
                r.submissions@[nb],
                market_id@,
                Side::Sell,
                sell_price_spec(
                    s_ref,
                    worst_ask_offset as int,
                    0,
                    step as int,
                    vega_best_bid as int,
                    tick_size as int,
                ),
                mm_size_spec(
                    volume_of_notional as int,
                    1,
                    sell_price_spec(
                        s_ref,
                        worst_ask_offset as int,
                        0,
                        step as int,
                        vega_best_bid as int,
                        tick_size as int,
                    ),
                    pf,
                    posf,
                ),
                expires_at,
                true,
            ))
            &&& (dispose_of_short_pos ==> order_fields(
                r.submissions@[nb + na],
                market_id@,
                Side::Buy,
                level_price(s_ref + ask_offset - 1, tick_size as int),
                1,
                expires_at,
                false,
            ))
            &&& (!dispose_of_short_pos && dispose_of_long_pos ==> order_fields(
                r.submissions@[nb + na],
                market_id@,
                Side::Sell,
                level_price(b_ref - bid_offset + 1, tick_size as int),
                1,
                expires_at,
                false,
            ))
        }),
{
    let buy_ref_u: u64 = if use_mid {
        mid_price
    } else {
        best_bid
    };
    let sell_ref_u: u64 = if use_mid {
        mid_price
    } else {
        best_ask
    };
    let ghost b_ref = buy_ref_u as int;
    let ghost s_ref = sell_ref_u as int;
    let ghost pf = d.price_factor as int;
    let ghost posf = d.position_factor as int;
    let mut orders: Vec<OrderSubmission> = Vec::new();

    if matches!(bid_side_situation, PositionSituation::Normal) {
        let off_eff: i64 = if !allow_negative_offset && bid_offset < 0 {
            0
        } else {
            bid_offset
        };
        let mut i: u64 = 0;
        while i < num_levels
            invariant
                d.wf(),
                1 <= num_levels <= LEVELS_MAX,
                volume_of_notional <= NOTIONAL_MAX,
                1 <= tick_size <= STEP_MAX,
                step <= STEP_MAX,
                1 <= buy_ref_u <= PRICE_MAX,
                vega_best_ask <= PRICE_MAX,
                -(PRICE_MAX as int) <= off_eff <= PRICE_MAX,
                off_eff == eff_offset(bid_offset as int, allow_negative_offset),
                b_ref == buy_ref_u as int,
                pf == d.price_factor as int,
                posf == d.position_factor as int,
                0 <= i <= num_levels,
                orders@.len() == i,
                forall|j: int|
                    0 <= j < i ==> order_fields(
                        #[trigger] orders@[j],
                        market_id@,
                        Side::Buy,
                        buy_price_spec(b_ref, eff_offset(bid_offset as int, allow_negative_offset),
                            j, step as int, vega_best_ask as int, tick_size as int),
                        quad_size_spec(volume_of_notional as int, j, num_levels as int, b_ref, pf,
                            posf),
                        expires_at,
                        true,
                    ),
            decreases num_levels - i,
        {
            let p = buy_price(buy_ref_u, off_eff, i, step, vega_best_ask, tick_size);
            let sz = get_order_size_mm_quadratic(i, volume_of_notional, num_levels, buy_ref_u, d);
            orders.push(
                OrderSubmission {
                    market_id: market_id.clone(),
                    price: p,
                    size: sz,
                    side: Side::Buy,
                    expires_at,
                    post_only: true,
                    reduce_only: false,
                },
            );
            i = i + 1;
        }
    } else if matches!(bid_side_situation, PositionSituation::OnTheEdge) {
        let p = buy_price(buy_ref_u, worst_bid_offset, 0, step, vega_best_ask, tick_size);
        let sz = get_order_size_mm(volume_of_notional, 1, p, d);
        orders.push(
            OrderSubmission {
                market_id: market_id.clone(),
                price: p,
                size: sz,
                side: Side::Buy,
                expires_at,
                post_only: true,
                reduce_only: false,
            },
        );
    }
    let ghost nb = orders@.len() as int;
    proof {
        assert(nb == side_count(bid_side_situation, num_levels as int));
    }

    if matches!(ask_side_situation, PositionSituation::Normal) {
        let off_eff: i64 = if !allow_negative_offset && ask_offset < 0 {
            0
        } else {
            ask_offset
        };
        let mut i: u64 = 0;
        while i < num_levels
            invariant
                d.wf(),
                1 <= num_levels <= LEVELS_MAX,
                volume_of_notional <= NOTIONAL_MAX,
                1 <= tick_size <= STEP_MAX,
                step <= STEP_MAX,
                1 <= sell_ref_u <= PRICE_MAX,
                vega_best_bid <= PRICE_MAX,
                -(PRICE_MAX as int) <= off_eff <= PRICE_MAX,
                off_eff == eff_offset(ask_offset as int, allow_negative_offset),
                s_ref == sell_ref_u as int,
                pf == d.price_factor as int,
                posf == d.position_factor as int,
                0 <= i <= num_levels,
                orders@.len() == nb + i,
                nb == side_count(bid_side_situation, num_levels as int),
                (bid_side_situation is Normal ==> forall|j: int|
                    0 <= j < num_levels ==> order_fields(
                        #[trigger] orders@[j],
                        market_id@,
                        Side::Buy,
                        buy_price_spec(b_ref, eff_offset(bid_offset as int, allow_negative_offset),
                            j, step as int, vega_best_ask as int, tick_size as int),
                        quad_size_spec(volume_of_notional as int, j, num_levels as int, b_ref, pf,
                            posf),
                        expires_at,
                        true,
                    )),
                (bid_side_situation is OnTheEdge ==> order_fields(
                    orders@[0],
                    market_id@,
                    Side::Buy,
                    buy_price_spec(b_ref, worst_bid_offset as int, 0, step as int,
                        vega_best_ask as int, tick_size as int),
                    mm_size_spec(
                        volume_of_notional as int,
                        1,
                        buy_price_spec(b_ref, worst_bid_offset as int, 0, step as int,
                            vega_best_ask as int, tick_size as int),
                        pf,
                        posf,
                    ),
                    expires_at,
                    true,
                )),
                forall|j: int|
                    0 <= j < i ==> order_fields(
                        #[trigger] orders@[nb + j],
                        market_id@,
                        Side::Sell,
                        sell_price_spec(s_ref, eff_offset(ask_offset as int,
                            allow_negative_offset), j, step as int, vega_best_bid as int,
                            tick_size as int),
                        quad_size_spec(volume_of_notional as int, j, num_levels as int, s_ref, pf,
                            posf),
                        expires_at,
                        true,
                    ),
            decreases num_levels - i,
        {
            let p = sell_price(sell_ref_u, off_eff, i, step, vega_best_bid, tick_size);
            let sz = get_order_size_mm_quadratic(i, volume_of_notional, num_levels, sell_ref_u, d);
            orders.push(
                OrderSubmission {
                    market_id: market_id.clone(),
                    price: p,
                    size: sz,
                    side: Side::Sell,
                    expires_at,
                    post_only: true,
                    reduce_only: false,
                },
            );
            i = i + 1;
        }
    } else if matches!(ask_side_situation, PositionSituation::OnTheEdge) {
        let p = sell_price(sell_ref_u, worst_ask_offset, 0, step, vega_best_bid, tick_size);
        let sz = get_order_size_mm(volume_of_notional, 1, p, d);
        orders.push(
            OrderSubmission {
                market_id: market_id.clone(),
                price: p,
                size: sz,
                side: Side::Sell,
                expires_at,
                post_only: true,
                reduce_only: false,
            },
        );
    }

    if dispose_of_short_pos {
        let raw: i64 = buy_disposal_raw(sell_ref_u, ask_offset);
        let p = tick_round(raw, tick_size);
        orders.push(
            OrderSubmission {
                market_id: market_id.clone(),
                price: p,
                size: 1,
                side: Side::Buy,
                expires_at,
                post_only: false,
                reduce_only: false,
            },
        );
    } else if dispose_of_long_pos {
        let raw: i64 = sell_disposal_raw(buy_ref_u, bid_offset);
        let p = tick_round(raw, tick_size);
        orders.push(
            OrderSubmission {
                market_id: market_id.clone(),
                price: p,
                size: 1,
                side: Side::Sell,
                expires_at,
                post_only: false,
                reduce_only: false,
            },
        );
    }

    let mut cancellations: Vec<OrderCancellation> = Vec::new();
    cancellations.push(OrderCancellation { order_id: String::new(), market_id });
    BatchMarketInstructions { cancellations, submissions: orders }
}

/// The raw price of the short-disposal buy: one market unit inside the
/// sell reference plus the ask offset.
fn buy_disposal_raw(sell_ref_u: u64, ask_offset: i64) -> (raw: i64)
    requires
        1 <= sell_ref_u <= PRICE_MAX,
        -(PRICE_MAX as int) <= ask_offset <= PRICE_MAX,
    ensures
        raw == sell_ref_u + ask_offset - 1,
        -3_000_000_000_000_000_000 <= raw <= 3_000_000_000_000_000_000,
{
    sell_ref_u as i64 + ask_offset - 1
}

/// The raw price of the long-disposal sell: one market unit outside the
/// buy reference minus the bid offset.
fn sell_disposal_raw(buy_ref_u: u64, bid_offset: i64) -> (raw: i64)
    requires
        1 <= buy_ref_u <= PRICE_MAX,
        -(PRICE_MAX as int) <= bid_offset <= PRICE_MAX,
    ensures
        raw == buy_ref_u - bid_offset + 1,
        -3_000_000_000_000_000_000 <= raw <= 3_000_000_000_000_000_000,
{
    buy_ref_u as i64 - bid_offset + 1
}

/// The batch that only cancels every resting order of the market.
pub fn get_close_batch(market_id: String) -> (r: BatchMarketInstructions)
    ensures
        r.cancellations@.len() == 1,
        r.cancellations@[0].market_id@ == market_id@,
        r.cancellations@[0].order_id@.len() == 0,
        r.submissions@.len() == 0,
{
    let mut cancellations: Vec<OrderCancellation> = Vec::new();
    cancellations.push(OrderCancellation { order_id: String::new(), market_id });
    BatchMarketInstructions { cancellations, submissions: Vec::new() }
}

} // verus!
