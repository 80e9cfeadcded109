//! Closed-form optimal quote offsets for the ergodic inventory-control
//! model: tables of buy and sell distances as a function of the inventory
//! level, the fill intensity kappa, the arrival rate lambda and the risk
//! aversion phi, and the per-position lookup with boundary clamping.

use vstd::prelude::*;

use crate::fixed::{isqrt_u128, FP};

verus! {

/// Euler's number in fixed point, rounded to the nearest `1 / FP`.
pub const E_FP: u64 = 2_718_282;

/// Largest magnitude of an inventory bound the calculator accepts.
pub const Q_BOUND: i64 = 1_000;

/// Largest fixed-point value accepted for kappa, lambda and phi.
pub const PARAM_MAX: u64 = 1_000_000_000_000;

/// Sentinel offset carried on a side that must not be quoted.
pub const OFFSET_UNBOUNDED: i64 = i64::MAX;

/// The floor of the square root of `n`.
pub open spec fn sqrt_floor(n: int) -> int {
    choose|r: int| 0 <= r && r * r <= n && #[trigger] ((r + 1) * (r + 1)) > n
}

/// Any value that brackets `n` between consecutive squares is `sqrt_floor(n)`.
pub proof fn lemma_sqrt_floor_unique(n: int, r: int)
    requires
        0 <= r,
        r * r <= n,
        n < (r + 1) * (r + 1),
    ensures
        sqrt_floor(n) == r,
{
    assert(0 <= r && r * r <= n && ((r + 1) * (r + 1)) > n);
    let c = sqrt_floor(n);
    assert(0 <= c && c * c <= n && ((c + 1) * (c + 1)) > n);
    assert(c == r) by (nonlinear_arith)
        requires
            0 <= r,
            r * r <= n,
            n < (r + 1) * (r + 1),
            0 <= c,
            c * c <= n,
            n < (c + 1) * (c + 1),
    ;
}

/// Half of `k` times `s`, rounded toward zero; the odd multiplier applied
/// to the offset scale in the delta formulas.
pub open spec fn half_term(k: int, s: int) -> int {
    if k >= 0 {
        (k * s) / 2
    } else {
        -(((-k) * s) / 2)
    }
}

/// The fixed-point reciprocal of kappa: `1/kappa` under `FP` scaling.
pub open spec fn inv_kappa_spec(kappa: int) -> int {
    (FP * FP) / kappa
}

/// The fixed-point offset scale `sqrt(phi * e / (lambda * kappa))`, as the
/// calculator derives it: a floor division for the ratio, then the integer
/// square root.
pub open spec fn offset_scale_spec(kappa: int, lambd: int, phi: int) -> int {
    sqrt_floor((phi * E_FP * FP / (lambd * kappa)) * FP)
}

/// The buy offset at inventory level `i`: `1/kappa + (2i + 1) * s / 2`.
pub open spec fn buy_delta(inv: int, s: int, i: int) -> int {
    inv + half_term(2 * i + 1, s)
}

/// The sell offset at inventory level `i`: `1/kappa - (2i - 1) * s / 2`.
pub open spec fn sell_delta(inv: int, s: int, i: int) -> int {
    inv - half_term(2 * i - 1, s)
}

/// Computes `half_term(k, s)` exactly.
fn half_term_exec(k: i64, s: u64) -> (r: i64)
    requires
        -3000 <= k <= 3000,
        s <= 2_000_000_000_000_000,
    ensures
        r == half_term(k as int, s as int),
        -3_000_000_000_000_000_000 <= r <= 3_000_000_000_000_000_000,
{
    proof {
        let ka = if k >= 0 {
            k as int
        } else {
            -k as int
        };
        assert(ka * s <= 3000 * 2_000_000_000_000_000) by (nonlinear_arith)
            requires 0 <= ka <= 3000, 0 <= s <= 2_000_000_000_000_000;
    }
    if k >= 0 {
        let t: u64 = (k as u64) * s / 2;
        t as i64
    } else {
        let t: u64 = ((-k) as u64) * s / 2;
        -(t as i64)
    }
}

/// Computes the buy and sell offset tables for inventory levels between
/// `q_lower` and `q_upper`: `buy[j]` is the buy offset at level
/// `q_lower + j` and `sell[j]` the sell offset at level `q_lower + 1 + j`,
/// each of the `q_upper - q_lower` levels on which the respective side may
/// quote. All offsets are fixed-point instrument-unit distances.
pub fn calculate_offsets(q_lower: i64, q_upper: i64, kappa: u64, lambd: u64, phi: u64) -> (r: (
    Vec<i64>,
    Vec<i64>,
))
    requires
        q_lower < q_upper,
        -Q_BOUND <= q_lower,
        q_upper <= Q_BOUND,
        1 <= kappa <= PARAM_MAX,
        1 <= lambd <= PARAM_MAX,
        phi <= PARAM_MAX,
    ensures
        r.0@.len() == q_upper - q_lower,
        r.1@.len() == q_upper - q_lower,
        forall|j: int|
            0 <= j < q_upper - q_lower ==> #[trigger] r.0@[j] == buy_delta(
                inv_kappa_spec(kappa as int),
                offset_scale_spec(kappa as int, lambd as int, phi as int),
                q_lower + j,
            ),
        forall|j: int|
            0 <= j < q_upper - q_lower ==> #[trigger] r.1@[j] == sell_delta(
                inv_kappa_spec(kappa as int),
                offset_scale_spec(kappa as int, lambd as int, phi as int),
                q_lower + 1 + j,
            ),
{
    let inv: u64 = FP * FP / kappa;
    proof {
        assert((phi as int) * E_FP <= 1_000_000_000_000 * 2_718_282) by (nonlinear_arith)
            requires phi <= 1_000_000_000_000;
        assert((phi as int) * E_FP * FP <= 1_000_000_000_000 * 2_718_282 * 1_000_000)
            by (nonlinear_arith)
            requires 0 <= (phi as int) * E_FP <= 1_000_000_000_000 * 2_718_282;
        assert(1 <= (lambd as int) * (kappa as int) <= 1_000_000_000_000 * 1_000_000_000_000)
            by (nonlinear_arith)
            requires 1 <= lambd <= 1_000_000_000_000, 1 <= kappa <= 1_000_000_000_000;
    }
    let num: u128 = (phi as u128) * (E_FP as u128) * (FP as u128);
    let den: u128 = (lambd as u128) * (kappa as u128);
    let ratio: u128 = num / den;
    proof {
        vstd::arithmetic::div_mod::lemma_div_nonincreasing(num as int, den as int);
        assert(ratio * FP <= 2_718_282_000_000_000_000_000_000 * 1_000_000) by (nonlinear_arith)
            requires 0 <= ratio <= 2_718_282_000_000_000_000_000_000;
    }
    let s: u64 = isqrt_u128(ratio * (FP as u128));
    proof {
        lemma_sqrt_floor_unique((ratio * FP) as int, s as int);
        assert(s <= 2_000_000_000_000_000) by (nonlinear_arith)
            requires
                (s as int) * (s as int) <= ratio * FP,
                ratio * FP <= 2_718_282_000_000_000_000_000_000u128 * 1_000_000,
        ;
    }
    let ghost inv_g = inv_kappa_spec(kappa as int);
    let ghost s_g = offset_scale_spec(kappa as int, lambd as int, phi as int);
    let count: usize = (q_upper - q_lower) as usize;

    let mut buy_deltas: Vec<i64> = Vec::new();
    let mut j: usize = 0;
    while j < count
        invariant
            count == q_upper - q_lower,
            -Q_BOUND <= q_lower < q_upper <= Q_BOUND,
            s <= 2_000_000_000_000_000,
            inv <= 1_000_000_000_000,
            inv == inv_g,
            s == s_g,
            j <= count,
            buy_deltas@.len() == j,
            forall|jj: int|
                0 <= jj < j ==> #[trigger] buy_deltas@[jj] == buy_delta(
                    inv_g,
                    s_g,
                    q_lower + jj,
                ),
        decreases count - j,
    {
        let i: i64 = q_lower + (j as i64);
        let h = half_term_exec(2 * i + 1, s);
        buy_deltas.push((inv as i64) + h);
        j = j + 1;
    }

    let mut sell_deltas: Vec<i64> = Vec::new();
    let mut j: usize = 0;
    while j < count
        invariant
            count == q_upper - q_lower,
            -Q_BOUND <= q_lower < q_upper <= Q_BOUND,
            s <= 2_000_000_000_000_000,
            inv <= 1_000_000_000_000,
            inv == inv_g,
            s == s_g,
            j <= count,
            sell_deltas@.len() == j,
            forall|jj: int|
                0 <= jj < j ==> #[trigger] sell_deltas@[jj] == sell_delta(
                    inv_g,
                    s_g,
                    q_lower + 1 + jj,
                ),
        decreases count - j,
    {
        let i: i64 = q_lower + 1 + (j as i64);
        let h = half_term_exec(2 * i - 1, s);
        sell_deltas.push((inv as i64) - h);
        j = j + 1;
    }
    (buy_deltas, sell_deltas)
}

/// The inventory level `pos` clamped into `[q_lower, q_upper]`.
pub open spec fn clamp_pos(pos: int, q_lower: int, q_upper: int) -> int {
    if pos > q_upper {
        q_upper
    } else if pos < q_lower {
        q_lower
    } else {
        pos
    }
}

/// Looks up the quote offsets for the (clamped) inventory level: selling is
/// disallowed at or below `q_lower`, buying at or above `q_upper`;
/// otherwise the tables of [`calculate_offsets`] are indexed. Returns
/// `(ask offset, may ask, bid offset, may bid)`, a disallowed side carrying
/// [`OFFSET_UNBOUNDED`].
pub fn offsets_from_position(
    buy_deltas: Vec<i64>,
    sell_deltas: Vec<i64>,
    q_lower: i64,
    q_upper: i64,
    pos: i64,
) -> (r: (i64, bool, i64, bool))
    requires
        q_lower < q_upper,
        -Q_BOUND <= q_lower,
        q_upper <= Q_BOUND,
        buy_deltas@.len() == q_upper - q_lower,
        sell_deltas@.len() == q_upper - q_lower,
    ensures
        r.1 <==> clamp_pos(pos as int, q_lower as int, q_upper as int) > q_lower,
        r.3 <==> clamp_pos(pos as int, q_lower as int, q_upper as int) < q_upper,
        r.1 ==> r.0 == sell_deltas@[clamp_pos(pos as int, q_lower as int, q_upper as int)
            - q_lower - 1],
        !r.1 ==> r.0 == OFFSET_UNBOUNDED,
        r.3 ==> r.2 == buy_deltas@[clamp_pos(pos as int, q_lower as int, q_upper as int)
            - q_lower],
        !r.3 ==> r.2 == OFFSET_UNBOUNDED,
{
    let mut pos = pos;
    if pos > q_upper {
        pos = q_upper;
    } else if pos < q_lower {
        pos = q_lower;
    }

    let mut ask_offset: i64 = OFFSET_UNBOUNDED;
    let mut bid_offset: i64 = OFFSET_UNBOUNDED;

    let deltas_asks_idx = pos - q_lower;
    let mut submit_asks = true;
    if deltas_asks_idx <= 0 || deltas_asks_idx > q_upper - q_lower {
        submit_asks = false;
    } else {
        ask_offset = sell_deltas[(deltas_asks_idx - 1) as usize];
    }
    let deltas_bids_idx = pos - q_lower;
    let mut submit_bids = true;
    if deltas_bids_idx > q_upper - q_lower - 1 || deltas_bids_idx < 0 {
        submit_bids = false;
    } else {
        bid_offset = buy_deltas[deltas_bids_idx as usize];
    }
    (ask_offset, submit_asks, bid_offset, submit_bids)
}

/// At a balanced inventory the two sides quote at the same distance: with
/// tables as [`calculate_offsets`] lays them out, the lookup of
/// [`offsets_from_position`] at position zero allows both sides and reads
/// equal ask and bid offsets.
pub proof fn lemma_offsets_balanced_at_zero(
    buy: Seq<i64>,
    sell: Seq<i64>,
    inv: int,
    s: int,
    q_lower: int,
    q_upper: int,
)
    requires
        q_lower < 0 < q_upper,
        s >= 0,
        buy.len() == q_upper - q_lower,
        sell.len() == q_upper - q_lower,
        forall|j: int| 0 <= j < buy.len() ==> #[trigger] buy[j] == buy_delta(inv, s, q_lower + j),
        forall|j: int|
            0 <= j < sell.len() ==> #[trigger] sell[j] == sell_delta(inv, s, q_lower + 1 + j),
    ensures
        clamp_pos(0, q_lower, q_upper) > q_lower,
        clamp_pos(0, q_lower, q_upper) < q_upper,
        sell[clamp_pos(0, q_lower, q_upper) - q_lower - 1] == buy[clamp_pos(0, q_lower, q_upper)
            - q_lower],
{
    assert(sell[-q_lower - 1] == sell_delta(inv, s, 0));
    assert(buy[-q_lower] == buy_delta(inv, s, 0));
}

/// Mirror symmetry of the offset formulas: with inventory bounds symmetric
/// about zero, the ask offset read at the upper bound equals the bid
/// offset read at the lower bound.
pub proof fn lemma_offsets_symmetric_bounds(
    buy: Seq<i64>,
    sell: Seq<i64>,
    inv: int,
    s: int,
    q_upper: int,
)
    requires
        q_upper > 0,
        s >= 0,
        buy.len() == 2 * q_upper,
        sell.len() == 2 * q_upper,
        forall|j: int| 0 <= j < buy.len() ==> #[trigger] buy[j] == buy_delta(inv, s, -q_upper + j),
        forall|j: int|
            0 <= j < sell.len() ==> #[trigger] sell[j] == sell_delta(inv, s, -q_upper + 1 + j),
    ensures
        sell[sell.len() - 1] == buy[0],
{
    assert(sell[2 * q_upper - 1] == sell_delta(inv, s, q_upper));
    assert(buy[0] == buy_delta(inv, s, -q_upper));
    assert(2 * (-q_upper) + 1 == -(2 * q_upper - 1));
}

/// Below the lower inventory bound the position clamps to the bound
/// itself: the lookup disallows asks and reads the same bid offset as at
/// exactly the bound.
pub proof fn lemma_offsets_clamped_below(pos: int, q_lower: int, q_upper: int)
    requires
        q_lower < q_upper,
        pos <= q_lower,
    ensures
        clamp_pos(pos, q_lower, q_upper) == clamp_pos(q_lower, q_lower, q_upper),
        !(clamp_pos(pos, q_lower, q_upper) > q_lower),
        clamp_pos(pos, q_lower, q_upper) < q_upper,
{
}

/// Above the upper inventory bound the position clamps to the bound
/// itself: the lookup disallows bids and reads the same ask offset as at
/// exactly the bound.
pub proof fn lemma_offsets_clamped_above(pos: int, q_lower: int, q_upper: int)
    requires
        q_lower < q_upper,
        pos >= q_upper,
    ensures
        clamp_pos(pos, q_lower, q_upper) == clamp_pos(q_upper, q_lower, q_upper),
        !(clamp_pos(pos, q_lower, q_upper) < q_upper),
        clamp_pos(pos, q_lower, q_upper) > q_lower,
{
}

} // verus!
