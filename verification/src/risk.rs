//! Per-side risk state, recomputed fresh every tick from the quoting
//! permission, the current position and the scaled hard inventory limit —
//! no state is carried across ticks.

use vstd::prelude::*;

use crate::fixed::FP;

verus! {

/// How a side of the book is to be quoted this tick.
#[derive(Clone, Copy, Debug, PartialEq, Eq, Structural)]
pub enum PositionSituation {
    /// Quote the ladder at the computed offset.
    Normal,
    /// The offset tables disallow the side but the scaled hard limit is not
    /// breached: post exactly one order at the worst allowed offset.
    OnTheEdge,
    /// The scaled hard limit is breached: post nothing on the side.
    HardStop,
}

/// The products compared by the risk gate stay within the wide signed
/// word: a position times `FP`, and an inventory bound times a scaling
/// factor.
proof fn lemma_scaled_bound_fits(position: int, q_bound: int, scaling: int)
    requires
        -0x8000_0000_0000_0000 <= position <= 0x7fff_ffff_ffff_ffff,
        -0x8000_0000_0000_0000 <= q_bound <= 0x7fff_ffff_ffff_ffff,
        0 <= scaling <= 0xffff_ffff_ffff_ffff,
    ensures
        i128::MIN <= position * 1_000_000 <= i128::MAX,
        i128::MIN <= q_bound * scaling <= i128::MAX,
{
    assert(i128::MIN <= position * 1_000_000 <= i128::MAX) by (nonlinear_arith)
        requires -0x8000_0000_0000_0000 <= position <= 0x7fff_ffff_ffff_ffff;
    assert(i128::MIN <= q_bound * scaling <= i128::MAX) by (nonlinear_arith)
        requires
            -0x8000_0000_0000_0000 <= q_bound <= 0x7fff_ffff_ffff_ffff,
            0 <= scaling <= 0xffff_ffff_ffff_ffff,
    ;
}

/// What the ask-side gate resolves to; see [`ask_side_situation`].
pub open spec fn ask_situation_spec(
    submit_asks: bool,
    position: int,
    q_lower: int,
    pos_lim_scaling: int,
) -> PositionSituation {
    if submit_asks {
        PositionSituation::Normal
    } else if position * 1_000_000 < q_lower * pos_lim_scaling {
        PositionSituation::HardStop
    } else {
        PositionSituation::OnTheEdge
    }
}

/// What the bid-side gate resolves to; see [`bid_side_situation`].
pub open spec fn bid_situation_spec(
    submit_bids: bool,
    position: int,
    q_upper: int,
    pos_lim_scaling: int,
) -> PositionSituation {
    if submit_bids {
        PositionSituation::Normal
    } else if position * 1_000_000 > q_upper * pos_lim_scaling {
        PositionSituation::HardStop
    } else {
        PositionSituation::OnTheEdge
    }
}

/// The ask side's state: `Normal` while the offset tables allow selling;
/// otherwise `HardStop` exactly when the position lies below the scaled
/// lower bound `q_lower * pos_lim_scaling`, else `OnTheEdge`.
pub fn ask_side_situation(
    submit_asks: bool,
    position: i64,
    q_lower: i64,
    pos_lim_scaling: u64,
) -> (r: PositionSituation)
    ensures
        r == ask_situation_spec(submit_asks, position as int, q_lower as int,
            pos_lim_scaling as int),
        (r is Normal) <==> submit_asks,
        (r is HardStop) <==> (!submit_asks && (position as int) * FP < (q_lower as int) * (
        pos_lim_scaling as int)),
        (r is OnTheEdge) <==> (!submit_asks && (position as int) * FP >= (q_lower as int) * (
        pos_lim_scaling as int)),
{
    if submit_asks {
        PositionSituation::Normal
    } else {
        proof {
            lemma_scaled_bound_fits(position as int, q_lower as int, pos_lim_scaling as int);
        }
        if (position as i128) * (FP as i128) < (q_lower as i128) * (pos_lim_scaling as i128) {
            PositionSituation::HardStop
        } else {
            PositionSituation::OnTheEdge
        }
    }
}

/// The bid side's state: `Normal` while the offset tables allow buying;
/// otherwise `HardStop` exactly when the position lies above the scaled
/// upper bound `q_upper * pos_lim_scaling`, else `OnTheEdge`.
pub fn bid_side_situation(
    submit_bids: bool,
    position: i64,
    q_upper: i64,
    pos_lim_scaling: u64,
) -> (r: PositionSituation)
    ensures
        r == bid_situation_spec(submit_bids, position as int, q_upper as int,
            pos_lim_scaling as int),
        (r is Normal) <==> submit_bids,
        (r is HardStop) <==> (!submit_bids && (position as int) * FP > (q_upper as int) * (
        pos_lim_scaling as int)),
        (r is OnTheEdge) <==> (!submit_bids && (position as int) * FP <= (q_upper as int) * (
        pos_lim_scaling as int)),
{
    if submit_bids {
        PositionSituation::Normal
    } else {
        proof {
            lemma_scaled_bound_fits(position as int, q_upper as int, pos_lim_scaling as int);
        }
        if (position as i128) * (FP as i128) > (q_upper as i128) * (pos_lim_scaling as i128) {
            PositionSituation::HardStop
        } else {
            PositionSituation::OnTheEdge
        }
    }
}

/// Whether a position at or beyond a disposal threshold, together with a
/// uniform draw from `[0, FP)`, triggers an inventory-nudging order this
/// tick: the draw falls below the configured probability.
pub fn decide_disposal(draw: u64, dispose_prob: u64) -> (r: bool)
    ensures
        r <==> draw < dispose_prob,
{
    draw < dispose_prob
}

} // verus!
