//! Conservative combination of reference quotes from the venue's own book
//! and an external venue: never quote tighter than the most aggressive ask
//! observed, nor above the most conservative bid.

use vstd::prelude::*;

verus! {

/// What the combiner yields: with both sources enabled, the smaller bid and
/// the larger ask; with one enabled, that source; with none, nothing.
/// A zero (non-positive) price on an enabled source defers the whole tick.
pub open spec fn combine_spec(
    use_vega: bool,
    use_external: bool,
    vega_bid: u64,
    vega_ask: u64,
    ext_bid: u64,
    ext_ask: u64,
) -> Option<(u64, u64)> {
    if use_vega && (vega_bid == 0 || vega_ask == 0) {
        None
    } else if use_external && (ext_bid == 0 || ext_ask == 0) {
        None
    } else if use_vega && use_external {
        Some(
            (
                if ext_bid < vega_bid {
                    ext_bid
                } else {
                    vega_bid
                },
                if ext_ask > vega_ask {
                    ext_ask
                } else {
                    vega_ask
                },
            ),
        )
    } else if use_vega {
        Some((vega_bid, vega_ask))
    } else if use_external {
        Some((ext_bid, ext_ask))
    } else {
        None
    }
}

/// Combines the enabled reference quotes into the `(bid, ask)` pair used
/// this tick: the minimum of the enabled bids and the maximum of the
/// enabled asks. Returns `None` — the tick is to be skipped — when no
/// source is enabled or an enabled source reports a non-positive price.
pub fn combine_reference_prices(
    use_vega: bool,
    use_external: bool,
    vega_bid: u64,
    vega_ask: u64,
    ext_bid: u64,
    ext_ask: u64,
) -> (r: Option<(u64, u64)>)
    ensures
        r == combine_spec(use_vega, use_external, vega_bid, vega_ask, ext_bid, ext_ask),
        r is Some ==> (r->0).0 > 0 && (r->0).1 > 0,
{
    if use_vega && (vega_bid == 0 || vega_ask == 0) {
        None
    } else if use_external && (ext_bid == 0 || ext_ask == 0) {
        None
    } else if use_vega && use_external {
        let bid = if ext_bid < vega_bid {
            ext_bid
        } else {
            vega_bid
        };
        let ask = if ext_ask > vega_ask {
            ext_ask
        } else {
            vega_ask
        };
        Some((bid, ask))
    } else if use_vega {
        Some((vega_bid, vega_ask))
    } else if use_external {
        Some((ext_bid, ext_ask))
    } else {
        None
    }
}

} // verus!
