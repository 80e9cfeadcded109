//! Scaling factors between human-readable quantities and integer market
//! units, derived once per tick from the instrument's and the settlement
//! asset's decimal places.

use vstd::prelude::*;

use crate::fixed::{mul_u64_u128, pow10, pow10_u64, sat_div, sat_div_u128, FP};
use crate::store::{AssetInfo, MarketInfo};

verus! {

/// The decimal places of the market and its settlement asset, with the
/// power-of-ten factors they induce. All factors are strictly positive.
pub struct Decimals {
    pub position_decimal_places: u64,
    pub price_decimal_places: u64,
    pub asset_decimal_places: u64,
    pub position_factor: u64,
    pub price_factor: u64,
    pub asset_factor: u64,
}

impl Decimals {
    /// Each factor is exactly ten to its decimal places, and the price and
    /// position scales together stay within the word size the batch
    /// builder computes in.
    pub open spec fn wf(self) -> bool {
        &&& self.price_decimal_places + self.position_decimal_places <= 18
        &&& self.asset_decimal_places <= 18
        &&& self.price_factor == pow10(self.price_decimal_places as nat)
        &&& self.position_factor == pow10(self.position_decimal_places as nat)
        &&& self.asset_factor == pow10(self.asset_decimal_places as nat)
        &&& 1 <= self.price_factor <= 1_000_000_000_000_000_000
        &&& 1 <= self.position_factor <= 1_000_000_000_000_000_000
        &&& 1 <= self.asset_factor <= 1_000_000_000_000_000_000
        &&& self.price_factor * self.position_factor <= 1_000_000_000_000_000_000
    }

    /// Derives the scaling factors from the market's and the settlement
    /// asset's decimal places.
    pub fn new(mkt: &MarketInfo, asset: &AssetInfo) -> (d: Decimals)
        requires
            mkt.decimal_places + mkt.position_decimal_places <= 18,
            asset.decimals <= 18,
        ensures
            d.wf(),
            d.price_decimal_places == mkt.decimal_places,
            d.position_decimal_places == mkt.position_decimal_places,
            d.asset_decimal_places == asset.decimals,
    {
        proof {
            crate::fixed::lemma_pow10_bounds(mkt.decimal_places as nat);
            crate::fixed::lemma_pow10_bounds(mkt.position_decimal_places as nat);
            crate::fixed::lemma_pow10_bounds(asset.decimals as nat);
            crate::fixed::lemma_pow10_mul_bound(
                mkt.decimal_places as nat,
                mkt.position_decimal_places as nat,
            );
        }
        Decimals {
            position_decimal_places: mkt.position_decimal_places,
            price_decimal_places: mkt.decimal_places,
            asset_decimal_places: asset.decimals,
            position_factor: pow10_u64(mkt.position_decimal_places),
            price_factor: pow10_u64(mkt.decimal_places),
            asset_factor: pow10_u64(asset.decimals),
        }
    }

    /// A fixed-point asset amount brought down to human scale:
    /// `amount / asset_factor`, saturating.
    pub fn from_asset_precision(&self, amount: u64) -> (r: u64)
        requires
            self.asset_factor >= 1,
        ensures
            r == sat_div(amount as int, self.asset_factor as int),
    {
        sat_div_u128(amount as u128, self.asset_factor as u128)
    }

    /// Integer market price units brought to fixed point:
    /// `price * FP / price_factor`, saturating.
    pub fn from_market_price_precision(&self, price: u64) -> (r: u64)
        requires
            self.price_factor >= 1,
        ensures
            r == sat_div(price * FP, self.price_factor as int),
    {
        sat_div_u128(mul_u64_u128(price, FP), self.price_factor as u128)
    }

    /// Integer market position units brought to fixed point:
    /// `position * FP / position_factor`, saturating.
    pub fn from_market_position_precision(&self, position: u64) -> (r: u64)
        requires
            self.position_factor >= 1,
        ensures
            r == sat_div(position * FP, self.position_factor as int),
    {
        sat_div_u128(mul_u64_u128(position, FP), self.position_factor as u128)
    }

    /// A fixed-point price brought to integer market units:
    /// `price * price_factor / FP`, saturating.
    pub fn to_market_price_precision(&self, price: u64) -> (r: u64)
        ensures
            r == sat_div(price * self.price_factor, FP as int),
    {
        sat_div_u128(mul_u64_u128(price, self.price_factor), FP as u128)
    }

    /// A fixed-point position brought to integer market units:
    /// `position * position_factor / FP`, saturating.
    pub fn to_market_position_precision(&self, position: u64) -> (r: u64)
        ensures
            r == sat_div(position * self.position_factor, FP as int),
    {
        sat_div_u128(mul_u64_u128(position, self.position_factor), FP as u128)
    }
}

} // verus!
