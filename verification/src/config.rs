//! The strategy's configuration surface and its startup validation. All
//! real-valued settings are fixed-point integers scaled by [`FP`].

use vstd::prelude::*;

use crate::batch::{LEVELS_MAX, NOTIONAL_MAX};
use crate::fixed::FP;
use crate::offsets::{PARAM_MAX, Q_BOUND};

verus! {

/// The configuration the strategy consumes; loading and I/O settings live
/// with the process around the library.
pub struct Config {
    pub vega_market: String,
    pub bond_amount: u64,
    pub lp_fee_bid: u64,
    pub volume_of_notional: u64,
    pub buy_to_sell_ratio: u64,
    pub levels: u64,
    pub step: u64,
    pub tick_size: u64,
    pub price_range_factor: u64,
    pub q_lower: i64,
    pub q_upper: i64,
    pub pos_lim_scaling: u64,
    pub kappa: u64,
    pub kappa_weight: u64,
    pub lambd: u64,
    pub phi: u64,
    pub binance_price_scaling: u64,
    pub ref_price_scaling: u64,
    pub use_mid: bool,
    pub use_vega_bidask: bool,
    pub use_binance_bidask: bool,
    pub use_bybit_bidask: bool,
    pub use_vega_trades: bool,
    pub allow_negative_offset: bool,
    pub gtt_length: u64,
    pub dispose_prob: u64,
    pub dispose_q_lower: i64,
    pub dispose_q_upper: i64,
    pub submission_rate: u64,
    pub dryrun: bool,
}

/// Why a configuration is rejected at startup.
#[derive(Clone, Copy, Debug, PartialEq, Eq, Structural)]
pub enum ConfigError {
    ZeroBuyToSellRatio,
    ZeroRefPriceScaling,
    ZeroStep,
    ZeroTickSize,
    ZeroPriceRangeFactor,
    InvalidInventoryBounds,
    PositionLimitScalingBelowOne,
    ZeroKappa,
    KappaWeightAboveOne,
    SubmissionRateTooLow,
    NoReferenceSource,
    DisposeProbabilityAboveOne,
    InvalidDisposalBounds,
}

/// The first startup check a configuration fails, if any, in the order
/// the checks run.
pub open spec fn config_validation_spec(c: Config) -> Result<(), ConfigError> {
    if c.buy_to_sell_ratio == 0 {
        Err(ConfigError::ZeroBuyToSellRatio)
    } else if c.ref_price_scaling == 0 {
        Err(ConfigError::ZeroRefPriceScaling)
    } else if c.step == 0 {
        Err(ConfigError::ZeroStep)
    } else if c.tick_size == 0 {
        Err(ConfigError::ZeroTickSize)
    } else if c.price_range_factor == 0 {
        Err(ConfigError::ZeroPriceRangeFactor)
    } else if c.q_lower >= c.q_upper {
        Err(ConfigError::InvalidInventoryBounds)
    } else if c.pos_lim_scaling < FP {
        Err(ConfigError::PositionLimitScalingBelowOne)
    } else if c.kappa == 0 {
        Err(ConfigError::ZeroKappa)
    } else if c.kappa_weight > FP {
        Err(ConfigError::KappaWeightAboveOne)
    } else if c.submission_rate < 10_000 {
        Err(ConfigError::SubmissionRateTooLow)
    } else if !c.use_binance_bidask && !c.use_vega_bidask && !c.use_bybit_bidask {
        Err(ConfigError::NoReferenceSource)
    } else if c.dispose_prob > FP {
        Err(ConfigError::DisposeProbabilityAboveOne)
    } else if c.dispose_q_lower >= c.dispose_q_upper {
        Err(ConfigError::InvalidDisposalBounds)
    } else {
        Ok(())
    }
}

/// Validates a configuration at startup: a non-positive ratio, scaling,
/// step, tick or price-range factor, inverted inventory or disposal
/// bounds, a scaling or weight outside its range, a too-fast submission
/// cadence, or no enabled reference source is fatal, and the first such
/// fault is reported.
pub fn config_validation(c: &Config) -> (r: Result<(), ConfigError>)
    ensures
        r == config_validation_spec(*c),
{
    if c.buy_to_sell_ratio == 0 {
        Err(ConfigError::ZeroBuyToSellRatio)
    } else if c.ref_price_scaling == 0 {
        Err(ConfigError::ZeroRefPriceScaling)
    } else if c.step == 0 {
        Err(ConfigError::ZeroStep)
    } else if c.tick_size == 0 {
        Err(ConfigError::ZeroTickSize)
    } else if c.price_range_factor == 0 {
        Err(ConfigError::ZeroPriceRangeFactor)
    } else if c.q_lower >= c.q_upper {
        Err(ConfigError::InvalidInventoryBounds)
    } else if c.pos_lim_scaling < FP {
        Err(ConfigError::PositionLimitScalingBelowOne)
    } else if c.kappa == 0 {
        Err(ConfigError::ZeroKappa)
    } else if c.kappa_weight > FP {
        Err(ConfigError::KappaWeightAboveOne)
    } else if c.submission_rate < 10_000 {
        Err(ConfigError::SubmissionRateTooLow)
    } else if !c.use_binance_bidask && !c.use_vega_bidask && !c.use_bybit_bidask {
        Err(ConfigError::NoReferenceSource)
    } else if c.dispose_prob > FP {
        Err(ConfigError::DisposeProbabilityAboveOne)
    } else if c.dispose_q_lower >= c.dispose_q_upper {
        Err(ConfigError::InvalidDisposalBounds)
    } else {
        Ok(())
    }
}

/// The capacity bounds of the fixed-point model: inventory bounds, level
/// count, notional, risk parameters and order lifetime small enough that
/// every computation of the pipeline stays within its integer words.
pub open spec fn config_limits_spec(c: Config) -> bool {
    &&& -Q_BOUND <= c.q_lower
    &&& c.q_upper <= Q_BOUND
    &&& 1 <= c.levels <= LEVELS_MAX
    &&& c.volume_of_notional <= NOTIONAL_MAX
    &&& c.kappa <= PARAM_MAX
    &&& c.lambd <= PARAM_MAX
    &&& c.phi <= PARAM_MAX
    &&& c.price_range_factor <= PARAM_MAX
    &&& c.gtt_length <= 1_000_000_000
}

/// Decides `config_limits_spec`: whether the configuration is within the
/// capacity of the fixed-point model.
pub fn config_within_limits(c: &Config) -> (r: bool)
    ensures
        r == config_limits_spec(*c),
{
    (-Q_BOUND <= c.q_lower) && (c.q_upper <= Q_BOUND) && (1 <= c.levels && c.levels <= LEVELS_MAX)
        && (c.volume_of_notional <= NOTIONAL_MAX) && (c.kappa <= PARAM_MAX) && (c.lambd
        <= PARAM_MAX) && (c.phi <= PARAM_MAX) && (c.price_range_factor <= PARAM_MAX)
        && (c.gtt_length <= 1_000_000_000)
}

} // verus!
