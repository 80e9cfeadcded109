//! A verified core for an automated market-making strategy: a market-state
//! store fed by streaming updates, parameter estimators for the order
//! arrival rate and fill intensity, a closed-form inventory-control offset
//! calculator, a position-based risk gate, and an order-batch builder —
//! all over fixed-point integer arithmetic, with the per-tick decision
//! pipeline tying them together.

mod batch;
mod combiner;
mod config;
mod decimals;
mod estimates;
mod fixed;
mod history;
mod liquidity;
mod offsets;
mod ref_price;
mod risk;
mod store;
mod strategy;

pub use batch::{
    get_batch, get_close_batch, get_order_size_mm, get_order_size_mm_linear,
    get_order_size_mm_quadratic, BatchMarketInstructions, OrderCancellation, OrderSubmission,
    Side,
};
pub use combiner::combine_reference_prices;
pub use config::{config_validation, config_within_limits, Config, ConfigError};
pub use decimals::Decimals;
pub use estimates::{
    estimate_kappa, estimate_kappa_blended, estimate_lambda, estimate_lambda2,
    generate_trades_unif, trade_is_buy, BuySellUnsure, TradeStat,
};
pub use fixed::{parse_u64_digits, parse_u64_str, FP};
pub use liquidity::{
    get_liquidity_amendment_transaction, get_liquidity_cancellation_transaction,
    get_liquidity_submission_transaction, LiquidityProvisionAmendment,
    LiquidityProvisionCancellation, LiquidityProvisionSubmission,
};
pub use offsets::{calculate_offsets, offsets_from_position, OFFSET_UNBOUNDED};
pub use ref_price::RefPrice;
pub use risk::{ask_side_situation, bid_side_situation, decide_disposal, PositionSituation};
pub use store::{AssetInfo, MarketDataInfo, MarketInfo, PositionInfo, TradeInfo, VegaStore};
pub use strategy::{run_strategy_tick, run_strategy_tick_live, TickAction};
