//! Liquidity-commitment transactions: the committed amount is scaled to
//! integer asset units; submission of the result belongs to the process
//! around the library.

use vstd::prelude::*;

use crate::decimals::Decimals;
use crate::fixed::mul_u64_u128;

verus! {

/// A new liquidity commitment: amount in integer asset units, fee in
/// fixed point.
pub struct LiquidityProvisionSubmission {
    pub market_id: String,
    pub commitment_amount: u64,
    pub fee: u64,
    pub reference: String,
}

/// An amendment of the standing liquidity commitment.
pub struct LiquidityProvisionAmendment {
    pub market_id: String,
    pub commitment_amount: u64,
    pub fee: u64,
    pub reference: String,
}

/// A cancellation of the standing liquidity commitment.
pub struct LiquidityProvisionCancellation {
    pub market_id: String,
}

/// A human-scale commitment brought to integer asset units, saturating:
/// `min(amount * asset_factor, u64::MAX)`.
pub open spec fn commitment_units(amount: int, asset_factor: int) -> int {
    if amount * asset_factor > u64::MAX {
        u64::MAX as int
    } else {
        amount * asset_factor
    }
}

/// Computes `commitment_units` exactly.
fn commitment_amount_units(amount: u64, d: &Decimals) -> (r: u64)
    ensures
        r == commitment_units(amount as int, d.asset_factor as int),
{
    let wide: u128 = mul_u64_u128(amount, d.asset_factor);
    if wide > u64::MAX as u128 {
        u64::MAX
    } else {
        wide as u64
    }
}

/// Builds the liquidity submission: the committed amount scaled to asset
/// units, the fee and reference carried through.
pub fn get_liquidity_submission_transaction(
    market_id: String,
    commitment_amt: u64,
    fee: u64,
    reference: String,
    d: &Decimals,
) -> (r: LiquidityProvisionSubmission)
    ensures
        r.market_id@ == market_id@,
        r.commitment_amount == commitment_units(commitment_amt as int, d.asset_factor as int),
        r.fee == fee,
        r.reference@ == reference@,
{
    let commitment_amount = commitment_amount_units(commitment_amt, d);
    LiquidityProvisionSubmission { market_id, commitment_amount, fee, reference }
}

/// Builds the liquidity amendment: the committed amount scaled to asset
/// units, the fee and reference carried through.
pub fn get_liquidity_amendment_transaction(
    market_id: String,
    commitment_amt: u64,
    fee: u64,
    reference: String,
    d: &Decimals,
) -> (r: LiquidityProvisionAmendment)
    ensures
        r.market_id@ == market_id@,
        r.commitment_amount == commitment_units(commitment_amt as int, d.asset_factor as int),
        r.fee == fee,
        r.reference@ == reference@,
{
    let commitment_amount = commitment_amount_units(commitment_amt, d);
    LiquidityProvisionAmendment { market_id, commitment_amount, fee, reference }
}

/// Builds the liquidity cancellation for one market.
pub fn get_liquidity_cancellation_transaction(market_id: String) -> (r:
    LiquidityProvisionCancellation)
    ensures
        r.market_id@ == market_id@,
{
    LiquidityProvisionCancellation { market_id }
}

} // verus!
