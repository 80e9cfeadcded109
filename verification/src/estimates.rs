//! Parameter estimation from the recent trade history: the order-arrival
//! rate lambda (trades per minute) and the fill-intensity kappa, both as
//! fixed-point values scaled by [`FP`].

use vstd::prelude::*;

use crate::fixed::{sat_div, sat_div_u128, FP, ONE_MINUTE_NS};

verus! {

/// One trade joined with the best bid/ask of the book snapshot that was
/// active when it happened. Prices are integer market units.
#[derive(Clone, Copy, Debug, PartialEq, Eq, Structural)]
pub struct TradeStat {
    pub timestamp: u64,
    pub price: u64,
    pub size: u64,
    pub block_best_bid: u64,
    pub block_best_ask: u64,
}

/// The trade log is append-ordered: timestamps never decrease.
pub open spec fn trades_sorted(s: Seq<TradeStat>) -> bool {
    forall|i: int| 0 <= i < s.len() - 1 ==> #[trigger] s[i].timestamp <= s[i + 1].timestamp
}

/// The age of a trade at time `now`; a trade stamped ahead of the clock
/// counts as age zero.
pub open spec fn age_of(now: u64, ts: u64) -> int {
    if ts > now {
        0
    } else {
        now - ts
    }
}

/// State of the backward bucket walk of [`estimate_lambda`] after `i` steps:
/// `(start of the open bucket, trades in the open bucket, completed buckets,
/// trades in completed buckets)`. Step `i` visits the trade at index
/// `len - 1 - i`; a bucket closes whenever the gap back to the bucket's
/// start reaches one minute.
pub open spec fn lambda_state(s: Seq<TradeStat>, i: int) -> (int, nat, nat, nat)
    recommends
        s.len() >= 2,
        0 <= i <= s.len() - 1,
    decreases i,
{
    if i <= 0 {
        (s.last().timestamp as int, 0nat, 0nat, 0nat)
    } else {
        let prev = lambda_state(s, i - 1);
        let t = s[s.len() - 1 - i];
        if prev.0 - t.timestamp >= ONE_MINUTE_NS {
            (t.timestamp as int, 0nat, (prev.2 + 1) as nat, (prev.3 + prev.1 + 1) as nat)
        } else {
            (prev.0, (prev.1 + 1) as nat, prev.2, prev.3)
        }
    }
}

/// What [`estimate_lambda`] returns: the mean completed-bucket count in
/// fixed point, or the prior when fewer than two trades or no completed
/// bucket give it nothing to work with.
pub open spec fn estimate_lambda_spec(prior: u64, s: Seq<TradeStat>) -> u64 {
    if s.len() <= 1 {
        prior
    } else {
        let st = lambda_state(s, s.len() - 1);
        if st.2 == 0 {
            prior
        } else {
            sat_div(st.3 * FP, st.2 as int) as u64
        }
    }
}

/// Bookkeeping facts of the bucket walk: the open and completed buckets
/// together hold exactly the `i` visited trades, every completed bucket is
/// non-empty, and the open bucket started no earlier than the next trade to
/// visit.
proof fn lemma_lambda_state_facts(s: Seq<TradeStat>, i: int)
    requires
        trades_sorted(s),
        s.len() >= 2,
        0 <= i <= s.len() - 1,
    ensures
        lambda_state(s, i).3 + lambda_state(s, i).1 == i,
        lambda_state(s, i).2 <= lambda_state(s, i).3,
        lambda_state(s, i).0 >= s[s.len() - 1 - i].timestamp,
        lambda_state(s, i).0 <= u64::MAX,
    decreases i,
{
    if i > 0 {
        lemma_lambda_state_facts(s, i - 1);
        assert(s[s.len() - 1 - i].timestamp <= s[s.len() - 1 - (i - 1)].timestamp);
    }
}

/// Estimates the order-arrival rate from the trade log: walking backward
/// from the newest trade, a bucket closes each time the gap back to the
/// bucket's start reaches one minute, and lambda is the mean number of
/// trades per completed bucket, scaled by [`FP`]. With fewer than two
/// trades, or with no completed bucket, the prior is returned unchanged.
#[verifier::rlimit(50)]
pub fn estimate_lambda(initial_lambd: u64, trades: &Vec<TradeStat>) -> (r: u64)
    requires
        trades_sorted(trades@),
    ensures
        r == estimate_lambda_spec(initial_lambd, trades@),
        trades@.len() <= 1 ==> r == initial_lambd,
{
    let n = trades.len();
    if n <= 1 {
        return initial_lambd;
    }

    let mut init_t: u64 = trades[n - 1].timestamp;
    let mut pending: u64 = 0;
    let mut nbuckets: u64 = 0;
    let mut bsum: u64 = 0;
    let mut i: usize = 0;
    while i < n - 1
        invariant
            trades_sorted(trades@),
            2 <= n == trades@.len(),
            0 <= i <= n - 1,
            init_t as int == lambda_state(trades@, i as int).0,
            pending as nat == lambda_state(trades@, i as int).1,
            nbuckets as nat == lambda_state(trades@, i as int).2,
            bsum as nat == lambda_state(trades@, i as int).3,
        decreases n - 1 - i,
    {
        proof {
            lemma_lambda_state_facts(trades@, i as int);
            lemma_lambda_state_facts(trades@, i + 1);
            assert(trades@[n - 2 - i].timestamp <= trades@[n - 1 - i].timestamp);
        }
        let t = trades[n - 2 - i];
        if init_t - t.timestamp >= ONE_MINUTE_NS {
            bsum = bsum + pending + 1;
            nbuckets = nbuckets + 1;
            pending = 0;
            init_t = t.timestamp;
        } else {
            pending = pending + 1;
        }
        i = i + 1;
    }
    if nbuckets == 0 {
        initial_lambd
    } else {
        proof {
            lemma_lambda_state_facts(trades@, n - 1);
        }
        sat_div_u128(bsum as u128 * FP as u128, nbuckets as u128)
    }
}

/// When every consecutive gap is at least one minute, each step of the walk
/// closes a bucket holding exactly one trade.
proof fn lemma_lambda_state_uniform(s: Seq<TradeStat>, i: int)
    requires
        trades_sorted(s),
        s.len() >= 2,
        forall|j: int|
            0 <= j < s.len() - 1 ==> #[trigger] s[j + 1].timestamp - s[j].timestamp
                >= ONE_MINUTE_NS,
        0 <= i <= s.len() - 1,
    ensures
        lambda_state(s, i) == (s[s.len() - 1 - i].timestamp as int, 0nat, i as nat, i as nat),
    decreases i,
{
    if i > 0 {
        lemma_lambda_state_uniform(s, i - 1);
        let j = s.len() - 1 - i;
        assert(s[j + 1].timestamp - s[j].timestamp >= ONE_MINUTE_NS);
    }
}

/// Trades separated by at least one minute each give an arrival-rate
/// estimate of exactly one trade per minute; in particular, trades spaced
/// at exactly one-minute intervals do.
pub proof fn lemma_estimate_lambda_one_per_minute(prior: u64, s: Seq<TradeStat>)
    requires
        trades_sorted(s),
        s.len() >= 2,
        forall|j: int|
            0 <= j < s.len() - 1 ==> #[trigger] s[j + 1].timestamp - s[j].timestamp
                >= ONE_MINUTE_NS,
    ensures
        estimate_lambda_spec(prior, s) == FP,
{
    let k = s.len() - 1;
    lemma_lambda_state_uniform(s, k);
    assert(k * FP / k == FP) by {
        vstd::arithmetic::div_mod::lemma_div_multiples_vanish(FP as int, k as int);
    }
}

/// The maximal run of trades, counted backward from the newest, whose age
/// at `now` is at most `window`.
pub open spec fn count_within(s: Seq<TradeStat>, now: u64, window: u64) -> nat
    decreases s.len(),
{
    if s.len() > 0 && age_of(now, s.last().timestamp) <= window {
        1 + count_within(s.drop_last(), now, window)
    } else {
        0
    }
}

/// A suffix of in-window trades bounded on the left by an out-of-window
/// trade (or the start of the log) is exactly what `count_within` counts.
proof fn lemma_count_within_from_split(s: Seq<TradeStat>, now: u64, window: u64, idx: int)
    requires
        0 <= idx <= s.len(),
        forall|j: int| idx <= j < s.len() ==> age_of(now, #[trigger] s[j].timestamp) <= window,
        idx > 0 ==> age_of(now, s[idx - 1].timestamp) > window,
    ensures
        count_within(s, now, window) == s.len() - idx,
    decreases s.len(),
{
    if idx < s.len() {
        assert(age_of(now, s.last().timestamp) <= window);
        lemma_count_within_from_split(s.drop_last(), now, window, idx);
    } else {
        if s.len() > 0 {
            assert(age_of(now, s[idx - 1].timestamp) > window);
        }
    }
}

/// What [`estimate_lambda2`] returns: the number of in-window trades
/// divided by the elapsed minutes back to the oldest of them, in fixed
/// point; the prior when no trade qualifies or no time has elapsed.
pub open spec fn estimate_lambda2_spec(prior: u64, now: u64, window: u64, s: Seq<TradeStat>)
    -> u64 {
    let count = count_within(s, now, window);
    if count == 0 {
        prior
    } else {
        let elapsed = age_of(now, s[s.len() - count].timestamp);
        if elapsed == 0 {
            prior
        } else {
            sat_div(count * FP * ONE_MINUTE_NS, elapsed) as u64
        }
    }
}

/// Estimates the order-arrival rate from the trades whose age at `now` is
/// within `window`, scanning backward from the newest trade and stopping at
/// the first older one: lambda is their count divided by the elapsed
/// minutes back to the oldest qualifying trade — not by the full window, so
/// a sparsely populated window biases toward the prior. The prior is
/// returned unchanged when no trade qualifies, or when the oldest
/// qualifying trade is no older than `now` itself.
pub fn estimate_lambda2(initial_lambd: u64, current_t: u64, estimation_interval: u64, trades: &Vec<
    TradeStat,
>) -> (r: u64)
    requires
        trades_sorted(trades@),
    ensures
        r == estimate_lambda2_spec(initial_lambd, current_t, estimation_interval, trades@),
        trades@.len() == 0 ==> r == initial_lambd,
{
    let n = trades.len();
    let mut idx: usize = n;
    while idx > 0
        invariant
            n == trades@.len(),
            0 <= idx <= n,
            forall|j: int|
                idx <= j < n ==> age_of(current_t, #[trigger] trades@[j].timestamp)
                    <= estimation_interval,
        ensures
            n == trades@.len(),
            0 <= idx <= n,
            forall|j: int|
                idx <= j < n ==> age_of(current_t, #[trigger] trades@[j].timestamp)
                    <= estimation_interval,
            idx > 0 ==> age_of(current_t, trades@[idx - 1].timestamp) > estimation_interval,
        decreases idx,
    {
        let t = trades[idx - 1];
        let age: u64 = if t.timestamp > current_t {
            0
        } else {
            current_t - t.timestamp
        };
        if age > estimation_interval {
            break ;
        }
        idx = idx - 1;
    }
    proof {
        lemma_count_within_from_split(trades@, current_t, estimation_interval, idx as int);
    }
    let count = n - idx;
    if count == 0 {
        return initial_lambd;
    }
    let oldest = trades[idx];
    let elapsed: u64 = if oldest.timestamp > current_t {
        0
    } else {
        current_t - oldest.timestamp
    };
    if elapsed == 0 {
        return initial_lambd;
    }
    sat_div_u128(count as u128 * FP as u128 * ONE_MINUTE_NS as u128, elapsed as u128)
}

/// Twice the distance from a trade's price to the contemporaneous mid
/// price, in market units: `|2 * price - (bid + ask)|`.
pub open spec fn dist2_of(t: TradeStat) -> int {
    if 2 * t.price >= t.block_best_bid + t.block_best_ask {
        2 * t.price - (t.block_best_bid + t.block_best_ask)
    } else {
        (t.block_best_bid + t.block_best_ask) - 2 * t.price
    }
}

/// Sum of `dist2_of` over the newest `count` trades.
pub open spec fn dist2_sum(s: Seq<TradeStat>, count: nat) -> int
    recommends
        count <= s.len(),
    decreases count,
{
    if count == 0 {
        0
    } else {
        dist2_of(s[s.len() - count]) + dist2_sum(s, (count - 1) as nat)
    }
}

/// What [`estimate_kappa`] returns: the maximum-likelihood fill intensity
/// `count / sum of |price - mid| / price_factor` over the in-window trades,
/// in fixed point; the prior when no trade qualifies or the distance sum is
/// zero.
pub open spec fn estimate_kappa_spec(
    prior: u64,
    now: u64,
    window: u64,
    s: Seq<TradeStat>,
    price_factor: u64,
) -> u64 {
    let count = count_within(s, now, window);
    if count == 0 {
        prior
    } else {
        let sum2 = dist2_sum(s, count);
        if sum2 == 0 {
            prior
        } else {
            sat_div(count * 2 * price_factor * FP, sum2) as u64
        }
    }
}

/// Estimates the fill intensity kappa from the trades whose age at `now` is
/// within `window` (the same backward scan as [`estimate_lambda2`]): the
/// maximum-likelihood estimator of an exponential fill-distance
/// distribution, `count` divided by the accumulated distance from each
/// trade's price to its contemporaneous mid price in instrument units. The
/// prior is returned unchanged when no trade qualifies or the accumulated
/// distance is zero.
pub fn estimate_kappa(
    initial_kappa: u64,
    current_t: u64,
    estimation_interval: u64,
    trades: &Vec<TradeStat>,
    price_factor: u64,
) -> (r: u64)
    requires
        trades_sorted(trades@),
        trades@.len() <= 1_000_000_000,
    ensures
        r == estimate_kappa_spec(
            initial_kappa,
            current_t,
            estimation_interval,
            trades@,
            price_factor,
        ),
        trades@.len() == 0 ==> r == initial_kappa,
{
    let n = trades.len();
    let mut idx: usize = n;
    let mut sum2: u128 = 0;
    while idx > 0
        invariant
            n == trades@.len() <= 1_000_000_000,
            0 <= idx <= n,
            forall|j: int|
                idx <= j < n ==> age_of(current_t, #[trigger] trades@[j].timestamp)
                    <= estimation_interval,
            sum2 == dist2_sum(trades@, (n - idx) as nat),
            sum2 <= (n - idx) * (4 * u64::MAX as int),
        ensures
            n == trades@.len() <= 1_000_000_000,
            0 <= idx <= n,
            forall|j: int|
                idx <= j < n ==> age_of(current_t, #[trigger] trades@[j].timestamp)
                    <= estimation_interval,
            idx > 0 ==> age_of(current_t, trades@[idx - 1].timestamp) > estimation_interval,
            sum2 == dist2_sum(trades@, (n - idx) as nat),
        decreases idx,
    {
        let t = trades[idx - 1];
        let age: u64 = if t.timestamp > current_t {
            0
        } else {
            current_t - t.timestamp
        };
        if age > estimation_interval {
            break ;
        }
        let twice_price: u128 = 2 * (t.price as u128);
        let both: u128 = t.block_best_bid as u128 + t.block_best_ask as u128;
        let d2: u128 = if twice_price >= both {
            twice_price - both
        } else {
            both - twice_price
        };
        proof {
            assert((n - idx + 1) * (4 * u64::MAX as int) == (n - idx) * (4 * u64::MAX as int) + (4
                * u64::MAX as int)) by (nonlinear_arith);
            assert((n - idx + 1) * (4 * u64::MAX as int) <= 1_000_000_000 * (4 * u64::MAX as int))
                by (nonlinear_arith)
                requires n - idx + 1 <= 1_000_000_000;
        }
        sum2 = sum2 + d2;
        idx = idx - 1;
    }
    proof {
        lemma_count_within_from_split(trades@, current_t, estimation_interval, idx as int);
    }
    let count = n - idx;
    if count == 0 {
        return initial_kappa;
    }
    if sum2 == 0 {
        return initial_kappa;
    }
    proof {
        let c = count as int;
        let p = price_factor as int;
        assert(c * 2 * p <= 2_000_000_000 * 0xffff_ffff_ffff_ffff) by (nonlinear_arith)
            requires 0 <= c <= 1_000_000_000, 0 <= p <= 0xffff_ffff_ffff_ffff;
        assert(c * 2 * p * FP <= 2_000_000_000 * 0xffff_ffff_ffff_ffff * 1_000_000)
            by (nonlinear_arith)
            requires 0 <= c * 2 * p <= 2_000_000_000 * 0xffff_ffff_ffff_ffff;
    }
    sat_div_u128(count as u128 * 2 * (price_factor as u128) * (FP as u128), sum2)
}

/// Blends a freshly estimated kappa with the prior:
/// `(weight * estimate + (FP - weight) * prior) / FP`, all in fixed point.
/// With `weight == FP` this is the unblended estimate.
pub fn estimate_kappa_blended(
    initial_kappa: u64,
    kappa_weight: u64,
    current_t: u64,
    estimation_interval: u64,
    trades: &Vec<TradeStat>,
    price_factor: u64,
) -> (r: u64)
    requires
        trades_sorted(trades@),
        trades@.len() <= 1_000_000_000,
        kappa_weight <= FP,
    ensures
        r == (kappa_weight * estimate_kappa_spec(
            initial_kappa,
            current_t,
            estimation_interval,
            trades@,
            price_factor,
        ) + (FP - kappa_weight) * initial_kappa) / (FP as int),
        trades@.len() == 0 ==> r == initial_kappa,
{
    let est = estimate_kappa(initial_kappa, current_t, estimation_interval, trades, price_factor);
    proof {
        assert((kappa_weight as int) * (est as int) <= 1_000_000 * 0xffff_ffff_ffff_ffff)
            by (nonlinear_arith)
            requires kappa_weight <= 1_000_000, est <= 0xffff_ffff_ffff_ffff;
        assert((FP - kappa_weight) * (initial_kappa as int) <= 1_000_000 * 0xffff_ffff_ffff_ffff)
            by (nonlinear_arith)
            requires 0 <= FP - kappa_weight <= 1_000_000, initial_kappa <= 0xffff_ffff_ffff_ffff;
    }
    let num: u128 = (kappa_weight as u128) * (est as u128) + ((FP - kappa_weight) as u128)
        * (initial_kappa as u128);
    proof {
        let w = kappa_weight as int;
        let hi = if est >= initial_kappa {
            est as int
        } else {
            initial_kappa as int
        };
        assert(w * est + (FP - w) * initial_kappa <= FP * hi) by (nonlinear_arith)
            requires
                0 <= w <= FP,
                est <= hi,
                initial_kappa <= hi,
        ;
        assert(FP * hi / (FP as int) == hi) by {
            vstd::arithmetic::div_mod::lemma_div_multiples_vanish(hi, FP as int);
        }
        vstd::arithmetic::div_mod::lemma_div_is_ordered(
            w * est + (FP - w) * initial_kappa,
            FP * hi,
            FP as int,
        );
        if trades@.len() == 0 {
            assert(w * initial_kappa + (FP - w) * initial_kappa == FP * initial_kappa)
                by (nonlinear_arith);
            vstd::arithmetic::div_mod::lemma_div_multiples_vanish(initial_kappa as int, FP as int);
        }
    }
    (num / (FP as u128)) as u64
}

/// Classification of a trade as aggressive-buy, aggressive-sell, or
/// undecidable from the contemporaneous quotes.
pub enum BuySellUnsure {
    Buy,
    Sell,
    Unsure,
}

/// Classifies a trade by its price against the contemporaneous quotes: at
/// or above both, a buy; at or below both, a sell; otherwise unsure.
pub fn trade_is_buy(t: TradeStat) -> (r: BuySellUnsure)
    ensures
        (r is Buy) <==> (t.price >= t.block_best_ask && t.price >= t.block_best_bid),
        (r is Sell) <==> (!(t.price >= t.block_best_ask && t.price >= t.block_best_bid)
            && t.price <= t.block_best_ask && t.price <= t.block_best_bid),
{
    let mut buy_sell_unsure: BuySellUnsure = BuySellUnsure::Unsure;
    if t.price >= t.block_best_ask && t.price >= t.block_best_bid {
        buy_sell_unsure = BuySellUnsure::Buy;
    } else if t.price <= t.block_best_ask && t.price <= t.block_best_bid {
        buy_sell_unsure = BuySellUnsure::Sell;
    }
    buy_sell_unsure
}

/// Builds a log of `num_trades` trades spread uniformly from `start_t` to
/// `end_t` (the first at time zero), each at price 98 with quotes 99/101.
pub fn generate_trades_unif(start_t: u64, end_t: u64, num_trades: u64) -> (r: Vec<TradeStat>)
    requires
        num_trades >= 2,
        start_t <= end_t,
    ensures
        r@.len() == num_trades,
        trades_sorted(r@),
        forall|i: int|
            0 <= i < num_trades ==> #[trigger] r@[i].timestamp == i * ((end_t - start_t) / (
            num_trades - 1)),
        forall|i: int|
            0 <= i < num_trades ==> (#[trigger] r@[i].price == 98 && r@[i].size == 1
                && r@[i].block_best_bid == 99 && r@[i].block_best_ask == 101),
{
    let mut trades_vec: Vec<TradeStat> = Vec::new();
    let timestep = (end_t - start_t) / (num_trades - 1);
    proof {
        vstd::arithmetic::div_mod::lemma_fundamental_div_mod(
            (end_t - start_t) as int,
            (num_trades - 1) as int,
        );
        vstd::arithmetic::div_mod::lemma_mod_bound((end_t - start_t) as int, (num_trades
            - 1) as int);
    }
    let mut i: u64 = 0;
    while i < num_trades
        invariant
            num_trades >= 2,
            (num_trades - 1) * timestep <= end_t - start_t,
            i <= num_trades,
            trades_vec@.len() == i,
            forall|j: int| 0 <= j < i ==> #[trigger] trades_vec@[j].timestamp == j * timestep,
            forall|j: int|
                0 <= j < i ==> (#[trigger] trades_vec@[j].price == 98 && trades_vec@[j].size == 1
                    && trades_vec@[j].block_best_bid == 99 && trades_vec@[j].block_best_ask
                    == 101),
        decreases num_trades - i,
    {
        proof {
            assert(i * timestep <= (num_trades - 1) * timestep) by (nonlinear_arith)
                requires 0 <= i <= num_trades - 1, timestep >= 0;
        }
        let new_trade = TradeStat {
            timestamp: i * timestep,
            price: 98,
            size: 1,
            block_best_bid: 99,
            block_best_ask: 101,
        };
        trades_vec.push(new_trade);
        i = i + 1;
    }
    proof {
        assert forall|a: int| 0 <= a < trades_vec@.len() - 1 implies #[trigger] trades_vec@[a].timestamp
            <= trades_vec@[a + 1].timestamp by {
            assert(a * timestep <= (a + 1) * timestep) by (nonlinear_arith)
                requires timestep >= 0, a >= 0;
        }
    }
    trades_vec
}

} // verus!
