//! The market-state store: one consistent view of the instrument's
//! metadata, the latest book snapshot with its bounded history, the
//! bounded trade log, and the per-identity positions. Streaming feeds
//! mutate it through the `save_*` methods; the strategy loop reads it.

use vstd::prelude::*;

use crate::estimates::{trades_sorted, TradeStat};
use crate::fixed::parse_u64_spec;
use crate::history::{
    history_cap, history_get, history_keys, history_new, history_put, history_vals, history_wf,
    SnapshotHistory,
};

verus! {

/// Most trades the log retains; the oldest beyond this are evicted.
pub const TRADES_CACHE: usize = 10000;

/// How many past book snapshots the history retains.
pub const SNAPSHOT_CACHE: usize = 1000;

/// Static venue metadata of the traded market, loaded once at startup.
pub struct MarketInfo {
    pub id: String,
    pub instrument_name: String,
    pub decimal_places: u64,
    pub position_decimal_places: u64,
    pub settlement_asset: String,
}

/// Settlement-asset metadata, loaded once at startup.
pub struct AssetInfo {
    pub id: String,
    pub decimals: u64,
}

/// One streamed book snapshot: its timestamp and the best quotes as the
/// wire carries them, decimal strings in market units.
pub struct MarketDataInfo {
    pub timestamp: u64,
    pub best_bid_price: String,
    pub best_offer_price: String,
}

/// Net signed open volume of one trading identity.
pub struct PositionInfo {
    pub party_id: String,
    pub open_volume: i64,
}

/// One streamed trade event: its timestamp, its price as the wire carries
/// it, and its size.
pub struct TradeInfo {
    pub timestamp: u64,
    pub price: String,
    pub size: u64,
}

/// What a wire price string parses to: an unsigned count of market units,
/// or nothing when the string is not a plain decimal number.
pub open spec fn parse_price_spec(s: Seq<char>) -> Option<u64> {
    parse_u64_spec(vstd::utf8::encode_utf8(s))
}

/// The first position recorded for `id`, if any.
pub open spec fn find_position(s: Seq<PositionInfo>, id: Seq<char>) -> Option<PositionInfo>
    decreases s.len(),
{
    if s.len() == 0 {
        None
    } else if s[0].party_id@ == id {
        Some(s[0])
    } else {
        find_position(s.drop_first(), id)
    }
}

/// The first asset recorded under `id`, if any.
pub open spec fn find_asset(s: Seq<AssetInfo>, id: Seq<char>) -> Option<AssetInfo>
    decreases s.len(),
{
    if s.len() == 0 {
        None
    } else if s[0].id@ == id {
        Some(s[0])
    } else {
        find_asset(s.drop_first(), id)
    }
}

/// `s` with `p` written over its first record for the same identity, or
/// appended when there is none.
pub open spec fn upsert_position(s: Seq<PositionInfo>, p: PositionInfo) -> Seq<PositionInfo>
    decreases s.len(),
{
    if s.len() == 0 {
        seq![p]
    } else if s[0].party_id@ == p.party_id@ {
        seq![p] + s.drop_first()
    } else {
        seq![s[0]] + upsert_position(s.drop_first(), p)
    }
}

/// `s` after upserting each record of `ps` in order.
pub open spec fn upsert_positions(s: Seq<PositionInfo>, ps: Seq<PositionInfo>) -> Seq<
    PositionInfo,
>
    decreases ps.len(),
{
    if ps.len() == 0 {
        s
    } else {
        upsert_positions(upsert_position(s, ps[0]), ps.drop_first())
    }
}

/// When the first `k` records do not match `p`'s identity and record `k`
/// does, the upsert is an in-place update at `k`.
proof fn lemma_upsert_position_update(s: Seq<PositionInfo>, p: PositionInfo, k: int)
    requires
        0 <= k < s.len(),
        forall|i: int| 0 <= i < k ==> #[trigger] s[i].party_id@ != p.party_id@,
        s[k].party_id@ == p.party_id@,
    ensures
        upsert_position(s, p) == s.update(k, p),
    decreases k,
{
    if k == 0 {
        assert(upsert_position(s, p) =~= s.update(0, p));
    } else {
        assert(forall|i: int|
            0 <= i < k - 1 ==> s.drop_first()[i] == #[trigger] s[i + 1]);
        lemma_upsert_position_update(s.drop_first(), p, k - 1);
        assert(upsert_position(s, p) =~= s.update(k, p));
    }
}

/// When no record matches `p`'s identity, the upsert appends `p`.
proof fn lemma_upsert_position_append(s: Seq<PositionInfo>, p: PositionInfo)
    requires
        forall|i: int| 0 <= i < s.len() ==> #[trigger] s[i].party_id@ != p.party_id@,
    ensures
        upsert_position(s, p) == s.push(p),
    decreases s.len(),
{
    if s.len() == 0 {
        assert(upsert_position(s, p) =~= s.push(p));
    } else {
        assert(forall|i: int|
            0 <= i < s.len() - 1 ==> s.drop_first()[i] == #[trigger] s[i + 1]);
        lemma_upsert_position_append(s.drop_first(), p);
        assert(upsert_position(s, p) =~= s.push(p));
    }
}

/// The trade log filtered down to the records stamped at or after `th`,
/// keeping their order.
pub open spec fn keep_recent(s: Seq<TradeStat>, th: u64) -> Seq<TradeStat>
    decreases s.len(),
{
    if s.len() == 0 {
        Seq::empty()
    } else if s.last().timestamp >= th {
        keep_recent(s.drop_last(), th).push(s.last())
    } else {
        keep_recent(s.drop_last(), th)
    }
}

/// Everything `keep_recent` keeps is at or after the threshold, there is
/// no more of it than there was, and of a sorted log it keeps a sorted
/// suffix-like subsequence whose last record is no newer than the log's.
proof fn lemma_keep_recent_facts(s: Seq<TradeStat>, th: u64)
    requires
        trades_sorted(s),
    ensures
        keep_recent(s, th).len() <= s.len(),
        forall|i: int|
            0 <= i < keep_recent(s, th).len() ==> #[trigger] keep_recent(s, th)[i].timestamp
                >= th,
        trades_sorted(keep_recent(s, th)),
        keep_recent(s, th).len() > 0 ==> s.len() > 0 && keep_recent(s, th).last().timestamp
            <= s.last().timestamp,
    decreases s.len(),
{
    if s.len() > 0 {
        assert(forall|i: int|
            0 <= i < s.len() - 2 ==> s.drop_last()[i].timestamp <= #[trigger] s.drop_last()[i
                + 1].timestamp) by {
            assert(forall|i: int|
                0 <= i < s.len() - 1 ==> #[trigger] s[i].timestamp <= s[i + 1].timestamp);
        }
        lemma_keep_recent_facts(s.drop_last(), th);
        if s.len() >= 2 {
            assert(s.drop_last().last().timestamp <= s.last().timestamp) by {
                assert(s[s.len() - 2].timestamp <= s[s.len() - 1].timestamp);
            }
        }
        let k = keep_recent(s, th);
        if s.last().timestamp >= th {
            let kd = keep_recent(s.drop_last(), th);
            assert(forall|i: int| 0 <= i < kd.len() ==> k[i] == #[trigger] kd[i]);
            assert(k.last() == s.last());
        }
    }
}

/// A trade record after a snapshot stamped `ts` arrives: a record sharing
/// the timestamp takes the snapshot's quotes, field by field, where they
/// parse; any other record is untouched.
pub open spec fn patch_trade(t: TradeStat, ts: u64, bid: Option<u64>, ask: Option<u64>)
    -> TradeStat {
    if t.timestamp == ts {
        TradeStat {
            block_best_bid: if bid is Some {
                bid->0
            } else {
                t.block_best_bid
            },
            block_best_ask: if ask is Some {
                ask->0
            } else {
                t.block_best_ask
            },
            ..t
        }
    } else {
        t
    }
}

/// The trade log after one streamed trade `t` against a log `s` and a
/// snapshot history with recency order `ks` and contents `vs`: the oldest
/// record leaves a log over capacity; then the trade is appended with the
/// quotes of the snapshot at its timestamp (zero where absent or
/// unparsable), unless its price does not parse or it is stamped before
/// the newest record, in which case it is dropped.
pub open spec fn save_trade_log(
    s: Seq<TradeStat>,
    ks: Seq<u64>,
    vs: Map<u64, (Seq<char>, Seq<char>)>,
    t: TradeInfo,
) -> Seq<TradeStat> {
    let base = if s.len() > TRADES_CACHE {
        s.drop_first()
    } else {
        s
    };
    let bid = if ks.contains(t.timestamp) && parse_price_spec(vs[t.timestamp].0) is Some {
        parse_price_spec(vs[t.timestamp].0)->0
    } else {
        0
    };
    let ask = if ks.contains(t.timestamp) && parse_price_spec(vs[t.timestamp].1) is Some {
        parse_price_spec(vs[t.timestamp].1)->0
    } else {
        0
    };
    if parse_price_spec(t.price@) is None {
        base
    } else if base.len() > 0 && t.timestamp < base.last().timestamp {
        base
    } else {
        base.push(
            TradeStat {
                timestamp: t.timestamp,
                price: parse_price_spec(t.price@)->0,
                size: t.size,
                block_best_bid: bid,
                block_best_ask: ask,
            },
        )
    }
}

/// The market-state store.
pub struct VegaStore {
    market: MarketInfo,
    market_data: MarketDataInfo,
    previous_market_data: SnapshotHistory,
    trades: Vec<TradeStat>,
    positions: Vec<PositionInfo>,
    assets: Vec<AssetInfo>,
}

impl VegaStore {
    /// Internal consistency of the store: a well-formed snapshot history
    /// of the fixed capacity, an append-ordered trade log within its
    /// bound, a known settlement asset, and decimal places the batch
    /// builder can scale by.
    pub open spec fn wf(self) -> bool {
        &&& history_wf(self.history_spec())
        &&& history_cap(self.history_spec()) == SNAPSHOT_CACHE
        &&& trades_sorted(self.trades_spec())
        &&& self.trades_spec().len() <= TRADES_CACHE + 1
        &&& self.market_spec().decimal_places + self.market_spec().position_decimal_places <= 18
        &&& find_asset(self.assets_spec(), self.market_spec().settlement_asset@) is Some
        &&& (find_asset(self.assets_spec(), self.market_spec().settlement_asset@)->0).decimals
            <= 18
    }

    /// The market the store was built for.
    pub closed spec fn market_spec(self) -> MarketInfo {
        self.market
    }

    /// The latest book snapshot.
    pub closed spec fn market_data_spec(self) -> MarketDataInfo {
        self.market_data
    }

    /// The snapshot history.
    pub closed spec fn history_spec(self) -> SnapshotHistory {
        self.previous_market_data
    }

    /// The trade log.
    pub closed spec fn trades_spec(self) -> Seq<TradeStat> {
        self.trades@
    }

    /// The recorded positions.
    pub closed spec fn positions_spec(self) -> Seq<PositionInfo> {
        self.positions@
    }

    /// The asset directory.
    pub closed spec fn assets_spec(self) -> Seq<AssetInfo> {
        self.assets@
    }

    /// Builds the store from the startup fetch: the market, its latest
    /// snapshot, and the asset directory. The snapshot is also the first
    /// entry of the history. The directory must know the market's
    /// settlement asset, and the decimal places must be scalable.
    pub fn new(market: MarketInfo, market_data: MarketDataInfo, assets: Vec<AssetInfo>) -> (r:
        VegaStore)
        requires
            market.decimal_places + market.position_decimal_places <= 18,
            find_asset(assets@, market.settlement_asset@) is Some,
            (find_asset(assets@, market.settlement_asset@)->0).decimals <= 18,
        ensures
            r.wf(),
            r.market_spec() == market,
            r.market_data_spec() == market_data,
            r.trades_spec() == Seq::<TradeStat>::empty(),
            r.positions_spec() == Seq::<PositionInfo>::empty(),
            r.assets_spec() == assets@,
            history_keys(r.history_spec()) == seq![market_data.timestamp],
            history_vals(r.history_spec()) == map![
                market_data.timestamp => (market_data.best_bid_price@, market_data.best_offer_price@)
            ],
    {
        let mut previous_market_data = history_new(SNAPSHOT_CACHE);
        proof {
            assert(history_keys(previous_market_data) =~= Seq::<u64>::empty());
            assert(history_vals(previous_market_data) =~= Map::<
                u64,
                (Seq<char>, Seq<char>),
            >::empty());
        }
        let pair = (market_data.best_bid_price.clone(), market_data.best_offer_price.clone());
        let _ = history_put(&mut previous_market_data, market_data.timestamp, pair);
        proof {
            assert(history_keys(previous_market_data) =~= seq![market_data.timestamp]);
            assert(history_vals(previous_market_data) =~= map![
                market_data.timestamp => (market_data.best_bid_price@, market_data.best_offer_price@)
            ]);
        }
        VegaStore {
            market,
            market_data,
            previous_market_data,
            trades: Vec::new(),
            positions: Vec::new(),
            assets,
        }
    }

    /// A copy of the market metadata.
    pub fn get_market(&self) -> (r: MarketInfo)
        ensures
            r == self.market_spec(),
    {
        MarketInfo {
            id: self.market.id.clone(),
            instrument_name: self.market.instrument_name.clone(),
            decimal_places: self.market.decimal_places,
            position_decimal_places: self.market.position_decimal_places,
            settlement_asset: self.market.settlement_asset.clone(),
        }
    }

    /// A copy of the latest book snapshot.
    pub fn get_market_data(&self) -> (r: MarketDataInfo)
        ensures
            r == self.market_data_spec(),
    {
        MarketDataInfo {
            timestamp: self.market_data.timestamp,
            best_bid_price: self.market_data.best_bid_price.clone(),
            best_offer_price: self.market_data.best_offer_price.clone(),
        }
    }

    /// The asset recorded under `id`.
    pub fn get_asset(&self, id: String) -> (r: AssetInfo)
        requires
            find_asset(self.assets_spec(), id@) is Some,
        ensures
            Some(r) == find_asset(self.assets_spec(), id@),
    {
        let n = self.assets.len();
        proof {
            assert(self.assets@.subrange(0, n as int) =~= self.assets@);
        }
        let mut i: usize = 0;
        while i < n
            invariant
                n == self.assets@.len(),
                0 <= i <= n,
                find_asset(self.assets@, id@) is Some,
                find_asset(self.assets@.subrange(i as int, n as int), id@) == find_asset(
                    self.assets@,
                    id@,
                ),
            decreases n - i,
        {
            proof {
                assert(self.assets@.subrange(i as int, n as int).drop_first()
                    =~= self.assets@.subrange(i + 1, n as int));
            }
            if self.assets[i].id == id {
                return AssetInfo { id: self.assets[i].id.clone(), decimals: self.assets[i].decimals };
            }
            i = i + 1;
        }
        proof {
            assert(self.assets@.subrange(n as int, n as int) =~= Seq::<AssetInfo>::empty());
        }
        unreached()
    }

    /// The position recorded for `party_id`, if any.
    pub fn get_position(&self, party_id: &String) -> (r: Option<PositionInfo>)
        ensures
            r == find_position(self.positions_spec(), party_id@),
    {
        let n = self.positions.len();
        proof {
            assert(self.positions@.subrange(0, n as int) =~= self.positions@);
        }
        let mut i: usize = 0;
        while i < n
            invariant
                n == self.positions@.len(),
                0 <= i <= n,
                find_position(self.positions@.subrange(i as int, n as int), party_id@)
                    == find_position(self.positions@, party_id@),
            decreases n - i,
        {
            proof {
                assert(self.positions@.subrange(i as int, n as int).drop_first()
                    =~= self.positions@.subrange(i + 1, n as int));
            }
            if self.positions[i].party_id == *party_id {
                return Some(
                    PositionInfo {
                        party_id: self.positions[i].party_id.clone(),
                        open_volume: self.positions[i].open_volume,
                    },
                );
            }
            i = i + 1;
        }
        proof {
            assert(self.positions@.subrange(n as int, n as int) =~= Seq::<PositionInfo>::empty());
        }
        None
    }

    /// A copy of the asset directory.
    pub fn get_assets(&self) -> (r: Vec<AssetInfo>)
        ensures
            r@ == self.assets_spec(),
    {
        let n = self.assets.len();
        let mut out: Vec<AssetInfo> = Vec::new();
        let mut i: usize = 0;
        while i < n
            invariant
                n == self.assets@.len(),
                0 <= i <= n,
                out@.len() == i,
                forall|j: int| 0 <= j < i ==> #[trigger] out@[j] == self.assets@[j],
            decreases n - i,
        {
            out.push(AssetInfo { id: self.assets[i].id.clone(), decimals: self.assets[i].decimals });
            i = i + 1;
        }
        proof {
            assert(out@ =~= self.assets@);
        }
        out
    }

    /// A copy of the trade log.
    pub fn get_trades(&self) -> (r: Vec<TradeStat>)
        ensures
            r@ == self.trades_spec(),
    {
        let n = self.trades.len();
        let mut out: Vec<TradeStat> = Vec::new();
        let mut i: usize = 0;
        while i < n
            invariant
                n == self.trades@.len(),
                0 <= i <= n,
                out@.len() == i,
                forall|j: int| 0 <= j < i ==> #[trigger] out@[j] == self.trades@[j],
            decreases n - i,
        {
            out.push(self.trades[i]);
            i = i + 1;
        }
        proof {
            assert(out@ =~= self.trades@);
        }
        out
    }

    /// Records each streamed position, overwriting the entry of the same
    /// identity or adding a new one; everything else is untouched.
    pub fn save_positions(&mut self, positions: Vec<PositionInfo>)
        requires
            old(self).wf(),
        ensures
            final(self).wf(),
            final(self).positions_spec() == upsert_positions(
                old(self).positions_spec(),
                positions@,
            ),
            final(self).market_spec() == old(self).market_spec(),
            final(self).market_data_spec() == old(self).market_data_spec(),
            final(self).history_spec() == old(self).history_spec(),
            final(self).trades_spec() == old(self).trades_spec(),
            final(self).assets_spec() == old(self).assets_spec(),
    {
        let m = positions.len();
        let mut k: usize = 0;
        while k < m
            invariant
                m == positions@.len(),
                0 <= k <= m,
                self.wf(),
                self.positions@ == upsert_positions(
                    old(self).positions@,
                    positions@.subrange(0, k as int),
                ),
                self.market == old(self).market,
                self.market_data == old(self).market_data,
                self.previous_market_data == old(self).previous_market_data,
                self.trades == old(self).trades,
                self.assets == old(self).assets,
            decreases m - k,
        {
            let p = PositionInfo {
                party_id: positions[k].party_id.clone(),
                open_volume: positions[k].open_volume,
            };
            proof {
                assert(p == positions@[k as int]);
            }
            self.upsert_one_position(p);
            proof {
                lemma_upsert_positions_step(old(self).positions@, positions@, k as int);
            }
            k = k + 1;
        }
        proof {
            assert(positions@.subrange(0, m as int) =~= positions@);
        }
    }

    /// Writes one position over the first record of its identity, or
    /// appends it.
    fn upsert_one_position(&mut self, p: PositionInfo)
        ensures
            final(self).positions@ == upsert_position(old(self).positions@, p),
            final(self).market == old(self).market,
            final(self).market_data == old(self).market_data,
            final(self).previous_market_data == old(self).previous_market_data,
            final(self).trades == old(self).trades,
            final(self).assets == old(self).assets,
    {
        let n = self.positions.len();
        let mut i: usize = 0;
        while i < n
            invariant
                self == old(self),
                n == self.positions@.len(),
                0 <= i <= n,
                forall|j: int| 0 <= j < i ==> #[trigger] self.positions@[j].party_id@ != p.party_id@,
            decreases n - i,
        {
            if self.positions[i].party_id == p.party_id {
                proof {
                    lemma_upsert_position_update(self.positions@, p, i as int);
                }
                self.positions[i] = p;
                return ;
            }
            i = i + 1;
        }
        proof {
            lemma_upsert_position_append(self.positions@, p);
        }
        self.positions.push(p);
    }

    /// Drops every trade stamped before `timestamp` from the log; the
    /// survivors keep their order, and afterwards no remaining trade is
    /// older than the threshold.
    pub fn prune_trades_older_than(&mut self, timestamp: u64)
        requires
            old(self).wf(),
        ensures
            final(self).wf(),
            final(self).trades_spec() == keep_recent(old(self).trades_spec(), timestamp),
            forall|i: int|
                0 <= i < final(self).trades_spec().len()
                    ==> #[trigger] final(self).trades_spec()[i].timestamp >= timestamp,
            final(self).market_spec() == old(self).market_spec(),
            final(self).market_data_spec() == old(self).market_data_spec(),
            final(self).history_spec() == old(self).history_spec(),
            final(self).positions_spec() == old(self).positions_spec(),
            final(self).assets_spec() == old(self).assets_spec(),
    {
        let n = self.trades.len();
        let mut kept: Vec<TradeStat> = Vec::new();
        let mut i: usize = 0;
        while i < n
            invariant
                self == old(self),
                n == self.trades@.len(),
                0 <= i <= n,
                kept@ == keep_recent(self.trades@.subrange(0, i as int), timestamp),
            decreases n - i,
        {
            proof {
                assert(self.trades@.subrange(0, i + 1).drop_last() =~= self.trades@.subrange(
                    0,
                    i as int,
                ));
                assert(self.trades@.subrange(0, i + 1).last() == self.trades@[i as int]);
            }
            if self.trades[i].timestamp >= timestamp {
                kept.push(self.trades[i]);
            }
            i = i + 1;
        }
        proof {
            assert(self.trades@.subrange(0, n as int) =~= self.trades@);
            lemma_keep_recent_facts(self.trades@, timestamp);
        }
        self.trades = kept;
    }

    /// Retroactively joins a snapshot to the trades that share its exact
    /// timestamp, writing its quotes over theirs; a quote string that does
    /// not parse is ignored, leaving the prior value of that field.
    pub fn update_trades(&mut self, md: &MarketDataInfo)
        requires
            old(self).wf(),
        ensures
            final(self).wf(),
            final(self).trades_spec().len() == old(self).trades_spec().len(),
            forall|i: int|
                0 <= i < old(self).trades_spec().len() ==> #[trigger] final(self).trades_spec()[i]
                    == patch_trade(
                    old(self).trades_spec()[i],
                    md.timestamp,
                    parse_price_spec(md.best_bid_price@),
                    parse_price_spec(md.best_offer_price@),
                ),
            final(self).market_spec() == old(self).market_spec(),
            final(self).market_data_spec() == old(self).market_data_spec(),
            final(self).history_spec() == old(self).history_spec(),
            final(self).positions_spec() == old(self).positions_spec(),
            final(self).assets_spec() == old(self).assets_spec(),
    {
        let bid = crate::fixed::parse_u64_str(md.best_bid_price.as_str());
        let ask = crate::fixed::parse_u64_str(md.best_offer_price.as_str());
        let n = self.trades.len();
        let mut i: usize = 0;
        while i < n
            invariant
                n == self.trades@.len() == old(self).trades@.len(),
                0 <= i <= n,
                bid == parse_price_spec(md.best_bid_price@),
                ask == parse_price_spec(md.best_offer_price@),
                self.market == old(self).market,
                self.market_data == old(self).market_data,
                self.previous_market_data == old(self).previous_market_data,
                self.positions == old(self).positions,
                self.assets == old(self).assets,
                forall|j: int|
                    0 <= j < i ==> #[trigger] self.trades@[j] == patch_trade(
                        old(self).trades@[j],
                        md.timestamp,
                        parse_price_spec(md.best_bid_price@),
                        parse_price_spec(md.best_offer_price@),
                    ),
                forall|j: int| i <= j < n ==> #[trigger] self.trades@[j] == old(self).trades@[j],
            decreases n - i,
        {
            if self.trades[i].timestamp == md.timestamp {
                let mut t = self.trades[i];
                if let Some(v) = bid {
                    t.block_best_bid = v;
                }
                if let Some(v) = ask {
                    t.block_best_ask = v;
                }
                self.trades[i] = t;
            }
            i = i + 1;
        }
        proof {
            assert forall|j: int| 0 <= j < n - 1 implies #[trigger] self.trades@[j].timestamp
                <= self.trades@[j + 1].timestamp by {
                assert(self.trades@[j].timestamp == old(self).trades@[j].timestamp);
                assert(self.trades@[j + 1].timestamp == old(self).trades@[j + 1].timestamp);
                assert(old(self).trades@[j].timestamp <= old(self).trades@[j + 1].timestamp);
            }
        }
    }

    /// Records a streamed snapshot: joins it to the trades sharing its
    /// timestamp, inserts its quotes into the bounded history — evicting
    /// the least recently used snapshot when the history is at capacity —
    /// and makes it the current snapshot.
    pub fn save_market_data(&mut self, md: MarketDataInfo)
        requires
            old(self).wf(),
        ensures
            final(self).wf(),
            final(self).market_data_spec() == md,
            final(self).trades_spec().len() == old(self).trades_spec().len(),
            forall|i: int|
                0 <= i < old(self).trades_spec().len() ==> #[trigger] final(self).trades_spec()[i]
                    == patch_trade(
                    old(self).trades_spec()[i],
                    md.timestamp,
                    parse_price_spec(md.best_bid_price@),
                    parse_price_spec(md.best_offer_price@),
                ),
            final(self).market_spec() == old(self).market_spec(),
            final(self).positions_spec() == old(self).positions_spec(),
            final(self).assets_spec() == old(self).assets_spec(),
            ({
                let ks = history_keys(old(self).history_spec());
                let vs = history_vals(old(self).history_spec());
                if ks.contains(md.timestamp) {
                    history_keys(final(self).history_spec()) == seq![md.timestamp]
                        + ks.remove_value(md.timestamp) && history_vals(final(self).history_spec())
                        == vs.insert(md.timestamp, (md.best_bid_price@, md.best_offer_price@))
                } else if ks.len() < SNAPSHOT_CACHE {
                    history_keys(final(self).history_spec()) == seq![md.timestamp] + ks
                        && history_vals(final(self).history_spec()) == vs.insert(
                        md.timestamp,
                        (md.best_bid_price@, md.best_offer_price@),
                    )
                } else {
                    history_keys(final(self).history_spec()) == seq![md.timestamp]
                        + ks.drop_last() && history_vals(final(self).history_spec()) == vs.remove(
                        ks.last(),
                    ).insert(md.timestamp, (md.best_bid_price@, md.best_offer_price@))
                }
            }),
    {
        self.update_trades(&md);
        let pair = (md.best_bid_price.clone(), md.best_offer_price.clone());
        let _ = history_put(&mut self.previous_market_data, md.timestamp, pair);
        self.market_data = md;
    }

    /// Records a streamed trade: when the log is over capacity the oldest
    /// record is evicted first; the snapshot at the trade's timestamp
    /// supplies the contemporaneous quotes (absent or unparsable quote
    /// strings count as zero, and the lookup freshens that snapshot in the
    /// history); a trade whose price string does not parse, or that is
    /// stamped before the newest recorded trade, is dropped without
    /// disturbing the stream.
    pub fn save_trade(&mut self, t: &TradeInfo)
        requires
            old(self).wf(),
        ensures
            final(self).wf(),
            final(self).trades_spec() == save_trade_log(
                old(self).trades_spec(),
                history_keys(old(self).history_spec()),
                history_vals(old(self).history_spec()),
                *t,
            ),
            history_vals(final(self).history_spec()) == history_vals(old(self).history_spec()),
            history_keys(final(self).history_spec()) == (if history_keys(
                old(self).history_spec(),
            ).contains(t.timestamp) {
                seq![t.timestamp] + history_keys(old(self).history_spec()).remove_value(
                    t.timestamp,
                )
            } else {
                history_keys(old(self).history_spec())
            }),
            final(self).market_spec() == old(self).market_spec(),
            final(self).market_data_spec() == old(self).market_data_spec(),
            final(self).positions_spec() == old(self).positions_spec(),
            final(self).assets_spec() == old(self).assets_spec(),
    {
        if self.trades.len() > TRADES_CACHE {
            proof {
                assert(old(self).trades@.remove(0) =~= old(self).trades@.drop_first());
            }
            self.trades.remove(0);
            proof {
                assert forall|j: int| 0 <= j < self.trades@.len() - 1 implies #[trigger] self.trades@[j].timestamp
                    <= self.trades@[j + 1].timestamp by {
                    assert(old(self).trades@[j + 1].timestamp <= old(self).trades@[j
                        + 2].timestamp);
                }
            }
        }
        let looked = history_get(&mut self.previous_market_data, t.timestamp);
        let mut best_bid: u64 = 0;
        let mut best_ask: u64 = 0;
        if let Some(pair) = looked {
            if let Some(v) = crate::fixed::parse_u64_str(pair.0.as_str()) {
                best_bid = v;
            }
            if let Some(v) = crate::fixed::parse_u64_str(pair.1.as_str()) {
                best_ask = v;
            }
        }
        let price: u64 = match crate::fixed::parse_u64_str(t.price.as_str()) {
            Some(p) => p,
            None => {
                return ;
            },
        };
        let n = self.trades.len();
        if n > 0 && t.timestamp < self.trades[n - 1].timestamp {
            return ;
        }
        self.trades.push(
            TradeStat {
                timestamp: t.timestamp,
                price,
                size: t.size,
                block_best_bid: best_bid,
                block_best_ask: best_ask,
            },
        );
    }
}

/// One step of the batched upsert: extending the processed prefix by one
/// record upserts that record.
proof fn lemma_upsert_positions_step(s: Seq<PositionInfo>, ps: Seq<PositionInfo>, k: int)
    requires
        0 <= k < ps.len(),
    ensures
        upsert_positions(s, ps.subrange(0, k + 1)) == upsert_position(
            upsert_positions(s, ps.subrange(0, k)),
            ps[k],
        ),
{
    assert(ps.subrange(0, k + 1) =~= ps.subrange(0, k).push(ps[k]));
    lemma_upsert_positions_snoc(s, ps.subrange(0, k), ps[k]);
}

/// Upserting a batch extended by one more record is upserting the batch,
/// then the record.
proof fn lemma_upsert_positions_snoc(s: Seq<PositionInfo>, qs: Seq<PositionInfo>, p: PositionInfo)
    ensures
        upsert_positions(s, qs.push(p)) == upsert_position(upsert_positions(s, qs), p),
    decreases qs.len(),
{
    let ext = qs.push(p);
    if qs.len() == 0 {
        assert(ext[0] == p);
        assert(ext.drop_first() =~= Seq::<PositionInfo>::empty());
        assert(upsert_positions(s, ext) == upsert_positions(upsert_position(s, p), ext.drop_first()));
        assert(upsert_positions(upsert_position(s, p), ext.drop_first()) == upsert_position(s, p));
        assert(upsert_positions(s, qs) == s);
    } else {
        assert(ext[0] == qs[0]);
        assert(ext.drop_first() =~= qs.drop_first().push(p));
        lemma_upsert_positions_snoc(upsert_position(s, qs[0]), qs.drop_first(), p);
        assert(upsert_positions(s, ext) == upsert_positions(
            upsert_position(s, qs[0]),
            ext.drop_first(),
        ));
        assert(upsert_positions(s, qs) == upsert_positions(
            upsert_position(s, qs[0]),
            qs.drop_first(),
        ));
    }
}

} // verus!
