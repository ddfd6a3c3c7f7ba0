//! Engine configuration with its documented defaults.

use vstd::prelude::*;

verus! {

/// Options recognized by the engine. Fiat amounts are in cents; token amounts in the
/// token's smallest unit.
#[derive(Clone, Copy, Debug)]
pub struct ScanConfig {
    /// Opportunities whose net profit is below this are discarded.
    pub min_profit_cents: i128,
    /// Gas price above which a cycle is flagged as expensive.
    pub max_gas_price_gwei: u64,
    /// A pair of pools becomes a candidate only when its spread exceeds this.
    pub spread_threshold_bps: u64,
    /// Pause between two detection cycles.
    pub scan_interval_ms: u64,
    /// Pools with a reserve below this on either side are not scanned.
    pub min_liquidity_floor: u128,
    /// Upper bound on the borrowed amount.
    pub max_borrow_notional: u128,
    /// Share of the smaller base reserve that is borrowed, in basis points.
    pub borrow_fraction_bps: u64,
    /// A candidate whose borrow amount does not exceed this is dropped.
    pub min_borrow_amount: u128,
    /// How many ranked opportunities a cycle hands on.
    pub max_ranked: usize,
    /// Keep unprofitable opportunities, flagged, instead of discarding them.
    pub show_unprofitable: bool,
}

pub const DEFAULT_MIN_PROFIT_CENTS: i128 = 5000;
pub const DEFAULT_MAX_GAS_PRICE_GWEI: u64 = 100;
/// Two 30 bps swap legs plus a safety margin.
pub const DEFAULT_SPREAD_THRESHOLD_BPS: u64 = 65;
pub const DEFAULT_SCAN_INTERVAL_MS: u64 = 2000;
pub const DEFAULT_MIN_LIQUIDITY_FLOOR: u128 = 1_000_000_000_000_000;
pub const DEFAULT_MAX_BORROW_NOTIONAL: u128 = 100_000_000_000_000_000_000;
/// 0.5% of the smaller base reserve.
pub const DEFAULT_BORROW_FRACTION_BPS: u64 = 50;
pub const DEFAULT_MIN_BORROW_AMOUNT: u128 = 10_000_000_000_000_000;
pub const DEFAULT_MAX_RANKED: usize = 20;

impl Default for ScanConfig {
    fn default() -> (r: ScanConfig)
        ensures
            r.min_profit_cents == DEFAULT_MIN_PROFIT_CENTS,
            r.max_gas_price_gwei == DEFAULT_MAX_GAS_PRICE_GWEI,
            r.spread_threshold_bps == DEFAULT_SPREAD_THRESHOLD_BPS,
            r.scan_interval_ms == DEFAULT_SCAN_INTERVAL_MS,
            r.min_liquidity_floor == DEFAULT_MIN_LIQUIDITY_FLOOR,
            r.max_borrow_notional == DEFAULT_MAX_BORROW_NOTIONAL,
            r.borrow_fraction_bps == DEFAULT_BORROW_FRACTION_BPS,
            r.min_borrow_amount == DEFAULT_MIN_BORROW_AMOUNT,
            r.max_ranked == DEFAULT_MAX_RANKED,
            !r.show_unprofitable,
    {
        ScanConfig {
            min_profit_cents: DEFAULT_MIN_PROFIT_CENTS,
            max_gas_price_gwei: DEFAULT_MAX_GAS_PRICE_GWEI,
            spread_threshold_bps: DEFAULT_SPREAD_THRESHOLD_BPS,
            scan_interval_ms: DEFAULT_SCAN_INTERVAL_MS,
            min_liquidity_floor: DEFAULT_MIN_LIQUIDITY_FLOOR,
            max_borrow_notional: DEFAULT_MAX_BORROW_NOTIONAL,
            borrow_fraction_bps: DEFAULT_BORROW_FRACTION_BPS,
            min_borrow_amount: DEFAULT_MIN_BORROW_AMOUNT,
            max_ranked: DEFAULT_MAX_RANKED,
            show_unprofitable: false,
        }
    }
}

} // verus!
