//! Arbitrage detection and profitability engine for constant-product liquidity pools.
//!
//! The library takes normalized pool snapshots, prices them, finds cross-venue price
//! divergence, sizes a flash-loaned round trip and accounts for swap fees, loan fees
//! and gas cost. It also holds the decision logic of the market-data access layer:
//! tiered endpoint rotation, bounded retries and layered price lookups.

pub mod wide;
pub mod pricing;
pub mod models;
pub mod config;
pub mod detector;
pub mod fiat;
pub mod flashloan;
pub mod gas;
pub mod profit;
pub mod ranking;
pub mod providers;
pub mod dex;
pub mod scanner;
pub mod units;
