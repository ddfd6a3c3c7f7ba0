//! Gas price split, gas budgets of an arbitrage transaction and their fiat cost.

use vstd::prelude::*;
use crate::fiat::{fiat_cents, fiat_cents_spec};

verus! {

/// Gas units budgeted for loan initiation, two swaps, repayment and the surrounding logic.
pub const ARBITRAGE_GAS_LIMIT: u64 = 500_000;

/// Wei in one gwei.
pub const WEI_PER_GWEI: u64 = 1_000_000_000;

/// A gas price in wei per unit, as base fee plus priority fee.
#[derive(Clone, Copy, Debug)]
pub struct GasPrice {
    pub base_fee: u64,
    pub priority_fee: u64,
}

impl GasPrice {
    /// Wei paid per gas unit.
    pub open spec fn per_unit(self) -> nat {
        (self.base_fee + self.priority_fee) as nat
    }
}

/// Gas budget of a transaction and what it costs.
#[derive(Clone, Copy, Debug)]
pub struct TransactionEstimate {
    pub gas_limit: u64,
    pub gas_price: GasPrice,
    pub total_cost_wei: u128,
    pub total_cost_cents: u128,
}

/// Converts gas into fiat at a reference price of the native token.
#[derive(Clone, Copy, Debug)]
pub struct GasEstimator {
    /// Price of one whole native token in cents.
    pub eth_price_cents: u32,
}

impl GasEstimator {
    pub fn new(eth_price_cents: u32) -> (r: GasEstimator)
        ensures
            r.eth_price_cents == eth_price_cents,
    {
        GasEstimator { eth_price_cents }
    }

    /// Replaces the reference price.
    pub fn update_eth_price(&mut self, eth_price_cents: u32)
        ensures
            final(self).eth_price_cents == eth_price_cents,
    {
        self.eth_price_cents = eth_price_cents;
    }

    /// Splits a quoted gas price into an estimated base fee (85%) and priority fee (15%),
    /// each floored.
    pub fn get_current_gas_price(&self, gas_price_wei: u64) -> (r: GasPrice)
        ensures
            r.base_fee as nat == (gas_price_wei as nat * 85) / 100,
            r.priority_fee as nat == (gas_price_wei as nat * 15) / 100,
    {
        let gp = gas_price_wei as u128;
        let base_fee = (gp * 85 / 100) as u64;
        let priority_fee = (gp * 15 / 100) as u64;
        GasPrice { base_fee, priority_fee }
    }

    /// The arbitrage gas budget, with the priority fee doubled to compete for inclusion.
    pub fn estimate_arbitrage_gas(&self, quoted: &GasPrice) -> (r: TransactionEstimate)
        requires
            2 * quoted.priority_fee <= u64::MAX,
        ensures
            r.gas_limit == ARBITRAGE_GAS_LIMIT,
            r.gas_price.base_fee == quoted.base_fee,
            r.gas_price.priority_fee == 2 * quoted.priority_fee,
            r.total_cost_wei as nat == ARBITRAGE_GAS_LIMIT as nat * r.gas_price.per_unit(),
            r.total_cost_cents as nat == fiat_cents_spec(r.total_cost_wei as nat, self.eth_price_cents as nat),
    {
        let gas_price = GasPrice { base_fee: quoted.base_fee, priority_fee: 2 * quoted.priority_fee };
        let per_unit = gas_price.base_fee as u128 + gas_price.priority_fee as u128;
        proof {
            assert(500_000 * per_unit <= 500_000 * 0x2_0000_0000_0000_0000nat) by (nonlinear_arith)
                requires per_unit <= 0x2_0000_0000_0000_0000nat;
        }
        let total_cost_wei = ARBITRAGE_GAS_LIMIT as u128 * per_unit;
        let total_cost_cents = fiat_cents(total_cost_wei, self.eth_price_cents);
        TransactionEstimate { gas_limit: ARBITRAGE_GAS_LIMIT, gas_price, total_cost_wei, total_cost_cents }
    }

    /// Fiat value in cents of an amount of wei at the reference price.
    pub fn wei_to_usd(&self, wei: u128) -> (r: u128)
        ensures
            r as nat == fiat_cents_spec(wei as nat, self.eth_price_cents as nat),
    {
        fiat_cents(wei, self.eth_price_cents)
    }

    /// Fiat value in cents of an amount of wei at the given price.
    pub fn wei_to_usd_sync(&self, wei: u128, eth_price_cents: u32) -> (r: u128)
        ensures
            r as nat == fiat_cents_spec(wei as nat, eth_price_cents as nat),
    {
        fiat_cents(wei, eth_price_cents)
    }

    /// Fiat value in cents of an amount of gwei at the reference price.
    pub fn gwei_to_usd(&self, gwei: u64) -> (r: u128)
        ensures
            r as nat == fiat_cents_spec(gwei as nat * 1_000_000_000, self.eth_price_cents as nat),
    {
        proof {
            assert(gwei as nat * 1_000_000_000 <= u64::MAX as nat * 1_000_000_000) by (nonlinear_arith);
        }
        fiat_cents(gwei as u128 * WEI_PER_GWEI as u128, self.eth_price_cents)
    }

    /// Fiat cost in cents of `gas_used` units at `gas_price_wei` per unit.
    pub fn calculate_gas_cost(&self, gas_used: u64, gas_price_wei: u64) -> (r: u128)
        ensures
            r as nat == fiat_cents_spec(gas_used as nat * gas_price_wei as nat, self.eth_price_cents as nat),
    {
        proof {
            assert(gas_used as nat * gas_price_wei as nat <= u64::MAX as nat * u64::MAX as nat) by (nonlinear_arith);
        }
        fiat_cents(gas_used as u128 * gas_price_wei as u128, self.eth_price_cents)
    }

    /// Fiat cost in cents of `gas_limit` units at the given base plus priority fee.
    pub fn estimate_transaction_cost(&self, gas_limit: u64, gas_price: &GasPrice) -> (r: u128)
        requires
            gas_limit as nat * gas_price.per_unit() <= u128::MAX,
        ensures
            r as nat == fiat_cents_spec(gas_limit as nat * gas_price.per_unit(), self.eth_price_cents as nat),
    {
        let per_unit = gas_price.base_fee as u128 + gas_price.priority_fee as u128;
        fiat_cents(gas_limit as u128 * per_unit, self.eth_price_cents)
    }
}

} // verus!
