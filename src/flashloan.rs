//! Flash-loan providers: their fees and gas overhead, which are constants of each provider.

use vstd::prelude::*;
use crate::models::{EthAddress, FlashLoanProvider};
use crate::wide::Wide;

verus! {

/// Fee of a provider in basis points of the borrowed amount.
pub open spec fn loan_fee_bps_spec(p: FlashLoanProvider) -> nat {
    match p {
        FlashLoanProvider::AaveV3 => 9,
        FlashLoanProvider::Balancer => 0,
        FlashLoanProvider::DyDx => 0,
    }
}

/// Gas units of a whole flash-loan transaction through a provider.
pub open spec fn loan_gas_spec(p: FlashLoanProvider) -> nat {
    match p {
        FlashLoanProvider::AaveV3 => 350000,
        FlashLoanProvider::Balancer => 300000,
        FlashLoanProvider::DyDx => 280000,
    }
}

/// Gas units that borrowing through a provider adds on top of the fixed arbitrage budget,
/// which already covers initiating and repaying the loan. The figure is per provider; all
/// three providers currently carry the same 100,000 units.
pub open spec fn loan_overhead_gas_spec(p: FlashLoanProvider) -> nat {
    match p {
        FlashLoanProvider::AaveV3 => 100000,
        FlashLoanProvider::Balancer => 100000,
        FlashLoanProvider::DyDx => 100000,
    }
}

/// `amount · fee_bps / 10000`, floored.
pub open spec fn loan_cost_spec(amount: nat, fee_bps: nat) -> nat {
    (amount * fee_bps) / 10000
}

/// The loan venues known to the engine.
#[derive(Clone, Copy, Debug)]
pub struct FlashLoanManager {
    pub aave_pool: EthAddress,
    pub balancer_vault: EthAddress,
}

impl FlashLoanManager {
    pub fn new(aave_pool: EthAddress, balancer_vault: EthAddress) -> (r: FlashLoanManager)
        ensures
            r.aave_pool == aave_pool,
            r.balancer_vault == balancer_vault,
    {
        FlashLoanManager { aave_pool, balancer_vault }
    }

    /// Fee in basis points: 9 for Aave V3, none for Balancer and dYdX.
    pub fn get_flash_loan_fee(&self, provider: FlashLoanProvider) -> (r: u32)
        ensures
            r as nat == loan_fee_bps_spec(provider),
    {
        match provider {
            FlashLoanProvider::AaveV3 => 9,
            FlashLoanProvider::Balancer => 0,
            FlashLoanProvider::DyDx => 0,
        }
    }

    /// The fee owed on `amount` at `fee_bps` basis points.
    pub fn calculate_flash_loan_cost(&self, amount: u128, fee_bps: u32) -> (r: u128)
        requires
            loan_cost_spec(amount as nat, fee_bps as nat) < 0x1_0000_0000_0000_0000_0000_0000_0000_0000,
        ensures
            r as nat == loan_cost_spec(amount as nat, fee_bps as nat),
    {
        if fee_bps == 0 {
            proof {
                assert((amount as nat) * 0nat == 0nat) by (nonlinear_arith);
            }
            return 0;
        }
        let a = Wide::from_u128(amount);
        let f = Wide::from_u128(fee_bps as u128);
        proof {
            assert(a@ * f@ <= 0x1_0000_0000_0000_0000_0000_0000_0000_0000nat * 0x1_0000_0000nat) by (nonlinear_arith)
                requires a@ < 0x1_0000_0000_0000_0000_0000_0000_0000_0000nat, f@ < 0x1_0000_0000nat;
        }
        let product = a.mul(&f);
        product.div(&Wide::from_u128(10000)).to_u128()
    }

    /// The provider used for every token: Balancer charges no fee.
    pub fn select_best_provider(&self, token: EthAddress) -> (r: FlashLoanProvider)
        ensures
            r == FlashLoanProvider::Balancer,
    {
        FlashLoanProvider::Balancer
    }

    /// Gas units added to the arbitrage budget for a loan through `provider`.
    pub fn loan_overhead_gas(&self, provider: FlashLoanProvider) -> (r: u64)
        ensures
            r as nat == loan_overhead_gas_spec(provider),
    {
        match provider {
            FlashLoanProvider::AaveV3 => 100000,
            FlashLoanProvider::Balancer => 100000,
            FlashLoanProvider::DyDx => 100000,
        }
    }

    /// Gas units of a whole flash-loan transaction through `provider`.
    pub fn estimate_gas_for_flash_loan(&self, provider: FlashLoanProvider) -> (r: u64)
        ensures
            r as nat == loan_gas_spec(provider),
    {
        match provider {
            FlashLoanProvider::AaveV3 => 350000,
            FlashLoanProvider::Balancer => 300000,
            FlashLoanProvider::DyDx => 280000,
        }
    }
}

} // verus!
