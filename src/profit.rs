//! Trade sizing and cost model: the two-hop round trip through a flash loan, the loan fee,
//! the gas cost in fiat, and the resulting net profit.

use vstd::prelude::*;
use crate::fiat::{fiat_cents, fiat_cents_spec, signed_fiat_cents_spec};
use crate::flashloan::{FlashLoanManager, loan_cost_spec, loan_fee_bps_spec, loan_overhead_gas_spec};
use crate::gas::{GasEstimator, GasPrice, ARBITRAGE_GAS_LIMIT};
use crate::models::{DexPool, FlashLoanProvider, TokenPair};
use crate::pricing::{swap_output, swap_output_spec};
use vstd::arithmetic::mul::{lemma_mul_inequality, lemma_mul_strict_inequality};

verus! {

/// Output of borrowing `amount` of token0, selling it for token1 on `buy` and selling that
/// back for token0 on `sell`; and the gross profit, the part of the output above `amount`.
pub open spec fn round_trip_spec(amount: nat, buy: DexPool, sell: DexPool) -> (nat, nat) {
    let leg1 = swap_output_spec(amount, buy.reserve0 as nat, buy.reserve1 as nat, buy.fee as nat);
    let out = swap_output_spec(leg1, sell.reserve1 as nat, sell.reserve0 as nat, sell.fee as nat);
    (out, if out > amount { (out - amount) as nat } else { 0 })
}

/// Gas units of an arbitrage through `provider`: the fixed budget plus the provider's loan
/// overhead.
pub open spec fn arbitrage_gas_units_spec(provider: FlashLoanProvider) -> nat {
    ARBITRAGE_GAS_LIMIT as nat + loan_overhead_gas_spec(provider)
}

/// `fiatValue(grossProfit − loanCost) − gasCost`, in cents.
pub open spec fn net_profit_spec(gross: nat, loan_fee: nat, gas_cost_cents: nat, price_cents: nat) -> int {
    signed_fiat_cents_spec(gross - loan_fee, price_cents) - gas_cost_cents
}

/// The costed opportunity of borrowing `borrow` through `provider` to buy on `buy` and sell
/// on `sell`, at the quoted gas price (whose priority fee is doubled to compete) and the
/// fiat price `price_cents` of one whole token.
pub open spec fn opportunity_spec(
    buy: DexPool,
    sell: DexPool,
    borrow: nat,
    provider: FlashLoanProvider,
    block_number: u64,
    price_cents: nat,
    gas_price: GasPrice,
) -> ArbitrageOpportunity {
    let out = round_trip_spec(borrow, buy, sell).0;
    let gross = round_trip_spec(borrow, buy, sell).1;
    let fee = loan_cost_spec(borrow, loan_fee_bps_spec(provider));
    let gas_wei = arbitrage_gas_units_spec(provider) * (gas_price.base_fee + 2 * gas_price.priority_fee);
    let gas_cents = fiat_cents_spec(gas_wei as nat, price_cents);
    ArbitrageOpportunity {
        token_pair: buy.token_pair,
        buy_pool: buy,
        sell_pool: sell,
        optimal_amount: borrow as u128,
        output_amount: out as u128,
        profit_wei: gross as u128,
        flash_loan_fee: fee as u128,
        profit_cents: fiat_cents_spec(gross, price_cents) as u128,
        gas_cost_wei: gas_wei as u128,
        gas_cost_cents: gas_cents as u128,
        net_profit_cents: net_profit_spec(gross, fee, gas_cents, price_cents) as i128,
        flashloan_provider: provider,
        block_number,
    }
}

/// A costed opportunity. Fiat figures are in cents.
#[derive(Debug)]
pub struct ArbitrageOpportunity {
    pub token_pair: TokenPair,
    pub buy_pool: DexPool,
    pub sell_pool: DexPool,
    /// The borrowed amount of token0.
    pub optimal_amount: u128,
    /// Token0 returned by the round trip.
    pub output_amount: u128,
    /// Gross profit in token0 units.
    pub profit_wei: u128,
    /// The loan fee in token0 units.
    pub flash_loan_fee: u128,
    pub profit_cents: u128,
    pub gas_cost_wei: u128,
    pub gas_cost_cents: u128,
    pub net_profit_cents: i128,
    pub flashloan_provider: FlashLoanProvider,
    pub block_number: u64,
}

/// Simulates the round trip of `amount` through `buy` then `sell`: (output, gross profit).
pub fn simulate_round_trip(amount: u128, buy: &DexPool, sell: &DexPool) -> (r: (u128, u128))
    requires
        buy.wf(),
        sell.wf(),
    ensures
        (r.0 as nat, r.1 as nat) == round_trip_spec(amount as nat, *buy, *sell),
{
    let leg1 = swap_output(amount, buy.reserve0, buy.reserve1, buy.fee);
    let out = swap_output(leg1, sell.reserve1, sell.reserve0, sell.fee);
    let gross = if out > amount { out - amount } else { 0 };
    (out, gross)
}

/// A round trip through two pools with the same reserves and fee loses the two fees and
/// never returns more than was borrowed: its gross profit is zero.
pub proof fn lemma_round_trip_same_pool_no_profit(amount: nat, buy: DexPool, sell: DexPool)
    requires
        buy.reserve0 == sell.reserve0,
        buy.reserve1 == sell.reserve1,
        buy.fee == sell.fee,
        buy.fee <= 10000,
    ensures
        round_trip_spec(amount, buy, sell).0 <= amount,
        round_trip_spec(amount, buy, sell).1 == 0,
{
    lemma_round_trip_bounded(amount, buy.reserve0 as nat, buy.reserve1 as nat, buy.fee as nat);
}

/// Selling `a` through a constant-product pool and selling the output straight back
/// returns at most `a`.
proof fn lemma_round_trip_bounded(a: nat, p: nat, q: nat, f: nat)
    requires
        f <= 10000,
    ensures
        swap_output_spec(swap_output_spec(a, p, q, f), q, p, f) <= a,
{
    let y = swap_output_spec(a, p, q, f);
    let x = swap_output_spec(y, q, p, f);
    if a == 0 || p == 0 || q == 0 || y == 0 {
        return;
    }
    if f == 10000 {
        assert(y == 0) by (nonlinear_arith)
            requires f == 10000, p > 0, y == ((a * (10000 - f)) * q) / (p * 10000 + a * (10000 - f));
        return;
    }
    let g: int = 10000 - f;
    let t: int = 10000;
    let aa: int = a as int;
    let yy: int = y as int;
    let xx: int = x as int;
    let pp: int = p as int;
    let qq: int = q as int;
    let d1: int = pp * t + aa * g;
    let d2: int = qq * t + yy * g;
    assert(d1 > 0 && d2 > 0) by (nonlinear_arith)
        requires pp > 0, qq > 0, t == 10000, aa >= 0, yy >= 0, g > 0, d1 == pp * t + aa * g, d2 == qq * t + yy * g;
    // floor properties of the two legs
    assert(yy * d1 <= aa * g * qq) by (nonlinear_arith)
        requires yy == ((aa * g) * qq) / d1, d1 > 0, aa > 0, g > 0, qq > 0;
    assert(xx * d2 <= yy * g * pp) by (nonlinear_arith)
        requires xx == ((yy * g) * pp) / d2, d2 > 0, yy > 0, g > 0, pp > 0;
    if xx > aa {
        let u: int = aa * qq * t * g;
        let v: int = aa * yy * g * g;
        let w: int = yy * pp * t * g;
        let z: int = aa * g * g * qq;
        let s: int = yy * g * g * pp;
        assert(aa * d2 < yy * g * pp) by (nonlinear_arith)
            requires xx * d2 <= yy * g * pp, xx >= aa + 1, d2 > 0;
        assert(aa * d2 == aa * qq * t + aa * yy * g) by (nonlinear_arith)
            requires d2 == qq * t + yy * g;
        lemma_mul_strict_inequality(aa * qq * t + aa * yy * g, yy * g * pp, g);
        assert((aa * qq * t + aa * yy * g) * g == u + v) by (nonlinear_arith)
            requires u == aa * qq * t * g, v == aa * yy * g * g;
        assert((yy * g * pp) * g == s) by (nonlinear_arith)
            requires s == yy * g * g * pp;
        assert(yy * d1 == yy * pp * t + yy * aa * g) by (nonlinear_arith)
            requires d1 == pp * t + aa * g;
        lemma_mul_inequality(yy * pp * t + yy * aa * g, aa * g * qq, g);
        assert((yy * pp * t + yy * aa * g) * g == w + v) by (nonlinear_arith)
            requires w == yy * pp * t * g, v == aa * yy * g * g;
        assert((aa * g * qq) * g == z) by (nonlinear_arith)
            requires z == aa * g * g * qq;
        assert(yy * g * pp >= 0) by (nonlinear_arith)
            requires yy > 0, g > 0, pp > 0;
        lemma_mul_inequality(g, t, yy * g * pp);
        assert(g * (yy * g * pp) == s && t * (yy * g * pp) == w) by (nonlinear_arith)
            requires s == yy * g * g * pp, w == yy * pp * t * g;
        assert(aa * g * qq >= 0) by (nonlinear_arith)
            requires aa > 0, g > 0, qq > 0;
        lemma_mul_inequality(g, t, aa * g * qq);
        assert(g * (aa * g * qq) == z && t * (aa * g * qq) == u) by (nonlinear_arith)
            requires z == aa * g * g * qq, u == aa * qq * t * g;
        assert(v >= 0) by (nonlinear_arith)
            requires v == aa * yy * g * g, aa > 0, yy > 0;
        assert(false);
    }
}

/// Costs a candidate: simulates the round trip of `borrow_amount`, prices the loan fee of
/// `provider` and the gas of the whole transaction at the quoted gas price, and converts
/// to fiat at the estimator's reference price.
pub fn cost_opportunity(
    buy_pool: &DexPool,
    sell_pool: &DexPool,
    borrow_amount: u128,
    flashloan_provider: FlashLoanProvider,
    block_number: u64,
    loans: &FlashLoanManager,
    gas: &GasEstimator,
    gas_price: &GasPrice,
) -> (r: ArbitrageOpportunity)
    requires
        buy_pool.wf(),
        sell_pool.wf(),
        2 * gas_price.priority_fee <= u64::MAX,
    ensures
        r.token_pair == buy_pool.token_pair,
        r.buy_pool == *buy_pool,
        r.sell_pool == *sell_pool,
        r.optimal_amount == borrow_amount,
        (r.output_amount as nat, r.profit_wei as nat) == round_trip_spec(borrow_amount as nat, *buy_pool, *sell_pool),
        r.flash_loan_fee as nat == loan_cost_spec(borrow_amount as nat, loan_fee_bps_spec(flashloan_provider)),
        r.profit_cents as nat == fiat_cents_spec(r.profit_wei as nat, gas.eth_price_cents as nat),
        r.gas_cost_wei as nat == arbitrage_gas_units_spec(flashloan_provider)
            * (gas_price.base_fee + 2 * gas_price.priority_fee),
        r.gas_cost_cents as nat == fiat_cents_spec(r.gas_cost_wei as nat, gas.eth_price_cents as nat),
        r.net_profit_cents == net_profit_spec(r.profit_wei as nat, r.flash_loan_fee as nat,
            r.gas_cost_cents as nat, gas.eth_price_cents as nat),
        r.flashloan_provider == flashloan_provider,
        r.block_number == block_number,
        r == opportunity_spec(*buy_pool, *sell_pool, borrow_amount as nat, flashloan_provider,
            block_number, gas.eth_price_cents as nat, *gas_price),
        buy_pool.reserve0 == sell_pool.reserve0 && buy_pool.reserve1 == sell_pool.reserve1
            && buy_pool.fee == sell_pool.fee ==> r.profit_wei == 0 && r.profit_cents == 0,
{
    proof {
        if buy_pool.reserve0 == sell_pool.reserve0 && buy_pool.reserve1 == sell_pool.reserve1
            && buy_pool.fee == sell_pool.fee {
            lemma_round_trip_same_pool_no_profit(borrow_amount as nat, *buy_pool, *sell_pool);
            assert(fiat_cents_spec(0, gas.eth_price_cents as nat) == 0) by (nonlinear_arith);
        }
    }
    let (output_amount, profit_wei) = simulate_round_trip(borrow_amount, buy_pool, sell_pool);
    let fee_bps = loans.get_flash_loan_fee(flashloan_provider);
    proof {
        assert((borrow_amount as nat * fee_bps as nat) / 10000 <= borrow_amount as nat) by (nonlinear_arith)
            requires fee_bps <= 9;
    }
    let flash_loan_fee = loans.calculate_flash_loan_cost(borrow_amount, fee_bps);
    let estimate = gas.estimate_arbitrage_gas(gas_price);
    let units = ARBITRAGE_GAS_LIMIT as u128 + loans.loan_overhead_gas(flashloan_provider) as u128;
    let per_unit = estimate.gas_price.base_fee as u128 + estimate.gas_price.priority_fee as u128;
    proof {
        assert(units * per_unit <= 600_000 * 0x2_0000_0000_0000_0000nat) by (nonlinear_arith)
            requires units <= 600_000, per_unit <= 0x2_0000_0000_0000_0000nat;
    }
    let gas_cost_wei = units * per_unit;
    let gas_cost_cents = fiat_cents(gas_cost_wei, gas.eth_price_cents);
    let profit_cents = fiat_cents(profit_wei, gas.eth_price_cents);
    let net_token_cents: i128 = if profit_wei >= flash_loan_fee {
        fiat_cents(profit_wei - flash_loan_fee, gas.eth_price_cents) as i128
    } else {
        -(fiat_cents(flash_loan_fee - profit_wei, gas.eth_price_cents) as i128)
    };
    let net_profit_cents = net_token_cents - gas_cost_cents as i128;
    ArbitrageOpportunity {
        token_pair: buy_pool.token_pair.duplicate(),
        buy_pool: buy_pool.duplicate(),
        sell_pool: sell_pool.duplicate(),
        optimal_amount: borrow_amount,
        output_amount,
        profit_wei,
        flash_loan_fee,
        profit_cents,
        gas_cost_wei,
        gas_cost_cents,
        net_profit_cents,
        flashloan_provider,
        block_number,
    }
}

/// Whether a costed opportunity is kept for ranking: it must show a gross profit and a net
/// profit of at least the minimum, unless unprofitable ones are kept for diagnostics.
pub open spec fn retained_spec(o: ArbitrageOpportunity, min_profit_cents: int, show_unprofitable: bool) -> bool {
    show_unprofitable || (o.profit_wei > 0 && o.net_profit_cents >= min_profit_cents)
}

pub fn is_retained(o: &ArbitrageOpportunity, min_profit_cents: i128, show_unprofitable: bool) -> (r: bool)
    ensures
        r == retained_spec(*o, min_profit_cents as int, show_unprofitable),
{
    show_unprofitable || (o.profit_wei > 0 && o.net_profit_cents >= min_profit_cents)
}

} // verus!
