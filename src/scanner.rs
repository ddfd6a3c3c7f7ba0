//! One detection cycle over a snapshot of pools, and the counters kept across cycles.

use vstd::prelude::*;
use crate::config::ScanConfig;
use crate::detector::{Candidate, candidates_spec, choose_borrow_amount, borrow_amount_spec,
    find_candidates, row_spec, scan_spec, option_seq, pair_candidate_spec, pools_wf};
use crate::fiat::fiat_cents_spec;
use crate::flashloan::{loan_cost_spec, loan_fee_bps_spec};
use crate::flashloan::FlashLoanManager;
use crate::gas::{GasEstimator, GasPrice};
use crate::models::{DexPool, FlashLoanProvider};
use crate::pricing::{price_ratio, price_ratio_spec};
use crate::profit::{ArbitrageOpportunity, arbitrage_gas_units_spec, cost_opportunity, is_retained,
    net_profit_spec, opportunity_spec, retained_spec, round_trip_spec};
use crate::ranking::{net, rank_by_net_profit, sorted_desc, stable_sort_desc};
use crate::wide::Wide;

verus! {

/// The opportunities of the candidates, costed through Balancer.
pub open spec fn costed_spec(
    pools: Seq<DexPool>,
    cands: Seq<(int, int, nat, nat)>,
    price_cents: nat,
    gas_price: GasPrice,
    block_number: u64,
) -> Seq<ArbitrageOpportunity> {
    cands.map_values(|c: (int, int, nat, nat)|
        opportunity_spec(pools[c.0], pools[c.1], c.2, FlashLoanProvider::Balancer, block_number, price_cents, gas_price))
}

/// The outcome of a cycle: every candidate is costed, those that the retention policy
/// rejects are dropped, the rest are ranked by net profit and the first `max_ranked` of
/// the ranking are kept.
pub open spec fn cycle_spec(
    pools: Seq<DexPool>,
    cfg: ScanConfig,
    price_cents: nat,
    gas_price: GasPrice,
    block_number: u64,
) -> Seq<ArbitrageOpportunity> {
    let ranked = stable_sort_desc(costed_spec(pools, candidates_spec(pools, cfg), price_cents, gas_price,
        block_number).filter(
        |o: ArbitrageOpportunity| retained_spec(o, cfg.min_profit_cents as int, cfg.show_unprofitable)));
    if cfg.max_ranked < ranked.len() { ranked.take(cfg.max_ranked as int) } else { ranked }
}

proof fn lemma_row_in_range(pools: Seq<DexPool>, cfg: ScanConfig, i: int, j: int)
    requires
        0 <= i,
        j <= pools.len(),
    ensures
        forall|k: int| 0 <= k < row_spec(pools, cfg, i, j).len() ==> {
            let c = #[trigger] row_spec(pools, cfg, i, j)[k];
            0 <= c.0 < pools.len() && 0 <= c.1 < pools.len()
        },
    decreases j - i,
{
    if j > i + 1 {
        lemma_row_in_range(pools, cfg, i, j - 1);
        let r = row_spec(pools, cfg, i, j - 1);
        let o = option_seq(pair_candidate_spec(pools, i, j - 1, cfg));
        assert forall|k: int| 0 <= k < row_spec(pools, cfg, i, j).len() implies {
            let c = #[trigger] row_spec(pools, cfg, i, j)[k];
            0 <= c.0 < pools.len() && 0 <= c.1 < pools.len()
        } by {
            if k >= r.len() {
                assert(row_spec(pools, cfg, i, j)[k] == o[k - r.len()]);
            } else {
                assert(row_spec(pools, cfg, i, j)[k] == r[k]);
            }
        }
    }
}

proof fn lemma_scan_in_range(pools: Seq<DexPool>, cfg: ScanConfig, i: int)
    requires
        i <= pools.len(),
    ensures
        forall|k: int| 0 <= k < scan_spec(pools, cfg, i).len() ==> {
            let c = #[trigger] scan_spec(pools, cfg, i)[k];
            0 <= c.0 < pools.len() && 0 <= c.1 < pools.len()
        },
    decreases i,
{
    if i > 0 {
        lemma_scan_in_range(pools, cfg, i - 1);
        lemma_row_in_range(pools, cfg, i - 1, pools.len() as int);
        let a = scan_spec(pools, cfg, i - 1);
        let b = row_spec(pools, cfg, i - 1, pools.len() as int);
        assert forall|k: int| 0 <= k < scan_spec(pools, cfg, i).len() implies {
            let c = #[trigger] scan_spec(pools, cfg, i)[k];
            0 <= c.0 < pools.len() && 0 <= c.1 < pools.len()
        } by {
            if k < a.len() {
                assert(scan_spec(pools, cfg, i)[k] == a[k]);
            } else {
                assert(scan_spec(pools, cfg, i)[k] == b[k - a.len()]);
            }
        }
    }
}

/// The scanning engine: configuration, loan venues and the gas-to-fiat converter.
#[derive(Clone, Copy, Debug)]
pub struct ArbitrageScanner {
    pub config: ScanConfig,
    pub flash_loan_manager: FlashLoanManager,
    pub gas_estimator: GasEstimator,
}

impl ArbitrageScanner {
    pub fn new(config: ScanConfig, flash_loan_manager: FlashLoanManager, gas_estimator: GasEstimator) -> (r: ArbitrageScanner)
        ensures
            r.config == config,
            r.flash_loan_manager == flash_loan_manager,
            r.gas_estimator == gas_estimator,
    {
        ArbitrageScanner { config, flash_loan_manager, gas_estimator }
    }

    /// Candidates among the pools under the scanner's configuration.
    pub fn find_flash_loan_arbitrage(&self, pools: &Vec<DexPool>) -> (r: Vec<Candidate>)
        requires
            pools_wf(pools@),
        ensures
            r@.map_values(|c: Candidate| c@) == candidates_spec(pools@, self.config),
    {
        find_candidates(pools, &self.config)
    }

    /// The borrow amount for a pair of pools.
    pub fn calculate_optimal_borrow(&self, buy_pool: &DexPool, sell_pool: &DexPool) -> (r: u128)
        ensures
            r as nat == borrow_amount_spec(*buy_pool, *sell_pool, self.config.borrow_fraction_bps as nat,
                self.config.max_borrow_notional as nat),
    {
        choose_borrow_amount(buy_pool, sell_pool, self.config.borrow_fraction_bps, self.config.max_borrow_notional)
    }

    /// The pool's price ratio, scaled by 1e18.
    pub fn calculate_price(&self, pool: &DexPool) -> (r: Wide)
        ensures
            r@ == price_ratio_spec(pool.reserve0 as nat, pool.reserve1 as nat),
    {
        price_ratio(pool.reserve0, pool.reserve1)
    }

    /// Costs a candidate at the quoted gas price.
    pub fn calculate_accurate_profit(
        &self,
        buy_pool: &DexPool,
        sell_pool: &DexPool,
        borrow_amount: u128,
        flashloan_provider: FlashLoanProvider,
        block_number: u64,
        gas_price: &GasPrice,
    ) -> (r: ArbitrageOpportunity)
        requires
            buy_pool.wf(),
            sell_pool.wf(),
            2 * gas_price.priority_fee <= u64::MAX,
        ensures
            r == opportunity_spec(*buy_pool, *sell_pool, borrow_amount as nat, flashloan_provider,
                block_number, self.gas_estimator.eth_price_cents as nat, *gas_price),
            r.token_pair == buy_pool.token_pair,
            r.buy_pool == *buy_pool,
            r.sell_pool == *sell_pool,
            r.optimal_amount == borrow_amount,
            (r.output_amount as nat, r.profit_wei as nat) == round_trip_spec(borrow_amount as nat, *buy_pool, *sell_pool),
            r.flash_loan_fee as nat == loan_cost_spec(borrow_amount as nat, loan_fee_bps_spec(flashloan_provider)),
            r.profit_cents as nat == fiat_cents_spec(r.profit_wei as nat, self.gas_estimator.eth_price_cents as nat),
            r.gas_cost_wei as nat == arbitrage_gas_units_spec(flashloan_provider)
                * (gas_price.base_fee + 2 * gas_price.priority_fee),
            r.gas_cost_cents as nat == fiat_cents_spec(r.gas_cost_wei as nat, self.gas_estimator.eth_price_cents as nat),
            r.net_profit_cents == net_profit_spec(r.profit_wei as nat, r.flash_loan_fee as nat,
                r.gas_cost_cents as nat, self.gas_estimator.eth_price_cents as nat),
            r.flashloan_provider == flashloan_provider,
            r.block_number == block_number,
            buy_pool.reserve0 == sell_pool.reserve0 && buy_pool.reserve1 == sell_pool.reserve1
                && buy_pool.fee == sell_pool.fee ==> r.profit_wei == 0 && r.profit_cents == 0,
    {
        cost_opportunity(buy_pool, sell_pool, borrow_amount, flashloan_provider, block_number,
            &self.flash_loan_manager, &self.gas_estimator, gas_price)
    }

    /// One detection cycle over a snapshot of pools: find candidates, cost each through
    /// Balancer, apply the retention policy, rank by net profit and keep the first
    /// `max_ranked`.
    pub fn scan_cycle(&self, pools: &Vec<DexPool>, gas_price: &GasPrice, block_number: u64) -> (r: Vec<ArbitrageOpportunity>)
        requires
            pools_wf(pools@),
            2 * gas_price.priority_fee <= u64::MAX,
        ensures
            r@ == cycle_spec(pools@, self.config, self.gas_estimator.eth_price_cents as nat, *gas_price, block_number),
            sorted_desc(r@),
    {
        let cands = find_candidates(pools, &self.config);
        let ghost cv = cands@.map_values(|c: Candidate| c@);
        let ghost price = self.gas_estimator.eth_price_cents as nat;
        proof {
            lemma_scan_in_range(pools@, self.config, pools@.len() as int);
        }
        let limit = cands.len();
        let mut kept: Vec<ArbitrageOpportunity> = Vec::new();
        let mut k: usize = 0;
        while k < limit
            invariant
                limit <= cands.len(),
                cv == cands@.map_values(|c: Candidate| c@),
                cv == candidates_spec(pools@, self.config),
                price == self.gas_estimator.eth_price_cents as nat,
                pools_wf(pools@),
                2 * gas_price.priority_fee <= u64::MAX,
                forall|m: int| 0 <= m < cv.len() ==> {
                    let c = #[trigger] cv[m];
                    0 <= c.0 < pools.len() && 0 <= c.1 < pools.len()
                },
                k <= limit,
                kept@ == costed_spec(pools@, cv.take(k as int), price, *gas_price, block_number).filter(
                    |o: ArbitrageOpportunity| retained_spec(o, self.config.min_profit_cents as int, self.config.show_unprofitable)),
            decreases limit - k,
        {
            let c = cands[k];
            assert(cv[k as int] == c@);
            let o = cost_opportunity(&pools[c.buy_index], &pools[c.sell_index], c.borrow_amount,
                FlashLoanProvider::Balancer, block_number, &self.flash_loan_manager, &self.gas_estimator, gas_price);
            let keep = is_retained(&o, self.config.min_profit_cents, self.config.show_unprofitable);
            proof {
                let f = |c: (int, int, nat, nat)|
                    opportunity_spec(pools@[c.0], pools@[c.1], c.2, FlashLoanProvider::Balancer, block_number, price, *gas_price);
                let before = cv.take(k as int).map_values(f);
                let after = cv.take(k + 1).map_values(f);
                assert(after =~= before.push(o));
                assert(after.drop_last() =~= before);
                reveal(Seq::filter);
            }
            if keep {
                kept.push(o);
            }
            k = k + 1;
        }
        assert(cv.take(limit as int) =~= cv);
        let mut ranked = rank_by_net_profit(kept);
        let ghost full = ranked@;
        ranked.truncate(self.config.max_ranked);
        proof {
            if self.config.max_ranked >= full.len() {
                assert(ranked@ == full);
            } else {
                assert(ranked@ == full.take(self.config.max_ranked as int));
                assert forall|i: int, j: int| 0 <= i < j < ranked@.len() implies
                    net(#[trigger] ranked@[i]) >= net(#[trigger] ranked@[j]) by {
                    assert(ranked@[i] == full[i] && ranked@[j] == full[j]);
                }
            }
        }
        ranked
    }

    /// Prices are refreshed every fifth cycle.
    pub fn should_refresh_prices(iteration: u64) -> (r: bool)
        ensures
            r == (iteration % 5 == 0),
    {
        iteration % 5 == 0
    }

    /// Whether a gas price in wei exceeds the configured cap in gwei.
    pub fn gas_price_too_high(&self, gas_price_wei: u64) -> (r: bool)
        ensures
            r == (gas_price_wei as nat > self.config.max_gas_price_gwei as nat * 1_000_000_000),
    {
        gas_price_wei as u128 > self.config.max_gas_price_gwei as u128 * 1_000_000_000
    }
}

/// Diagnostic counters across cycles, saturating at `u64::MAX`.
#[derive(Clone, Copy, Debug)]
pub struct ScanStats {
    pub cycles: u64,
    pub pools_scanned: u64,
    /// Unordered pairs of pools compared by the detector.
    pub pairs_checked: u64,
    pub opportunities_found: u64,
    pub profitable_found: u64,
}

pub open spec fn saturating_sum(a: u64, b: nat) -> u64 {
    if a + b > u64::MAX { u64::MAX } else { (a + b) as u64 }
}

impl ScanStats {
    pub fn new() -> (r: ScanStats)
        ensures
            r.cycles == 0 && r.pools_scanned == 0 && r.pairs_checked == 0 && r.opportunities_found == 0
                && r.profitable_found == 0,
    {
        ScanStats { cycles: 0, pools_scanned: 0, pairs_checked: 0, opportunities_found: 0, profitable_found: 0 }
    }

    /// Adds one cycle's figures: the pools it scanned, the pairs of them the detector
    /// compared, and the opportunities it ranked, of which those with a positive net profit
    /// count as profitable.
    pub fn record_cycle(&mut self, pools_scanned: usize, opportunities: &Vec<ArbitrageOpportunity>)
        ensures
            final(self).cycles == saturating_sum(old(self).cycles, 1),
            final(self).pools_scanned == saturating_sum(old(self).pools_scanned, pools_scanned as nat),
            final(self).pairs_checked == saturating_sum(old(self).pairs_checked,
                (pools_scanned as nat * (pools_scanned as nat - 1) / 2) as nat),
            final(self).opportunities_found == saturating_sum(old(self).opportunities_found, opportunities.len() as nat),
            final(self).profitable_found == saturating_sum(old(self).profitable_found,
                opportunities@.filter(|o: ArbitrageOpportunity| o.net_profit_cents > 0).len()),
    {
        let profitable = count_profitable(opportunities);
        let n = pools_scanned as u128;
        let pairs: u128 = if n == 0 {
            proof {
                assert((pools_scanned as nat * (pools_scanned as nat - 1) / 2) == 0) by (nonlinear_arith)
                    requires pools_scanned == 0;
            }
            0
        } else {
            proof {
                assert(n * (n - 1) <= u64::MAX as nat * u64::MAX as nat) by (nonlinear_arith)
                    requires n <= u64::MAX, n >= 1;
            }
            n * (n - 1) / 2
        };
        assert(pairs as nat == (pools_scanned as nat * (pools_scanned as nat - 1) / 2) as nat);
        let pairs_add: u64 = if pairs > u64::MAX as u128 { u64::MAX } else { pairs as u64 };
        self.pairs_checked = self.pairs_checked.saturating_add(pairs_add);
        self.cycles = self.cycles.saturating_add(1);
        self.pools_scanned = self.pools_scanned.saturating_add(pools_scanned as u64);
        self.opportunities_found = self.opportunities_found.saturating_add(opportunities.len() as u64);
        self.profitable_found = self.profitable_found.saturating_add(profitable as u64);
    }
}

/// How many opportunities have a positive net profit.
pub fn count_profitable(opportunities: &Vec<ArbitrageOpportunity>) -> (r: usize)
    ensures
        r == opportunities@.filter(|o: ArbitrageOpportunity| o.net_profit_cents > 0).len(),
{
    let n = opportunities.len();
    let mut count: usize = 0;
    let mut k: usize = 0;
    while k < n
        invariant
            n == opportunities.len(),
            k <= n,
            count == opportunities@.take(k as int).filter(|o: ArbitrageOpportunity| o.net_profit_cents > 0).len(),
            count <= k,
        decreases n - k,
    {
        proof {
            assert(opportunities@.take(k + 1).drop_last() =~= opportunities@.take(k as int));
            reveal(Seq::filter);
        }
        if opportunities[k].net_profit_cents > 0 {
            count = count + 1;
        }
        k = k + 1;
    }
    assert(opportunities@.take(n as int) =~= opportunities@);
    count
}

} // verus!
