use flash_arbitrage::config::ScanConfig;
use flash_arbitrage::detector::{choose_borrow_amount, evaluate_pair, find_candidates, spread_bps};
use flash_arbitrage::dex::{
    collect_pools, fee_tier_queries, is_deployed, passes_liquidity_floor, recent_window,
    reserves_from_liquidity, resolve_token_meta, tiered_fee_bps, token_pairs, DexManager,
};
use flash_arbitrage::fiat::{fiat_cents, parse_gwei, parse_scaled, parse_usd_cents};
use flash_arbitrage::flashloan::FlashLoanManager;
use flash_arbitrage::gas::{GasEstimator, GasPrice};
use flash_arbitrage::models::{canonical_pair, DexPool, DexType, EthAddress, FlashLoanProvider, TokenPair};
use flash_arbitrage::pricing::{price_ratio, swap_output};
use flash_arbitrage::profit::{cost_opportunity, is_retained, simulate_round_trip, ArbitrageOpportunity};
use flash_arbitrage::providers::{
    fiat_price_cents, first_available, Endpoint, MultiProvider, ProviderError, ReadStep, Tier,
};
use flash_arbitrage::ranking::{partition_by_profit, rank_by_net_profit};
use flash_arbitrage::scanner::{count_profitable, ArbitrageScanner, ScanStats};
use flash_arbitrage::units::{gwei_to_wei, token_amount_parts};
use flash_arbitrage::wide::Wide;

const E18: u128 = 1_000_000_000_000_000_000;

fn addr(n: u32) -> EthAddress {
    EthAddress { high: 0, low: n }
}

fn pool(dex: DexType, r0: u128, r1: u128, fee: u32) -> DexPool {
    DexPool::from_raw(
        dex,
        addr(1000 + fee),
        addr(1),
        addr(2),
        "WETH".to_string(),
        "USDC".to_string(),
        18,
        6,
        r0,
        r1,
        fee,
    )
    .unwrap()
}

fn wide(x: u128) -> Wide {
    Wide::from_u128(x)
}

fn opportunity(net: i128, tag: u64) -> ArbitrageOpportunity {
    let p = pool(DexType::UniswapV2, 1000, 1000, 30);
    ArbitrageOpportunity {
        token_pair: p.token_pair.duplicate(),
        buy_pool: p.duplicate(),
        sell_pool: p,
        optimal_amount: 0,
        output_amount: 0,
        profit_wei: 0,
        flash_loan_fee: 0,
        profit_cents: 0,
        gas_cost_wei: 0,
        gas_cost_cents: 0,
        net_profit_cents: net,
        flashloan_provider: FlashLoanProvider::Balancer,
        block_number: tag,
    }
}

fn endpoints(tier: Tier, n: usize) -> Vec<Endpoint> {
    (0..n).map(|i| Endpoint { url: format!("https://rpc{}.example", i), tier }).collect()
}

#[test]
fn swap_output_worked_example() {
    // floor(1000·9970·2000000 / (1000000·10000 + 1000·9970))
    assert_eq!(swap_output(1000, 1_000_000, 2_000_000, 30), 1992);
}

#[test]
fn swap_output_zero_operands() {
    assert_eq!(swap_output(0, 1_000_000, 2_000_000, 30), 0);
    assert_eq!(swap_output(1000, 0, 2_000_000, 30), 0);
    assert_eq!(swap_output(1000, 1_000_000, 0, 30), 0);
}

#[test]
fn swap_output_monotonic_and_bounded() {
    let mut last = 0;
    for a in [1u128, 10, 1000, 1_000_000, 1_000_000_000, u128::MAX / 3, u128::MAX] {
        let out = swap_output(a, 1_000_000, 2_000_000, 30);
        assert!(out >= last);
        assert!(out < 2_000_000);
        last = out;
    }
    assert_eq!(swap_output(1000, 1_000_000, 2_000_000, 10000), 0);
    assert_eq!(swap_output(1000, 1_000_000, 2_000_000, 0), 1998);
}

#[test]
fn swap_output_large_reserves() {
    let a = 100 * E18;
    let r = 1_000_000 * E18;
    let expected = {
        let x = a * 9970;
        // exact in 128 bits after dividing numerator and denominator by 1e18
        (x / E18) * (r / E18) * E18 / ((r / E18) * 10000 + x / E18)
    };
    assert_eq!(swap_output(a, r, r, 30), expected);
}

#[test]
fn price_ratio_values() {
    assert_eq!(price_ratio(2, 3), wide(1_500_000_000_000_000_000));
    assert_eq!(price_ratio(0, 3), wide(0));
    assert_eq!(price_ratio(3, 0), wide(0));
    let big = price_ratio(1, u128::MAX);
    assert!(!big.fits_u128());
    assert!(wide(u128::MAX).lt(&big));
}

#[test]
fn wide_arithmetic() {
    let a = wide(u128::MAX);
    let b = a.mul(&a);
    assert!(!b.fits_u128());
    assert_eq!(b.div(&a), a);
    assert_eq!(b.div(&a).to_u128(), u128::MAX);
    assert_eq!(wide(7).add(&wide(5)).to_u128(), 12);
    assert_eq!(wide(7).sub(&wide(5)).to_u128(), 2);
    assert!(wide(5).lt(&wide(7)));
    assert!(!wide(7).lt(&wide(7)));
    assert!(wide(0).is_zero());
    assert!(!wide(1).is_zero());
}

#[test]
fn canonical_pair_commutes() {
    let a = EthAddress { high: 5, low: 1 };
    let b = EthAddress { high: 4, low: 9 };
    assert_eq!(canonical_pair(a, b), canonical_pair(b, a));
    assert_eq!(canonical_pair(a, b), (b, a));
    assert_eq!(canonical_pair(a, a), (a, a));
    let c = EthAddress { high: 5, low: 2 };
    assert_eq!(canonical_pair(c, a), (a, c));
}

#[test]
fn token_pair_orders_metadata_with_tokens() {
    let p = TokenPair::new(addr(9), addr(3), "B".to_string(), "A".to_string(), 6, 18);
    assert_eq!(p.token0, addr(3));
    assert_eq!(p.symbol0, "A");
    assert_eq!(p.decimals0, 18);
    assert_eq!(p.symbol1, "B");
    assert_eq!(p.decimals1, 6);
}

#[test]
fn pool_from_raw_normalizes_and_rejects() {
    let p = DexPool::from_raw(
        DexType::Sushiswap, addr(50), addr(9), addr(3),
        "B".to_string(), "A".to_string(), 6, 18, 111, 222, 30,
    )
    .unwrap();
    assert_eq!(p.token_pair.token0, addr(3));
    assert_eq!(p.reserve0, 222);
    assert_eq!(p.reserve1, 111);
    assert!(DexPool::from_raw(
        DexType::Sushiswap, addr(50), addr(3), addr(3),
        "A".to_string(), "A".to_string(), 18, 18, 1, 1, 30,
    )
    .is_none());
    assert!(DexPool::from_raw(
        DexType::Sushiswap, addr(50), addr(3), addr(4),
        "A".to_string(), "B".to_string(), 18, 18, 1, 1, 10001,
    )
    .is_none());
}

#[test]
fn equal_prices_give_no_candidate() {
    let pools = vec![
        pool(DexType::UniswapV2, 1000 * E18, 2_000_000 * E18, 30),
        pool(DexType::Sushiswap, 500 * E18, 1_000_000 * E18, 30),
    ];
    assert!(find_candidates(&pools, &ScanConfig::default()).is_empty());
}

#[test]
fn spread_above_threshold_gives_candidate() {
    // price A = 2000·1e18, price B = 2015·1e18: spread (2015-2000)·10000/2000 = 75 bps
    let pools = vec![
        pool(DexType::UniswapV2, 1000 * E18, 2_000_000 * E18, 30),
        pool(DexType::Sushiswap, 1000 * E18, 2_015_000 * E18, 30),
    ];
    assert_eq!(price_ratio(pools[0].reserve0, pools[0].reserve1), wide(2000 * E18));
    let found = find_candidates(&pools, &ScanConfig::default());
    assert_eq!(found.len(), 1);
    assert_eq!(found[0].buy_index, 0);
    assert_eq!(found[0].sell_index, 1);
    assert_eq!(found[0].spread_bps, wide(75));
    assert_eq!(found[0].borrow_amount, 5 * E18);
    // reversed order of the pools: still buy on the cheaper one
    let reversed = vec![pools[1].duplicate(), pools[0].duplicate()];
    let found = find_candidates(&reversed, &ScanConfig::default());
    assert_eq!(found[0].buy_index, 1);
    assert_eq!(found[0].sell_index, 0);
}

#[test]
fn spread_below_threshold_same_venue_or_tiny_borrow() {
    let cfg = ScanConfig::default();
    // 50 bps: below the 65 bps default
    let pools = vec![
        pool(DexType::UniswapV2, 1000 * E18, 2_000_000 * E18, 30),
        pool(DexType::Sushiswap, 1000 * E18, 2_010_000 * E18, 30),
    ];
    assert!(evaluate_pair(&pools, 0, 1, &cfg).is_none());
    // same venue
    let pools = vec![
        pool(DexType::UniswapV2, 1000 * E18, 2_000_000 * E18, 30),
        pool(DexType::UniswapV2, 1000 * E18, 3_000_000 * E18, 30),
    ];
    assert!(evaluate_pair(&pools, 0, 1, &cfg).is_none());
    // borrow amount 0.5% of 1 token does not exceed the 0.01 minimum
    let pools = vec![
        pool(DexType::UniswapV2, E18, 2000 * E18, 30),
        pool(DexType::Sushiswap, E18, 3000 * E18, 30),
    ];
    assert!(evaluate_pair(&pools, 0, 1, &cfg).is_none());
    // an empty reserve cannot be priced
    let pools = vec![
        pool(DexType::UniswapV2, 1000 * E18, 0, 30),
        pool(DexType::Sushiswap, 1000 * E18, 3_000_000 * E18, 30),
    ];
    assert!(evaluate_pair(&pools, 0, 1, &cfg).is_none());
}

#[test]
fn spread_and_borrow_formulas() {
    assert_eq!(spread_bps(&wide(2000), &wide(2015)), wide(75));
    let a = pool(DexType::UniswapV2, 10_000 * E18, 1, 30);
    let b = pool(DexType::Sushiswap, 30_000 * E18, 1, 30);
    assert_eq!(choose_borrow_amount(&a, &b, 50, 100 * E18), 50 * E18);
    assert_eq!(choose_borrow_amount(&a, &b, 50, 20 * E18), 20 * E18);
    assert_eq!(choose_borrow_amount(&a, &b, 100, 1000 * E18), 100 * E18);
    assert_eq!(choose_borrow_amount(&a, &b, 0, 1000 * E18), 0);
    assert_eq!(choose_borrow_amount(&a, &b, u64::MAX, u128::MAX), 10_000 * E18 / 10000 * u64::MAX as u128);
    let mut cfg = ScanConfig::default();
    cfg.borrow_fraction_bps = 100;
    let pools = vec![
        pool(DexType::UniswapV2, 1000 * E18, 2_000_000 * E18, 30),
        pool(DexType::Sushiswap, 1000 * E18, 2_015_000 * E18, 30),
    ];
    assert_eq!(find_candidates(&pools, &cfg)[0].borrow_amount, 10 * E18);
}

#[test]
fn round_trip_same_pool_has_no_profit() {
    let p = pool(DexType::UniswapV2, 1_000_000, 2_000_000, 30);
    let q = pool(DexType::Sushiswap, 1_000_000, 2_000_000, 30);
    for amount in [1u128, 1000, 50_000, 1_000_000, 10_000_000] {
        let (out, gross) = simulate_round_trip(amount, &p, &q);
        assert!(out <= amount);
        assert_eq!(gross, 0);
    }
}

#[test]
fn round_trip_values() {
    let buy = pool(DexType::UniswapV2, 1_000_000, 2_000_000, 30);
    let sell = pool(DexType::Sushiswap, 1_000_000, 2_200_000, 30);
    let leg1 = swap_output(1000, 1_000_000, 2_000_000, 30);
    let out = swap_output(leg1, 2_200_000, 1_000_000, 30);
    assert_eq!(simulate_round_trip(1000, &buy, &sell), (out, 0));
    let (out, gross) = simulate_round_trip(1000, &sell, &buy);
    assert_eq!(out, swap_output(swap_output(1000, 1_000_000, 2_200_000, 30), 2_000_000, 1_000_000, 30));
    assert_eq!(gross, out - 1000);
    assert!(gross > 0);
}

#[test]
fn flash_loan_fees_and_gas() {
    let m = FlashLoanManager::new(addr(1), addr(2));
    assert_eq!(m.get_flash_loan_fee(FlashLoanProvider::AaveV3), 9);
    assert_eq!(m.get_flash_loan_fee(FlashLoanProvider::Balancer), 0);
    assert_eq!(m.get_flash_loan_fee(FlashLoanProvider::DyDx), 0);
    assert_eq!(m.calculate_flash_loan_cost(1_000_000, 9), 900);
    assert_eq!(m.calculate_flash_loan_cost(1_000_000, 0), 0);
    assert_eq!(m.calculate_flash_loan_cost(u128::MAX, 9), u128::MAX / 10000 * 9 + (u128::MAX % 10000) * 9 / 10000);
    assert_eq!(m.select_best_provider(addr(3)), FlashLoanProvider::Balancer);
    assert_eq!(m.estimate_gas_for_flash_loan(FlashLoanProvider::AaveV3), 350_000);
    assert_eq!(m.estimate_gas_for_flash_loan(FlashLoanProvider::Balancer), 300_000);
    assert_eq!(m.estimate_gas_for_flash_loan(FlashLoanProvider::DyDx), 280_000);
    assert_eq!(m.loan_overhead_gas(FlashLoanProvider::AaveV3), 100_000);
    assert_eq!(m.loan_overhead_gas(FlashLoanProvider::Balancer), 100_000);
}

#[test]
fn names_of_venues_and_providers() {
    assert_eq!(DexType::UniswapV2.name(), "UniswapV2");
    assert_eq!(DexType::Curve.name(), "Curve");
    assert_eq!(FlashLoanProvider::AaveV3.name(), "Aave V3");
    assert_eq!(FlashLoanProvider::DyDx.name(), "dYdX");
}

#[test]
fn fiat_conversions() {
    // 1 token at $3000.00
    assert_eq!(fiat_cents(E18, 300_000), 300_000);
    assert_eq!(fiat_cents(E18 / 2, 300_000), 150_000);
    assert_eq!(fiat_cents(1, 300_000), 0);
    assert_eq!(fiat_cents(u128::MAX, u32::MAX), 1461501636990620551282746369252);
    let g = GasEstimator::new(300_000);
    assert_eq!(g.wei_to_usd(2 * E18), 600_000);
    assert_eq!(g.wei_to_usd_sync(2 * E18, 100), 200);
    assert_eq!(g.gwei_to_usd(1_000_000_000), 300_000);
    assert_eq!(g.calculate_gas_cost(500_000, 20_000_000_000), 3000);
}

#[test]
fn gas_split_and_arbitrage_budget() {
    let mut g = GasEstimator::new(300_000);
    let p = g.get_current_gas_price(20_000_000_000);
    assert_eq!(p.base_fee, 17_000_000_000);
    assert_eq!(p.priority_fee, 3_000_000_000);
    let e = g.estimate_arbitrage_gas(&p);
    assert_eq!(e.gas_limit, 500_000);
    assert_eq!(e.gas_price.priority_fee, 6_000_000_000);
    assert_eq!(e.total_cost_wei, 500_000 * 23_000_000_000);
    assert_eq!(e.total_cost_cents, 3450);
    assert_eq!(g.estimate_transaction_cost(21_000, &p), 126);
    g.update_eth_price(100);
    assert_eq!(g.eth_price_cents, 100);
    let p = g.get_current_gas_price(u64::MAX);
    assert_eq!(p.base_fee as u128, u64::MAX as u128 * 85 / 100);
}

#[test]
fn cost_opportunity_figures() {
    let buy = pool(DexType::UniswapV2, 1000 * E18, 2_000_000 * E18, 30);
    let sell = pool(DexType::Sushiswap, 1000 * E18, 2_100_000 * E18, 30);
    let loans = FlashLoanManager::new(addr(1), addr(2));
    let gas = GasEstimator::new(300_000);
    let quote = GasPrice { base_fee: 10_000_000_000, priority_fee: 1_000_000_000 };
    // token0 -> token1 where token0 fetches more token1, then back where it fetches less
    let o = cost_opportunity(&sell, &buy, 5 * E18, FlashLoanProvider::AaveV3, 77, &loans, &gas, &quote);
    let (out, gross) = simulate_round_trip(5 * E18, &sell, &buy);
    assert!(gross > o.flash_loan_fee);
    assert_eq!(o.output_amount, out);
    assert_eq!(o.profit_wei, gross);
    assert_eq!(o.flash_loan_fee, 5 * E18 * 9 / 10000);
    assert_eq!(o.gas_cost_wei, 600_000 * 12_000_000_000);
    assert_eq!(o.gas_cost_cents, fiat_cents(600_000 * 12_000_000_000, 300_000));
    assert_eq!(o.profit_cents, fiat_cents(gross, 300_000));
    let net_tokens = fiat_cents(gross - o.flash_loan_fee, 300_000) as i128;
    assert_eq!(o.net_profit_cents, net_tokens - o.gas_cost_cents as i128);
    assert_eq!(o.block_number, 77);
    assert_eq!(o.buy_pool.dex, DexType::Sushiswap);
    assert_eq!(o.sell_pool.dex, DexType::UniswapV2);
    // a losing trade: the loan fee exceeds the (zero) gross profit
    let o = cost_opportunity(&buy, &buy, 5 * E18, FlashLoanProvider::AaveV3, 77, &loans, &gas, &quote);
    assert_eq!(o.profit_wei, 0);
    assert_eq!(o.net_profit_cents, -(fiat_cents(o.flash_loan_fee, 300_000) as i128) - o.gas_cost_cents as i128);
}

#[test]
fn retention_policy() {
    let mut o = opportunity(10_000, 1);
    o.profit_wei = 5;
    assert!(is_retained(&o, 5000, false));
    assert!(!is_retained(&o, 20_000, false));
    assert!(is_retained(&o, 20_000, true));
    o.profit_wei = 0;
    assert!(!is_retained(&o, 0, false));
}

#[test]
fn ranking_is_stable_and_descending() {
    let opps = vec![
        opportunity(5, 0),
        opportunity(-3, 1),
        opportunity(9, 2),
        opportunity(5, 3),
        opportunity(0, 4),
    ];
    let ranked = rank_by_net_profit(opps);
    let tags: Vec<u64> = ranked.iter().map(|o| o.block_number).collect();
    assert_eq!(tags, vec![2, 0, 3, 4, 1]);
    assert_eq!(count_profitable(&ranked), 3);
    let (good, bad) = partition_by_profit(ranked);
    let good: Vec<u64> = good.iter().map(|o| o.block_number).collect();
    let bad: Vec<u64> = bad.iter().map(|o| o.block_number).collect();
    assert_eq!(good, vec![2, 0, 3]);
    assert_eq!(bad, vec![4, 1]);
}

#[test]
fn provider_rotation_after_two_failures() {
    let mut p = MultiProvider::new(Vec::new(), Vec::new(), endpoints(Tier::Public, 3)).unwrap();
    assert_eq!(p.get_provider().url, "https://rpc0.example");
    let mut s = p.start_read();
    assert_eq!(s.limit, 3);
    assert_eq!(p.record_attempt(&mut s, false), ReadStep::Retry);
    assert_eq!(p.record_attempt(&mut s, false), ReadStep::Retry);
    assert_eq!(p.get_provider().url, "https://rpc2.example");
    assert_eq!(p.record_attempt(&mut s, true), ReadStep::Done);
    assert_eq!(p.cursor, 2);
    assert_eq!(p.get_provider().url, "https://rpc2.example");
}

#[test]
fn provider_exhaustion_and_wrapping() {
    let mut p = MultiProvider::new(Vec::new(), endpoints(Tier::Backup, 2), endpoints(Tier::Public, 5)).unwrap();
    assert_eq!(p.tier_size(), 2);
    assert_eq!(p.get_provider().tier, Tier::Backup);
    let mut s = p.start_read();
    assert_eq!(p.record_attempt(&mut s, false), ReadStep::Retry);
    assert_eq!(p.record_attempt(&mut s, false), ReadStep::Exhausted);
    assert_eq!(p.cursor, 0);
    p.rotate_provider();
    p.rotate_provider();
    p.rotate_provider();
    assert_eq!(p.cursor, 1);
    let premium = MultiProvider::new(endpoints(Tier::Premium, 1), endpoints(Tier::Backup, 2), Vec::new()).unwrap();
    assert_eq!(premium.get_provider().tier, Tier::Premium);
}

#[test]
fn provider_pool_needs_an_endpoint() {
    assert_eq!(MultiProvider::new(Vec::new(), Vec::new(), Vec::new()).err(), Some(ProviderError::NoEndpoints));
}

#[test]
fn fiat_price_fallback_to_default() {
    assert_eq!(fiat_price_cents(None, None, 300_000), 300_000);
    assert_eq!(fiat_price_cents(None, Some(250_000), 300_000), 250_000);
    assert_eq!(fiat_price_cents(Some(310_000), Some(250_000), 300_000), 310_000);
    assert_eq!(first_available(&vec![None, None, Some(4u64), Some(5)], 9), 4);
    assert_eq!(first_available::<u64>(&vec![], 9), 9);
}

#[test]
fn liquidity_floor_excludes_low_reserve0() {
    let floor = 1_000_000;
    let fetched = vec![
        Some(pool(DexType::UniswapV2, 999_999, u128::MAX, 30)),
        None,
        Some(pool(DexType::Sushiswap, 1_000_000, 1_000_000, 30)),
        Some(pool(DexType::UniswapV3, 5_000_000, 10, 5)),
    ];
    assert!(!passes_liquidity_floor(fetched[0].as_ref().unwrap(), floor));
    let kept = collect_pools(fetched, floor);
    assert_eq!(kept.len(), 1);
    assert_eq!(kept[0].dex, DexType::Sushiswap);
}

#[test]
fn token_pairs_and_tier_queries() {
    let tokens = vec![addr(1), addr(2), addr(3)];
    let pairs = token_pairs(&tokens);
    assert_eq!(pairs, vec![(addr(1), addr(2)), (addr(1), addr(3)), (addr(2), addr(3))]);
    let m = DexManager::new(ScanConfig::default());
    assert_eq!(m.create_token_pairs(&tokens), pairs);
    assert!(token_pairs(&vec![addr(1)]).is_empty());
    let q = fee_tier_queries(&pairs);
    assert_eq!(q.len(), 12);
    assert_eq!(q[0], (addr(1), addr(2), 100));
    assert_eq!(q[3], (addr(1), addr(2), 10000));
    assert_eq!(q[6], (addr(1), addr(3), 3000));
    assert_eq!(q[9], (addr(2), addr(3), 500));
}

#[test]
fn adapter_helpers() {
    assert!(!is_deployed(&EthAddress::zero()));
    assert!(is_deployed(&addr(7)));
    assert_eq!(tiered_fee_bps(3000), 30);
    assert_eq!(tiered_fee_bps(500), 5);
    assert_eq!(reserves_from_liquidity(5), Some(5_000_000_000_000));
    assert_eq!(reserves_from_liquidity(u128::MAX / 1000), None);
    assert_eq!(recent_window(5000, 1000, 1000), (4000, 5000));
    assert_eq!(recent_window(500, 1000, 1000), (0, 500));
    assert_eq!(recent_window(5000, 200, 100), (4800, 4900));
    let info = resolve_token_meta(addr(4), None, None, "T0-c02a".to_string());
    assert_eq!((info.symbol.as_str(), info.decimals), ("T0-c02a", 18));
    assert_eq!(info.address, addr(4));
    assert_eq!(info.price_cents, None);
    let info = resolve_token_meta(addr(4), Some("WETH".to_string()), Some(6), "x".to_string());
    assert_eq!((info.symbol.as_str(), info.decimals), ("WETH", 6));
}

#[test]
fn dex_manager_delegates() {
    let m = DexManager::new(ScanConfig::default());
    assert_eq!(m.calculate_output_amount(1000, 1_000_000, 2_000_000, 30), 1992);
    let p = pool(DexType::UniswapV2, 2, 3, 30);
    assert_eq!(m.calculate_price_ratio(&p), wide(1_500_000_000_000_000_000));
    let pools = vec![
        pool(DexType::UniswapV2, 1000 * E18, 2_000_000 * E18, 30),
        pool(DexType::Sushiswap, 1000 * E18, 2_015_000 * E18, 30),
    ];
    assert_eq!(m.find_arbitrage_opportunities(&pools).len(), 1);
}

#[test]
fn scan_cycle_end_to_end() {
    let mut cfg = ScanConfig::default();
    cfg.show_unprofitable = true;
    let scanner = ArbitrageScanner::new(cfg, FlashLoanManager::new(addr(1), addr(2)), GasEstimator::new(300_000));
    let pools = vec![
        pool(DexType::UniswapV2, 1000 * E18, 2_000_000 * E18, 30),
        pool(DexType::Sushiswap, 1000 * E18, 2_200_000 * E18, 30),
        pool(DexType::UniswapV3, 1000 * E18, 2_100_000 * E18, 5),
    ];
    let quote = GasPrice { base_fee: 1_000_000_000, priority_fee: 100_000_000 };
    let found = scanner.find_flash_loan_arbitrage(&pools);
    assert_eq!(found.len(), 3);
    let ranked = scanner.scan_cycle(&pools, &quote, 42);
    assert_eq!(ranked.len(), 3);
    for w in ranked.windows(2) {
        assert!(w[0].net_profit_cents >= w[1].net_profit_cents);
    }
    assert_eq!(ranked[0].buy_pool.dex, DexType::UniswapV2);
    assert_eq!(ranked[0].sell_pool.dex, DexType::Sushiswap);
    let direct = scanner.calculate_accurate_profit(&pools[0], &pools[1], 5 * E18, FlashLoanProvider::Balancer, 42, &quote);
    assert_eq!(ranked[0].net_profit_cents, direct.net_profit_cents);
    assert_eq!(scanner.calculate_optimal_borrow(&pools[0], &pools[1]), 5 * E18);
    assert_eq!(scanner.calculate_price(&pools[0]), wide(2000 * E18));
    // with a cap of one, the best of the whole ranking is kept
    let mut capped = cfg;
    capped.max_ranked = 1;
    let scanner = ArbitrageScanner::new(capped, FlashLoanManager::new(addr(1), addr(2)), GasEstimator::new(300_000));
    let top = scanner.scan_cycle(&pools, &quote, 42);
    assert_eq!(top.len(), 1);
    assert_eq!(top[0].net_profit_cents, ranked[0].net_profit_cents);
    assert_eq!(top[0].buy_pool.dex, ranked[0].buy_pool.dex);
    assert_eq!(top[0].sell_pool.dex, ranked[0].sell_pool.dex);
    // the default minimum profit drops the losing ones
    let scanner = ArbitrageScanner::new(ScanConfig::default(), FlashLoanManager::new(addr(1), addr(2)), GasEstimator::new(300_000));
    // buying token1 where token0 is priced lower and selling it back where token0 is
    // priced higher returns less token0 than was borrowed: nothing is kept
    let kept = scanner.scan_cycle(&pools, &quote, 42);
    assert!(kept.is_empty());
}

#[test]
fn scanner_cycle_helpers_and_stats() {
    assert!(ArbitrageScanner::should_refresh_prices(10));
    assert!(!ArbitrageScanner::should_refresh_prices(11));
    let scanner = ArbitrageScanner::new(ScanConfig::default(), FlashLoanManager::new(addr(1), addr(2)), GasEstimator::new(300_000));
    assert!(scanner.gas_price_too_high(100_000_000_001));
    assert!(!scanner.gas_price_too_high(100_000_000_000));
    let mut stats = ScanStats::new();
    stats.record_cycle(12, &vec![opportunity(5, 0), opportunity(-1, 1)]);
    stats.record_cycle(3, &vec![]);
    assert_eq!(stats.cycles, 2);
    assert_eq!(stats.pools_scanned, 15);
    assert_eq!(stats.pairs_checked, 66 + 3);
    assert_eq!(stats.opportunities_found, 2);
    assert_eq!(stats.profitable_found, 1);
}

#[test]
fn default_configuration() {
    let c = ScanConfig::default();
    assert_eq!(c.spread_threshold_bps, 65);
    assert_eq!(c.max_ranked, 20);
    assert_eq!(c.min_liquidity_floor, 1_000_000_000_000_000);
    assert_eq!(c.max_borrow_notional, 100 * E18);
    assert!(!c.show_unprofitable);
}

#[test]
fn token_amount_decimal_parts() {
    assert_eq!(token_amount_parts(1_500_000_000_000_000_000, 18), (1, 5, 1));
    assert_eq!(token_amount_parts(2 * E18, 18), (2, 0, 0));
    assert_eq!(token_amount_parts(1_234_500, 6), (1, 2345, 4));
    assert_eq!(token_amount_parts(1_000_001, 6), (1, 1, 6));
    assert_eq!(token_amount_parts(42, 0), (42, 0, 0));
    assert_eq!(token_amount_parts(0, 18), (0, 0, 0));
    assert_eq!(token_amount_parts(120, 40), (0, 12, 39));
    assert_eq!(token_amount_parts(u128::MAX, 38), (3, u128::MAX % 100_000_000_000_000_000_000_000_000_000_000_000_000, 38));
    assert_eq!(gwei_to_wei(3), 3_000_000_000);
}

#[test]
fn usd_text_to_cents() {
    assert_eq!(parse_usd_cents(b"3456.78"), Some(345_678));
    assert_eq!(parse_usd_cents(b"3500"), Some(350_000));
    assert_eq!(parse_usd_cents(b"3500.1"), Some(350_010));
    assert_eq!(parse_usd_cents(b"0.019"), Some(1));
    assert_eq!(parse_usd_cents(b"42949672.95"), Some(u32::MAX));
    assert_eq!(parse_usd_cents(b"42949672.96"), None);
    assert_eq!(parse_usd_cents(b"99999999999999999999"), None);
    assert_eq!(parse_usd_cents(b""), None);
    assert_eq!(parse_usd_cents(b".5"), None);
    assert_eq!(parse_usd_cents(b"12."), None);
    assert_eq!(parse_usd_cents(b"12.3x"), None);
    assert_eq!(parse_usd_cents(b"-5"), None);
    assert_eq!(parse_usd_cents(b"1e3"), None);
}

#[test]
fn gwei_text_to_wei() {
    assert_eq!(parse_gwei(b"25.5"), Some(25_500_000_000));
    assert_eq!(parse_gwei(b"12"), Some(12_000_000_000));
    assert_eq!(parse_gwei(b"0.623456789123"), Some(623_456_789));
    assert_eq!(parse_gwei(b"18446744073.709551615"), Some(u64::MAX));
    assert_eq!(parse_gwei(b"18446744073.709551616"), None);
    assert_eq!(parse_gwei(b"18446744074"), None);
    assert_eq!(parse_gwei(b"abc"), None);
    assert_eq!(parse_scaled(b"7.25", 0, 100), Some(7));
    assert_eq!(parse_scaled(b"101", 0, 100), None);
    assert_eq!(parse_scaled(b"1.5", 18, u64::MAX), Some(1_500_000_000_000_000_000));
}

#[test]
fn cap_keeps_best_ranked_not_first_detected() {
    let mut cfg = ScanConfig::default();
    cfg.show_unprofitable = true;
    cfg.max_ranked = 1;
    let scanner = ArbitrageScanner::new(cfg, FlashLoanManager::new(addr(1), addr(2)), GasEstimator::new(300_000));
    // two candidates from two markets; the cap keeps the head of the full ranking
    let pools = vec![
        DexPool::from_raw(DexType::UniswapV2, addr(100), addr(1), addr(2), "A".to_string(), "B".to_string(),
            18, 18, 1000 * E18, 2_000_000 * E18, 30).unwrap(),
        DexPool::from_raw(DexType::Sushiswap, addr(101), addr(1), addr(2), "A".to_string(), "B".to_string(),
            18, 18, 1000 * E18, 2_200_000 * E18, 30).unwrap(),
        DexPool::from_raw(DexType::UniswapV2, addr(102), addr(3), addr(4), "C".to_string(), "D".to_string(),
            18, 18, 100 * E18, 200_000 * E18, 30).unwrap(),
        DexPool::from_raw(DexType::Sushiswap, addr(103), addr(3), addr(4), "C".to_string(), "D".to_string(),
            18, 18, 100 * E18, 220_000 * E18, 30).unwrap(),
    ];
    let quote = GasPrice { base_fee: 1_000_000_000, priority_fee: 100_000_000 };
    let mut all = cfg;
    all.max_ranked = 20;
    let full = ArbitrageScanner::new(all, FlashLoanManager::new(addr(1), addr(2)), GasEstimator::new(300_000))
        .scan_cycle(&pools, &quote, 1);
    assert_eq!(full.len(), 2);
    assert!(full[0].net_profit_cents >= full[1].net_profit_cents);
    let top = scanner.scan_cycle(&pools, &quote, 1);
    assert_eq!(top.len(), 1);
    assert_eq!(top[0].token_pair.token0, full[0].token_pair.token0);
    assert_eq!(top[0].optimal_amount, full[0].optimal_amount);
    assert_eq!(top[0].net_profit_cents, full[0].net_profit_cents);
}

#[test]
fn pools_reported_in_either_token_order_are_matched() {
    // the second venue reports the pair the other way round; building the pool puts it
    // in canonical order, so both pools meet under the same pair
    let a = DexPool::from_raw(DexType::UniswapV2, addr(100), addr(1), addr(2), "A".to_string(), "B".to_string(),
        18, 18, 1000 * E18, 2_000_000 * E18, 30).unwrap();
    let b = DexPool::from_raw(DexType::Sushiswap, addr(101), addr(2), addr(1), "B".to_string(), "A".to_string(),
        18, 18, 2_015_000 * E18, 1000 * E18, 30).unwrap();
    assert_eq!(b.token_pair.token0, addr(1));
    assert_eq!(b.reserve0, 1000 * E18);
    let found = find_candidates(&vec![a, b], &ScanConfig::default());
    assert_eq!(found.len(), 1);
    assert_eq!((found[0].buy_index, found[0].sell_index), (0, 1));
}

#[test]
fn same_pool_round_trip_costs_no_gross_profit() {
    let p = pool(DexType::UniswapV2, 1000 * E18, 2_000_000 * E18, 30);
    let q = pool(DexType::Sushiswap, 1000 * E18, 2_000_000 * E18, 30);
    let scanner = ArbitrageScanner::new(ScanConfig::default(), FlashLoanManager::new(addr(1), addr(2)), GasEstimator::new(300_000));
    let quote = GasPrice { base_fee: 1_000_000_000, priority_fee: 100_000_000 };
    let o = scanner.calculate_accurate_profit(&p, &q, 5 * E18, FlashLoanProvider::AaveV3, 3, &quote);
    assert_eq!(o.profit_wei, 0);
    assert_eq!(o.profit_cents, 0);
    assert!(o.output_amount < 5 * E18);
}

#[test]
fn output_amount_zero_operands_with_any_fee() {
    let m = DexManager::new(ScanConfig::default());
    assert_eq!(m.calculate_output_amount(0, 1_000_000, 2_000_000, 20_000), 0);
    assert_eq!(m.calculate_output_amount(1000, 0, 2_000_000, 20_000), 0);
    assert_eq!(swap_output(1000, 1_000_000, 0, u32::MAX), 0);
}
