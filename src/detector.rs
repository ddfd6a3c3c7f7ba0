//! Cross-venue opportunity search: pools of the same token pair on different venues are
//! compared by price, and pairs whose spread exceeds the threshold become candidates, to
//! be bought where the price is lower and sold where it is higher.

use vstd::prelude::*;
use crate::config::ScanConfig;
use crate::models::{DexPool, canonical_pair_spec};
use crate::pricing::{price_ratio, price_ratio_spec};
use crate::wide::{Wide, wide_limit};

verus! {

/// A pair of pools worth costing: indices into the scanned pools.
#[derive(Clone, Copy, Debug)]
pub struct Candidate {
    pub buy_index: usize,
    pub sell_index: usize,
    pub borrow_amount: u128,
    pub spread_bps: Wide,
}

impl View for Candidate {
    type V = (int, int, nat, nat);

    open spec fn view(&self) -> (int, int, nat, nat) {
        (self.buy_index as int, self.sell_index as int, self.borrow_amount as nat, self.spread_bps@)
    }
}

pub open spec fn pool_price(p: DexPool) -> nat {
    price_ratio_spec(p.reserve0 as nat, p.reserve1 as nat)
}

/// Relative price difference in basis points, floored.
pub open spec fn spread_bps_spec(lower: nat, higher: nat) -> nat {
    (((higher - lower) * 10000) / (lower as int)) as nat
}

pub open spec fn min_nat(a: nat, b: nat) -> nat {
    if a <= b { a } else { b }
}

/// `fraction_bps` basis points of the smaller base reserve of the two pools, floored and
/// capped at the configured maximum. This is a sizing heuristic, not the size that
/// maximizes the profit of the two coupled pools.
pub open spec fn borrow_amount_spec(p: DexPool, q: DexPool, fraction_bps: nat, max_borrow: nat) -> nat {
    min_nat(min_nat(p.reserve0 as nat, q.reserve0 as nat) * fraction_bps / 10000, max_borrow)
}

/// Every pool is well formed: its pair is canonical and its fee at most 100%.
pub open spec fn pools_wf(pools: Seq<DexPool>) -> bool {
    forall|i: int| 0 <= i < pools.len() ==> (#[trigger] pools[i]).wf()
}

/// Same token pair, different venues. Pools are well formed, so their pairs are stored in
/// canonical order and comparing the stored tokens compares the canonical pairs.
pub open spec fn comparable(p: DexPool, q: DexPool) -> bool {
    &&& p.token_pair.token0 == q.token_pair.token0
    &&& p.token_pair.token1 == q.token_pair.token1
    &&& p.dex != q.dex
}

/// The candidate that pools `i` and `j` form, as (buy index, sell index, borrow amount,
/// spread): both must be priceable, the spread must exceed the threshold and the borrow
/// amount must exceed the minimum. On equal prices `j` would be the buy side.
pub open spec fn pair_candidate_spec(pools: Seq<DexPool>, i: int, j: int, cfg: ScanConfig) -> Option<(int, int, nat, nat)> {
    let p = pools[i];
    let q = pools[j];
    let pp = pool_price(p);
    let pq = pool_price(q);
    if !comparable(p, q) || pp == 0 || pq == 0 {
        None
    } else {
        let buy = if pp < pq { i } else { j };
        let sell = if pp < pq { j } else { i };
        let spread = if pp < pq { spread_bps_spec(pp, pq) } else { spread_bps_spec(pq, pp) };
        let borrow = borrow_amount_spec(pools[buy], pools[sell], cfg.borrow_fraction_bps as nat,
            cfg.max_borrow_notional as nat);
        if spread > cfg.spread_threshold_bps && borrow > cfg.min_borrow_amount {
            Some((buy, sell, borrow, spread))
        } else {
            None
        }
    }
}

pub open spec fn option_seq<T>(o: Option<T>) -> Seq<T> {
    match o {
        Some(x) => seq![x],
        None => Seq::empty(),
    }
}

/// Candidates of pool `i` with the pools `i+1 .. j`, in order.
pub open spec fn row_spec(pools: Seq<DexPool>, cfg: ScanConfig, i: int, j: int) -> Seq<(int, int, nat, nat)>
    decreases j - i,
{
    if j <= i + 1 {
        Seq::empty()
    } else {
        row_spec(pools, cfg, i, j - 1) + option_seq(pair_candidate_spec(pools, i, j - 1, cfg))
    }
}

/// Candidates of all pairs whose first pool is below `i`, in order.
pub open spec fn scan_spec(pools: Seq<DexPool>, cfg: ScanConfig, i: int) -> Seq<(int, int, nat, nat)>
    decreases i,
{
    if i <= 0 {
        Seq::empty()
    } else {
        scan_spec(pools, cfg, i - 1) + row_spec(pools, cfg, i - 1, pools.len() as int)
    }
}

/// Candidates of all unordered pairs of pools, in order of the pair's indices.
pub open spec fn candidates_spec(pools: Seq<DexPool>, cfg: ScanConfig) -> Seq<(int, int, nat, nat)> {
    scan_spec(pools, cfg, pools.len() as int)
}

/// The borrow amount for a pair of pools: `fraction_bps` basis points of the smaller base
/// reserve, capped at `max_borrow`.
pub fn choose_borrow_amount(buy_pool: &DexPool, sell_pool: &DexPool, fraction_bps: u64, max_borrow: u128) -> (r: u128)
    ensures
        r as nat == borrow_amount_spec(*buy_pool, *sell_pool, fraction_bps as nat, max_borrow as nat),
{
    let smaller = if buy_pool.reserve0 <= sell_pool.reserve0 {
        buy_pool.reserve0
    } else {
        sell_pool.reserve0
    };
    let s = Wide::from_u128(smaller);
    let f = Wide::from_u128(fraction_bps as u128);
    proof {
        assert(s@ * f@ <= 0x1_0000_0000_0000_0000_0000_0000_0000_0000nat * 0x1_0000_0000_0000_0000nat) by (nonlinear_arith)
            requires s@ < 0x1_0000_0000_0000_0000_0000_0000_0000_0000nat, f@ < 0x1_0000_0000_0000_0000nat;
    }
    let amount = s.mul(&f).div(&Wide::from_u128(10000));
    let cap = Wide::from_u128(max_borrow);
    if cap.lt(&amount) {
        max_borrow
    } else {
        amount.to_u128()
    }
}

/// Spread in basis points between a lower and a higher positive price.
pub fn spread_bps(lower: &Wide, higher: &Wide) -> (r: Wide)
    requires
        0 < lower@ <= higher@,
        higher@ < 0x1_0000_0000_0000_0000_0000_0000_0000_0000 * 1_000_000_000_000_000_000,
    ensures
        r@ == spread_bps_spec(lower@, higher@),
{
    let diff = higher.sub(lower);
    let scale = Wide::from_u128(10000);
    proof {
        assert(diff@ * 10000 < wide_limit()) by (nonlinear_arith)
            requires diff@ <= higher@, higher@ < 0x1_0000_0000_0000_0000_0000_0000_0000_0000nat * 1_000_000_000_000_000_000nat;
    }
    let scaled = diff.mul(&scale);
    scaled.div(lower)
}

/// The candidate that pools `i` and `j` form, if any.
pub fn evaluate_pair(pools: &Vec<DexPool>, i: usize, j: usize, cfg: &ScanConfig) -> (r: Option<Candidate>)
    requires
        i < pools.len(),
        j < pools.len(),
    ensures
        r matches Some(c) ==> pair_candidate_spec(pools@, i as int, j as int, *cfg) == Some(c@),
        r is None ==> pair_candidate_spec(pools@, i as int, j as int, *cfg) is None,
{
    let p = &pools[i];
    let q = &pools[j];
    if !(p.token_pair.token0 == q.token_pair.token0 && p.token_pair.token1 == q.token_pair.token1
        && p.dex != q.dex) {
        return None;
    }
    let pp = price_ratio(p.reserve0, p.reserve1);
    let pq = price_ratio(q.reserve0, q.reserve1);
    if pp.is_zero() || pq.is_zero() {
        return None;
    }
    let p_lower = pp.lt(&pq);
    let (buy, sell) = if p_lower { (i, j) } else { (j, i) };
    let spread = if p_lower { spread_bps(&pp, &pq) } else { spread_bps(&pq, &pp) };
    let borrow = choose_borrow_amount(&pools[buy], &pools[sell], cfg.borrow_fraction_bps, cfg.max_borrow_notional);
    let threshold = Wide::from_u128(cfg.spread_threshold_bps as u128);
    if threshold.lt(&spread) && borrow > cfg.min_borrow_amount {
        Some(Candidate { buy_index: buy, sell_index: sell, borrow_amount: borrow, spread_bps: spread })
    } else {
        None
    }
}

/// Compares every unordered pair of pools and returns the candidates, in order of the
/// pair's indices.
pub fn find_candidates(pools: &Vec<DexPool>, cfg: &ScanConfig) -> (r: Vec<Candidate>)
    requires
        pools_wf(pools@),
    ensures
        r@.map_values(|c: Candidate| c@) == candidates_spec(pools@, *cfg),
{
    let n = pools.len();
    let mut out: Vec<Candidate> = Vec::new();
    let mut i: usize = 0;
    while i < n
        invariant
            n == pools.len(),
            i <= n,
            out@.map_values(|c: Candidate| c@) == scan_spec(pools@, *cfg, i as int),
        decreases n - i,
    {
        let mut j: usize = i + 1;
        while j < n
            invariant
                n == pools.len(),
                i < n,
                i + 1 <= j <= n,
                out@.map_values(|c: Candidate| c@)
                    == scan_spec(pools@, *cfg, i as int) + row_spec(pools@, *cfg, i as int, j as int),
            decreases n - j,
        {
            let ghost before = out@;
            match evaluate_pair(pools, i, j, cfg) {
                Some(c) => {
                    out.push(c);
                    assert(out@.map_values(|c: Candidate| c@)
                        =~= before.map_values(|c: Candidate| c@) + seq![c@]);
                },
                None => {},
            }
            assert(row_spec(pools@, *cfg, i as int, j + 1) == row_spec(pools@, *cfg, i as int, j as int)
                + option_seq(pair_candidate_spec(pools@, i as int, j as int, *cfg)));
            assert(out@.map_values(|c: Candidate| c@)
                =~= scan_spec(pools@, *cfg, i as int) + row_spec(pools@, *cfg, i as int, j + 1));
            j = j + 1;
        }
        assert(scan_spec(pools@, *cfg, i + 1) == scan_spec(pools@, *cfg, i as int)
            + row_spec(pools@, *cfg, i as int, n as int));
        i = i + 1;
    }
    out
}

/// For well-formed pools, sharing a token pair is sharing a canonical pair: two pools
/// that list the same two tokens in either order are compared.
pub proof fn lemma_same_pair_is_same_canonical_pair(p: DexPool, q: DexPool)
    requires
        p.wf(),
        q.wf(),
    ensures
        (p.token_pair.token0 == q.token_pair.token0 && p.token_pair.token1 == q.token_pair.token1)
            <==> canonical_pair_spec(p.token_pair.token0, p.token_pair.token1)
                == canonical_pair_spec(q.token_pair.token0, q.token_pair.token1),
{
}

/// Two pools with the same price never form a candidate: their spread is zero.
pub proof fn lemma_equal_prices_no_candidate(pools: Seq<DexPool>, i: int, j: int, cfg: ScanConfig)
    requires
        0 <= i < pools.len(),
        0 <= j < pools.len(),
        pool_price(pools[i]) == pool_price(pools[j]),
    ensures
        pair_candidate_spec(pools, i, j, cfg) is None,
{
}

} // verus!
