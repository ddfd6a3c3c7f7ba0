//! Venue adapters' logic and the manager that runs detection over their pools.
//!
//! Registry lookups and reserve reads are made by the caller; this module decides which
//! lookups to make, how their answers become pools, and which pools are kept.

use vstd::prelude::*;
use crate::config::ScanConfig;
use crate::detector::{Candidate, candidates_spec, find_candidates, pools_wf};
use crate::models::{DexPool, EthAddress, TokenInfo};
use crate::pricing::{price_ratio, price_ratio_spec, swap_output, swap_output_spec};
use crate::wide::Wide;

verus! {

/// Fee tiers of a tiered venue, in hundredths of a basis point: 1, 5, 30 and 100 bps.
pub open spec fn fee_tier_spec(k: int) -> u32 {
    if k == 0 {
        100
    } else if k == 1 {
        500
    } else if k == 2 {
        3000
    } else {
        10000
    }
}

pub const FEE_TIER_COUNT: usize = 4;

/// Fee of a pair-based venue in basis points.
pub const PAIR_VENUE_FEE_BPS: u32 = 30;

/// Decimals assumed for a token whose metadata cannot be read.
pub const DEFAULT_DECIMALS: u8 = 18;

/// Scale from a tiered venue's liquidity figure to the approximate reserves it reports.
pub const LIQUIDITY_RESERVE_SCALE: u128 = 1_000_000_000_000;

/// Pairs `(tokens[i], tokens[k])` for `i < k < j`, in order of `k`.
pub open spec fn pair_row_spec(tokens: Seq<EthAddress>, i: int, j: int) -> Seq<(EthAddress, EthAddress)>
    decreases j - i,
{
    if j <= i + 1 {
        Seq::empty()
    } else {
        pair_row_spec(tokens, i, j - 1).push((tokens[i], tokens[j - 1]))
    }
}

/// Pairs whose first index is below `i`, in order.
pub open spec fn pairs_upto_spec(tokens: Seq<EthAddress>, i: int) -> Seq<(EthAddress, EthAddress)>
    decreases i,
{
    if i <= 0 {
        Seq::empty()
    } else {
        pairs_upto_spec(tokens, i - 1) + pair_row_spec(tokens, i - 1, tokens.len() as int)
    }
}

/// Every unordered combination of the tokens, by index: `(tokens[i], tokens[j])` for `i < j`.
pub open spec fn token_pairs_spec(tokens: Seq<EthAddress>) -> Seq<(EthAddress, EthAddress)> {
    pairs_upto_spec(tokens, tokens.len() as int)
}

/// The pool passes the minimum-liquidity floor on both sides.
pub open spec fn above_floor(p: DexPool, floor: nat) -> bool {
    p.reserve0 >= floor && p.reserve1 >= floor
}

/// The pools of a batch of fetches that succeeded and pass the floor, in order.
pub open spec fn collect_spec(fetched: Seq<Option<DexPool>>, floor: nat) -> Seq<DexPool>
    decreases fetched.len(),
{
    if fetched.len() == 0 {
        Seq::empty()
    } else {
        let r = collect_spec(fetched.drop_last(), floor);
        match fetched.last() {
            Some(p) => if above_floor(p, floor) {
                r.push(p)
            } else {
                r
            },
            None => r,
        }
    }
}

/// Every unordered combination of the tokens: the lookups a pair-based venue makes.
pub fn token_pairs(tokens: &Vec<EthAddress>) -> (r: Vec<(EthAddress, EthAddress)>)
    ensures
        r@ == token_pairs_spec(tokens@),
{
    let n = tokens.len();
    let mut out: Vec<(EthAddress, EthAddress)> = Vec::new();
    let mut i: usize = 0;
    while i < n
        invariant
            n == tokens.len(),
            i <= n,
            out@ == pairs_upto_spec(tokens@, i as int),
        decreases n - i,
    {
        let mut j: usize = i + 1;
        while j < n
            invariant
                n == tokens.len(),
                i < n,
                i + 1 <= j <= n,
                out@ == pairs_upto_spec(tokens@, i as int) + pair_row_spec(tokens@, i as int, j as int),
            decreases n - j,
        {
            out.push((tokens[i], tokens[j]));
            assert(out@ =~= pairs_upto_spec(tokens@, i as int) + pair_row_spec(tokens@, i as int, j + 1));
            j = j + 1;
        }
        assert(out@ =~= pairs_upto_spec(tokens@, i + 1));
        i = i + 1;
    }
    out
}

/// The lookups of a tiered venue: every pair at every fee tier, pair by pair.
pub fn fee_tier_queries(pairs: &Vec<(EthAddress, EthAddress)>) -> (r: Vec<(EthAddress, EthAddress, u32)>)
    requires
        pairs.len() * 4 <= usize::MAX,
    ensures
        r.len() == pairs.len() * 4,
        forall|i: int, k: int| 0 <= i < pairs.len() && 0 <= k < 4 ==>
            #[trigger] r@[i * 4 + k] == (pairs@[i].0, pairs@[i].1, fee_tier_spec(k)),
{
    let tiers: [u32; 4] = [100, 500, 3000, 10000];
    let n = pairs.len();
    let mut out: Vec<(EthAddress, EthAddress, u32)> = Vec::new();
    let mut i: usize = 0;
    while i < n
        invariant
            n == pairs.len(),
            n * 4 <= usize::MAX,
            i <= n,
            tiers@ == seq![100u32, 500u32, 3000u32, 10000u32],
            out.len() == i * 4,
            forall|i2: int, k: int| 0 <= i2 < i && 0 <= k < 4 ==>
                #[trigger] out@[i2 * 4 + k] == (pairs@[i2].0, pairs@[i2].1, fee_tier_spec(k)),
        decreases n - i,
    {
        let (a, b) = pairs[i];
        let mut k: usize = 0;
        while k < FEE_TIER_COUNT
            invariant
                n == pairs.len(),
                i < n,
                k <= 4,
                tiers@ == seq![100u32, 500u32, 3000u32, 10000u32],
                (a, b) == pairs@[i as int],
                out.len() == i * 4 + k,
                forall|i2: int, k2: int| 0 <= i2 < i && 0 <= k2 < 4 ==>
                    #[trigger] out@[i2 * 4 + k2] == (pairs@[i2].0, pairs@[i2].1, fee_tier_spec(k2)),
                forall|k2: int| 0 <= k2 < k ==>
                    #[trigger] out@[i * 4 + k2] == (a, b, fee_tier_spec(k2)),
            decreases 4 - k,
        {
            out.push((a, b, tiers[k]));
            k = k + 1;
        }
        assert forall|i2: int, k2: int| 0 <= i2 < i + 1 && 0 <= k2 < 4 implies
            #[trigger] out@[i2 * 4 + k2] == (pairs@[i2].0, pairs@[i2].1, fee_tier_spec(k2)) by {
            if i2 == i {
                assert(out@[i * 4 + k2] == (a, b, fee_tier_spec(k2)));
            }
        }
        i = i + 1;
    }
    out
}

/// A registry answers the zero address for "no pool here", which is not an error.
pub fn is_deployed(pool_address: &EthAddress) -> (r: bool)
    ensures
        r == (pool_address.key() != 0),
{
    !pool_address.is_zero()
}

/// Whether a pool passes the minimum-liquidity floor on both sides.
pub fn passes_liquidity_floor(pool: &DexPool, floor: u128) -> (r: bool)
    ensures
        r == above_floor(*pool, floor as nat),
{
    pool.reserve0 >= floor && pool.reserve1 >= floor
}

/// Assembles a venue's batch: fetches that failed are skipped, pools below the floor are
/// dropped, the rest keep their order.
pub fn collect_pools(fetched: Vec<Option<DexPool>>, floor: u128) -> (r: Vec<DexPool>)
    ensures
        r@ == collect_spec(fetched@, floor as nat),
        forall|i: int| 0 <= i < r.len() ==> above_floor(#[trigger] r@[i], floor as nat),
{
    let ghost orig = fetched@;
    let n = fetched.len();
    let mut rest = fetched;
    let mut out: Vec<DexPool> = Vec::new();
    let mut k: usize = 0;
    while k < n
        invariant
            n == orig.len(),
            k <= n,
            rest@ == orig.skip(k as int),
            out@ == collect_spec(orig.take(k as int), floor as nat),
        decreases n - k,
    {
        let item = rest.remove(0);
        proof {
            assert(item == orig[k as int]);
            assert(orig.take(k + 1).drop_last() =~= orig.take(k as int));
            assert(orig.take(k + 1).last() == item);
            assert(orig.skip(k as int).remove(0) =~= orig.skip(k + 1));
        }
        match item {
            Some(p) => {
                if passes_liquidity_floor(&p, floor) {
                    out.push(p);
                }
            },
            None => {},
        }
        k = k + 1;
    }
    assert(orig.take(n as int) =~= orig);
    proof {
        lemma_collected_above_floor(orig, floor as nat);
    }
    out
}

proof fn lemma_collected_above_floor(fetched: Seq<Option<DexPool>>, floor: nat)
    ensures
        forall|i: int| 0 <= i < collect_spec(fetched, floor).len() ==>
            above_floor(#[trigger] collect_spec(fetched, floor)[i], floor),
    decreases fetched.len(),
{
    if fetched.len() > 0 {
        let r = collect_spec(fetched.drop_last(), floor);
        lemma_collected_above_floor(fetched.drop_last(), floor);
        let c = collect_spec(fetched, floor);
        assert forall|i: int| 0 <= i < c.len() implies above_floor(#[trigger] c[i], floor) by {
            if i < r.len() {
                assert(c[i] == r[i]);
            }
        }
    }
}

/// A pool whose reserve0 is below the floor never leaves an adapter, whatever its reserve1.
pub proof fn lemma_below_floor_excluded(fetched: Seq<Option<DexPool>>, floor: nat, p: DexPool)
    requires
        (p.reserve0 as nat) < floor,
    ensures
        !collect_spec(fetched, floor).contains(p),
{
    lemma_collected_above_floor(fetched, floor);
}

/// A tiered venue's fee, given in hundredths of a basis point, in basis points.
pub fn tiered_fee_bps(fee: u32) -> (r: u32)
    ensures
        r == fee / 100,
{
    fee / 100
}

/// Approximate reserves of a tiered pool from its liquidity figure; `None` when they do
/// not fit in 128 bits. Reserves are held as `u128` throughout the engine, so such a pool
/// (a liquidity figure above about 3.4e26) cannot be represented and its fetch counts as
/// failed.
pub fn reserves_from_liquidity(liquidity: u128) -> (r: Option<u128>)
    ensures
        r is Some <==> liquidity * 1_000_000_000_000 <= u128::MAX,
        r matches Some(v) ==> v == liquidity * 1_000_000_000_000,
{
    liquidity.checked_mul(LIQUIDITY_RESERVE_SCALE)
}

/// Index range `[start, end)` of a registry's most recent entries: up to `len` entries
/// starting `back` entries before the end of `total`.
pub fn recent_window(total: u64, back: u64, len: u64) -> (r: (u64, u64))
    ensures
        r.0 == (if total > back { total - back } else { 0 }),
        r.1 == (if r.0 + len < total { r.0 + len } else { total as int }),
{
    let start = if total > back { total - back } else { 0 };
    let end = if (start as u128) + (len as u128) < total as u128 { start + len } else { total };
    (start, end)
}

/// Token metadata with its fallbacks: the placeholder when the symbol could not be read,
/// 18 decimals when the decimals could not. The price is left unknown.
pub fn resolve_token_meta(address: EthAddress, symbol: Option<String>, decimals: Option<u8>, placeholder: String) -> (r: TokenInfo)
    ensures
        r.address == address,
        r.symbol@ == (match symbol {
            Some(s) => s@,
            None => placeholder@,
        }),
        r.decimals == (match decimals {
            Some(d) => d,
            None => DEFAULT_DECIMALS,
        }),
        r.price_cents is None,
{
    let s = match symbol {
        Some(s) => s,
        None => placeholder,
    };
    let d = match decimals {
        Some(d) => d,
        None => DEFAULT_DECIMALS,
    };
    TokenInfo { address, symbol: s, decimals: d, price_cents: None }
}

/// Runs detection over the pools that the venue adapters produced.
#[derive(Clone, Copy, Debug)]
pub struct DexManager {
    pub config: ScanConfig,
}

impl DexManager {
    pub fn new(config: ScanConfig) -> (r: DexManager)
        ensures
            r.config == config,
    {
        DexManager { config }
    }

    /// Every unordered combination of the tokens.
    pub fn create_token_pairs(&self, tokens: &Vec<EthAddress>) -> (r: Vec<(EthAddress, EthAddress)>)
        ensures
            r@ == token_pairs_spec(tokens@),
    {
        token_pairs(tokens)
    }

    /// Constant-product swap output with the fee taken from the input.
    pub fn calculate_output_amount(&self, input_amount: u128, reserve_in: u128, reserve_out: u128, fee_bps: u32) -> (r: u128)
        requires
            input_amount > 0 && reserve_in > 0 && reserve_out > 0 ==> fee_bps <= 10000,
        ensures
            r == swap_output_spec(input_amount as nat, reserve_in as nat, reserve_out as nat, fee_bps as nat),
            input_amount == 0 || reserve_in == 0 || reserve_out == 0 ==> r == 0,
    {
        swap_output(input_amount, reserve_in, reserve_out, fee_bps)
    }

    /// The pool's price ratio, scaled by 1e18; zero when a reserve is empty.
    pub fn calculate_price_ratio(&self, pool: &DexPool) -> (r: Wide)
        ensures
            r@ == price_ratio_spec(pool.reserve0 as nat, pool.reserve1 as nat),
    {
        price_ratio(pool.reserve0, pool.reserve1)
    }

    /// Candidates among the pools under this manager's configuration.
    pub fn find_arbitrage_opportunities(&self, pools: &Vec<DexPool>) -> (r: Vec<Candidate>)
        requires
            pools_wf(pools@),
        ensures
            r@.map_values(|c: Candidate| c@) == candidates_spec(pools@, self.config),
    {
        find_candidates(pools, &self.config)
    }
}

} // verus!
