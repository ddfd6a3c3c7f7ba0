//! Constant-product pricing: swap output with the fee taken from the input side, and
//! the fixed-point spot price ratio of a pool.

use vstd::prelude::*;
use crate::wide::{Wide, wide_limit};

verus! {

/// Basis points in one whole (100%).
pub const BPS_DENOMINATOR: u32 = 10000;

/// Fixed-point scale of a price ratio (1e18).
pub const PRICE_SCALE: u128 = 1_000_000_000_000_000_000;

/// `floor(a·(10000−f)·ro / (ri·10000 + a·(10000−f)))`, and zero when any of `a`, `ri`, `ro`
/// is zero.
pub open spec fn swap_output_spec(a: nat, ri: nat, ro: nat, f: nat) -> nat {
    if a == 0 || ri == 0 || ro == 0 {
        0
    } else {
        let x = a * (10000 - f);
        ((x * ro) / (ri * 10000 + x)) as nat
    }
}

/// `reserve1 · 1e18 / reserve0`, and zero when either reserve is zero.
pub open spec fn price_ratio_spec(reserve0: nat, reserve1: nat) -> nat {
    if reserve0 == 0 || reserve1 == 0 {
        0
    } else {
        (reserve1 * 1_000_000_000_000_000_000) / reserve0
    }
}

/// Output of selling `amount_in` into a pool holding `reserve_in` of the input token and
/// `reserve_out` of the output token, with a fee of `fee_bps` basis points on the input.
pub fn swap_output(amount_in: u128, reserve_in: u128, reserve_out: u128, fee_bps: u32) -> (r: u128)
    requires
        amount_in > 0 && reserve_in > 0 && reserve_out > 0 ==> fee_bps <= 10000,
    ensures
        r == swap_output_spec(amount_in as nat, reserve_in as nat, reserve_out as nat, fee_bps as nat),
        amount_in == 0 || reserve_in == 0 || reserve_out == 0 ==> r == 0,
        amount_in > 0 && reserve_in > 0 && reserve_out > 0 ==> r < reserve_out,
{
    if amount_in == 0 || reserve_in == 0 || reserve_out == 0 {
        return 0;
    }
    let g: u128 = (BPS_DENOMINATOR - fee_bps) as u128;
    let a = Wide::from_u128(amount_in);
    let ro = Wide::from_u128(reserve_out);
    let ri = Wide::from_u128(reserve_in);
    let scale = Wide::from_u128(BPS_DENOMINATOR as u128);
    let gw = Wide::from_u128(g);
    proof {
        lemma_swap_bounds(amount_in as nat, reserve_in as nat, reserve_out as nat, g as nat);
    }
    let x = a.mul(&gw);
    let num = x.mul(&ro);
    let base = ri.mul(&scale);
    let den = base.add(&x);
    let q = num.div(&den);
    proof {
        lemma_quotient_below(x@ as int, reserve_out as int, den@ as int);
    }
    q.to_u128()
}

/// The intermediate products of `swap_output` stay far below 512 bits.
proof fn lemma_swap_bounds(a: nat, ri: nat, ro: nat, g: nat)
    requires
        a < 0x1_0000_0000_0000_0000_0000_0000_0000_0000,
        ri < 0x1_0000_0000_0000_0000_0000_0000_0000_0000,
        ro < 0x1_0000_0000_0000_0000_0000_0000_0000_0000,
        g <= 10000,
    ensures
        a * g < wide_limit(),
        a * g <= 10000 * 0x1_0000_0000_0000_0000_0000_0000_0000_0000,
        (a * g) * ro < wide_limit(),
        ri * 10000 < wide_limit(),
        ri * 10000 + a * g < wide_limit(),
{
    let m: nat = 0x1_0000_0000_0000_0000_0000_0000_0000_0000nat;
    assert(a * g <= m * 10000) by (nonlinear_arith)
        requires a < m, g <= 10000;
    assert((a * g) * ro <= (m * 10000) * m) by (nonlinear_arith)
        requires a * g <= m * 10000, ro < m;
    assert(ri * 10000 <= m * 10000) by (nonlinear_arith)
        requires ri < m;
}

/// `x·r / (d)` is below `r` when `x < d`.
proof fn lemma_quotient_below(x: int, r: int, d: int)
    requires
        0 <= x < d,
        r > 0,
    ensures
        (x * r) / d < r,
{
    assert(x * r < d * r) by (nonlinear_arith)
        requires 0 <= x < d, r > 0;
    assert((x * r) / d < r) by (nonlinear_arith)
        requires x * r < d * r, d > 0, x * r >= 0;
}

/// Spot price of token0 in token1, scaled by 1e18; zero marks a pool that cannot be priced.
pub fn price_ratio(reserve0: u128, reserve1: u128) -> (r: Wide)
    ensures
        r@ == price_ratio_spec(reserve0 as nat, reserve1 as nat),
        r@ < 0x1_0000_0000_0000_0000_0000_0000_0000_0000 * 1_000_000_000_000_000_000,
{
    if reserve0 == 0 || reserve1 == 0 {
        return Wide::from_u128(0);
    }
    let r1 = Wide::from_u128(reserve1);
    let r0 = Wide::from_u128(reserve0);
    let scale = Wide::from_u128(PRICE_SCALE);
    let ghost m: nat = 0x1_0000_0000_0000_0000_0000_0000_0000_0000nat;
    proof {
        assert(r1@ * scale@ < m * 1_000_000_000_000_000_000) by (nonlinear_arith)
            requires r1@ < m, scale@ == 1_000_000_000_000_000_000nat;
    }
    let num = r1.mul(&scale);
    proof {
        assert(num@ / r0@ <= num@) by (nonlinear_arith)
            requires r0@ >= 1, num@ >= 0;
    }
    num.div(&r0)
}

/// Floor division is monotonic in the ratio: `n1/d1 <= n2/d2` as rationals gives the same
/// order of the floors.
proof fn lemma_floor_ratio_monotonic(n1: int, d1: int, n2: int, d2: int)
    requires
        d1 > 0,
        d2 > 0,
        n1 >= 0,
        n2 >= 0,
        n1 * d2 <= n2 * d1,
    ensures
        n1 / d1 <= n2 / d2,
{
    let q1 = n1 / d1;
    let q2 = n2 / d2;
    assert(q1 * d1 <= n1) by (nonlinear_arith)
        requires d1 > 0, n1 >= 0, q1 == n1 / d1;
    assert(q1 * d1 * d2 <= n1 * d2) by (nonlinear_arith)
        requires q1 * d1 <= n1, d2 > 0;
    assert(q1 * d2 * d1 <= n2 * d1) by (nonlinear_arith)
        requires q1 * d1 * d2 <= n1 * d2, n1 * d2 <= n2 * d1;
    assert(q1 * d2 <= n2) by (nonlinear_arith)
        requires q1 * d2 * d1 <= n2 * d1, d1 > 0;
    assert(n2 < (q2 + 1) * d2) by (nonlinear_arith)
        requires d2 > 0, n2 >= 0, q2 == n2 / d2;
    assert(q1 <= q2) by (nonlinear_arith)
        requires q1 * d2 <= n2, n2 < (q2 + 1) * d2, d2 > 0;
}

/// For positive reserves and a fee of at most 100%, the swap output never decreases as the
/// input grows, and never reaches the output reserve.
pub proof fn lemma_swap_output_monotonic(a1: nat, a2: nat, reserve_in: nat, reserve_out: nat, fee_bps: nat)
    requires
        0 < a1 <= a2,
        reserve_in > 0,
        reserve_out > 0,
        fee_bps <= 10000,
    ensures
        swap_output_spec(a1, reserve_in, reserve_out, fee_bps)
            <= swap_output_spec(a2, reserve_in, reserve_out, fee_bps),
        swap_output_spec(a2, reserve_in, reserve_out, fee_bps) < reserve_out,
{
    let g: int = 10000 - fee_bps;
    let x1: int = a1 * g;
    let x2: int = a2 * g;
    let c: int = reserve_in * 10000int;
    let ro: int = reserve_out as int;
    assert(0 <= x1 <= x2) by (nonlinear_arith)
        requires 0 < a1 <= a2, 0 <= g, x1 == a1 * g, x2 == a2 * g;
    assert(c > 0) by (nonlinear_arith)
        requires reserve_in > 0, c == reserve_in * 10000;
    assert((x1 * ro) * (c + x2) <= (x2 * ro) * (c + x1)) by (nonlinear_arith)
        requires 0 <= x1 <= x2, c > 0, ro > 0;
    lemma_floor_ratio_monotonic(x1 * ro, c + x1, x2 * ro, c + x2);
    lemma_quotient_below(x2, ro, c + x2);
}

/// A swap with no input, or against an empty reserve on either side, yields nothing.
pub proof fn lemma_swap_output_zero_operands(a: nat, reserve_in: nat, reserve_out: nat, fee_bps: nat)
    ensures
        swap_output_spec(0, reserve_in, reserve_out, fee_bps) == 0,
        swap_output_spec(a, 0, reserve_out, fee_bps) == 0,
        swap_output_spec(a, reserve_in, 0, fee_bps) == 0,
{
}

} // verus!
