//! Unit conversions and the decimal rendering of token amounts.

use vstd::prelude::*;

verus! {

pub open spec fn pow10(n: nat) -> nat
    decreases n,
{
    if n == 0 {
        1
    } else {
        10 * pow10((n - 1) as nat)
    }
}

proof fn lemma_pow10_monotonic(a: nat, b: nat)
    requires
        a <= b,
    ensures
        pow10(a) <= pow10(b),
        pow10(a) >= 1,
    decreases b,
{
    if b > a {
        lemma_pow10_monotonic(a, (b - 1) as nat);
    } else if a > 0 {
        lemma_pow10_monotonic((a - 1) as nat, (a - 1) as nat);
    }
}

/// `10^n` fits in a `u64` up to `n = 18`.
pub proof fn lemma_pow10_bound(n: nat)
    ensures
        pow10(n) >= 1,
        n <= 18 ==> pow10(n) <= 1_000_000_000_000_000_000,
{
    reveal_with_fuel(pow10, 19);
    lemma_pow10_monotonic(0, n);
    if n <= 18 {
        lemma_pow10_monotonic(n, 18);
    }
}

/// `10^n` for `n <= 18`.
pub fn pow10_u64(n: u8) -> (r: u64)
    requires
        n <= 18,
    ensures
        r as nat == pow10(n as nat),
        r > 0,
{
    let mut p: u64 = 1;
    let mut i: u8 = 0;
    while i < n
        invariant
            i <= n <= 18,
            p as nat == pow10(i as nat),
        decreases n - i,
    {
        proof {
            lemma_pow10_bound((i + 1) as nat);
        }
        p = p * 10;
        i = i + 1;
    }
    proof {
        lemma_pow10_bound(n as nat);
    }
    p
}

/// `10^n` for `n <= 38`, the largest power of ten below 2^128.
fn pow10_u128(n: u8) -> (r: u128)
    requires
        n <= 38,
    ensures
        r as nat == pow10(n as nat),
{
    proof {
        reveal_with_fuel(pow10, 39);
        assert(pow10(38) == 100_000_000_000_000_000_000_000_000_000_000_000_000nat);
    }
    let mut p: u128 = 1;
    let mut i: u8 = 0;
    while i < n
        invariant
            i <= n <= 38,
            p as nat == pow10(i as nat),
            pow10(38) == 100_000_000_000_000_000_000_000_000_000_000_000_000nat,
        decreases n - i,
    {
        proof {
            lemma_pow10_monotonic((i + 1) as nat, 38);
        }
        p = p * 10;
        i = i + 1;
    }
    p
}

/// Decimal parts of `amount` in a token with `decimals` decimals: whole units, and the
/// fractional digits without trailing zeros. The amount reads `whole.frac`, with `frac`
/// zero-padded to `frac_len` digits, or `whole` alone when `frac_len` is zero.
pub fn token_amount_parts(amount: u128, decimals: u8) -> (r: (u128, u128, u8))
    ensures
        r.0 * pow10(decimals as nat) + r.1 * pow10((decimals - r.2) as nat) == amount,
        r.1 < pow10(r.2 as nat),
        r.2 <= decimals,
        r.2 > 0 ==> r.1 % 10 != 0,
{
    let (whole, rem) = if decimals > 38 {
        proof {
            reveal_with_fuel(pow10, 40);
            lemma_pow10_monotonic(39, decimals as nat);
            assert(pow10(39) == 1_000_000_000_000_000_000_000_000_000_000_000_000_000nat);
            assert(0 * pow10(decimals as nat) == 0) by (nonlinear_arith);
        }
        (0u128, amount)
    } else {
        let divisor = pow10_u128(decimals);
        proof {
            lemma_pow10_monotonic(0, decimals as nat);
            assert((amount / divisor) * divisor + amount % divisor == amount) by (nonlinear_arith)
                requires divisor > 0;
        }
        (amount / divisor, amount % divisor)
    };
    let mut frac = rem;
    let mut len: u8 = decimals;
    proof {
        assert(pow10(0) == 1);
        assert(frac * 1 == frac);
    }
    while len > 0 && frac % 10 == 0
        invariant
            len <= decimals,
            frac * pow10((decimals - len) as nat) == rem,
            frac < pow10(len as nat),
            whole * pow10(decimals as nat) + rem == amount,
        decreases len,
    {
        let ghost k = (decimals - len) as nat;
        let ghost q = frac / 10;
        proof {
            assert(pow10(k + 1) == 10 * pow10(k));
            assert(pow10(len as nat) == 10 * pow10((len - 1) as nat));
            assert(q * pow10(k + 1) == frac * pow10(k)) by (nonlinear_arith)
                requires frac % 10 == 0, q == frac / 10, pow10(k + 1) == 10 * pow10(k);
            assert(q < pow10((len - 1) as nat)) by (nonlinear_arith)
                requires q == frac / 10, frac < pow10(len as nat), pow10(len as nat) == 10 * pow10((len - 1) as nat);
        }
        frac = frac / 10;
        len = len - 1;
        assert((decimals - len) as nat == k + 1);
    }
    (whole, frac, len)
}

/// Wei in `gwei` gigawei.
pub fn gwei_to_wei(gwei: u64) -> (r: u128)
    ensures
        r == gwei as nat * 1_000_000_000,
{
    gwei as u128 * 1_000_000_000
}

} // verus!
