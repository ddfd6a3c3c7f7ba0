//! Conversion of token amounts to fiat cents.

use vstd::prelude::*;
use crate::wide::{Wide, wide_limit};
use crate::units::{pow10, pow10_u64, lemma_pow10_bound};

verus! {

/// Base units in one whole native token (1e18).
pub const UNITS_PER_TOKEN: u128 = 1_000_000_000_000_000_000;

/// Fiat value in cents of `amount` base units at `price_cents` per whole token, floored.
pub open spec fn fiat_cents_spec(amount: nat, price_cents: nat) -> nat {
    (amount * price_cents) / 1_000_000_000_000_000_000
}

/// Fiat value of a signed amount of base units, rounded toward zero.
pub open spec fn signed_fiat_cents_spec(amount: int, price_cents: nat) -> int {
    if amount >= 0 {
        fiat_cents_spec(amount as nat, price_cents) as int
    } else {
        -(fiat_cents_spec((-amount) as nat, price_cents) as int)
    }
}

/// Fiat value in cents of `amount` base units at `price_cents` per whole token.
pub fn fiat_cents(amount: u128, price_cents: u32) -> (r: u128)
    ensures
        r as nat == fiat_cents_spec(amount as nat, price_cents as nat),
        r < 0x100_0000_0000_0000_0000_0000_0000,
{
    let a = Wide::from_u128(amount);
    let p = Wide::from_u128(price_cents as u128);
    let unit = Wide::from_u128(UNITS_PER_TOKEN);
    proof {
        assert(a@ * p@ < 0x1_0000_0000_0000_0000_0000_0000_0000_0000nat * 0x1_0000_0000nat) by (nonlinear_arith)
            requires a@ < 0x1_0000_0000_0000_0000_0000_0000_0000_0000nat, p@ < 0x1_0000_0000nat;
        assert(0x1_0000_0000_0000_0000_0000_0000_0000_0000nat * 0x1_0000_0000nat < wide_limit());
    }
    let product = a.mul(&p);
    let q = product.div(&unit);
    proof {
        assert(q@ * 1_000_000_000_000_000_000nat <= product@) by (nonlinear_arith)
            requires q@ == product@ / 1_000_000_000_000_000_000nat;
        assert(q@ < 0x100_0000_0000_0000_0000_0000_0000nat) by (nonlinear_arith)
            requires
                q@ * 1_000_000_000_000_000_000nat <= product@,
                product@ < 0x1_0000_0000_0000_0000_0000_0000_0000_0000nat * 0x1_0000_0000nat;
    }
    q.to_u128()
}

} // verus!

verus! {

pub open spec fn is_digit(b: u8) -> bool {
    48 <= b <= 57
}

/// Decimal value of a run of ASCII digits.
pub open spec fn digits_value(s: Seq<u8>) -> nat
    decreases s.len(),
{
    if s.len() == 0 {
        0
    } else {
        digits_value(s.drop_last()) * 10 + (s.last() - 48) as nat
    }
}

/// Length of the leading run of ASCII digits.
pub open spec fn lead_digits(s: Seq<u8>) -> int
    decreases s.len(),
{
    if s.len() == 0 || !is_digit(s[0]) {
        0
    } else {
        1 + lead_digits(s.drop_first())
    }
}

/// The first `d` fractional digits as an integer: missing digits count as zeros and
/// further digits are dropped.
pub open spec fn frac_scaled(f: Seq<u8>, d: nat) -> nat {
    if f.len() >= d {
        digits_value(f.take(d as int))
    } else {
        digits_value(f) * pow10((d - f.len()) as nat)
    }
}

/// A decimal number, `digits` or `digits.digits`, in units of `10^-d` (further fractional
/// digits are dropped); `None` for any other text or above `max`.
pub open spec fn parse_scaled_spec(s: Seq<u8>, d: nat, max: nat) -> Option<nat> {
    let k = lead_digits(s);
    let whole = digits_value(s.take(k));
    let frac = s.skip(k + 1);
    let value: nat = if k == s.len() { whole * pow10(d) } else { whole * pow10(d) + frac_scaled(frac, d) };
    let well_formed = k > 0 && (k == s.len() || (s[k] == 46 && frac.len() > 0
        && forall|i: int| 0 <= i < frac.len() ==> is_digit(#[trigger] frac[i])));
    if well_formed && value <= max {
        Some(value)
    } else {
        None
    }
}

proof fn lemma_lead_digits(s: Seq<u8>, i: int)
    requires
        0 <= i <= s.len(),
        forall|j: int| 0 <= j < i ==> is_digit(#[trigger] s[j]),
        i == s.len() || !is_digit(s[i]),
    ensures
        lead_digits(s) == i,
    decreases i,
{
    if i > 0 {
        let t = s.drop_first();
        assert forall|j: int| 0 <= j < i - 1 implies is_digit(#[trigger] t[j]) by {
            assert(t[j] == s[j + 1]);
        }
        if i - 1 < t.len() {
            assert(t[i - 1] == s[i]);
        }
        lemma_lead_digits(t, i - 1);
    }
}

/// Parses a decimal number into units of `10^-decimals`: `parse_scaled(b"25.5", 9, ..)` is
/// 25.5 gwei in wei. `None` for malformed text or a value above `max`.
pub fn parse_scaled(text: &[u8], decimals: u8, max: u64) -> (r: Option<u64>)
    requires
        decimals <= 18,
    ensures
        r matches Some(v) ==> parse_scaled_spec(text@, decimals as nat, max as nat) == Some(v as nat),
        r is None ==> parse_scaled_spec(text@, decimals as nat, max as nat) is None,
{
    let ghost s = text@;
    let ghost dn = decimals as nat;
    let scale = pow10_u64(decimals);
    let limit = max / scale;
    let n = text.len();
    let mut i: usize = 0;
    let mut whole: u64 = 0;
    let mut big = false;
    while i < n && 48 <= text[i] && text[i] <= 57
        invariant
            i <= n == s.len(),
            s == text@,
            scale > 0,
            limit == max / scale,
            forall|j: int| 0 <= j < i ==> is_digit(#[trigger] s[j]),
            !big ==> whole == digits_value(s.take(i as int)) && whole <= limit,
            big ==> digits_value(s.take(i as int)) > limit,
        decreases n - i,
    {
        proof {
            assert(s.take(i + 1).drop_last() =~= s.take(i as int));
        }
        if !big {
            let next = whole as u128 * 10 + (text[i] - 48) as u128;
            if next > limit as u128 {
                big = true;
            } else {
                whole = next as u64;
            }
        }
        i = i + 1;
    }
    proof {
        lemma_lead_digits(s, i as int);
        let w = digits_value(s.take(i as int));
        if big {
            assert(w * scale > max) by (nonlinear_arith)
                requires w > limit, limit == max / scale, scale > 0;
        }
    }
    if i == 0 || big {
        return None;
    }
    proof {
        assert(whole * scale <= max) by (nonlinear_arith)
            requires whole <= limit, limit == max / scale, scale > 0;
    }
    let base: u64 = whole * scale;
    let mut frac: u64 = 0;
    if i < n {
        if text[i] != 46 || i + 1 >= n {
            return None;
        }
        let ghost f = s.skip(i + 1);
        let mut j: usize = i + 1;
        let mut taken: u8 = 0;
        while j < n
            invariant
                i + 1 <= j <= n == s.len(),
                s == text@,
                f == s.skip(i + 1),
                lead_digits(s) == i,
                dn == decimals as nat,
                taken <= decimals <= 18,
                taken as int == if j - (i + 1) < dn { j - (i + 1) } else { dn as int },
                frac == digits_value(f.take(taken as int)),
                frac < pow10(taken as nat),
                forall|m: int| i + 1 <= m < j ==> is_digit(#[trigger] s[m]),
            decreases n - j,
        {
            if !(48 <= text[j] && text[j] <= 57) {
                proof {
                    assert(f[j - (i + 1)] == s[j as int]);
                }
                return None;
            }
            if taken < decimals {
                proof {
                    assert(f[taken as int] == s[j as int]);
                    assert(f.take(taken + 1).drop_last() =~= f.take(taken as int));
                    lemma_pow10_bound(taken as nat);
                    assert(frac * 10 + (s[j as int] - 48) < pow10((taken + 1) as nat)) by (nonlinear_arith)
                        requires frac < pow10(taken as nat), pow10((taken + 1) as nat) == 10 * pow10(taken as nat),
                            0 <= s[j as int] - 48 <= 9;
                    lemma_pow10_bound((taken + 1) as nat);
                }
                frac = frac * 10 + (text[j] - 48) as u64;
                taken = taken + 1;
            }
            j = j + 1;
        }
        proof {
            assert forall|m: int| 0 <= m < f.len() implies is_digit(#[trigger] f[m]) by {
                assert(f[m] == s[m + i + 1]);
            }
        }
        let ghost unpadded = frac as nat;
        let ghost t = taken as nat;
        while taken < decimals
            invariant
                t <= taken <= decimals <= 18,
                frac == unpadded * pow10((taken - t) as nat),
                frac < pow10(taken as nat),
            decreases decimals - taken,
        {
            proof {
                lemma_pow10_bound((taken + 1) as nat);
                assert(pow10((taken + 1 - t) as nat) == 10 * pow10((taken - t) as nat));
                assert(frac * 10 == unpadded * pow10((taken + 1 - t) as nat)) by (nonlinear_arith)
                    requires frac == unpadded * pow10((taken - t) as nat),
                        pow10((taken + 1 - t) as nat) == 10 * pow10((taken - t) as nat);
            }
            frac = frac * 10;
            taken = taken + 1;
        }
        proof {
            if f.len() >= dn {
                assert(t == dn);
                assert(frac == unpadded * 1) by (nonlinear_arith)
                    requires frac == unpadded * pow10(0);
            } else {
                assert(f.take(f.len() as int) =~= f);
            }
        }
    }
    let value = base as u128 + frac as u128;
    if value > max as u128 {
        return None;
    }
    Some(value as u64)
}

/// Parses a dollar amount such as `3456.78` into cents.
pub fn parse_usd_cents(text: &[u8]) -> (r: Option<u32>)
    ensures
        r matches Some(c) ==> parse_scaled_spec(text@, 2, u32::MAX as nat) == Some(c as nat),
        r is None ==> parse_scaled_spec(text@, 2, u32::MAX as nat) is None,
{
    match parse_scaled(text, 2, u32::MAX as u64) {
        Some(v) => Some(v as u32),
        None => None,
    }
}

/// Parses a gas price in gwei such as `25.5` into wei.
pub fn parse_gwei(text: &[u8]) -> (r: Option<u64>)
    ensures
        r matches Some(v) ==> parse_scaled_spec(text@, 9, u64::MAX as nat) == Some(v as nat),
        r is None ==> parse_scaled_spec(text@, 9, u64::MAX as nat) is None,
{
    parse_scaled(text, 9, u64::MAX)
}

} // verus!
