//! Unsigned integers of up to 512 bits, held as little-endian 64-bit words.
//!
//! Intermediate products of reserves, amounts and fixed-point scales exceed `u128`.
//! The arithmetic itself is done by `ethers::types::U512`; this module only gives the
//! words a mathematical value so that callers can reason about the results.

use vstd::prelude::*;
use ethers::types::U512;

verus! {

/// The value of little-endian 64-bit words.
pub open spec fn words_value(w: Seq<u64>) -> nat
    decreases w.len(),
{
    if w.len() == 0 {
        0
    } else {
        w[0] as nat + 0x1_0000_0000_0000_0000 * words_value(w.drop_first())
    }
}

/// One more than the largest value that eight words can hold.
pub open spec fn wide_limit() -> nat {
    0x1_0000_0000_0000_0000_0000_0000_0000_0000_0000_0000_0000_0000_0000_0000_0000_0000_0000_0000_0000_0000_0000_0000_0000_0000_0000_0000_0000_0000_0000_0000_0000_0000nat
}

/// A 512-bit unsigned integer: eight little-endian 64-bit words.
#[derive(Clone, Copy, Debug, PartialEq, Eq)]
pub struct Wide {
    pub words: [u64; 8],
}

impl View for Wide {
    type V = nat;

    open spec fn view(&self) -> nat {
        words_value(self.words@)
    }
}

/// Relies on `From<u128> for U512`: the low word takes the low 64 bits, the next word
/// the high 64 bits, the rest are zero.
#[verifier::external_body]
fn u512_from_u128(x: u128) -> (r: Wide)
    ensures
        r@ == x as nat,
{
    Wide { words: U512::from(x).0 }
}

/// Relies on `U512::as_u128`, which panics only when the value is at least 2^128.
#[verifier::external_body]
fn u512_as_u128(a: &Wide) -> (r: u128)
    requires
        a@ < 0x1_0000_0000_0000_0000_0000_0000_0000_0000,
    ensures
        r as nat == a@,
{
    U512(a.words).as_u128()
}

/// Relies on `U512::checked_add`: `None` exactly when the sum overflows 512 bits.
#[verifier::external_body]
fn u512_checked_add(a: &Wide, b: &Wide) -> (r: Option<Wide>)
    ensures
        r is Some <==> a@ + b@ < wide_limit(),
        r matches Some(s) ==> s@ == a@ + b@,
{
    U512(a.words).checked_add(U512(b.words)).map(|s| Wide { words: s.0 })
}

/// Relies on `U512::checked_sub`: `None` exactly when `b` exceeds `a`.
#[verifier::external_body]
fn u512_checked_sub(a: &Wide, b: &Wide) -> (r: Option<Wide>)
    ensures
        r is Some <==> b@ <= a@,
        r matches Some(s) ==> s@ == a@ - b@,
{
    U512(a.words).checked_sub(U512(b.words)).map(|s| Wide { words: s.0 })
}

/// Relies on `U512::checked_mul`: `None` exactly when the product overflows 512 bits.
#[verifier::external_body]
fn u512_checked_mul(a: &Wide, b: &Wide) -> (r: Option<Wide>)
    ensures
        r is Some <==> a@ * b@ < wide_limit(),
        r matches Some(s) ==> s@ == a@ * b@,
{
    U512(a.words).checked_mul(U512(b.words)).map(|s| Wide { words: s.0 })
}

/// Relies on `U512::checked_div`: floor division, `None` exactly when `b` is zero.
#[verifier::external_body]
fn u512_checked_div(a: &Wide, b: &Wide) -> (r: Option<Wide>)
    ensures
        r is Some <==> b@ != 0,
        r matches Some(q) ==> q@ == a@ / b@,
{
    U512(a.words).checked_div(U512(b.words)).map(|q| Wide { words: q.0 })
}

/// Relies on `Ord for U512`, which compares the words from the most significant down.
#[verifier::external_body]
fn u512_lt(a: &Wide, b: &Wide) -> (r: bool)
    ensures
        r == (a@ < b@),
{
    U512(a.words) < U512(b.words)
}

impl Wide {
    /// The value `x`.
    pub fn from_u128(x: u128) -> (r: Wide)
        ensures
            r@ == x as nat,
    {
        u512_from_u128(x)
    }

    /// The value as a `u128`; the value must fit.
    pub fn to_u128(&self) -> (r: u128)
        requires
            self@ < 0x1_0000_0000_0000_0000_0000_0000_0000_0000,
        ensures
            r as nat == self@,
    {
        u512_as_u128(self)
    }

    /// Whether the value fits in a `u128`.
    pub fn fits_u128(&self) -> (r: bool)
        ensures
            r == (self@ < 0x1_0000_0000_0000_0000_0000_0000_0000_0000),
    {
        let limit = Wide::from_u128(u128::MAX);
        !u512_lt(&limit, self)
    }

    pub fn add(&self, other: &Wide) -> (r: Wide)
        requires
            self@ + other@ < wide_limit(),
        ensures
            r@ == self@ + other@,
    {
        u512_checked_add(self, other).unwrap()
    }

    pub fn sub(&self, other: &Wide) -> (r: Wide)
        requires
            other@ <= self@,
        ensures
            r@ == self@ - other@,
    {
        u512_checked_sub(self, other).unwrap()
    }

    pub fn mul(&self, other: &Wide) -> (r: Wide)
        requires
            self@ * other@ < wide_limit(),
        ensures
            r@ == self@ * other@,
    {
        u512_checked_mul(self, other).unwrap()
    }

    /// Floor division.
    pub fn div(&self, other: &Wide) -> (r: Wide)
        requires
            other@ != 0,
        ensures
            r@ == self@ / other@,
    {
        u512_checked_div(self, other).unwrap()
    }

    pub fn lt(&self, other: &Wide) -> (r: bool)
        ensures
            r == (self@ < other@),
    {
        u512_lt(self, other)
    }

    pub fn is_zero(&self) -> (r: bool)
        ensures
            r == (self@ == 0),
    {
        let zero = Wide::from_u128(0);
        !u512_lt(&zero, self)
    }
}

} // verus!
