//! The common representation of addresses, token pairs, pools, venues and loan providers.

use vstd::prelude::*;

verus! {

/// A 20-byte account address: its first 16 bytes as `high` and its last 4 bytes as `low`,
/// both big-endian. Ordering by `(high, low)` is ordering by the address bytes.
#[derive(Clone, Copy, Debug, PartialEq, Eq, Structural, Hash)]
pub struct EthAddress {
    pub high: u128,
    pub low: u32,
}

impl EthAddress {
    /// The address read as a 160-bit big-endian number.
    pub open spec fn key(self) -> int {
        self.high * 0x1_0000_0000 + self.low
    }

    pub fn zero() -> (r: EthAddress)
        ensures
            r.key() == 0,
            r.high == 0 && r.low == 0,
    {
        EthAddress { high: 0, low: 0 }
    }

    /// Whether this is the zero address, which registries return for "no pool".
    pub fn is_zero(&self) -> (r: bool)
        ensures
            r == (self.key() == 0),
    {
        self.high == 0 && self.low == 0
    }

    /// Strict byte order of addresses.
    pub fn lt(&self, other: &EthAddress) -> (r: bool)
        ensures
            r == (self.key() < other.key()),
    {
        self.high < other.high || (self.high == other.high && self.low < other.low)
    }
}

/// Distinct addresses have distinct keys.
pub proof fn lemma_key_injective(a: EthAddress, b: EthAddress)
    ensures
        a.key() == b.key() <==> a == b,
{
}

/// The two tokens of a pair, lower address first.
pub open spec fn canonical_pair_spec(a: EthAddress, b: EthAddress) -> (EthAddress, EthAddress) {
    if a.key() < b.key() {
        (a, b)
    } else {
        (b, a)
    }
}

/// Orders two token addresses so that the lower one comes first: the key on which pools of
/// different venues are matched.
pub fn canonical_pair(a: EthAddress, b: EthAddress) -> (r: (EthAddress, EthAddress))
    ensures
        r == canonical_pair_spec(a, b),
        r.0.key() <= r.1.key(),
{
    if a.lt(&b) {
        (a, b)
    } else {
        (b, a)
    }
}

/// Canonicalization does not depend on the order in which the two tokens are given.
pub proof fn lemma_canonical_pair_commutative(a: EthAddress, b: EthAddress)
    ensures
        canonical_pair_spec(a, b) == canonical_pair_spec(b, a),
{
    lemma_key_injective(a, b);
}

/// The exchanges whose pools the engine compares.
#[derive(Clone, Copy, Debug, PartialEq, Eq, Structural, Hash)]
pub enum DexType {
    UniswapV2,
    UniswapV3,
    Sushiswap,
    Balancer,
    Curve,
}

impl DexType {
    /// Display name of the venue.
    pub fn name(&self) -> (r: &'static str)
        ensures
            *self == DexType::UniswapV2 ==> r@ == "UniswapV2"@,
            *self == DexType::UniswapV3 ==> r@ == "UniswapV3"@,
            *self == DexType::Sushiswap ==> r@ == "Sushiswap"@,
            *self == DexType::Balancer ==> r@ == "Balancer"@,
            *self == DexType::Curve ==> r@ == "Curve"@,
    {
        match self {
            DexType::UniswapV2 => "UniswapV2",
            DexType::UniswapV3 => "UniswapV3",
            DexType::Sushiswap => "Sushiswap",
            DexType::Balancer => "Balancer",
            DexType::Curve => "Curve",
        }
    }
}

/// Sources of flash loans.
#[derive(Clone, Copy, Debug, PartialEq, Eq, Structural, Hash)]
pub enum FlashLoanProvider {
    AaveV3,
    Balancer,
    DyDx,
}

impl FlashLoanProvider {
    /// Display name of the provider.
    pub fn name(&self) -> (r: &'static str)
        ensures
            *self == FlashLoanProvider::AaveV3 ==> r@ == "Aave V3"@,
            *self == FlashLoanProvider::Balancer ==> r@ == "Balancer"@,
            *self == FlashLoanProvider::DyDx ==> r@ == "dYdX"@,
    {
        match self {
            FlashLoanProvider::AaveV3 => "Aave V3",
            FlashLoanProvider::Balancer => "Balancer",
            FlashLoanProvider::DyDx => "dYdX",
        }
    }
}

/// Display metadata of a token, and its fiat price in cents when known.
#[derive(Debug)]
pub struct TokenInfo {
    pub address: EthAddress,
    pub symbol: String,
    pub decimals: u8,
    pub price_cents: Option<u32>,
}

/// A pair of tokens with their display metadata, lower address first.
#[derive(Debug)]
pub struct TokenPair {
    pub token0: EthAddress,
    pub token1: EthAddress,
    pub symbol0: String,
    pub symbol1: String,
    pub decimals0: u8,
    pub decimals1: u8,
}

impl TokenPair {
    /// The tokens are distinct and in canonical order.
    pub open spec fn is_canonical(&self) -> bool {
        self.token0.key() < self.token1.key()
    }

    /// Builds the pair of two distinct tokens in canonical order; each token keeps its own
    /// symbol and decimals.
    pub fn new(
        token_a: EthAddress,
        token_b: EthAddress,
        symbol_a: String,
        symbol_b: String,
        decimals_a: u8,
        decimals_b: u8,
    ) -> (r: TokenPair)
        requires
            token_a != token_b,
        ensures
            r.is_canonical(),
            (r.token0, r.token1) == canonical_pair_spec(token_a, token_b),
            r.token0 == token_a ==> r.symbol0@ == symbol_a@ && r.decimals0 == decimals_a
                && r.symbol1@ == symbol_b@ && r.decimals1 == decimals_b,
            r.token0 == token_b ==> r.symbol0@ == symbol_b@ && r.decimals0 == decimals_b
                && r.symbol1@ == symbol_a@ && r.decimals1 == decimals_a,
    {
        proof {
            lemma_key_injective(token_a, token_b);
        }
        if token_a.lt(&token_b) {
            TokenPair {
                token0: token_a,
                token1: token_b,
                symbol0: symbol_a,
                symbol1: symbol_b,
                decimals0: decimals_a,
                decimals1: decimals_b,
            }
        } else {
            TokenPair {
                token0: token_b,
                token1: token_a,
                symbol0: symbol_b,
                symbol1: symbol_a,
                decimals0: decimals_b,
                decimals1: decimals_a,
            }
        }
    }

    /// A field-by-field copy.
    pub fn duplicate(&self) -> (r: TokenPair)
        ensures
            r == *self,
    {
        TokenPair {
            token0: self.token0,
            token1: self.token1,
            symbol0: self.symbol0.clone(),
            symbol1: self.symbol1.clone(),
            decimals0: self.decimals0,
            decimals1: self.decimals1,
        }
    }
}

/// A snapshot of one liquidity pool: reserves in the token order of its pair, fee in basis
/// points.
#[derive(Debug)]
pub struct DexPool {
    pub dex: DexType,
    pub address: EthAddress,
    pub token_pair: TokenPair,
    pub reserve0: u128,
    pub reserve1: u128,
    pub fee: u32,
}

impl DexPool {
    /// The pair is canonical and the fee is at most 100%.
    pub open spec fn wf(&self) -> bool {
        self.token_pair.is_canonical() && self.fee <= 10000
    }

    /// Builds a pool from what a registry reports, in whatever token order it reports:
    /// the pair is put in canonical order and the reserves follow their tokens. `None` when
    /// both tokens are the same or the fee exceeds 100%.
    pub fn from_raw(
        dex: DexType,
        address: EthAddress,
        token_a: EthAddress,
        token_b: EthAddress,
        symbol_a: String,
        symbol_b: String,
        decimals_a: u8,
        decimals_b: u8,
        reserve_a: u128,
        reserve_b: u128,
        fee: u32,
    ) -> (r: Option<DexPool>)
        ensures
            r is Some <==> token_a != token_b && fee <= 10000,
            r matches Some(p) ==> {
                &&& p.wf()
                &&& p.dex == dex
                &&& p.address == address
                &&& p.fee == fee
                &&& (p.token_pair.token0, p.token_pair.token1) == canonical_pair_spec(token_a, token_b)
                &&& p.token_pair.token0 == token_a ==> {
                    &&& p.reserve0 == reserve_a && p.reserve1 == reserve_b
                    &&& p.token_pair.symbol0@ == symbol_a@ && p.token_pair.decimals0 == decimals_a
                    &&& p.token_pair.symbol1@ == symbol_b@ && p.token_pair.decimals1 == decimals_b
                }
                &&& p.token_pair.token0 == token_b ==> {
                    &&& p.reserve0 == reserve_b && p.reserve1 == reserve_a
                    &&& p.token_pair.symbol0@ == symbol_b@ && p.token_pair.decimals0 == decimals_b
                    &&& p.token_pair.symbol1@ == symbol_a@ && p.token_pair.decimals1 == decimals_a
                }
            },
    {
        proof {
            lemma_key_injective(token_a, token_b);
        }
        if token_a == token_b || fee > 10000 {
            return None;
        }
        let a_first = token_a.lt(&token_b);
        let token_pair = TokenPair::new(token_a, token_b, symbol_a, symbol_b, decimals_a, decimals_b);
        let (reserve0, reserve1) = if a_first {
            (reserve_a, reserve_b)
        } else {
            (reserve_b, reserve_a)
        };
        Some(DexPool { dex, address, token_pair, reserve0, reserve1, fee })
    }

    /// A field-by-field copy.
    pub fn duplicate(&self) -> (r: DexPool)
        ensures
            r == *self,
    {
        DexPool {
            dex: self.dex,
            address: self.address,
            token_pair: self.token_pair.duplicate(),
            reserve0: self.reserve0,
            reserve1: self.reserve1,
            fee: self.fee,
        }
    }
}

} // verus!
