//! Chain identifiers.

use vstd::prelude::*;

verus! {

/// The chains the service knows about. `Any` stands for "no particular
/// chain" in filters.
#[derive(Clone, Copy, Debug, PartialEq, Eq, Hash, Structural)]
#[allow(clippy::upper_case_acronyms)]
pub enum ChainId {
    Any,
    ETH,
    OPT,
    BNB,
    FUEL,
    MATIC,
    BTC,
    MEVM,
    ARB,
    AVAX,
    SEPETH,
}

impl Default for ChainId {
    fn default() -> (r: Self)
        ensures
            r == ChainId::ETH,
    {
        ChainId::ETH
    }
}

/// Numeric code of a chain, as the service reports it.
pub open spec fn spec_chain_num(c: ChainId) -> i32 {
    match c {
        ChainId::Any => 0,
        ChainId::ETH => 1,
        ChainId::OPT => 10,
        ChainId::BNB => 56,
        ChainId::FUEL => 122,
        ChainId::MATIC => 137,
        ChainId::BTC => 198,
        ChainId::MEVM => 336,
        ChainId::ARB => 42161,
        ChainId::AVAX => 43114,
        ChainId::SEPETH => 1115511,
    }
}

/// Short code of a chain, as it appears in query strings.
pub open spec fn spec_chain_code(c: ChainId) -> Seq<char> {
    match c {
        ChainId::Any => "ANY"@,
        ChainId::ETH => "ETH"@,
        ChainId::OPT => "OPT"@,
        ChainId::BNB => "BNB"@,
        ChainId::FUEL => "FUEL"@,
        ChainId::MATIC => "MATIC"@,
        ChainId::BTC => "BTC"@,
        ChainId::MEVM => "MEVM"@,
        ChainId::ARB => "ARB"@,
        ChainId::AVAX => "AVAX"@,
        ChainId::SEPETH => "SEPETH"@,
    }
}

/// Human-readable name of a chain.
pub open spec fn spec_chain_name(c: ChainId) -> Seq<char> {
    match c {
        ChainId::Any => "Any"@,
        ChainId::ETH => "Ethereum"@,
        ChainId::OPT => "Optimism"@,
        ChainId::BNB => "Binance Smart Chain"@,
        ChainId::FUEL => "Fuel"@,
        ChainId::MATIC => "Polygon"@,
        ChainId::BTC => "Bitcoin"@,
        ChainId::MEVM => "MEVM"@,
        ChainId::ARB => "Arbitrum"@,
        ChainId::AVAX => "Avalanche"@,
        ChainId::SEPETH => "Sepior"@,
    }
}

impl ChainId {
    /// Whether this is the `Any` placeholder.
    pub fn is_any(&self) -> (r: bool)
        ensures
            r == (*self is Any),
    {
        matches!(self, ChainId::Any)
    }

    /// Numeric code of this chain.
    pub fn num(&self) -> (r: i32)
        ensures
            r == spec_chain_num(*self),
    {
        match self {
            ChainId::Any => 0,
            ChainId::ETH => 1,
            ChainId::OPT => 10,
            ChainId::BNB => 56,
            ChainId::FUEL => 122,
            ChainId::MATIC => 137,
            ChainId::BTC => 198,
            ChainId::MEVM => 336,
            ChainId::ARB => 42161,
            ChainId::AVAX => 43114,
            ChainId::SEPETH => 1115511,
        }
    }

    /// The chain a numeric code names, if any.
    pub fn from_num(v: i32) -> (r: Option<ChainId>)
        ensures
            r matches Some(c) ==> spec_chain_num(c) == v,
            r is None ==> forall|c: ChainId| spec_chain_num(c) != v,
    {
        match v {
            0 => Some(ChainId::Any),
            1 => Some(ChainId::ETH),
            10 => Some(ChainId::OPT),
            56 => Some(ChainId::BNB),
            122 => Some(ChainId::FUEL),
            137 => Some(ChainId::MATIC),
            198 => Some(ChainId::BTC),
            336 => Some(ChainId::MEVM),
            42161 => Some(ChainId::ARB),
            43114 => Some(ChainId::AVAX),
            1115511 => Some(ChainId::SEPETH),
            _ => None,
        }
    }

    /// Short code of this chain, as it appears in query strings.
    pub fn chain_code(&self) -> (r: String)
        ensures
            r@ == spec_chain_code(*self),
    {
        match self {
            ChainId::Any => "ANY".to_owned(),
            ChainId::ETH => "ETH".to_owned(),
            ChainId::OPT => "OPT".to_owned(),
            ChainId::BNB => "BNB".to_owned(),
            ChainId::FUEL => "FUEL".to_owned(),
            ChainId::MATIC => "MATIC".to_owned(),
            ChainId::BTC => "BTC".to_owned(),
            ChainId::MEVM => "MEVM".to_owned(),
            ChainId::ARB => "ARB".to_owned(),
            ChainId::AVAX => "AVAX".to_owned(),
            ChainId::SEPETH => "SEPETH".to_owned(),
        }
    }

    /// Human-readable name of this chain.
    pub fn chain_name(&self) -> (r: String)
        ensures
            r@ == spec_chain_name(*self),
    {
        match self {
            ChainId::Any => "Any".to_owned(),
            ChainId::ETH => "Ethereum".to_owned(),
            ChainId::OPT => "Optimism".to_owned(),
            ChainId::BNB => "Binance Smart Chain".to_owned(),
            ChainId::FUEL => "Fuel".to_owned(),
            ChainId::MATIC => "Polygon".to_owned(),
            ChainId::BTC => "Bitcoin".to_owned(),
            ChainId::MEVM => "MEVM".to_owned(),
            ChainId::ARB => "Arbitrum".to_owned(),
            ChainId::AVAX => "Avalanche".to_owned(),
            ChainId::SEPETH => "Sepior".to_owned(),
        }
    }
}

/// The chains a request filters on when the caller names none.
pub fn default_chains() -> (r: Vec<ChainId>)
    ensures
        r@ == seq![ChainId::ETH],
{
    let mut v: Vec<ChainId> = Vec::new();
    v.push(ChainId::ETH);
    proof {
        assert(v@ =~= seq![ChainId::ETH]);
    }
    v
}

} // verus!
