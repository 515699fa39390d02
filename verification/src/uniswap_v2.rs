//! Event enums of the Uniswap v2 data domain.

use vstd::prelude::*;

verus! {

use crate::error::Error;

/// Events that change a pair's reserves.
#[derive(Clone, Copy, Debug, Default, Hash, PartialEq, Eq, Structural)]
pub enum ReserveEvent {
    Mint,
    Burn,
    Swap,
    #[default]
    Sync,
}

/// Query-string name of a reserve event.
pub open spec fn spec_reserve_event_name(e: ReserveEvent) -> Seq<char> {
    match e {
        ReserveEvent::Mint => "mint"@,
        ReserveEvent::Burn => "burn"@,
        ReserveEvent::Swap => "swap"@,
        ReserveEvent::Sync => "sync"@,
    }
}

/// Numeric code of a reserve event.
pub open spec fn spec_reserve_event_num(e: ReserveEvent) -> i32 {
    match e {
        ReserveEvent::Mint => 0,
        ReserveEvent::Burn => 1,
        ReserveEvent::Swap => 2,
        ReserveEvent::Sync => 3,
    }
}

impl ReserveEvent {
    /// Query-string name of this event.
    pub fn as_str(&self) -> (r: &'static str)
        ensures
            r@ == spec_reserve_event_name(*self),
    {
        match self {
            ReserveEvent::Mint => "mint",
            ReserveEvent::Burn => "burn",
            ReserveEvent::Swap => "swap",
            ReserveEvent::Sync => "sync",
        }
    }

    /// The event a numeric code names; the unknown-code error exactly
    /// otherwise.
    pub fn try_from(v: i32) -> (r: Result<ReserveEvent, Error>)
        ensures
            r matches Ok(e) ==> spec_reserve_event_num(e) == v,
            r is Err <==> !(0 <= v <= 3),
            r matches Err(e) ==> e == Error::UnknownReserveEvent(v),
    {
        match v {
            0 => Ok(ReserveEvent::Mint),
            1 => Ok(ReserveEvent::Burn),
            2 => Ok(ReserveEvent::Swap),
            3 => Ok(ReserveEvent::Sync),
            _ => Err(Error::UnknownReserveEvent(v)),
        }
    }
}

/// Events that change a pool's liquidity.
#[derive(Clone, Copy, Debug, Default, Hash, PartialEq, Eq, Structural)]
pub enum LpEvent {
    Mint,
    Burn,
    Swap,
    #[default]
    Sync,
}

/// The direction of a trade.
#[derive(Clone, Copy, Debug, Hash, PartialEq, Eq, Structural)]
pub enum Side {
    Buy,
    Sell,
}

} // verus!
