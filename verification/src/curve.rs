use crate::error::AmmError;
use vstd::prelude::*;

verus! {

/// The number of decimal digits at which the curve engine converts between
/// liquidity and assets.
pub const PRECISION: u32 = 6;

/// What the pool holds when an operation begins: its two reserves and the
/// LP tokens outstanding.
#[derive(Clone, Copy, PartialEq, Eq, Debug)]
pub struct PoolBalances {
    pub reserve_x: u64,
    pub reserve_y: u64,
    pub lp_supply: u64,
}

/// Why the balance service's records could not be read.
#[derive(Clone, Copy, PartialEq, Eq, Debug, Structural)]
pub enum Unreadable {
    /// A record does not hold what a balance or issuance record holds.
    Shape,
    /// A record is not owned by the balance service.
    Owner,
}

impl Unreadable {
    /// The refusal that an operation comes to where its balances could not
    /// be read.
    pub open spec fn spec_refusal(self) -> AmmError {
        match self {
            Unreadable::Shape => AmmError::AccountShape,
            Unreadable::Owner => AmmError::ForeignOwner,
        }
    }

    #[verifier::when_used_as_spec(spec_refusal)]
    pub fn refusal(self) -> (r: AmmError)
        ensures
            r == self.spec_refusal(),
    {
        match self {
            Unreadable::Shape => AmmError::AccountShape,
            Unreadable::Owner => AmmError::ForeignOwner,
        }
    }
}

/// The pool's two reserves.
#[derive(Clone, Copy, PartialEq, Eq, Debug)]
pub struct Reserves {
    pub x: u64,
    pub y: u64,
}

/// A quantity of each of the two assets.
#[derive(Clone, Copy, PartialEq, Eq, Debug)]
pub struct Amounts {
    pub x: u64,
    pub y: u64,
}

/// A question to the curve engine: which quantities of the two assets stand
/// for `amount` LP tokens, in a pool with these reserves and this supply.
#[derive(Clone, Copy, PartialEq, Eq, Debug)]
pub struct LiquidityRequest {
    pub reserve_x: u64,
    pub reserve_y: u64,
    pub lp_supply: u64,
    pub amount: u64,
    pub precision: u32,
}

/// A question to the curve engine: what a swap of `amount` of one asset
/// brings of the other, at this fee and with `min` as the least acceptable.
#[derive(Clone, Copy, PartialEq, Eq, Debug)]
pub struct SwapRequest {
    pub reserve_x: u64,
    pub reserve_y: u64,
    pub liquidity: u64,
    pub fee: u16,
    /// Whether asset X is the one paid in.
    pub is_x: bool,
    pub amount: u64,
    pub min: u64,
}

/// The curve engine's answer to a swap request.
#[derive(Clone, Copy, PartialEq, Eq, Debug)]
pub enum SwapQuote {
    /// The swap takes `deposit` of the asset paid in and gives `withdraw` of
    /// the other.
    Filled { deposit: u64, withdraw: u64 },
    /// The swap would give less than the least acceptable.
    FloorViolated,
    /// The engine has no answer.
    Infeasible,
}

impl PoolBalances {
    /// Whether the pool is empty: no LP tokens outstanding, nothing in
    /// either reserve.
    pub open spec fn spec_is_empty(&self) -> bool {
        self.lp_supply == 0 && self.reserve_x == 0 && self.reserve_y == 0
    }

    #[verifier::when_used_as_spec(spec_is_empty)]
    pub fn is_empty(&self) -> (r: bool)
        ensures
            r == self.spec_is_empty(),
    {
        self.lp_supply == 0 && self.reserve_x == 0 && self.reserve_y == 0
    }
}

} // verus!
