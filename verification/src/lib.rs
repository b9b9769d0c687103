//! The transition engine of a constant-product liquidity pool.
//!
//! Four operations act on a pool: its creation, a deposit of liquidity, a
//! withdrawal, a swap. Each arrives as a payload and an ordered list of
//! account records, and comes to a list of effects for the balance and
//! allocation services to carry out, or to a refusal. The engine decides; it
//! moves nothing itself. What only the outside knows (the time, the pool's
//! balances, the curve's quantities) it takes as plain values.

pub mod account;
pub mod capability;
pub mod codec;
pub mod curve;
pub mod derivation;
pub mod effects;
pub mod error;
pub mod instructions;
pub mod laws;
pub mod state;

pub use account::AccountRecord;
pub use capability::Capability;
pub use codec::Address;
pub use curve::{
    Amounts, LiquidityRequest, PoolBalances, Reserves, SwapQuote, SwapRequest, Unreadable,
    PRECISION,
};
pub use effects::{Burn, CreateAccount, InitializeMint, MintTo, Transfer};
pub use error::AmmError;
pub use instructions::deposit::{Deposit, DepositAccounts, DepositEffects, DepositInstructionData};
pub use instructions::initialize::{
    Initialize, InitializeAccounts, InitializeEffects, InitializeInstructionData, LP_DECIMALS,
};
pub use instructions::swap::{Swap, SwapAccounts, SwapEffects, SwapInstructionData};
pub use instructions::withdraw::{
    Withdraw, WithdrawAccounts, WithdrawEffects, WithdrawInstructionData,
};
pub use state::{AmmState, Config, ConfigView, Operation};
