use crate::codec::Address;
use crate::curve::{Amounts, PoolBalances, Reserves, SwapQuote, Unreadable};
use crate::error::AmmError;
use crate::instructions::deposit::Deposit;
use crate::instructions::swap::Swap;
use crate::instructions::withdraw::Withdraw;
use crate::state::{AmmState, ConfigView, Operation};
use vstd::prelude::*;

verus! {

/// Only an initialized pool takes deposits and swaps; every state but
/// Disabled gives liquidity back.
pub proof fn what_each_state_permits(state: AmmState)
    ensures
        state.permits(Operation::Deposit) <==> state == AmmState::Initialized,
        state.permits(Operation::Swap) <==> state == AmmState::Initialized,
        state.permits(Operation::Withdraw) <==> state != AmmState::Disabled,
{
}

/// A pool that is winding down lets liquidity out and nothing in. Whatever
/// else holds, a deposit and a swap are refused for the pool's state. A
/// withdrawal is accepted wherever its reserve addresses are the derived
/// ones, the balances were read, the quantities are known and neither falls
/// short of its floor.
pub proof fn winding_down_permits_only_withdrawals<'a>(
    config: ConfigView,
    deposit: Deposit<'a>,
    swap: Swap<'a>,
    withdrawal: Withdraw<'a>,
    derived_x: Option<Address>,
    derived_y: Option<Address>,
    balances: Result<PoolBalances, Unreadable>,
    reserves: Result<Reserves, Unreadable>,
    quote: Option<Amounts>,
    swap_quote: SwapQuote,
    read: PoolBalances,
    amounts: Amounts,
)
    requires
        config.state == AmmState::WithdrawOnly.code(),
    ensures
        deposit.outcome(config, derived_x, derived_y, balances, quote) matches Err(
            AmmError::StateGuard,
        ),
        swap.outcome(config, derived_x, derived_y, reserves, swap_quote) matches Err(
            AmmError::StateGuard,
        ),
        !(withdrawal.outcome(config, derived_x, derived_y, balances, quote) matches Err(
            AmmError::StateGuard,
        )),
        withdrawal.amounts(read, quote) == Some(amounts) && amounts.x
            >= withdrawal.instruction_data.min_x && amounts.y
            >= withdrawal.instruction_data.min_y ==> withdrawal.outcome(
            config,
            Some(withdrawal.accounts.vault_x.key),
            Some(withdrawal.accounts.vault_y.key),
            Ok(read),
            quote,
        ) == Ok::<_, AmmError>(withdrawal.effects(config, amounts)),
{
}

/// In a disabled pool nothing moves: every deposit, withdrawal and swap is
/// refused for the pool's state.
pub proof fn disabled_permits_nothing<'a>(
    config: ConfigView,
    deposit: Deposit<'a>,
    swap: Swap<'a>,
    withdrawal: Withdraw<'a>,
    derived_x: Option<Address>,
    derived_y: Option<Address>,
    balances: Result<PoolBalances, Unreadable>,
    reserves: Result<Reserves, Unreadable>,
    quote: Option<Amounts>,
    swap_quote: SwapQuote,
)
    requires
        config.state == AmmState::Disabled.code(),
    ensures
        deposit.outcome(config, derived_x, derived_y, balances, quote) matches Err(
            AmmError::StateGuard,
        ),
        swap.outcome(config, derived_x, derived_y, reserves, swap_quote) matches Err(
            AmmError::StateGuard,
        ),
        withdrawal.outcome(config, derived_x, derived_y, balances, quote) matches Err(
            AmmError::StateGuard,
        ),
{
}

} // verus!
