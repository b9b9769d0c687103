use crate::account::AccountRecord;
use crate::capability::{pool_capability, Capability};
use crate::codec::{le_i64, le_u64, read_i64, read_u64, Address};
use crate::curve::{Amounts, LiquidityRequest, PoolBalances, Unreadable, PRECISION};
use crate::derivation::{is_reserve_address, matches_derived, reserve_address};
use crate::effects::{MintTo, Transfer};
use crate::error::AmmError;
use crate::state::{state_permits, AmmState, Config, ConfigView, Operation};
use vstd::prelude::*;

verus! {

/// The accounts of a deposit, by position.
pub struct DepositAccounts<'a> {
    pub user: &'a AccountRecord,
    pub mint_lp: &'a AccountRecord,
    pub vault_x: &'a AccountRecord,
    pub vault_y: &'a AccountRecord,
    pub user_x_ata: &'a AccountRecord,
    pub user_y_ata: &'a AccountRecord,
    pub user_lp_ata: &'a AccountRecord,
    pub config: &'a AccountRecord,
    pub token_program: &'a AccountRecord,
}

impl<'a> DepositAccounts<'a> {
    /// Whether these are the nine records of `accounts`, in order.
    pub open spec fn taken_from(self, accounts: Seq<AccountRecord>) -> bool {
        &&& accounts.len() == 9
        &&& *self.user == accounts[0]
        &&& *self.mint_lp == accounts[1]
        &&& *self.vault_x == accounts[2]
        &&& *self.vault_y == accounts[3]
        &&& *self.user_x_ata == accounts[4]
        &&& *self.user_y_ata == accounts[5]
        &&& *self.user_lp_ata == accounts[6]
        &&& *self.config == accounts[7]
        &&& *self.token_program == accounts[8]
    }

    /// Names the accounts of a deposit. There must be exactly nine: caller,
    /// LP issuance record, reserve X, reserve Y, the caller's balances of X,
    /// of Y and of LP tokens, configuration record, balance service.
    pub fn try_from(accounts: &'a [AccountRecord]) -> (r: Result<DepositAccounts<'a>, AmmError>)
        ensures
            match r {
                Ok(named) => named.taken_from(accounts@),
                Err(e) => accounts@.len() != 9 && e == AmmError::AccountShape,
            },
    {
        if accounts.len() != 9 {
            return Err(AmmError::AccountShape);
        }
        Ok(
            DepositAccounts {
                user: &accounts[0],
                mint_lp: &accounts[1],
                vault_x: &accounts[2],
                vault_y: &accounts[3],
                user_x_ata: &accounts[4],
                user_y_ata: &accounts[5],
                user_lp_ata: &accounts[6],
                config: &accounts[7],
                token_program: &accounts[8],
            },
        )
    }
}

/// The payload of a deposit.
#[derive(Clone, Copy, PartialEq, Eq, Debug)]
pub struct DepositInstructionData {
    /// The LP tokens that the caller wishes to receive.
    pub amount: u64,
    /// The most of asset X that the caller will pay.
    pub max_x: u64,
    /// The most of asset Y that the caller will pay.
    pub max_y: u64,
    /// The time after which the payload no longer holds.
    pub expiration: i64,
}

impl DepositInstructionData {
    /// Why `try_from` refuses the payload at time `now`, if it does.
    pub open spec fn failure(data: Seq<u8>, now: i64) -> Option<AmmError> {
        if data.len() != 32 || le_u64(data.subrange(0, 8)) == 0 {
            Some(AmmError::PayloadShape)
        } else if now > le_i64(data.subrange(24, 32)) {
            Some(AmmError::Expired)
        } else {
            None
        }
    }

    /// Whether the 32 bytes of `data` spell this payload: four numbers of
    /// eight bytes each, least significant byte first.
    pub open spec fn read_from(self, data: Seq<u8>) -> bool {
        &&& self.amount == le_u64(data.subrange(0, 8))
        &&& self.max_x == le_u64(data.subrange(8, 16))
        &&& self.max_y == le_u64(data.subrange(16, 24))
        &&& self.expiration == le_i64(data.subrange(24, 32))
    }

    /// Reads the payload of a deposit at time `now`.
    ///
    /// The payload has 32 bytes and asks for an amount other than zero. It
    /// holds through its expiration: it is refused only when `now` is past
    /// it.
    pub fn try_from(data: &[u8], now: i64) -> (r: Result<DepositInstructionData, AmmError>)
        ensures
            match r {
                Ok(payload) => {
                    &&& Self::failure(data@, now) is None
                    &&& payload.read_from(data@)
                },
                Err(e) => Self::failure(data@, now) == Some(e),
            },
    {
        if data.len() != 32 {
            return Err(AmmError::PayloadShape);
        }
        let amount: u64 = read_u64(data, 0);
        if amount == 0 {
            return Err(AmmError::PayloadShape);
        }
        let max_x: u64 = read_u64(data, 8);
        let max_y: u64 = read_u64(data, 16);
        let expiration: i64 = read_i64(data, 24);
        if now > expiration {
            return Err(AmmError::Expired);
        }
        Ok(DepositInstructionData { amount, max_x, max_y, expiration })
    }
}

/// What a deposit does, once accepted: three steps, in this order.
#[derive(Clone, Copy, PartialEq, Eq, Debug)]
pub struct DepositEffects {
    /// Asset X moves from the caller to reserve X, on the caller's word.
    pub transfer_x: Transfer,
    /// Asset Y moves from the caller to reserve Y, on the caller's word.
    pub transfer_y: Transfer,
    /// LP tokens are issued to the caller, on the pool's word.
    pub mint: MintTo,
}

/// A deposit of liquidity: its accounts and its payload.
pub struct Deposit<'a> {
    pub accounts: DepositAccounts<'a>,
    pub instruction_data: DepositInstructionData,
}

impl<'a> Deposit<'a> {
    /// The byte that selects this operation.
    pub const DISCRIMINATOR: u8 = 1;

    /// Why `try_from` refuses, if it does: the accounts are looked at first.
    pub open spec fn failure(
        data: Seq<u8>,
        accounts: Seq<AccountRecord>,
        now: i64,
    ) -> Option<AmmError> {
        if accounts.len() != 9 {
            Some(AmmError::AccountShape)
        } else {
            DepositInstructionData::failure(data, now)
        }
    }

    /// Reads a deposit from its payload and its accounts at time `now`.
    pub fn try_from(
        data: &[u8],
        accounts: &'a [AccountRecord],
        now: i64,
    ) -> (r: Result<Deposit<'a>, AmmError>)
        ensures
            match r {
                Ok(deposit) => {
                    &&& Self::failure(data@, accounts@, now) is None
                    &&& deposit.accounts.taken_from(accounts@)
                    &&& deposit.instruction_data.read_from(data@)
                },
                Err(e) => Self::failure(data@, accounts@, now) == Some(e),
            },
    {
        let accounts = match DepositAccounts::try_from(accounts) {
            Ok(named) => named,
            Err(e) => {
                return Err(e);
            },
        };
        let instruction_data = match DepositInstructionData::try_from(data, now) {
            Ok(payload) => payload,
            Err(e) => {
                return Err(e);
            },
        };
        Ok(Deposit { accounts, instruction_data })
    }

    /// The quantities that the deposit takes of the two assets. Into an
    /// empty pool the first deposit pays exactly its two ceilings, and so
    /// sets the price. Into any other pool it pays what the curve engine
    /// quoted, if it quoted.
    pub open spec fn amounts(
        self,
        balances: PoolBalances,
        quote: Option<Amounts>,
    ) -> Option<Amounts> {
        if balances.is_empty() {
            Some(Amounts { x: self.instruction_data.max_x, y: self.instruction_data.max_y })
        } else {
            quote
        }
    }

    /// The three steps of the deposit, for given quantities.
    pub open spec fn effects(self, config: ConfigView, amounts: Amounts) -> DepositEffects {
        DepositEffects {
            transfer_x: Transfer {
                from: self.accounts.user_x_ata.key,
                to: self.accounts.vault_x.key,
                authority: self.accounts.user.key,
                amount: amounts.x,
                capability: None,
            },
            transfer_y: Transfer {
                from: self.accounts.user_y_ata.key,
                to: self.accounts.vault_y.key,
                authority: self.accounts.user.key,
                amount: amounts.y,
                capability: None,
            },
            mint: MintTo {
                mint: self.accounts.mint_lp.key,
                account: self.accounts.user_lp_ata.key,
                mint_authority: self.accounts.config.key,
                amount: self.instruction_data.amount,
                capability: pool_capability(config),
            },
        }
    }

    /// What the deposit comes to, given the pool's record, the two reserve
    /// addresses as derived anew (`None` where the derivation gave none),
    /// the pool's balances (or why they could not be read) and the
    /// curve engine's quote (`None` where it gave none).
    ///
    /// The checks come in this order: the pool's state permits deposits;
    /// each supplied reserve address is the derived one; the balances were
    /// read; the quantities are known; neither exceeds its ceiling.
    pub open spec fn outcome(
        self,
        config: ConfigView,
        derived_x: Option<Address>,
        derived_y: Option<Address>,
        balances: Result<PoolBalances, Unreadable>,
        quote: Option<Amounts>,
    ) -> Result<DepositEffects, AmmError> {
        if !state_permits(config.state, Operation::Deposit) {
            Err(AmmError::StateGuard)
        } else if derived_x != Some(self.accounts.vault_x.key)
            || derived_y != Some(self.accounts.vault_y.key) {
            Err(AmmError::AddressMismatch)
        } else {
            match balances {
                Err(unread) => Err(unread.refusal()),
                Ok(read) => match self.amounts(read, quote) {
                    None => Err(AmmError::Arithmetic),
                    Some(amounts) => {
                        if amounts.x <= self.instruction_data.max_x
                            && amounts.y <= self.instruction_data.max_y {
                            Ok(self.effects(config, amounts))
                        } else {
                            Err(AmmError::Slippage)
                        }
                    },
                },
            }
        }
    }

    /// What to ask the curve engine, if anything: nothing for the first
    /// deposit into an empty pool, the quantities for `amount` LP tokens
    /// otherwise.
    pub fn quote_request(&self, balances: &PoolBalances) -> (r: Option<LiquidityRequest>)
        ensures
            r == if balances.is_empty() {
                None
            } else {
                Some(
                    LiquidityRequest {
                        reserve_x: balances.reserve_x,
                        reserve_y: balances.reserve_y,
                        lp_supply: balances.lp_supply,
                        amount: self.instruction_data.amount,
                        precision: PRECISION,
                    },
                )
            },
    {
        if balances.is_empty() {
            None
        } else {
            Some(
                LiquidityRequest {
                    reserve_x: balances.reserve_x,
                    reserve_y: balances.reserve_y,
                    lp_supply: balances.lp_supply,
                    amount: self.instruction_data.amount,
                    precision: PRECISION,
                },
            )
        }
    }

    /// Decides the deposit, given the pool's record and what the outside
    /// gave: the derived reserve addresses, the balances, the quote.
    pub fn decide(
        &self,
        config: &Config,
        derived_x: Option<Address>,
        derived_y: Option<Address>,
        balances: Result<PoolBalances, Unreadable>,
        quote: Option<Amounts>,
    ) -> (r: Result<DepositEffects, AmmError>)
        ensures
            r == self.outcome(config@, derived_x, derived_y, balances, quote),
    {
        let permitted = match AmmState::from_code(config.state()) {
            Some(state) => state.permits(Operation::Deposit),
            None => false,
        };
        if !permitted {
            return Err(AmmError::StateGuard);
        }
        if !matches_derived(&self.accounts.vault_x.key, &derived_x)
            || !matches_derived(&self.accounts.vault_y.key, &derived_y) {
            return Err(AmmError::AddressMismatch);
        }
        let balances = match balances {
            Ok(read) => read,
            Err(unread) => {
                return Err(unread.refusal());
            },
        };
        let amounts = if balances.is_empty() {
            Amounts { x: self.instruction_data.max_x, y: self.instruction_data.max_y }
        } else {
            match quote {
                Some(quoted) => quoted,
                None => {
                    return Err(AmmError::Arithmetic);
                },
            }
        };
        if !(amounts.x <= self.instruction_data.max_x && amounts.y
            <= self.instruction_data.max_y) {
            return Err(AmmError::Slippage);
        }
        Ok(
            DepositEffects {
                transfer_x: Transfer {
                    from: self.accounts.user_x_ata.key,
                    to: self.accounts.vault_x.key,
                    authority: self.accounts.user.key,
                    amount: amounts.x,
                    capability: None,
                },
                transfer_y: Transfer {
                    from: self.accounts.user_y_ata.key,
                    to: self.accounts.vault_y.key,
                    authority: self.accounts.user.key,
                    amount: amounts.y,
                    capability: None,
                },
                mint: MintTo {
                    mint: self.accounts.mint_lp.key,
                    account: self.accounts.user_lp_ata.key,
                    mint_authority: self.accounts.config.key,
                    amount: self.instruction_data.amount,
                    capability: Capability::pool(config),
                },
            },
        )
    }

    /// Carries out the deposit's decisions: reads the pool's record from the
    /// configuration account, derives the two reserve addresses anew, and
    /// decides as `decide` does.
    ///
    /// `engine` is the identity of this program, `reserve_program` that of
    /// the program under which reserve addresses derive. Each reserve
    /// address is derived from the configuration account's address, the
    /// balance service's and the mint that the record names; the result is
    /// what `outcome` says for the two addresses so derived.
    pub fn process(
        &self,
        engine: &Address,
        reserve_program: &Address,
        balances: Result<PoolBalances, Unreadable>,
        quote: Option<Amounts>,
    ) -> (r: Result<DepositEffects, AmmError>)
        ensures
            match Config::load_failure(self.accounts.config, engine) {
                Some(e) => r == Err::<DepositEffects, AmmError>(e),
                None => exists|
                    config: ConfigView,
                    derived_x: Option<Address>,
                    derived_y: Option<Address>,
                |
                    {
                        &&& config.read_from(self.accounts.config.data@)
                        &&& config.well_formed()
                        &&& is_reserve_address(
                            derived_x,
                            self.accounts.config.key,
                            self.accounts.token_program.key,
                            config.mint_x,
                            *reserve_program,
                        )
                        &&& is_reserve_address(
                            derived_y,
                            self.accounts.config.key,
                            self.accounts.token_program.key,
                            config.mint_y,
                            *reserve_program,
                        )
                        &&& r == #[trigger] self.outcome(
                            config,
                            derived_x,
                            derived_y,
                            balances,
                            quote,
                        )
                    },
            },
    {
        let config = match Config::load(self.accounts.config, engine) {
            Ok(loaded) => loaded,
            Err(e) => {
                return Err(e);
            },
        };
        let derived_x = reserve_address(
            &self.accounts.config.key,
            &self.accounts.token_program.key,
            config.mint_x(),
            reserve_program,
        );
        let derived_y = reserve_address(
            &self.accounts.config.key,
            &self.accounts.token_program.key,
            config.mint_y(),
            reserve_program,
        );
        self.decide(&config, derived_x, derived_y, balances, quote)
    }
}

/// A payload holds through its expiration: at that very time it is read,
/// one unit later it is refused as expired.
pub proof fn deposit_holds_through_expiration(data: Seq<u8>, now: i64)
    requires
        data.len() == 32,
        le_u64(data.subrange(0, 8)) != 0,
    ensures
        now <= le_i64(data.subrange(24, 32)) <==> DepositInstructionData::failure(data, now)
            is None,
        now > le_i64(data.subrange(24, 32)) <==> DepositInstructionData::failure(data, now)
            == Some(AmmError::Expired),
{
}

/// The first deposit into an empty pool is decided without the curve
/// engine: where the state permits it and the reserve addresses are the
/// derived ones, it is accepted, moves exactly its two ceilings and issues
/// exactly the LP tokens asked for.
pub proof fn first_deposit_pays_its_ceilings<'a>(
    deposit: Deposit<'a>,
    config: ConfigView,
    balances: PoolBalances,
    quote: Option<Amounts>,
)
    requires
        balances.is_empty(),
        state_permits(config.state, Operation::Deposit),
    ensures
        deposit.outcome(
            config,
            Some(deposit.accounts.vault_x.key),
            Some(deposit.accounts.vault_y.key),
            Ok(balances),
            quote,
        ) matches Ok(effects) && {
            &&& effects.transfer_x.amount == deposit.instruction_data.max_x
            &&& effects.transfer_y.amount == deposit.instruction_data.max_y
            &&& effects.mint.amount == deposit.instruction_data.amount
        },
{
}

/// An accepted deposit takes no more than either ceiling and issues exactly
/// the LP tokens asked for; into a pool that is not empty it takes exactly
/// what the engine quoted.
pub proof fn deposit_keeps_to_its_ceilings<'a>(
    deposit: Deposit<'a>,
    config: ConfigView,
    derived_x: Option<Address>,
    derived_y: Option<Address>,
    balances: PoolBalances,
    quote: Option<Amounts>,
    effects: DepositEffects,
)
    requires
        deposit.outcome(config, derived_x, derived_y, Ok(balances), quote) == Ok::<
            _,
            AmmError,
        >(effects),
    ensures
        effects.transfer_x.amount <= deposit.instruction_data.max_x,
        effects.transfer_y.amount <= deposit.instruction_data.max_y,
        effects.mint.amount == deposit.instruction_data.amount,
        !balances.is_empty() ==> quote == Some(
            Amounts { x: effects.transfer_x.amount, y: effects.transfer_y.amount },
        ),
{
}

/// A deposit into a pool that is not empty, quoted above either ceiling, is
/// refused: for slippage, where nothing else stands against it.
pub proof fn deposit_over_a_ceiling_is_refused<'a>(
    deposit: Deposit<'a>,
    config: ConfigView,
    derived_x: Option<Address>,
    derived_y: Option<Address>,
    balances: PoolBalances,
    quoted: Amounts,
)
    requires
        !balances.is_empty(),
        quoted.x > deposit.instruction_data.max_x || quoted.y > deposit.instruction_data.max_y,
    ensures
        deposit.outcome(config, derived_x, derived_y, Ok(balances), Some(quoted)) is Err,
        state_permits(config.state, Operation::Deposit) ==> deposit.outcome(
            config,
            Some(deposit.accounts.vault_x.key),
            Some(deposit.accounts.vault_y.key),
            Ok(balances),
            Some(quoted),
        ) matches Err(AmmError::Slippage),
{
}

} // verus!
