use crate::account::AccountRecord;
use crate::capability::{pool_capability, Capability};
use crate::codec::{le_i64, le_u64, read_i64, read_u64, Address};
use crate::curve::{Reserves, SwapQuote, SwapRequest, Unreadable};
use crate::derivation::{is_reserve_address, matches_derived, reserve_address};
use crate::effects::Transfer;
use crate::error::AmmError;
use crate::state::{state_permits, AmmState, Config, ConfigView, Operation};
use vstd::prelude::*;

verus! {

/// The accounts of a swap, by position.
pub struct SwapAccounts<'a> {
    pub user: &'a AccountRecord,
    pub user_x_ata: &'a AccountRecord,
    pub user_y_ata: &'a AccountRecord,
    pub vault_x: &'a AccountRecord,
    pub vault_y: &'a AccountRecord,
    pub config: &'a AccountRecord,
    pub token_program: &'a AccountRecord,
}

impl<'a> SwapAccounts<'a> {
    /// Whether these are the seven records of `accounts`, in order.
    pub open spec fn taken_from(self, accounts: Seq<AccountRecord>) -> bool {
        &&& accounts.len() == 7
        &&& *self.user == accounts[0]
        &&& *self.user_x_ata == accounts[1]
        &&& *self.user_y_ata == accounts[2]
        &&& *self.vault_x == accounts[3]
        &&& *self.vault_y == accounts[4]
        &&& *self.config == accounts[5]
        &&& *self.token_program == accounts[6]
    }

    /// Names the accounts of a swap. There must be exactly seven: caller,
    /// the caller's balances of X and of Y, reserve X, reserve Y,
    /// configuration record, balance service.
    pub fn try_from(accounts: &'a [AccountRecord]) -> (r: Result<SwapAccounts<'a>, AmmError>)
        ensures
            match r {
                Ok(named) => named.taken_from(accounts@),
                Err(e) => accounts@.len() != 7 && e == AmmError::AccountShape,
            },
    {
        if accounts.len() != 7 {
            return Err(AmmError::AccountShape);
        }
        Ok(
            SwapAccounts {
                user: &accounts[0],
                user_x_ata: &accounts[1],
                user_y_ata: &accounts[2],
                vault_x: &accounts[3],
                vault_y: &accounts[4],
                config: &accounts[5],
                token_program: &accounts[6],
            },
        )
    }
}

/// The payload of a swap.
#[derive(Clone, Copy, PartialEq, Eq, Debug)]
pub struct SwapInstructionData {
    /// Whether asset X is the one paid in.
    pub is_x: bool,
    /// The quantity paid in.
    pub amount: u64,
    /// The least of the other asset that the caller will take.
    pub min: u64,
    /// The time after which the payload no longer holds.
    pub expiration: i64,
}

impl SwapInstructionData {
    /// Why `try_from` refuses the payload at time `now`, if it does.
    pub open spec fn failure(data: Seq<u8>, now: i64) -> Option<AmmError> {
        if data.len() != 25 || le_u64(data.subrange(1, 9)) == 0 {
            Some(AmmError::PayloadShape)
        } else if now > le_i64(data.subrange(17, 25)) {
            Some(AmmError::Expired)
        } else {
            None
        }
    }

    /// Whether the 25 bytes of `data` spell this payload: one byte for the
    /// direction, zero meaning that Y is paid in, then three numbers of
    /// eight bytes each, least significant byte first.
    pub open spec fn read_from(self, data: Seq<u8>) -> bool {
        &&& self.is_x == (data[0] != 0)
        &&& self.amount == le_u64(data.subrange(1, 9))
        &&& self.min == le_u64(data.subrange(9, 17))
        &&& self.expiration == le_i64(data.subrange(17, 25))
    }

    /// Reads the payload of a swap at time `now`.
    ///
    /// The payload has 25 bytes and pays in an amount other than zero. It
    /// holds through its expiration: it is refused only when `now` is past
    /// it.
    pub fn try_from(data: &[u8], now: i64) -> (r: Result<SwapInstructionData, AmmError>)
        ensures
            match r {
                Ok(payload) => {
                    &&& Self::failure(data@, now) is None
                    &&& payload.read_from(data@)
                },
                Err(e) => Self::failure(data@, now) == Some(e),
            },
    {
        if data.len() != 25 {
            return Err(AmmError::PayloadShape);
        }
        let is_x: bool = data[0] != 0;
        let amount: u64 = read_u64(data, 1);
        if amount == 0 {
            return Err(AmmError::PayloadShape);
        }
        let min: u64 = read_u64(data, 9);
        let expiration: i64 = read_i64(data, 17);
        if now > expiration {
            return Err(AmmError::Expired);
        }
        Ok(SwapInstructionData { is_x, amount, min, expiration })
    }
}

/// What a swap does, once accepted: two steps, in this order.
#[derive(Clone, Copy, PartialEq, Eq, Debug)]
pub struct SwapEffects {
    /// The asset paid in moves from the caller to its reserve, on the
    /// caller's word.
    pub pay_in: Transfer,
    /// The other asset moves from its reserve to the caller, on the pool's
    /// word.
    pub pay_out: Transfer,
}

/// A swap of one asset for the other: its accounts and its payload.
pub struct Swap<'a> {
    pub accounts: SwapAccounts<'a>,
    pub instruction_data: SwapInstructionData,
}

impl<'a> Swap<'a> {
    /// The byte that selects this operation.
    pub const DISCRIMINATOR: u8 = 3;

    /// Why `try_from` refuses, if it does: the accounts are looked at first.
    pub open spec fn failure(
        data: Seq<u8>,
        accounts: Seq<AccountRecord>,
        now: i64,
    ) -> Option<AmmError> {
        if accounts.len() != 7 {
            Some(AmmError::AccountShape)
        } else {
            SwapInstructionData::failure(data, now)
        }
    }

    /// Reads a swap from its payload and its accounts at time `now`.
    pub fn try_from(
        data: &[u8],
        accounts: &'a [AccountRecord],
        now: i64,
    ) -> (r: Result<Swap<'a>, AmmError>)
        ensures
            match r {
                Ok(swap) => {
                    &&& Self::failure(data@, accounts@, now) is None
                    &&& swap.accounts.taken_from(accounts@)
                    &&& swap.instruction_data.read_from(data@)
                },
                Err(e) => Self::failure(data@, accounts@, now) == Some(e),
            },
    {
        let accounts = match SwapAccounts::try_from(accounts) {
            Ok(named) => named,
            Err(e) => {
                return Err(e);
            },
        };
        let instruction_data = match SwapInstructionData::try_from(data, now) {
            Ok(payload) => payload,
            Err(e) => {
                return Err(e);
            },
        };
        Ok(Swap { accounts, instruction_data })
    }

    /// The question that the swap puts to the curve engine. The liquidity
    /// figure is the X reserve: a swap has no LP issuance record among its
    /// accounts, and leaves the supply as it is.
    pub open spec fn request(self, config: ConfigView, reserves: Reserves) -> SwapRequest {
        SwapRequest {
            reserve_x: reserves.x,
            reserve_y: reserves.y,
            liquidity: reserves.x,
            fee: config.fee,
            is_x: self.instruction_data.is_x,
            amount: self.instruction_data.amount,
            min: self.instruction_data.min,
        }
    }

    /// The two steps of the swap, for given quantities.
    pub open spec fn effects(self, config: ConfigView, deposit: u64, withdraw: u64) -> SwapEffects {
        if self.instruction_data.is_x {
            SwapEffects {
                pay_in: Transfer {
                    from: self.accounts.user_x_ata.key,
                    to: self.accounts.vault_x.key,
                    authority: self.accounts.user.key,
                    amount: deposit,
                    capability: None,
                },
                pay_out: Transfer {
                    from: self.accounts.vault_y.key,
                    to: self.accounts.user_y_ata.key,
                    authority: self.accounts.config.key,
                    amount: withdraw,
                    capability: Some(pool_capability(config)),
                },
            }
        } else {
            SwapEffects {
                pay_in: Transfer {
                    from: self.accounts.user_y_ata.key,
                    to: self.accounts.vault_y.key,
                    authority: self.accounts.user.key,
                    amount: deposit,
                    capability: None,
                },
                pay_out: Transfer {
                    from: self.accounts.vault_x.key,
                    to: self.accounts.user_x_ata.key,
                    authority: self.accounts.config.key,
                    amount: withdraw,
                    capability: Some(pool_capability(config)),
                },
            }
        }
    }

    /// What the swap comes to, given the pool's record, the two reserve
    /// addresses as derived anew (`None` where the derivation gave none),
    /// the reserves (or why they could not be read) and the curve
    /// engine's answer.
    ///
    /// The checks come in this order: the pool's state permits swaps; each
    /// supplied reserve address is the derived one; the reserves were read;
    /// the engine filled the swap; neither quantity is zero; what comes out
    /// is no less than the least acceptable. A swap is filled whole or not
    /// at all.
    pub open spec fn outcome(
        self,
        config: ConfigView,
        derived_x: Option<Address>,
        derived_y: Option<Address>,
        reserves: Result<Reserves, Unreadable>,
        quote: SwapQuote,
    ) -> Result<SwapEffects, AmmError> {
        if !state_permits(config.state, Operation::Swap) {
            Err(AmmError::StateGuard)
        } else if derived_x != Some(self.accounts.vault_x.key)
            || derived_y != Some(self.accounts.vault_y.key) {
            Err(AmmError::AddressMismatch)
        } else if reserves is Err {
            Err(reserves->Err_0.refusal())
        } else {
            match quote {
                SwapQuote::Infeasible => Err(AmmError::Arithmetic),
                SwapQuote::FloorViolated => Err(AmmError::Slippage),
                SwapQuote::Filled { deposit, withdraw } => if deposit == 0 || withdraw == 0 {
                    Err(AmmError::Arithmetic)
                } else if withdraw < self.instruction_data.min {
                    Err(AmmError::Slippage)
                } else {
                    Ok(self.effects(config, deposit, withdraw))
                },
            }
        }
    }

    /// What to ask the curve engine.
    pub fn quote_request(&self, config: &Config, reserves: &Reserves) -> (r: SwapRequest)
        ensures
            r == self.request(config@, *reserves),
    {
        SwapRequest {
            reserve_x: reserves.x,
            reserve_y: reserves.y,
            liquidity: reserves.x,
            fee: config.fee(),
            is_x: self.instruction_data.is_x,
            amount: self.instruction_data.amount,
            min: self.instruction_data.min,
        }
    }

    /// Decides the swap, given the pool's record and what the outside gave:
    /// the derived reserve addresses, the reserves, the engine's answer.
    pub fn decide(
        &self,
        config: &Config,
        derived_x: Option<Address>,
        derived_y: Option<Address>,
        reserves: Result<Reserves, Unreadable>,
        quote: SwapQuote,
    ) -> (r: Result<SwapEffects, AmmError>)
        ensures
            r == self.outcome(config@, derived_x, derived_y, reserves, quote),
    {
        let permitted = match AmmState::from_code(config.state()) {
            Some(state) => state.permits(Operation::Swap),
            None => false,
        };
        if !permitted {
            return Err(AmmError::StateGuard);
        }
        if !matches_derived(&self.accounts.vault_x.key, &derived_x)
            || !matches_derived(&self.accounts.vault_y.key, &derived_y) {
            return Err(AmmError::AddressMismatch);
        }
        if let Err(unread) = reserves {
            return Err(unread.refusal());
        }
        let (deposit, withdraw) = match quote {
            SwapQuote::Infeasible => {
                return Err(AmmError::Arithmetic);
            },
            SwapQuote::FloorViolated => {
                return Err(AmmError::Slippage);
            },
            SwapQuote::Filled { deposit, withdraw } => (deposit, withdraw),
        };
        if deposit == 0 || withdraw == 0 {
            return Err(AmmError::Arithmetic);
        }
        if withdraw < self.instruction_data.min {
            return Err(AmmError::Slippage);
        }
        let capability = Capability::pool(config);
        if self.instruction_data.is_x {
            Ok(
                SwapEffects {
                    pay_in: Transfer {
                        from: self.accounts.user_x_ata.key,
                        to: self.accounts.vault_x.key,
                        authority: self.accounts.user.key,
                        amount: deposit,
                        capability: None,
                    },
                    pay_out: Transfer {
                        from: self.accounts.vault_y.key,
                        to: self.accounts.user_y_ata.key,
                        authority: self.accounts.config.key,
                        amount: withdraw,
                        capability: Some(capability),
                    },
                },
            )
        } else {
            Ok(
                SwapEffects {
                    pay_in: Transfer {
                        from: self.accounts.user_y_ata.key,
                        to: self.accounts.vault_y.key,
                        authority: self.accounts.user.key,
                        amount: deposit,
                        capability: None,
                    },
                    pay_out: Transfer {
                        from: self.accounts.vault_x.key,
                        to: self.accounts.user_x_ata.key,
                        authority: self.accounts.config.key,
                        amount: withdraw,
                        capability: Some(capability),
                    },
                },
            )
        }
    }

    /// Carries out the swap's decisions: reads the pool's record from the
    /// configuration account, derives the two reserve addresses anew, and
    /// decides as `decide` does.
    ///
    /// `engine` is the identity of this program, `reserve_program` that of
    /// the program under which reserve addresses derive. Each reserve
    /// address is derived from the configuration account's address, the
    /// balance service's and the mint that the record names; the result is
    /// what `outcome` says for the two addresses so derived.
    pub fn process(
        &self,
        engine: &Address,
        reserve_program: &Address,
        reserves: Result<Reserves, Unreadable>,
        quote: SwapQuote,
    ) -> (r: Result<SwapEffects, AmmError>)
        ensures
            match Config::load_failure(self.accounts.config, engine) {
                Some(e) => r == Err::<SwapEffects, AmmError>(e),
                None => exists|
                    config: ConfigView,
                    derived_x: Option<Address>,
                    derived_y: Option<Address>,
                |
                    {
                        &&& config.read_from(self.accounts.config.data@)
                        &&& config.well_formed()
                        &&& is_reserve_address(
                            derived_x,
                            self.accounts.config.key,
                            self.accounts.token_program.key,
                            config.mint_x,
                            *reserve_program,
                        )
                        &&& is_reserve_address(
                            derived_y,
                            self.accounts.config.key,
                            self.accounts.token_program.key,
                            config.mint_y,
                            *reserve_program,
                        )
                        &&& r == #[trigger] self.outcome(
                            config,
                            derived_x,
                            derived_y,
                            reserves,
                            quote,
                        )
                    },
            },
    {
        let config = match Config::load(self.accounts.config, engine) {
            Ok(loaded) => loaded,
            Err(e) => {
                return Err(e);
            },
        };
        let derived_x = reserve_address(
            &self.accounts.config.key,
            &self.accounts.token_program.key,
            config.mint_x(),
            reserve_program,
        );
        let derived_y = reserve_address(
            &self.accounts.config.key,
            &self.accounts.token_program.key,
            config.mint_y(),
            reserve_program,
        );
        self.decide(&config, derived_x, derived_y, reserves, quote)
    }
}

/// A payload holds through its expiration: at that very time it is read,
/// one unit later it is refused as expired.
pub proof fn swap_holds_through_expiration(data: Seq<u8>, now: i64)
    requires
        data.len() == 25,
        le_u64(data.subrange(1, 9)) != 0,
    ensures
        now <= le_i64(data.subrange(17, 25)) <==> SwapInstructionData::failure(data, now) is None,
        now > le_i64(data.subrange(17, 25)) <==> SwapInstructionData::failure(data, now) == Some(
            AmmError::Expired,
        ),
{
}

/// An accepted swap moves exactly what the engine answered: neither
/// quantity is zero, and the caller gets no less than the least acceptable.
pub proof fn swap_is_filled_whole<'a>(
    swap: Swap<'a>,
    config: ConfigView,
    derived_x: Option<Address>,
    derived_y: Option<Address>,
    reserves: Result<Reserves, Unreadable>,
    quote: SwapQuote,
    effects: SwapEffects,
)
    requires
        swap.outcome(config, derived_x, derived_y, reserves, quote) == Ok::<_, AmmError>(effects),
    ensures
        quote == (SwapQuote::Filled {
            deposit: effects.pay_in.amount,
            withdraw: effects.pay_out.amount,
        }),
        effects.pay_in.amount != 0,
        effects.pay_out.amount != 0,
        effects.pay_out.amount >= swap.instruction_data.min,
{
}

/// A swap that would give less than the least acceptable moves nothing: it
/// is refused, for slippage where nothing else stands against it.
pub proof fn swap_below_the_floor_is_refused<'a>(
    swap: Swap<'a>,
    config: ConfigView,
    derived_x: Option<Address>,
    derived_y: Option<Address>,
    reserves: Result<Reserves, Unreadable>,
    read: Reserves,
    deposit: u64,
    withdraw: u64,
)
    requires
        withdraw < swap.instruction_data.min,
    ensures
        swap.outcome(config, derived_x, derived_y, reserves, SwapQuote::FloorViolated) is Err,
        swap.outcome(
            config,
            derived_x,
            derived_y,
            reserves,
            SwapQuote::Filled { deposit, withdraw },
        ) is Err,
        state_permits(config.state, Operation::Swap) ==> swap.outcome(
            config,
            Some(swap.accounts.vault_x.key),
            Some(swap.accounts.vault_y.key),
            Ok(read),
            SwapQuote::FloorViolated,
        ) matches Err(AmmError::Slippage),
{
}

} // verus!
