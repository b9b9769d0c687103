use crate::account::{is_zero, AccountRecord};
use crate::capability::Capability;
use crate::codec::{le_u16, le_u64, read_address, read_u16, read_u64, Address};
use crate::effects::{CreateAccount, InitializeMint};
use crate::error::AmmError;
use crate::state::{Config, ConfigView};
use vstd::prelude::*;

verus! {

/// The number of decimal places of the LP token.
pub const LP_DECIMALS: u8 = 6;

/// The accounts of a pool's creation, by position.
pub struct InitializeAccounts<'a> {
    /// Who creates the pool and pays for its records; not necessarily its
    /// authority.
    pub initializer: &'a AccountRecord,
    /// Where the LP issuance record is to stand.
    pub mint_lp: &'a AccountRecord,
    /// Where the configuration record is to stand.
    pub config: &'a AccountRecord,
}

impl<'a> InitializeAccounts<'a> {
    /// Whether these are the first three of the five records of `accounts`.
    pub open spec fn taken_from(self, accounts: Seq<AccountRecord>) -> bool {
        &&& accounts.len() == 5
        &&& *self.initializer == accounts[0]
        &&& *self.mint_lp == accounts[1]
        &&& *self.config == accounts[2]
    }

    /// Names the accounts of a pool's creation. There must be exactly five:
    /// creator, LP issuance record, configuration record, and two more that
    /// the services called later need.
    pub fn try_from(accounts: &'a [AccountRecord]) -> (r: Result<InitializeAccounts<'a>, AmmError>)
        ensures
            match r {
                Ok(named) => named.taken_from(accounts@),
                Err(e) => accounts@.len() != 5 && e == AmmError::AccountShape,
            },
    {
        if accounts.len() != 5 {
            return Err(AmmError::AccountShape);
        }
        Ok(
            InitializeAccounts {
                initializer: &accounts[0],
                mint_lp: &accounts[1],
                config: &accounts[2],
            },
        )
    }
}

/// The payload of a pool's creation.
#[derive(Clone, Copy, PartialEq, Eq, Debug)]
pub struct InitializeInstructionData {
    pub seed: u64,
    pub fee: u16,
    pub mint_x: Address,
    pub mint_y: Address,
    pub config_bump: [u8; 1],
    pub lp_bump: [u8; 1],
    /// All zero where the payload names no authority.
    pub authority: Address,
}

impl InitializeInstructionData {
    /// Whether the bytes of `data`, 76 or 108 of them, spell this payload:
    /// seed, fee, mint X, mint Y, the two bumps and, in the longer form, the
    /// authority; numbers least significant byte first. The shorter form
    /// names no authority, which reads as the all-zero sentinel.
    pub open spec fn read_from(self, data: Seq<u8>) -> bool {
        &&& self.seed == le_u64(data.subrange(0, 8))
        &&& self.fee == le_u16(data.subrange(8, 10))
        &&& self.mint_x@ == data.subrange(10, 42)
        &&& self.mint_y@ == data.subrange(42, 74)
        &&& self.config_bump@ == data.subrange(74, 75)
        &&& self.lp_bump@ == data.subrange(75, 76)
        &&& if data.len() == 108 {
            self.authority@ == data.subrange(76, 108)
        } else {
            is_zero(self.authority)
        }
    }

    /// Reads the payload of a pool's creation, in either of its two lengths.
    pub fn try_from(data: &[u8]) -> (r: Result<InitializeInstructionData, AmmError>)
        ensures
            match r {
                Ok(payload) => {
                    &&& data@.len() == 76 || data@.len() == 108
                    &&& payload.read_from(data@)
                },
                Err(e) => {
                    &&& data@.len() != 76
                    &&& data@.len() != 108
                    &&& e == AmmError::PayloadShape
                },
            },
    {
        if data.len() != 76 && data.len() != 108 {
            return Err(AmmError::PayloadShape);
        }
        let authority: Address = if data.len() == 108 {
            read_address(data, 76)
        } else {
            [0u8; 32]
        };
        let config_bump: [u8; 1] = [data[74]];
        let lp_bump: [u8; 1] = [data[75]];
        assert(config_bump@ =~= data@.subrange(74, 75));
        assert(lp_bump@ =~= data@.subrange(75, 76));
        Ok(
            InitializeInstructionData {
                seed: read_u64(data, 0),
                fee: read_u16(data, 8),
                mint_x: read_address(data, 10),
                mint_y: read_address(data, 42),
                config_bump,
                lp_bump,
                authority,
            },
        )
    }
}

/// What a pool's creation does, once accepted: three steps, in this order,
/// and the record to store in the configuration account.
#[derive(Clone, Copy, PartialEq, Eq, Debug)]
pub struct InitializeEffects {
    /// The configuration record is allocated, on its own word.
    pub create_config: CreateAccount,
    /// The LP issuance record is allocated, on its own word.
    pub create_issuance: CreateAccount,
    /// The LP issuance record is initialized, with the configuration record
    /// as the only one that may issue.
    pub initialize_issuance: InitializeMint,
    /// What the configuration record holds from now on.
    pub record: Config,
}

/// The creation of a pool: its accounts and its payload.
pub struct Initialize<'a> {
    pub accounts: InitializeAccounts<'a>,
    pub instruction_data: InitializeInstructionData,
}

impl<'a> Initialize<'a> {
    /// The byte that selects this operation.
    pub const DISCRIMINATOR: u8 = 0;

    /// Why `try_from` refuses, if it does: the accounts are looked at first.
    pub open spec fn failure(data: Seq<u8>, accounts: Seq<AccountRecord>) -> Option<AmmError> {
        if accounts.len() != 5 {
            Some(AmmError::AccountShape)
        } else if data.len() != 76 && data.len() != 108 {
            Some(AmmError::PayloadShape)
        } else {
            None
        }
    }

    /// Reads a pool's creation from its payload and its accounts.
    pub fn try_from(
        data: &[u8],
        accounts: &'a [AccountRecord],
    ) -> (r: Result<Initialize<'a>, AmmError>)
        ensures
            match r {
                Ok(creation) => {
                    &&& Self::failure(data@, accounts@) is None
                    &&& creation.accounts.taken_from(accounts@)
                    &&& creation.instruction_data.read_from(data@)
                },
                Err(e) => Self::failure(data@, accounts@) == Some(e),
            },
    {
        let accounts = match InitializeAccounts::try_from(accounts) {
            Ok(named) => named,
            Err(e) => {
                return Err(e);
            },
        };
        let instruction_data = match InitializeInstructionData::try_from(data) {
            Ok(payload) => payload,
            Err(e) => {
                return Err(e);
            },
        };
        Ok(Initialize { accounts, instruction_data })
    }

    /// The capability to act as the configuration record to be: the one
    /// whose seeds are the text `config`, the payload's seed, its two mints
    /// and its configuration bump.
    pub open spec fn config_capability(self) -> Capability {
        Capability::Pool {
            seed: self.instruction_data.seed,
            mint_x: self.instruction_data.mint_x,
            mint_y: self.instruction_data.mint_y,
            bump: self.instruction_data.config_bump@[0],
        }
    }

    /// The capability to act as the LP issuance record to be: the one whose
    /// seeds are the text `mint_lp`, the address of the configuration record
    /// and the payload's LP bump.
    pub open spec fn issuance_capability(self) -> Capability {
        Capability::Issuance {
            config: self.accounts.config.key,
            bump: self.instruction_data.lp_bump@[0],
        }
    }

    /// The record with which the pool starts.
    pub open spec fn record(self) -> ConfigView {
        ConfigView::initial(
            self.instruction_data.seed,
            self.instruction_data.authority,
            self.instruction_data.mint_x,
            self.instruction_data.mint_y,
            self.instruction_data.fee,
            self.instruction_data.config_bump@[0],
        )
    }

    /// Why `process` refuses, if it does: the values with which the pool
    /// would start do not keep the record's invariant.
    pub open spec fn process_failure(self) -> Option<AmmError> {
        ConfigView::initial_failure(
            self.instruction_data.seed,
            self.instruction_data.mint_x,
            self.instruction_data.mint_y,
            self.instruction_data.fee,
        )
    }

    /// Whether `effects` are those of this creation, with `engine` as the
    /// owner of the configuration record, and `token_program` as the owner
    /// of the LP issuance record, which takes `issuance_space` bytes.
    pub open spec fn brings_about(
        self,
        effects: InitializeEffects,
        engine: Address,
        token_program: Address,
        issuance_space: u64,
    ) -> bool {
        &&& effects.create_config == (CreateAccount {
            from: self.accounts.initializer.key,
            to: self.accounts.config.key,
            space: 108,
            owner: engine,
            capability: self.config_capability(),
        })
        &&& effects.create_issuance == (CreateAccount {
            from: self.accounts.initializer.key,
            to: self.accounts.mint_lp.key,
            space: issuance_space,
            owner: token_program,
            capability: self.issuance_capability(),
        })
        &&& effects.initialize_issuance == (InitializeMint {
            mint: self.accounts.mint_lp.key,
            decimals: LP_DECIMALS,
            mint_authority: self.accounts.config.key,
            freeze_authority: None,
            capability: self.issuance_capability(),
        })
        &&& effects.record@ == self.record()
    }

    /// Plans the creation of a pool.
    ///
    /// The configuration record is allocated at the configuration account,
    /// owned by `engine`, the identity of this program, and paid for by the
    /// creator. The LP issuance record is allocated at the issuance account,
    /// with `issuance_space` bytes, owned by `token_program`, and
    /// initialized with six decimal places and the configuration record as
    /// its mint authority. Each allocation is made under the capability to
    /// act as the address allocated. The configuration record starts
    /// Initialized, with the payload's values.
    pub fn process(
        &self,
        engine: &Address,
        token_program: &Address,
        issuance_space: u64,
    ) -> (r: Result<InitializeEffects, AmmError>)
        ensures
            match r {
                Ok(effects) => {
                    &&& self.process_failure() is None
                    &&& self.brings_about(effects, *engine, *token_program, issuance_space)
                    &&& effects.record@.well_formed()
                },
                Err(e) => self.process_failure() == Some(e),
            },
    {
        let payload = &self.instruction_data;
        let record = match Config::initial(
            payload.seed,
            payload.authority,
            payload.mint_x,
            payload.mint_y,
            payload.fee,
            payload.config_bump,
        ) {
            Ok(made) => made,
            Err(e) => {
                return Err(e);
            },
        };
        let as_config = Capability::Pool {
            seed: payload.seed,
            mint_x: payload.mint_x,
            mint_y: payload.mint_y,
            bump: payload.config_bump[0],
        };
        let as_issuance = Capability::Issuance {
            config: self.accounts.config.key,
            bump: payload.lp_bump[0],
        };
        Ok(
            InitializeEffects {
                create_config: CreateAccount {
                    from: self.accounts.initializer.key,
                    to: self.accounts.config.key,
                    space: 108,
                    owner: *engine,
                    capability: as_config,
                },
                create_issuance: CreateAccount {
                    from: self.accounts.initializer.key,
                    to: self.accounts.mint_lp.key,
                    space: issuance_space,
                    owner: *token_program,
                    capability: as_issuance,
                },
                initialize_issuance: InitializeMint {
                    mint: self.accounts.mint_lp.key,
                    decimals: LP_DECIMALS,
                    mint_authority: self.accounts.config.key,
                    freeze_authority: None,
                    capability: as_issuance,
                },
                record,
            },
        )
    }
}

} // verus!
