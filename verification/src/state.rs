use crate::account::{is_zero, is_zero_address, AccountRecord};
use crate::codec::{
    le_u16, le_u64, push_address, push_u16, push_u64, read_address, read_u16, read_u64,
    same_address, u16_bytes_round_trip, u16_le_bytes, u16_round_trip, u64_bytes_round_trip,
    u64_le_bytes, u64_round_trip, Address,
};
use crate::error::AmmError;
use vstd::prelude::*;

verus! {

/// The four states of a pool.
#[derive(Clone, Copy, PartialEq, Eq, Debug, Structural)]
pub enum AmmState {
    Uninitialized,
    Initialized,
    Disabled,
    WithdrawOnly,
}

/// The operations that a pool's state can permit or forbid.
#[derive(Clone, Copy, PartialEq, Eq, Debug, Structural)]
pub enum Operation {
    Deposit,
    Withdraw,
    Swap,
}

impl AmmState {
    /// The byte that stands for the state in a stored record.
    pub open spec fn spec_code(self) -> u8 {
        match self {
            AmmState::Uninitialized => 0,
            AmmState::Initialized => 1,
            AmmState::Disabled => 2,
            AmmState::WithdrawOnly => 3,
        }
    }

    /// The state that a byte stands for, if any.
    pub open spec fn spec_from_code(code: u8) -> Option<AmmState> {
        if code == 0 {
            Some(AmmState::Uninitialized)
        } else if code == 1 {
            Some(AmmState::Initialized)
        } else if code == 2 {
            Some(AmmState::Disabled)
        } else if code == 3 {
            Some(AmmState::WithdrawOnly)
        } else {
            None
        }
    }

    /// The table of what each state permits. Deposits and swaps need an
    /// initialized pool. Withdrawals are refused only by a disabled pool, so
    /// that holders can leave while a pool winds down.
    pub open spec fn spec_permits(self, op: Operation) -> bool {
        match op {
            Operation::Deposit => self == AmmState::Initialized,
            Operation::Swap => self == AmmState::Initialized,
            Operation::Withdraw => self != AmmState::Disabled,
        }
    }

    pub fn is_initialized(self) -> (r: bool)
        ensures
            r == (self == AmmState::Initialized),
    {
        matches!(self, AmmState::Initialized)
    }

    #[verifier::when_used_as_spec(spec_code)]
    pub fn code(self) -> (r: u8)
        ensures
            r == self.spec_code(),
    {
        match self {
            AmmState::Uninitialized => 0,
            AmmState::Initialized => 1,
            AmmState::Disabled => 2,
            AmmState::WithdrawOnly => 3,
        }
    }

    #[verifier::when_used_as_spec(spec_from_code)]
    pub fn from_code(code: u8) -> (r: Option<AmmState>)
        ensures
            r == Self::spec_from_code(code),
    {
        if code == 0 {
            Some(AmmState::Uninitialized)
        } else if code == 1 {
            Some(AmmState::Initialized)
        } else if code == 2 {
            Some(AmmState::Disabled)
        } else if code == 3 {
            Some(AmmState::WithdrawOnly)
        } else {
            None
        }
    }

    #[verifier::when_used_as_spec(spec_permits)]
    pub fn permits(self, op: Operation) -> (r: bool)
        ensures
            r == self.spec_permits(op),
    {
        match op {
            Operation::Deposit => matches!(self, AmmState::Initialized),
            Operation::Swap => matches!(self, AmmState::Initialized),
            Operation::Withdraw => !matches!(self, AmmState::Disabled),
        }
    }
}

/// Whether a record whose state byte is `code` permits `op`. A byte that
/// stands for no state permits nothing.
pub open spec fn state_permits(code: u8, op: Operation) -> bool {
    match AmmState::from_code(code) {
        Some(state) => state.permits(op),
        None => false,
    }
}

/// A code and the state it stands for name each other.
pub proof fn state_codes_round_trip(state: AmmState, code: u8)
    ensures
        AmmState::from_code(state.code()) == Some(state),
        AmmState::from_code(code) matches Some(s) ==> s.code() == code,
        AmmState::from_code(code) is Some <==> code <= 3,
{
}

/// The pool's configuration record: the one thing a pool persists.
///
/// The fields are reached through getters and changed through setters, which
/// refuse a value that the field does not admit and a second write of a
/// write-once field.
#[derive(Clone, Copy, PartialEq, Eq, Debug)]
pub struct Config {
    state: u8,
    seed: u64,
    authority: Address,
    mint_x: Address,
    mint_y: Address,
    fee: u16,
    config_bump: [u8; 1],
}

/// What a configuration record holds, field by field.
pub struct ConfigView {
    /// The code of the pool's state.
    pub state: u8,
    /// The salt that tells apart pools over the same pair of mints. Zero
    /// means "not set yet".
    pub seed: u64,
    /// Who may change the pool's parameters; all zero means nobody.
    pub authority: Address,
    pub mint_x: Address,
    pub mint_y: Address,
    /// The swap fee in basis points.
    pub fee: u16,
    /// The bump of the record's own derived address. Zero means "not set
    /// yet".
    pub config_bump: u8,
}

impl ConfigView {
    /// What holds of every record that an operation observes: a known state,
    /// a fee below 100%, and two different mints.
    pub open spec fn well_formed(self) -> bool {
        &&& self.state <= 3
        &&& self.fee < 10_000
        &&& self.mint_x != self.mint_y
    }

    /// The 108 bytes of the stored record: state, seed, authority, mint X,
    /// mint Y, fee, bump, with no padding and numbers least significant
    /// byte first.
    pub open spec fn encoding(self) -> Seq<u8> {
        seq![self.state] + u64_le_bytes(self.seed) + self.authority@ + self.mint_x@
            + self.mint_y@ + u16_le_bytes(self.fee) + seq![self.config_bump]
    }

    /// Whether the first 108 of `bytes` spell this record.
    pub open spec fn read_from(self, bytes: Seq<u8>) -> bool {
        &&& self.state == bytes[0]
        &&& self.seed == le_u64(bytes.subrange(1, 9))
        &&& self.authority@ == bytes.subrange(9, 41)
        &&& self.mint_x@ == bytes.subrange(41, 73)
        &&& self.mint_y@ == bytes.subrange(73, 105)
        &&& self.fee == le_u16(bytes.subrange(105, 107))
        &&& self.config_bump == bytes[107]
    }

    /// Why no pool can start with these values, if none can: the seed must
    /// not be zero, the mints must differ, the fee must be below 100%.
    pub open spec fn initial_failure(
        seed: u64,
        mint_x: Address,
        mint_y: Address,
        fee: u16,
    ) -> Option<AmmError> {
        if seed == 0 || mint_x == mint_y || fee >= 10_000 {
            Some(AmmError::InvalidField)
        } else {
            None
        }
    }

    /// The record with which a pool starts: Initialized, with the values
    /// given.
    pub open spec fn initial(
        seed: u64,
        authority: Address,
        mint_x: Address,
        mint_y: Address,
        fee: u16,
        config_bump: u8,
    ) -> ConfigView {
        ConfigView { state: 1, seed, authority, mint_x, mint_y, fee, config_bump }
    }

    /// Why `set_seed` refuses `seed` on this record, if it does.
    pub open spec fn set_seed_failure(self, seed: u64) -> Option<AmmError> {
        if seed == 0 {
            Some(AmmError::InvalidField)
        } else if self.seed != 0 {
            Some(AmmError::ImmutableField)
        } else {
            None
        }
    }

    /// Why `set_config_bump` refuses to write on this record, if it does.
    pub open spec fn set_config_bump_failure(self) -> Option<AmmError> {
        if self.config_bump != 0 {
            Some(AmmError::ImmutableField)
        } else {
            None
        }
    }

    /// Why `set_inner` refuses these values on this record, if it does: the
    /// first of its checks that fails, in the order seed, mint X, mint Y,
    /// fee, bump. No authority is refused: the all-zero sentinel makes a
    /// pool whose parameters nobody may change.
    pub open spec fn set_inner_failure(
        self,
        seed: u64,
        mint_x: Address,
        mint_y: Address,
        fee: u16,
    ) -> Option<AmmError> {
        if self.set_seed_failure(seed) is Some {
            self.set_seed_failure(seed)
        } else if mint_x == self.mint_y || mint_y == mint_x || fee >= 10_000 {
            Some(AmmError::InvalidField)
        } else {
            self.set_config_bump_failure()
        }
    }
}

/// Whether 108 stored bytes hold a record that keeps the invariant.
pub open spec fn admissible(bytes: Seq<u8>) -> bool {
    &&& bytes[0] <= 3
    &&& le_u16(bytes.subrange(105, 107)) < 10_000
    &&& bytes.subrange(41, 73) != bytes.subrange(73, 105)
}

/// The invariant is kept by every write that a setter accepts.
pub proof fn well_formed_is_kept(
    record: ConfigView,
    state: u8,
    seed: u64,
    authority: Address,
    mint_x: Address,
    mint_y: Address,
    fee: u16,
    config_bump: u8,
)
    requires
        record.well_formed(),
    ensures
        state <= 3 ==> (ConfigView { state, ..record }).well_formed(),
        (ConfigView { seed, ..record }).well_formed(),
        (ConfigView { authority, ..record }).well_formed(),
        mint_x != record.mint_y ==> (ConfigView { mint_x, ..record }).well_formed(),
        mint_y != record.mint_x ==> (ConfigView { mint_y, ..record }).well_formed(),
        fee < 10_000 ==> (ConfigView { fee, ..record }).well_formed(),
        (ConfigView { config_bump, ..record }).well_formed(),
{
}

/// The invariant holds of every record that is made whole: the one with
/// which a pool starts, and the one that `set_inner` leaves, whatever the
/// record held before.
pub proof fn whole_records_are_well_formed(
    before: ConfigView,
    seed: u64,
    authority: Address,
    mint_x: Address,
    mint_y: Address,
    fee: u16,
    config_bump: u8,
)
    ensures
        ConfigView::initial_failure(seed, mint_x, mint_y, fee) is None ==> ConfigView::initial(
            seed,
            authority,
            mint_x,
            mint_y,
            fee,
            config_bump,
        ).well_formed(),
        before.set_inner_failure(seed, mint_x, mint_y, fee) is None ==> (ConfigView {
            state: 1,
            seed,
            authority,
            mint_x,
            mint_y,
            fee,
            config_bump,
        }).well_formed(),
{
}

/// The seed is written once: after one successful write, every later write
/// of a seed that is itself acceptable is refused as a write to an immutable
/// field.
pub proof fn seed_is_write_once(record: ConfigView, first: u64, second: u64)
    requires
        record.set_seed_failure(first) is None,
        second != 0,
    ensures
        (ConfigView { seed: first, ..record }).set_seed_failure(second) == Some(
            AmmError::ImmutableField,
        ),
{
}

/// The bump is written once: after one successful write of a bump other than
/// zero, every later write is refused as a write to an immutable field.
pub proof fn config_bump_is_write_once(record: ConfigView, first: u8)
    requires
        record.set_config_bump_failure() is None,
        first != 0,
    ensures
        (ConfigView { config_bump: first, ..record }).set_config_bump_failure() == Some(
            AmmError::ImmutableField,
        ),
{
}

/// The stored bytes of a record are 108, and they spell that record.
pub proof fn encoding_reads_back(record: ConfigView)
    ensures
        record.encoding().len() == 108,
        record.read_from(record.encoding()),
{
    let bytes = record.encoding();
    u64_round_trip(record.seed);
    u16_round_trip(record.fee);
    assert(bytes.subrange(9, 41) =~= record.authority@);
    assert(bytes.subrange(41, 73) =~= record.mint_x@);
    assert(bytes.subrange(73, 105) =~= record.mint_y@);
}

/// 108 bytes spell one record only, and are that record's stored bytes.
pub proof fn read_from_is_unique(a: ConfigView, b: ConfigView, bytes: Seq<u8>)
    requires
        bytes.len() == 108,
        a.read_from(bytes),
        b.read_from(bytes),
    ensures
        a == b,
        a.encoding() == bytes,
{
    assert(a.authority =~= b.authority);
    assert(a.mint_x =~= b.mint_x);
    assert(a.mint_y =~= b.mint_y);
    u64_bytes_round_trip(bytes.subrange(1, 9));
    u16_bytes_round_trip(bytes.subrange(105, 107));
}

/// A record keeps the invariant exactly when its stored bytes are
/// admissible: so every record that `load` hands out keeps it.
pub proof fn admissible_means_well_formed(record: ConfigView, bytes: Seq<u8>)
    requires
        bytes.len() == 108,
        record.read_from(bytes),
    ensures
        record.well_formed() <==> admissible(bytes),
{
    if bytes.subrange(41, 73) == bytes.subrange(73, 105) {
        assert(record.mint_x =~= record.mint_y);
    }
}

impl View for Config {
    type V = ConfigView;

    closed spec fn view(&self) -> ConfigView {
        ConfigView {
            state: self.state,
            seed: self.seed,
            authority: self.authority,
            mint_x: self.mint_x,
            mint_y: self.mint_y,
            fee: self.fee,
            config_bump: self.config_bump@[0],
        }
    }
}

impl Default for Config {
    /// The blank record: every byte zero.
    fn default() -> (r: Config)
        ensures
            r@.state == 0,
            r@.seed == 0,
            is_zero(r@.authority),
            is_zero(r@.mint_x),
            is_zero(r@.mint_y),
            r@.fee == 0,
            r@.config_bump == 0,
    {
        Config {
            state: 0,
            seed: 0,
            authority: [0u8; 32],
            mint_x: [0u8; 32],
            mint_y: [0u8; 32],
            fee: 0,
            config_bump: [0u8; 1],
        }
    }
}

impl Config {
    /// The length in bytes of a stored record.
    pub const LEN: usize = 108;

    /// Makes the record with which a pool starts. The authority may be the
    /// all-zero sentinel: the pool's parameters then never change.
    pub fn initial(
        seed: u64,
        authority: Address,
        mint_x: Address,
        mint_y: Address,
        fee: u16,
        config_bump: [u8; 1],
    ) -> (r: Result<Config, AmmError>)
        ensures
            match r {
                Ok(c) => {
                    &&& ConfigView::initial_failure(seed, mint_x, mint_y, fee) is None
                    &&& c@ == ConfigView::initial(
                        seed,
                        authority,
                        mint_x,
                        mint_y,
                        fee,
                        config_bump@[0],
                    )
                    &&& c@.well_formed()
                },
                Err(e) => ConfigView::initial_failure(seed, mint_x, mint_y, fee) == Some(e),
            },
    {
        if seed == 0 || same_address(&mint_x, &mint_y) || fee >= 10_000 {
            return Err(AmmError::InvalidField);
        }
        Ok(
            Config {
                state: AmmState::Initialized.code(),
                seed,
                authority,
                mint_x,
                mint_y,
                fee,
                config_bump,
            },
        )
    }

    /// Why `load` refuses the account, if it does.
    pub open spec fn load_failure(account: &AccountRecord, engine: &Address) -> Option<AmmError> {
        if account.data@.len() != 108 {
            Some(AmmError::AccountShape)
        } else if account.owner != *engine {
            Some(AmmError::ForeignOwner)
        } else if !admissible(account.data@) {
            Some(AmmError::InvalidField)
        } else {
            None
        }
    }

    /// Reads the configuration record that an account holds.
    ///
    /// The account must hold exactly 108 bytes and be owned by `engine`, the
    /// identity of this program, and the record must keep the invariant.
    /// The length is looked at first, then the owner, then the fields.
    pub fn load(account: &AccountRecord, engine: &Address) -> (r: Result<Config, AmmError>)
        ensures
            match r {
                Ok(c) => {
                    &&& Self::load_failure(account, engine) is None
                    &&& c@.read_from(account.data@)
                    &&& c@.well_formed()
                },
                Err(e) => Self::load_failure(account, engine) == Some(e),
            },
    {
        let c = match Self::load_unchecked(account, engine) {
            Ok(read) => read,
            Err(e) => {
                return Err(e);
            },
        };
        let same_mints = same_address(&c.mint_x, &c.mint_y);
        proof {
            if account.data@.subrange(41, 73) == account.data@.subrange(73, 105) {
                assert(c.mint_x =~= c.mint_y);
            }
        }
        if c.state > 3 || c.fee >= 10_000 || same_mints {
            return Err(AmmError::InvalidField);
        }
        Ok(c)
    }

    /// Reads the configuration record that an account holds, as it stands.
    ///
    /// The account must hold exactly 108 bytes and be owned by `engine`, the
    /// length being looked at first, but no field is checked: this is how a
    /// record that is not filled in yet is read.
    pub fn load_unchecked(
        account: &AccountRecord,
        engine: &Address,
    ) -> (r: Result<Config, AmmError>)
        ensures
            match r {
                Ok(c) => {
                    &&& account.data@.len() == 108
                    &&& account.owner == *engine
                    &&& c@.read_from(account.data@)
                },
                Err(e) => {
                    &&& account.data@.len() != 108 || account.owner != *engine
                    &&& account.data@.len() != 108 ==> e == AmmError::AccountShape
                    &&& account.data@.len() == 108 ==> e == AmmError::ForeignOwner
                },
            },
    {
        if account.data.len() != Self::LEN {
            return Err(AmmError::AccountShape);
        }
        if !same_address(&account.owner, engine) {
            return Err(AmmError::ForeignOwner);
        }
        Ok(Self::from_bytes_unchecked(account.data.as_slice()))
    }

    /// Reads a record from the first 108 of `bytes` as they stand: no field
    /// is checked.
    pub fn from_bytes_unchecked(bytes: &[u8]) -> (r: Config)
        requires
            bytes@.len() >= 108,
        ensures
            r@.read_from(bytes@),
    {
        Config {
            state: bytes[0],
            seed: read_u64(bytes, 1),
            authority: read_address(bytes, 9),
            mint_x: read_address(bytes, 41),
            mint_y: read_address(bytes, 73),
            fee: read_u16(bytes, 105),
            config_bump: [bytes[107]],
        }
    }

    /// The 108 bytes to store for this record.
    pub fn to_bytes(&self) -> (r: Vec<u8>)
        ensures
            r@ == self@.encoding(),
            r@.len() == 108,
    {
        let mut out: Vec<u8> = Vec::new();
        out.push(self.state);
        push_u64(&mut out, self.seed);
        push_address(&mut out, &self.authority);
        push_address(&mut out, &self.mint_x);
        push_address(&mut out, &self.mint_y);
        push_u16(&mut out, self.fee);
        out.push(self.config_bump[0]);
        out
    }

    pub fn state(&self) -> (r: u8)
        ensures
            r == self@.state,
    {
        self.state
    }

    pub fn seed(&self) -> (r: u64)
        ensures
            r == self@.seed,
    {
        self.seed
    }

    pub fn authority(&self) -> (r: &Address)
        ensures
            *r == self@.authority,
    {
        &self.authority
    }

    pub fn mint_x(&self) -> (r: &Address)
        ensures
            *r == self@.mint_x,
    {
        &self.mint_x
    }

    pub fn mint_y(&self) -> (r: &Address)
        ensures
            *r == self@.mint_y,
    {
        &self.mint_y
    }

    pub fn fee(&self) -> (r: u16)
        ensures
            r == self@.fee,
    {
        self.fee
    }

    pub fn config_bump(&self) -> (r: [u8; 1])
        ensures
            r@ == seq![self@.config_bump],
    {
        self.config_bump
    }

    /// Sets the state, by code. A code that stands for none of the four
    /// states is refused.
    pub fn set_state(&mut self, state: u8) -> (r: Result<(), AmmError>)
        ensures
            match r {
                Ok(()) => {
                    &&& state <= 3
                    &&& final(self)@ == (ConfigView { state, ..old(self)@ })
                },
                Err(e) => {
                    &&& state > 3
                    &&& e == AmmError::InvalidField
                    &&& final(self)@ == old(self)@
                },
            },
            old(self)@.well_formed() ==> final(self)@.well_formed(),
    {
        if state > AmmState::WithdrawOnly.code() {
            return Err(AmmError::InvalidField);
        }
        self.state = state;
        Ok(())
    }

    /// Sets the fee, which must be below 10 000 basis points.
    pub fn set_fee(&mut self, fee: u16) -> (r: Result<(), AmmError>)
        ensures
            match r {
                Ok(()) => {
                    &&& fee < 10_000
                    &&& final(self)@ == (ConfigView { fee, ..old(self)@ })
                },
                Err(e) => {
                    &&& fee >= 10_000
                    &&& e == AmmError::InvalidField
                    &&& final(self)@ == old(self)@
                },
            },
            old(self)@.well_formed() ==> final(self)@.well_formed(),
    {
        if fee >= 10_000 {
            return Err(AmmError::InvalidField);
        }
        self.fee = fee;
        Ok(())
    }

    /// Names an authority, which must not be the all-zero sentinel.
    pub fn set_authority(&mut self, authority: Address) -> (r: Result<(), AmmError>)
        ensures
            match r {
                Ok(()) => {
                    &&& !is_zero(authority)
                    &&& final(self)@ == (ConfigView { authority, ..old(self)@ })
                },
                Err(e) => {
                    &&& is_zero(authority)
                    &&& e == AmmError::InvalidField
                    &&& final(self)@ == old(self)@
                },
            },
            old(self)@.well_formed() ==> final(self)@.well_formed(),
    {
        if is_zero_address(&authority) {
            return Err(AmmError::InvalidField);
        }
        self.authority = authority;
        Ok(())
    }

    /// Sets mint X, which must differ from mint Y.
    pub fn set_mint_x(&mut self, mint_x: Address) -> (r: Result<(), AmmError>)
        ensures
            match r {
                Ok(()) => {
                    &&& mint_x != old(self)@.mint_y
                    &&& final(self)@ == (ConfigView { mint_x, ..old(self)@ })
                },
                Err(e) => {
                    &&& mint_x == old(self)@.mint_y
                    &&& e == AmmError::InvalidField
                    &&& final(self)@ == old(self)@
                },
            },
            old(self)@.well_formed() ==> final(self)@.well_formed(),
    {
        if same_address(&mint_x, &self.mint_y) {
            return Err(AmmError::InvalidField);
        }
        self.mint_x = mint_x;
        Ok(())
    }

    /// Sets mint Y, which must differ from mint X.
    pub fn set_mint_y(&mut self, mint_y: Address) -> (r: Result<(), AmmError>)
        ensures
            match r {
                Ok(()) => {
                    &&& mint_y != old(self)@.mint_x
                    &&& final(self)@ == (ConfigView { mint_y, ..old(self)@ })
                },
                Err(e) => {
                    &&& mint_y == old(self)@.mint_x
                    &&& e == AmmError::InvalidField
                    &&& final(self)@ == old(self)@
                },
            },
            old(self)@.well_formed() ==> final(self)@.well_formed(),
    {
        if same_address(&mint_y, &self.mint_x) {
            return Err(AmmError::InvalidField);
        }
        self.mint_y = mint_y;
        Ok(())
    }

    /// Sets the seed, once. Zero is refused as a value; a record whose seed
    /// is set refuses every later write.
    pub fn set_seed(&mut self, seed: u64) -> (r: Result<(), AmmError>)
        ensures
            match r {
                Ok(()) => {
                    &&& old(self)@.set_seed_failure(seed) is None
                    &&& final(self)@ == (ConfigView { seed, ..old(self)@ })
                },
                Err(e) => {
                    &&& old(self)@.set_seed_failure(seed) == Some(e)
                    &&& final(self)@ == old(self)@
                },
            },
            old(self)@.well_formed() ==> final(self)@.well_formed(),
    {
        if seed == 0 {
            return Err(AmmError::InvalidField);
        }
        if self.seed != 0 {
            return Err(AmmError::ImmutableField);
        }
        self.seed = seed;
        Ok(())
    }

    /// Sets the bump, once: a record whose bump is not zero refuses every
    /// later write.
    pub fn set_config_bump(&mut self, bump: [u8; 1]) -> (r: Result<(), AmmError>)
        ensures
            match r {
                Ok(()) => {
                    &&& old(self)@.set_config_bump_failure() is None
                    &&& final(self)@ == (ConfigView { config_bump: bump@[0], ..old(self)@ })
                },
                Err(e) => {
                    &&& old(self)@.set_config_bump_failure() == Some(e)
                    &&& final(self)@ == old(self)@
                },
            },
            old(self)@.well_formed() ==> final(self)@.well_formed(),
    {
        if self.config_bump[0] != 0 {
            return Err(AmmError::ImmutableField);
        }
        self.config_bump = bump;
        Ok(())
    }

    /// Fills in a record in one step and marks it Initialized: either every
    /// field is written, or the record stays as it was. The authority is
    /// taken as it is given: the all-zero sentinel makes a pool whose
    /// parameters nobody may change.
    pub fn set_inner(
        &mut self,
        seed: u64,
        authority: Address,
        mint_x: Address,
        mint_y: Address,
        fee: u16,
        config_bump: [u8; 1],
    ) -> (r: Result<(), AmmError>)
        ensures
            match r {
                Ok(()) => {
                    &&& old(self)@.set_inner_failure(seed, mint_x, mint_y, fee) is None
                    &&& final(self)@ == (ConfigView {
                        state: 1,
                        seed,
                        authority,
                        mint_x,
                        mint_y,
                        fee,
                        config_bump: config_bump@[0],
                    })
                    &&& final(self)@.well_formed()
                },
                Err(e) => {
                    &&& old(self)@.set_inner_failure(seed, mint_x, mint_y, fee) == Some(e)
                    &&& final(self)@ == old(self)@
                },
            },
    {
        let mut next: Config = *self;
        next.set_state(AmmState::Initialized.code())?;
        next.set_seed(seed)?;
        next.authority = authority;
        next.set_mint_x(mint_x)?;
        next.set_mint_y(mint_y)?;
        next.set_fee(fee)?;
        next.set_config_bump(config_bump)?;
        *self = next;
        Ok(())
    }

    /// The authority, unless it is the all-zero sentinel.
    pub fn has_authority(&self) -> (r: Option<Address>)
        ensures
            r == if is_zero(self@.authority) {
                None
            } else {
                Some(self@.authority)
            },
    {
        if is_zero_address(&self.authority) {
            None
        } else {
            Some(self.authority)
        }
    }
}

} // verus!
