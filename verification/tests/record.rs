use amm_engine::{AccountRecord, AmmError, AmmState, Config, Operation};

const ENGINE: [u8; 32] = [7u8; 32];
const MINT_X: [u8; 32] = [1u8; 32];
const MINT_Y: [u8; 32] = [2u8; 32];
const AUTHORITY: [u8; 32] = [9u8; 32];

fn stored(state: u8, seed: u64, fee: u16, bump: u8) -> Vec<u8> {
    let mut bytes = vec![state];
    bytes.extend_from_slice(&seed.to_le_bytes());
    bytes.extend_from_slice(&AUTHORITY);
    bytes.extend_from_slice(&MINT_X);
    bytes.extend_from_slice(&MINT_Y);
    bytes.extend_from_slice(&fee.to_le_bytes());
    bytes.push(bump);
    bytes
}

fn account(data: Vec<u8>) -> AccountRecord {
    AccountRecord { key: [5u8; 32], owner: ENGINE, data }
}

#[test]
fn record_length_is_108() {
    assert_eq!(Config::LEN, 108);
    assert_eq!(stored(1, 1, 30, 254).len(), 108);
}

#[test]
fn load_reads_every_field() {
    let config = Config::load(&account(stored(1, 0x0102_0304_0506_0708, 300, 254)), &ENGINE)
        .unwrap();
    assert_eq!(config.state(), 1);
    assert_eq!(config.seed(), 0x0102_0304_0506_0708);
    assert_eq!(config.authority(), &AUTHORITY);
    assert_eq!(config.mint_x(), &MINT_X);
    assert_eq!(config.mint_y(), &MINT_Y);
    assert_eq!(config.fee(), 300);
    assert_eq!(config.config_bump(), [254]);
}

#[test]
fn load_reads_numbers_least_significant_byte_first() {
    let mut bytes = stored(1, 0, 0, 0);
    bytes[1] = 0x34;
    bytes[2] = 0x12;
    bytes[105] = 0x0f;
    bytes[106] = 0x27;
    let config = Config::load(&account(bytes), &ENGINE).unwrap();
    assert_eq!(config.seed(), 0x1234);
    assert_eq!(config.fee(), 9_999);
}

#[test]
fn load_refuses_a_wrong_length() {
    let mut short = stored(1, 1, 30, 254);
    short.pop();
    assert_eq!(Config::load(&account(short), &ENGINE), Err(AmmError::AccountShape));
    let mut long = stored(1, 1, 30, 254);
    long.push(0);
    assert_eq!(Config::load(&account(long), &ENGINE), Err(AmmError::AccountShape));
    assert_eq!(Config::load(&account(Vec::new()), &ENGINE), Err(AmmError::AccountShape));
}

#[test]
fn load_refuses_a_foreign_owner() {
    let mut foreign = account(stored(1, 1, 30, 254));
    foreign.owner = [8u8; 32];
    assert_eq!(Config::load(&foreign, &ENGINE), Err(AmmError::ForeignOwner));
    foreign.data.pop();
    assert_eq!(Config::load(&foreign, &ENGINE), Err(AmmError::AccountShape));
    foreign.data = vec![0u8; 108];
    assert_eq!(Config::load(&foreign, &ENGINE), Err(AmmError::ForeignOwner));
}

#[test]
fn load_refuses_an_unknown_state() {
    assert_eq!(
        Config::load(&account(stored(4, 1, 30, 254)), &ENGINE),
        Err(AmmError::InvalidField)
    );
    assert!(Config::load(&account(stored(3, 1, 30, 254)), &ENGINE).is_ok());
}

#[test]
fn load_refuses_a_fee_of_100_percent() {
    assert_eq!(
        Config::load(&account(stored(1, 1, 10_000, 254)), &ENGINE),
        Err(AmmError::InvalidField)
    );
    assert!(Config::load(&account(stored(1, 1, 9_999, 254)), &ENGINE).is_ok());
}

#[test]
fn load_refuses_equal_mints() {
    let mut bytes = stored(1, 1, 30, 254);
    for i in 0..32 {
        bytes[73 + i] = bytes[41 + i];
    }
    assert_eq!(Config::load(&account(bytes), &ENGINE), Err(AmmError::InvalidField));
    assert_eq!(
        Config::load(&account(vec![0u8; 108]), &ENGINE),
        Err(AmmError::InvalidField)
    );
}

#[test]
fn loaded_records_keep_the_invariant() {
    for state in 0u8..=255 {
        for fee in [0u16, 1, 9_999, 10_000, 10_001, u16::MAX] {
            if let Ok(config) = Config::load(&account(stored(state, 1, fee, 1)), &ENGINE) {
                assert!(config.state() <= 3);
                assert!(config.fee() < 10_000);
                assert_ne!(config.mint_x(), config.mint_y());
            }
        }
    }
}

#[test]
fn unchecked_load_checks_length_and_owner_only() {
    let blank = Config::load_unchecked(&account(vec![0u8; 108]), &ENGINE).unwrap();
    assert_eq!(blank, Config::default());
    let odd = Config::load_unchecked(&account(stored(200, 0, 60_000, 0)), &ENGINE).unwrap();
    assert_eq!(odd.state(), 200);
    assert_eq!(odd.fee(), 60_000);
    assert_eq!(
        Config::load_unchecked(&account(vec![0u8; 107]), &ENGINE),
        Err(AmmError::AccountShape)
    );
    assert_eq!(
        Config::load_unchecked(&account(vec![0u8; 109]), &ENGINE),
        Err(AmmError::AccountShape)
    );
    assert_eq!(
        Config::load_unchecked(&account(vec![0u8; 108]), &[8u8; 32]),
        Err(AmmError::ForeignOwner)
    );
}

#[test]
fn a_blank_record_is_filled_in_and_stored() {
    let fresh = account(vec![0u8; 108]);
    assert_eq!(Config::load(&fresh, &ENGINE), Err(AmmError::InvalidField));
    let mut config = Config::load_unchecked(&fresh, &ENGINE).unwrap();
    config.set_inner(77, AUTHORITY, MINT_X, MINT_Y, 25, [255]).unwrap();
    let kept = account(config.to_bytes());
    assert_eq!(Config::load(&kept, &ENGINE), Ok(config));
    assert_eq!(kept.data, stored(1, 77, 25, 255));
}

#[test]
fn unchecked_read_checks_nothing() {
    let mut bytes = stored(200, 0, 60_000, 0);
    bytes.extend_from_slice(&[0xaa; 4]);
    let config = Config::from_bytes_unchecked(&bytes);
    assert_eq!(config.state(), 200);
    assert_eq!(config.seed(), 0);
    assert_eq!(config.fee(), 60_000);
    assert_eq!(config.mint_x(), &MINT_X);
}

#[test]
fn stored_bytes_read_back() {
    let bytes = stored(3, u64::MAX - 5, 9_999, 17);
    let config = Config::load(&account(bytes.clone()), &ENGINE).unwrap();
    assert_eq!(config.to_bytes(), bytes);
    let again = Config::from_bytes_unchecked(&config.to_bytes());
    assert_eq!(again, config);
}

#[test]
fn stored_bytes_of_a_known_record() {
    let mut config = Config::default();
    config.set_inner(0x0807_0605_0403_0201, AUTHORITY, MINT_X, MINT_Y, 0x0102, [0xfe]).unwrap();
    let bytes = config.to_bytes();
    assert_eq!(bytes.len(), 108);
    assert_eq!(bytes[0], 1);
    assert_eq!(&bytes[1..9], &[1, 2, 3, 4, 5, 6, 7, 8]);
    assert_eq!(&bytes[9..41], &AUTHORITY);
    assert_eq!(&bytes[41..73], &MINT_X);
    assert_eq!(&bytes[73..105], &MINT_Y);
    assert_eq!(&bytes[105..107], &[2, 1]);
    assert_eq!(bytes[107], 0xfe);
}

#[test]
fn blank_record_is_all_zero() {
    let blank = Config::default();
    assert_eq!(blank.to_bytes(), vec![0u8; 108]);
    assert_eq!(blank.state(), AmmState::Uninitialized.code());
    assert_eq!(blank.has_authority(), None);
}

#[test]
fn set_state_takes_the_four_codes() {
    let mut config = Config::default();
    for code in [1u8, 2, 3, 0] {
        assert_eq!(config.set_state(code), Ok(()));
        assert_eq!(config.state(), code);
    }
    assert_eq!(config.set_state(AmmState::WithdrawOnly.code()), Ok(()));
    assert_eq!(config.set_state(4), Err(AmmError::InvalidField));
    assert_eq!(config.set_state(255), Err(AmmError::InvalidField));
    assert_eq!(config.state(), 3);
}

#[test]
fn set_fee_stops_short_of_100_percent() {
    let mut config = Config::default();
    assert_eq!(config.set_fee(9_999), Ok(()));
    assert_eq!(config.fee(), 9_999);
    assert_eq!(config.set_fee(10_000), Err(AmmError::InvalidField));
    assert_eq!(config.set_fee(u16::MAX), Err(AmmError::InvalidField));
    assert_eq!(config.fee(), 9_999);
    assert_eq!(config.set_fee(0), Ok(()));
    assert_eq!(config.fee(), 0);
}

#[test]
fn set_authority_refuses_the_sentinel() {
    let mut config = Config::default();
    assert_eq!(config.set_authority([0u8; 32]), Err(AmmError::InvalidField));
    assert_eq!(config.has_authority(), None);
    let mut faint = [0u8; 32];
    faint[31] = 1;
    assert_eq!(config.set_authority(faint), Ok(()));
    assert_eq!(config.authority(), &faint);
    assert_eq!(config.has_authority(), Some(faint));
}

#[test]
fn mints_must_differ() {
    let mut config = Config::default();
    assert_eq!(config.set_mint_x([0u8; 32]), Err(AmmError::InvalidField));
    assert_eq!(config.set_mint_x(MINT_X), Ok(()));
    assert_eq!(config.set_mint_y(MINT_X), Err(AmmError::InvalidField));
    assert_eq!(config.set_mint_y(MINT_Y), Ok(()));
    assert_eq!(config.set_mint_x(MINT_Y), Err(AmmError::InvalidField));
    assert_eq!(config.mint_x(), &MINT_X);
    assert_eq!(config.mint_y(), &MINT_Y);
}

#[test]
fn seed_is_written_once() {
    let mut config = Config::default();
    assert_eq!(config.set_seed(0), Err(AmmError::InvalidField));
    assert_eq!(config.set_seed(41), Ok(()));
    assert_eq!(config.set_seed(42), Err(AmmError::ImmutableField));
    assert_eq!(config.set_seed(41), Err(AmmError::ImmutableField));
    assert_eq!(config.set_seed(0), Err(AmmError::InvalidField));
    assert_eq!(config.seed(), 41);
}

#[test]
fn bump_is_written_once() {
    let mut config = Config::default();
    assert_eq!(config.set_config_bump([0]), Ok(()));
    assert_eq!(config.set_config_bump([253]), Ok(()));
    assert_eq!(config.set_config_bump([252]), Err(AmmError::ImmutableField));
    assert_eq!(config.set_config_bump([0]), Err(AmmError::ImmutableField));
    assert_eq!(config.config_bump(), [253]);
}

#[test]
fn set_inner_fills_a_blank_record() {
    let mut config = Config::default();
    assert_eq!(config.set_inner(11, AUTHORITY, MINT_X, MINT_Y, 30, [254]), Ok(()));
    assert_eq!(config.state(), 1);
    assert_eq!(config.seed(), 11);
    assert_eq!(config.authority(), &AUTHORITY);
    assert_eq!(config.mint_x(), &MINT_X);
    assert_eq!(config.mint_y(), &MINT_Y);
    assert_eq!(config.fee(), 30);
    assert_eq!(config.config_bump(), [254]);
    assert_eq!(config.to_bytes(), stored(1, 11, 30, 254));
}

#[test]
fn set_inner_makes_a_pool_without_authority() {
    let mut config = Config::load_unchecked(&account(vec![0u8; 108]), &ENGINE).unwrap();
    assert_eq!(config.set_inner(1, [0u8; 32], [1u8; 32], [2u8; 32], 30, [255]), Ok(()));
    assert_eq!(config.has_authority(), None);
    assert_eq!(config.authority(), &[0u8; 32]);
    assert_eq!(config.state(), 1);
    assert_eq!(config.seed(), 1);
    assert_eq!(config.mint_x(), &[1u8; 32]);
    assert_eq!(config.mint_y(), &[2u8; 32]);
    assert_eq!(config.fee(), 30);
    assert_eq!(config.config_bump(), [255]);
    assert_eq!(Config::initial(1, [0u8; 32], [1u8; 32], [2u8; 32], 30, [255]), Ok(config));
}

#[test]
fn set_inner_changes_nothing_when_it_fails() {
    let blank = Config::default();
    let mut config = blank;
    assert_eq!(
        config.set_inner(0, AUTHORITY, MINT_X, MINT_Y, 30, [254]),
        Err(AmmError::InvalidField)
    );
    assert_eq!(config, blank);
    assert_eq!(
        config.set_inner(11, AUTHORITY, MINT_X, MINT_X, 30, [254]),
        Err(AmmError::InvalidField)
    );
    assert_eq!(config, blank);
    assert_eq!(
        config.set_inner(11, AUTHORITY, MINT_X, MINT_Y, 10_000, [254]),
        Err(AmmError::InvalidField)
    );
    assert_eq!(config, blank);
}

#[test]
fn set_inner_refuses_a_record_already_filled() {
    let mut config = Config::default();
    config.set_inner(11, AUTHORITY, MINT_X, MINT_Y, 30, [254]).unwrap();
    let filled = config;
    assert_eq!(
        config.set_inner(12, AUTHORITY, MINT_Y, MINT_X, 31, [253]),
        Err(AmmError::ImmutableField)
    );
    assert_eq!(config, filled);
    let mut seedless = Config::default();
    seedless.set_config_bump([9]).unwrap();
    let before = seedless;
    assert_eq!(
        seedless.set_inner(12, AUTHORITY, MINT_X, MINT_Y, 31, [253]),
        Err(AmmError::ImmutableField)
    );
    assert_eq!(seedless, before);
}

#[test]
fn setters_keep_the_invariant() {
    let mut config = Config::load(&account(stored(1, 1, 30, 254)), &ENGINE).unwrap();
    let _ = config.set_state(7);
    let _ = config.set_state(2);
    let _ = config.set_fee(20_000);
    let _ = config.set_fee(5);
    let _ = config.set_mint_x(MINT_Y);
    let _ = config.set_mint_y(MINT_X);
    let _ = config.set_mint_x([3u8; 32]);
    let _ = config.set_seed(2);
    let _ = config.set_config_bump([1]);
    let _ = config.set_authority([0u8; 32]);
    assert!(config.state() <= 3);
    assert!(config.fee() < 10_000);
    assert_ne!(config.mint_x(), config.mint_y());
    assert_eq!(config.state(), 2);
    assert_eq!(config.fee(), 5);
    assert_eq!(config.mint_x(), &[3u8; 32]);
    assert_eq!(config.seed(), 1);
    assert_eq!(config.config_bump(), [254]);
}

#[test]
fn initial_record_may_have_no_authority() {
    let config = Config::initial(5, [0u8; 32], MINT_X, MINT_Y, 30, [250]).unwrap();
    assert_eq!(config.state(), 1);
    assert_eq!(config.seed(), 5);
    assert_eq!(config.has_authority(), None);
    assert_eq!(config.fee(), 30);
    assert_eq!(config.config_bump(), [250]);
    assert_eq!(Config::initial(0, AUTHORITY, MINT_X, MINT_Y, 30, [250]), Err(AmmError::InvalidField));
    assert_eq!(Config::initial(5, AUTHORITY, MINT_X, MINT_X, 30, [250]), Err(AmmError::InvalidField));
    assert_eq!(
        Config::initial(5, AUTHORITY, MINT_X, MINT_Y, 10_000, [250]),
        Err(AmmError::InvalidField)
    );
}

#[test]
fn state_codes() {
    assert_eq!(AmmState::Uninitialized.code(), 0);
    assert_eq!(AmmState::Initialized.code(), 1);
    assert_eq!(AmmState::Disabled.code(), 2);
    assert_eq!(AmmState::WithdrawOnly.code(), 3);
    assert_eq!(AmmState::from_code(0), Some(AmmState::Uninitialized));
    assert_eq!(AmmState::from_code(1), Some(AmmState::Initialized));
    assert_eq!(AmmState::from_code(2), Some(AmmState::Disabled));
    assert_eq!(AmmState::from_code(3), Some(AmmState::WithdrawOnly));
    assert_eq!(AmmState::from_code(4), None);
    assert_eq!(AmmState::from_code(255), None);
}

#[test]
fn only_initialized_is_initialized() {
    assert!(AmmState::Initialized.is_initialized());
    assert!(!AmmState::Uninitialized.is_initialized());
    assert!(!AmmState::Disabled.is_initialized());
    assert!(!AmmState::WithdrawOnly.is_initialized());
}

#[test]
fn table_of_permissions() {
    let states = [
        AmmState::Uninitialized,
        AmmState::Initialized,
        AmmState::Disabled,
        AmmState::WithdrawOnly,
    ];
    let deposits = [false, true, false, false];
    let swaps = [false, true, false, false];
    let withdrawals = [true, true, false, true];
    for i in 0..4 {
        assert_eq!(states[i].permits(Operation::Deposit), deposits[i]);
        assert_eq!(states[i].permits(Operation::Swap), swaps[i]);
        assert_eq!(states[i].permits(Operation::Withdraw), withdrawals[i]);
    }
}
