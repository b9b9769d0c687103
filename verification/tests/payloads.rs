use amm_engine::{
    AccountRecord, AmmError, Deposit, DepositAccounts, DepositInstructionData, Initialize,
    InitializeAccounts, InitializeInstructionData, Swap, SwapAccounts, SwapInstructionData,
    Withdraw, WithdrawAccounts, WithdrawInstructionData,
};

fn liquidity_payload(amount: u64, bound_x: u64, bound_y: u64, expiration: i64) -> Vec<u8> {
    let mut data = Vec::new();
    data.extend_from_slice(&amount.to_le_bytes());
    data.extend_from_slice(&bound_x.to_le_bytes());
    data.extend_from_slice(&bound_y.to_le_bytes());
    data.extend_from_slice(&expiration.to_le_bytes());
    data
}

fn swap_payload(direction: u8, amount: u64, min: u64, expiration: i64) -> Vec<u8> {
    let mut data = vec![direction];
    data.extend_from_slice(&amount.to_le_bytes());
    data.extend_from_slice(&min.to_le_bytes());
    data.extend_from_slice(&expiration.to_le_bytes());
    data
}

fn creation_payload(with_authority: bool) -> Vec<u8> {
    let mut data = Vec::new();
    data.extend_from_slice(&0x1122_3344_5566_7788u64.to_le_bytes());
    data.extend_from_slice(&30u16.to_le_bytes());
    data.extend_from_slice(&[1u8; 32]);
    data.extend_from_slice(&[2u8; 32]);
    data.push(254);
    data.push(253);
    if with_authority {
        data.extend_from_slice(&[9u8; 32]);
    }
    data
}

fn accounts(count: u8) -> Vec<AccountRecord> {
    (0..count)
        .map(|i| AccountRecord { key: [i + 1; 32], owner: [0xee; 32], data: vec![i] })
        .collect()
}

#[test]
fn deposit_payload_is_four_numbers() {
    let data = liquidity_payload(500, 1_000, 2_000, 1_700_000_000);
    assert_eq!(data.len(), 32);
    assert_eq!(
        DepositInstructionData::try_from(&data, 0),
        Ok(DepositInstructionData {
            amount: 500,
            max_x: 1_000,
            max_y: 2_000,
            expiration: 1_700_000_000
        })
    );
}

#[test]
fn deposit_payload_bytes_are_least_significant_first() {
    let mut data = vec![0u8; 32];
    data[0] = 0x01;
    data[7] = 0x80;
    data[8] = 0xff;
    data[9] = 0xff;
    data[23] = 0x01;
    data[24] = 0xfe;
    for byte in data.iter_mut().skip(25) {
        *byte = 0xff;
    }
    assert_eq!(
        DepositInstructionData::try_from(&data, i64::MIN),
        Ok(DepositInstructionData {
            amount: 0x8000_0000_0000_0001,
            max_x: 0xffff,
            max_y: 0x0100_0000_0000_0000,
            expiration: -2
        })
    );
}

#[test]
fn deposit_payload_of_wrong_length_is_refused() {
    let data = liquidity_payload(500, 1_000, 2_000, 10);
    assert_eq!(
        DepositInstructionData::try_from(&data[..31], 0),
        Err(AmmError::PayloadShape)
    );
    let mut long = data.clone();
    long.push(0);
    assert_eq!(DepositInstructionData::try_from(&long, 0), Err(AmmError::PayloadShape));
    assert_eq!(DepositInstructionData::try_from(&[], 0), Err(AmmError::PayloadShape));
}

#[test]
fn deposit_of_nothing_is_refused() {
    let data = liquidity_payload(0, 1_000, 2_000, 10);
    assert_eq!(DepositInstructionData::try_from(&data, 0), Err(AmmError::PayloadShape));
    assert_eq!(DepositInstructionData::try_from(&data, 11), Err(AmmError::PayloadShape));
}

#[test]
fn deposit_holds_through_its_expiration() {
    let data = liquidity_payload(1, 0, 0, 1_000);
    assert!(DepositInstructionData::try_from(&data, 999).is_ok());
    assert!(DepositInstructionData::try_from(&data, 1_000).is_ok());
    assert_eq!(DepositInstructionData::try_from(&data, 1_001), Err(AmmError::Expired));
    assert_eq!(DepositInstructionData::try_from(&data, i64::MAX), Err(AmmError::Expired));
}

#[test]
fn expiration_may_lie_before_the_epoch() {
    let data = liquidity_payload(1, 0, 0, -5);
    assert!(DepositInstructionData::try_from(&data, -5).is_ok());
    assert!(DepositInstructionData::try_from(&data, i64::MIN).is_ok());
    assert_eq!(DepositInstructionData::try_from(&data, -4), Err(AmmError::Expired));
    let last = liquidity_payload(1, 0, 0, i64::MAX);
    assert!(DepositInstructionData::try_from(&last, i64::MAX).is_ok());
    let first = liquidity_payload(1, 0, 0, i64::MIN);
    assert!(DepositInstructionData::try_from(&first, i64::MIN).is_ok());
    assert_eq!(DepositInstructionData::try_from(&first, i64::MIN + 1), Err(AmmError::Expired));
}

#[test]
fn withdraw_payload_is_four_numbers() {
    let data = liquidity_payload(10, 3, 4, 77);
    assert_eq!(
        WithdrawInstructionData::try_from(&data, 77),
        Ok(WithdrawInstructionData { amount: 10, min_x: 3, min_y: 4, expiration: 77 })
    );
}

#[test]
fn withdraw_payload_is_checked_like_a_deposit() {
    let data = liquidity_payload(10, 3, 4, 77);
    assert_eq!(
        WithdrawInstructionData::try_from(&data[..24], 0),
        Err(AmmError::PayloadShape)
    );
    assert_eq!(
        WithdrawInstructionData::try_from(&liquidity_payload(0, 3, 4, 77), 0),
        Err(AmmError::PayloadShape)
    );
    assert_eq!(WithdrawInstructionData::try_from(&data, 78), Err(AmmError::Expired));
}

#[test]
fn swap_payload_is_a_flag_and_three_numbers() {
    let data = swap_payload(1, 1_000, 900, 50);
    assert_eq!(data.len(), 25);
    assert_eq!(
        SwapInstructionData::try_from(&data, 50),
        Ok(SwapInstructionData { is_x: true, amount: 1_000, min: 900, expiration: 50 })
    );
    assert_eq!(
        SwapInstructionData::try_from(&swap_payload(0, 1_000, 900, 50), 50),
        Ok(SwapInstructionData { is_x: false, amount: 1_000, min: 900, expiration: 50 })
    );
    assert_eq!(
        SwapInstructionData::try_from(&swap_payload(7, u64::MAX, u64::MAX, -1), -1),
        Ok(SwapInstructionData { is_x: true, amount: u64::MAX, min: u64::MAX, expiration: -1 })
    );
}

#[test]
fn swap_payload_is_checked() {
    let data = swap_payload(1, 1_000, 900, 50);
    assert_eq!(SwapInstructionData::try_from(&data[..24], 0), Err(AmmError::PayloadShape));
    assert_eq!(
        SwapInstructionData::try_from(&liquidity_payload(1, 1, 1, 1), 0),
        Err(AmmError::PayloadShape)
    );
    assert_eq!(
        SwapInstructionData::try_from(&swap_payload(1, 0, 900, 50), 0),
        Err(AmmError::PayloadShape)
    );
    assert!(SwapInstructionData::try_from(&data, 50).is_ok());
    assert_eq!(SwapInstructionData::try_from(&data, 51), Err(AmmError::Expired));
}

#[test]
fn creation_payload_with_authority() {
    let data = creation_payload(true);
    assert_eq!(data.len(), 108);
    assert_eq!(
        InitializeInstructionData::try_from(&data),
        Ok(InitializeInstructionData {
            seed: 0x1122_3344_5566_7788,
            fee: 30,
            mint_x: [1u8; 32],
            mint_y: [2u8; 32],
            config_bump: [254],
            lp_bump: [253],
            authority: [9u8; 32],
        })
    );
}

#[test]
fn creation_payload_without_authority() {
    let data = creation_payload(false);
    assert_eq!(data.len(), 76);
    assert_eq!(
        InitializeInstructionData::try_from(&data),
        Ok(InitializeInstructionData {
            seed: 0x1122_3344_5566_7788,
            fee: 30,
            mint_x: [1u8; 32],
            mint_y: [2u8; 32],
            config_bump: [254],
            lp_bump: [253],
            authority: [0u8; 32],
        })
    );
}

#[test]
fn creation_payload_of_another_length_is_refused() {
    let data = creation_payload(true);
    for len in [0usize, 1, 75, 77, 107] {
        assert_eq!(
            InitializeInstructionData::try_from(&data[..len]),
            Err(AmmError::PayloadShape)
        );
    }
    let mut long = data.clone();
    long.push(0);
    assert_eq!(InitializeInstructionData::try_from(&long), Err(AmmError::PayloadShape));
}

#[test]
fn deposit_names_nine_accounts_in_order() {
    let list = accounts(9);
    let named = DepositAccounts::try_from(&list).unwrap();
    assert_eq!(named.user.key, [1u8; 32]);
    assert_eq!(named.mint_lp.key, [2u8; 32]);
    assert_eq!(named.vault_x.key, [3u8; 32]);
    assert_eq!(named.vault_y.key, [4u8; 32]);
    assert_eq!(named.user_x_ata.key, [5u8; 32]);
    assert_eq!(named.user_y_ata.key, [6u8; 32]);
    assert_eq!(named.user_lp_ata.key, [7u8; 32]);
    assert_eq!(named.config.key, [8u8; 32]);
    assert_eq!(named.token_program.key, [9u8; 32]);
    assert_eq!(named.config.data, vec![7u8]);
}

#[test]
fn withdraw_names_nine_accounts_in_order() {
    let list = accounts(9);
    let named = WithdrawAccounts::try_from(&list).unwrap();
    assert_eq!(named.user.key, [1u8; 32]);
    assert_eq!(named.mint_lp.key, [2u8; 32]);
    assert_eq!(named.vault_x.key, [3u8; 32]);
    assert_eq!(named.vault_y.key, [4u8; 32]);
    assert_eq!(named.user_x_ata.key, [5u8; 32]);
    assert_eq!(named.user_y_ata.key, [6u8; 32]);
    assert_eq!(named.user_lp_ata.key, [7u8; 32]);
    assert_eq!(named.config.key, [8u8; 32]);
    assert_eq!(named.token_program.key, [9u8; 32]);
}

#[test]
fn swap_names_seven_accounts_in_order() {
    let list = accounts(7);
    let named = SwapAccounts::try_from(&list).unwrap();
    assert_eq!(named.user.key, [1u8; 32]);
    assert_eq!(named.user_x_ata.key, [2u8; 32]);
    assert_eq!(named.user_y_ata.key, [3u8; 32]);
    assert_eq!(named.vault_x.key, [4u8; 32]);
    assert_eq!(named.vault_y.key, [5u8; 32]);
    assert_eq!(named.config.key, [6u8; 32]);
    assert_eq!(named.token_program.key, [7u8; 32]);
}

#[test]
fn creation_names_three_of_five_accounts() {
    let list = accounts(5);
    let named = InitializeAccounts::try_from(&list).unwrap();
    assert_eq!(named.initializer.key, [1u8; 32]);
    assert_eq!(named.mint_lp.key, [2u8; 32]);
    assert_eq!(named.config.key, [3u8; 32]);
}

#[test]
fn a_wrong_number_of_accounts_is_refused() {
    for count in [0u8, 1, 8, 10] {
        assert!(matches!(
            DepositAccounts::try_from(&accounts(count)),
            Err(AmmError::AccountShape)
        ));
        assert!(matches!(
            WithdrawAccounts::try_from(&accounts(count)),
            Err(AmmError::AccountShape)
        ));
    }
    for count in [0u8, 6, 8, 9] {
        assert!(matches!(SwapAccounts::try_from(&accounts(count)), Err(AmmError::AccountShape)));
    }
    for count in [0u8, 3, 4, 6] {
        assert!(matches!(
            InitializeAccounts::try_from(&accounts(count)),
            Err(AmmError::AccountShape)
        ));
    }
}

#[test]
fn accounts_are_looked_at_before_the_payload() {
    let bad_payload = [0u8; 3];
    assert!(matches!(
        Deposit::try_from(&bad_payload, &accounts(8), 0),
        Err(AmmError::AccountShape)
    ));
    assert!(matches!(
        Deposit::try_from(&bad_payload, &accounts(9), 0),
        Err(AmmError::PayloadShape)
    ));
    assert!(matches!(
        Withdraw::try_from(&bad_payload, &accounts(8), 0),
        Err(AmmError::AccountShape)
    ));
    assert!(matches!(
        Withdraw::try_from(&bad_payload, &accounts(9), 0),
        Err(AmmError::PayloadShape)
    ));
    assert!(matches!(Swap::try_from(&bad_payload, &accounts(9), 0), Err(AmmError::AccountShape)));
    assert!(matches!(Swap::try_from(&bad_payload, &accounts(7), 0), Err(AmmError::PayloadShape)));
    assert!(matches!(
        Initialize::try_from(&bad_payload, &accounts(7)),
        Err(AmmError::AccountShape)
    ));
    assert!(matches!(
        Initialize::try_from(&bad_payload, &accounts(5)),
        Err(AmmError::PayloadShape)
    ));
}

#[test]
fn whole_operations_are_read() {
    let nine = accounts(9);
    let deposit = Deposit::try_from(&liquidity_payload(5, 6, 7, 8), &nine, 8).unwrap();
    assert_eq!(deposit.instruction_data.amount, 5);
    assert_eq!(deposit.accounts.config.key, [8u8; 32]);
    let withdrawal = Withdraw::try_from(&liquidity_payload(5, 6, 7, 8), &nine, 8).unwrap();
    assert_eq!(withdrawal.instruction_data.min_y, 7);
    assert_eq!(withdrawal.accounts.user_lp_ata.key, [7u8; 32]);
    let seven = accounts(7);
    let swap = Swap::try_from(&swap_payload(0, 5, 6, 8), &seven, 8).unwrap();
    assert!(!swap.instruction_data.is_x);
    assert_eq!(swap.accounts.vault_y.key, [5u8; 32]);
    let five = accounts(5);
    let creation = Initialize::try_from(&creation_payload(false), &five).unwrap();
    assert_eq!(creation.instruction_data.fee, 30);
    assert_eq!(creation.accounts.mint_lp.key, [2u8; 32]);
    assert!(matches!(
        Deposit::try_from(&liquidity_payload(5, 6, 7, 8), &nine, 9),
        Err(AmmError::Expired)
    ));
}

#[test]
fn each_operation_has_its_selector() {
    assert_eq!(Initialize::DISCRIMINATOR, 0);
    assert_eq!(Deposit::DISCRIMINATOR, 1);
    assert_eq!(Withdraw::DISCRIMINATOR, 2);
    assert_eq!(Swap::DISCRIMINATOR, 3);
}
