use auton_ledger::errors::TxError;
use auton_ledger::errors::VaultError;
use auton_ledger::ledger::Ledger;

#[test]
fn vault_is_created_once_with_given_parameters() {
    let mut l = Ledger::new();
    let admin: u64 = 10;
    let wallet: u64 = 11;
    assert_eq!(l.initialize_vault(admin, wallet, 250, 5_000), Ok(()));
    let v = l.vault_info().unwrap();
    assert_eq!(v.admin, admin);
    assert_eq!(v.vault_wallet, wallet);
    assert_eq!(v.fee_percentage, 250);
    assert_eq!(v.sponsorship_amount, 5_000);
    assert_eq!(v.total_collected, 0);
    assert_eq!(v.total_sponsored, 0);
    assert!(v.is_initialized);
    assert_eq!(
        l.initialize_vault(admin, wallet, 300, 1),
        Err(TxError::AccountInUse)
    );
}

#[test]
fn vault_operations_before_creation_fail() {
    let mut l = Ledger::new();
    assert_eq!(l.update_admin(1, 2), Err(TxError::AccountNotFound));
    assert_eq!(l.update_fee_percentage(1, 10), Err(TxError::AccountNotFound));
    assert_eq!(l.update_sponsorship_amount(1, 10), Err(TxError::AccountNotFound));
    assert_eq!(l.collect_fees(1, 10), Err(TxError::AccountNotFound));
    assert_eq!(l.withdraw(1, 10, 2), Err(TxError::AccountNotFound));
    assert_eq!(l.record_sponsorship(10), Err(TxError::AccountNotFound));
}

#[test]
fn admin_can_be_replaced_by_admin_only() {
    let mut l = Ledger::new();
    let admin: u64 = 10;
    let stranger: u64 = 66;
    let heir: u64 = 12;
    assert_eq!(l.initialize_vault(admin, 11, 250, 5_000), Ok(()));
    assert_eq!(
        l.update_admin(stranger, heir),
        Err(TxError::Vault(VaultError::Unauthorized))
    );
    assert_eq!(l.update_admin(admin, heir), Ok(()));
    assert_eq!(l.vault_info().unwrap().admin, heir);
    assert_eq!(
        l.update_admin(admin, admin),
        Err(TxError::Vault(VaultError::Unauthorized))
    );
}

#[test]
fn fee_of_one_hundred_percent_is_the_limit() {
    let mut l = Ledger::new();
    let admin: u64 = 10;
    assert_eq!(l.initialize_vault(admin, 11, 250, 5_000), Ok(()));
    assert_eq!(l.update_fee_percentage(admin, 10_000), Ok(()));
    assert_eq!(l.vault_info().unwrap().fee_percentage, 10_000);
    assert_eq!(
        l.update_fee_percentage(admin, 10_001),
        Err(TxError::Vault(VaultError::InvalidFee))
    );
    assert_eq!(l.vault_info().unwrap().fee_percentage, 10_000);
    assert_eq!(
        l.update_fee_percentage(66, 100),
        Err(TxError::Vault(VaultError::Unauthorized))
    );
}

#[test]
fn sponsorship_amount_is_capped() {
    let mut l = Ledger::new();
    let admin: u64 = 10;
    assert_eq!(l.initialize_vault(admin, 11, 250, 5_000), Ok(()));
    assert_eq!(l.update_sponsorship_amount(admin, 10_000_000), Ok(()));
    assert_eq!(l.vault_info().unwrap().sponsorship_amount, 10_000_000);
    assert_eq!(
        l.update_sponsorship_amount(admin, 10_000_001),
        Err(TxError::Vault(VaultError::AmountTooLarge))
    );
    assert_eq!(
        l.update_sponsorship_amount(66, 1),
        Err(TxError::Vault(VaultError::Unauthorized))
    );
}

#[test]
fn collect_fees_moves_the_floored_fee() {
    let mut l = Ledger::new();
    let admin: u64 = 10;
    let wallet: u64 = 11;
    let payer: u64 = 2;
    assert_eq!(l.initialize_vault(admin, wallet, 250, 5_000), Ok(()));
    assert_eq!(l.credit(payer, 1_000_000), Ok(()));
    assert_eq!(l.collect_fees(payer, 1_000_000), Ok(()));
    assert_eq!(l.balance(payer), 975_000);
    assert_eq!(l.balance(wallet), 25_000);
    assert_eq!(l.vault_info().unwrap().total_collected, 25_000);
}

#[test]
fn collect_fees_rounds_down_never_up() {
    let mut l = Ledger::new();
    let admin: u64 = 10;
    let wallet: u64 = 11;
    let payer: u64 = 2;
    assert_eq!(l.initialize_vault(admin, wallet, 250, 5_000), Ok(()));
    assert_eq!(l.credit(payer, 1_000), Ok(()));
    // 999 * 250 / 10000 = 24.975, so exactly 24 units move
    assert_eq!(l.collect_fees(payer, 999), Ok(()));
    assert_eq!(l.balance(payer), 976);
    assert_eq!(l.balance(wallet), 24);
    assert_eq!(l.vault_info().unwrap().total_collected, 24);
}

#[test]
fn collect_fees_with_overflowing_product_fails() {
    let mut l = Ledger::new();
    let admin: u64 = 10;
    let payer: u64 = 2;
    assert_eq!(l.initialize_vault(admin, 11, 10_000, 5_000), Ok(()));
    assert_eq!(l.credit(payer, 1_000), Ok(()));
    assert_eq!(
        l.collect_fees(payer, u64::MAX),
        Err(TxError::ArithmeticOverflow)
    );
    assert_eq!(l.balance(payer), 1_000);
    assert_eq!(l.vault_info().unwrap().total_collected, 0);
}

#[test]
fn withdraw_to_the_reserve_floor_succeeds() {
    let mut l = Ledger::new();
    let admin: u64 = 10;
    let wallet: u64 = 11;
    let heir: u64 = 12;
    assert_eq!(l.initialize_vault(admin, wallet, 250, 5_000), Ok(()));
    assert_eq!(l.credit(wallet, 5_000_001_000), Ok(()));
    assert_eq!(l.withdraw(admin, 1_000, heir), Ok(()));
    assert_eq!(l.balance(wallet), 5_000_000_000);
    assert_eq!(l.balance(heir), 1_000);
}

#[test]
fn withdraw_below_the_reserve_floor_fails() {
    let mut l = Ledger::new();
    let admin: u64 = 10;
    let wallet: u64 = 11;
    let heir: u64 = 12;
    assert_eq!(l.initialize_vault(admin, wallet, 250, 5_000), Ok(()));
    assert_eq!(l.credit(wallet, 5_000_001_000), Ok(()));
    assert_eq!(
        l.withdraw(admin, 1_001, heir),
        Err(TxError::Vault(VaultError::InsufficientBalance))
    );
    assert_eq!(l.balance(wallet), 5_000_001_000);
    assert_eq!(l.balance(heir), 0);
    assert_eq!(
        l.withdraw(66, 1_000, heir),
        Err(TxError::Vault(VaultError::Unauthorized))
    );
}

#[test]
fn record_sponsorship_accumulates() {
    let mut l = Ledger::new();
    assert_eq!(l.initialize_vault(10, 11, 250, 5_000), Ok(()));
    assert_eq!(l.record_sponsorship(4_000), Ok(()));
    assert_eq!(l.record_sponsorship(6_000), Ok(()));
    assert_eq!(l.vault_info().unwrap().total_sponsored, 10_000);
    assert_eq!(
        l.record_sponsorship(u64::MAX),
        Err(TxError::ArithmeticOverflow)
    );
    assert_eq!(l.vault_info().unwrap().total_sponsored, 10_000);
}
