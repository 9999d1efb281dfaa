use auton_ledger::errors::SponsorError;
use auton_ledger::errors::TxError;
use auton_ledger::ledger::Ledger;

#[test]
fn sponsored_record_is_created_once() {
    let mut l = Ledger::new();
    let user: u64 = 5;
    assert_eq!(l.initialize_sponsored_user(user), Ok(()));
    let rec = l.sponsored_info(user).unwrap();
    assert_eq!(rec.user, user);
    assert!(!rec.is_sponsored);
    assert_eq!(rec.sponsored_at, 0);
    assert_eq!(rec.amount, 0);
    assert_eq!(l.initialize_sponsored_user(user), Err(TxError::AccountInUse));
}

#[test]
fn sponsorship_at_the_cap_succeeds() {
    let mut l = Ledger::new();
    let vault: u64 = 3;
    let user: u64 = 5;
    let now: i64 = 1_700_000_000;
    assert_eq!(l.credit(vault, 20_000_000), Ok(()));
    assert_eq!(l.initialize_sponsored_user(user), Ok(()));
    assert_eq!(l.sponsor_user(vault, user, 10_000_000, now), Ok(()));
    assert_eq!(l.balance(user), 10_000_000);
    assert_eq!(l.balance(vault), 10_000_000);
    let rec = l.sponsored_info(user).unwrap();
    assert!(rec.is_sponsored);
    assert_eq!(rec.sponsored_at, now);
    assert_eq!(rec.amount, 10_000_000);
}

#[test]
fn sponsorship_above_the_cap_fails() {
    let mut l = Ledger::new();
    let vault: u64 = 3;
    let user: u64 = 5;
    assert_eq!(l.credit(vault, 20_000_000), Ok(()));
    assert_eq!(l.initialize_sponsored_user(user), Ok(()));
    assert_eq!(
        l.sponsor_user(vault, user, 10_000_001, 1),
        Err(TxError::Sponsor(SponsorError::AmountTooLarge))
    );
    assert_eq!(l.balance(user), 0);
    assert!(!l.sponsored_info(user).unwrap().is_sponsored);
}

#[test]
fn sponsorship_is_one_shot() {
    let mut l = Ledger::new();
    let vault: u64 = 3;
    let user: u64 = 5;
    assert_eq!(l.credit(vault, 20_000_000), Ok(()));
    assert_eq!(l.initialize_sponsored_user(user), Ok(()));
    assert_eq!(l.sponsor_user(vault, user, 1_000, 1), Ok(()));
    assert_eq!(
        l.sponsor_user(vault, user, 1, 2),
        Err(TxError::Sponsor(SponsorError::AlreadySponsored))
    );
    assert_eq!(
        l.sponsor_user(vault, user, 10_000_001, 2),
        Err(TxError::Sponsor(SponsorError::AlreadySponsored))
    );
    assert_eq!(l.balance(user), 1_000);
    assert_eq!(l.balance(vault), 19_999_000);
    let rec = l.sponsored_info(user).unwrap();
    assert_eq!(rec.sponsored_at, 1);
    assert_eq!(rec.amount, 1_000);
}

#[test]
fn sponsorship_without_record_fails() {
    let mut l = Ledger::new();
    let vault: u64 = 3;
    assert_eq!(l.credit(vault, 20_000_000), Ok(()));
    assert_eq!(l.sponsor_user(vault, 5, 1_000, 1), Err(TxError::AccountNotFound));
}

#[test]
fn sponsorship_from_an_empty_vault_fails() {
    let mut l = Ledger::new();
    let vault: u64 = 3;
    let user: u64 = 5;
    assert_eq!(l.initialize_sponsored_user(user), Ok(()));
    assert_eq!(
        l.sponsor_user(vault, user, 1_000, 1),
        Err(TxError::InsufficientFunds)
    );
    assert!(!l.sponsored_info(user).unwrap().is_sponsored);
    assert_eq!(l.balance(user), 0);
}
