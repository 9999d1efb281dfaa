use auton_ledger::errors::CustomError;
use auton_ledger::errors::TxError;
use auton_ledger::ledger::Ledger;

#[test]
fn payment_for_unknown_id_fails_and_moves_nothing() {
    let mut l = Ledger::new();
    let carol: u64 = 7;
    let bob: u64 = 2;
    assert_eq!(l.initialize_creator(carol), Ok(()));
    assert_eq!(
        l.add_content(carol, String::from("post"), 1_000, vec![1]),
        Ok(())
    );
    assert_eq!(l.credit(bob, 50_000), Ok(()));
    assert_eq!(
        l.process_payment(bob, carol, 42),
        Err(TxError::Custom(CustomError::ContentNotFound))
    );
    assert_eq!(l.balance(bob), 50_000);
    assert_eq!(l.balance(carol), 0);
    assert!(!l.has_access(bob, 42));
}

#[test]
fn payment_for_unknown_creator_fails() {
    let mut l = Ledger::new();
    let bob: u64 = 2;
    assert_eq!(l.credit(bob, 50_000), Ok(()));
    assert_eq!(l.process_payment(bob, 77, 1), Err(TxError::AccountNotFound));
    assert_eq!(l.balance(bob), 50_000);
}

#[test]
fn payment_settles_once_and_repeat_fails() {
    let mut l = Ledger::new();
    let carol: u64 = 7;
    let bob: u64 = 2;
    assert_eq!(l.initialize_creator(carol), Ok(()));
    assert_eq!(
        l.add_content(carol, String::from("post"), 1_000, vec![1]),
        Ok(())
    );
    assert_eq!(l.credit(bob, 50_000), Ok(()));

    assert_eq!(l.process_payment(bob, carol, 1), Ok(()));
    assert_eq!(l.balance(bob), 49_000);
    assert_eq!(l.balance(carol), 1_000);
    assert!(l.has_access(bob, 1));

    assert_eq!(l.process_payment(bob, carol, 1), Err(TxError::AccountInUse));
    assert_eq!(l.balance(bob), 49_000);
    assert_eq!(l.balance(carol), 1_000);
}

#[test]
fn payment_with_short_balance_fails_whole() {
    let mut l = Ledger::new();
    let carol: u64 = 7;
    let bob: u64 = 2;
    assert_eq!(l.initialize_creator(carol), Ok(()));
    assert_eq!(
        l.add_content(carol, String::from("post"), 1_000, vec![1]),
        Ok(())
    );
    assert_eq!(l.credit(bob, 999), Ok(()));
    assert_eq!(
        l.process_payment(bob, carol, 1),
        Err(TxError::InsufficientFunds)
    );
    assert_eq!(l.balance(bob), 999);
    assert_eq!(l.balance(carol), 0);
    assert!(!l.has_access(bob, 1));
}

#[test]
fn credit_overflow_fails() {
    let mut l = Ledger::new();
    let bob: u64 = 2;
    assert_eq!(l.credit(bob, u64::MAX), Ok(()));
    assert_eq!(l.credit(bob, 1), Err(TxError::ArithmeticOverflow));
    assert_eq!(l.balance(bob), u64::MAX);
}

#[test]
fn end_to_end_payment_flow() {
    let mut l = Ledger::new();
    let carol: u64 = 7;
    let bob: u64 = 2;
    assert_eq!(l.initialize_creator(carol), Ok(()));
    assert_eq!(
        l.add_content(carol, String::from("premiere"), 5_000_000, vec![4, 2]),
        Ok(())
    );
    assert_eq!(l.content_id_at(carol, 0), Some(1));
    assert_eq!(l.credit(bob, 9_000_000), Ok(()));

    assert_eq!(l.process_payment(bob, carol, 1), Ok(()));
    assert_eq!(l.balance(bob), 4_000_000);
    assert_eq!(l.balance(carol), 5_000_000);
    assert!(l.has_access(bob, 1));

    assert_eq!(l.process_payment(bob, carol, 1), Err(TxError::AccountInUse));
    assert_eq!(l.balance(bob), 4_000_000);
    assert_eq!(l.balance(carol), 5_000_000);
}
