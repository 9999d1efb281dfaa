use auton_ledger::errors::CustomError;
use auton_ledger::errors::TxError;
use auton_ledger::ledger::Ledger;

#[test]
fn username_too_short_is_rejected() {
    let mut l = Ledger::new();
    let alice: u64 = 1;
    assert_eq!(
        l.register_username(alice, String::from("ab")),
        Err(TxError::Custom(CustomError::InvalidUsername))
    );
    assert_eq!(l.username_owner(&String::from("ab")), None);
}

#[test]
fn username_too_long_is_rejected() {
    let mut l = Ledger::new();
    let alice: u64 = 1;
    let name = "a".repeat(33);
    assert_eq!(
        l.register_username(alice, name.clone()),
        Err(TxError::Custom(CustomError::InvalidUsername))
    );
    assert_eq!(l.username_owner(&name), None);
}

#[test]
fn username_with_bad_characters_is_rejected() {
    let mut l = Ledger::new();
    let alice: u64 = 1;
    for bad in ["bad-name", "bad name", "bad!", "a.bc", "ab\u{e7}d"] {
        assert_eq!(
            l.register_username(alice, String::from(bad)),
            Err(TxError::Custom(CustomError::InvalidUsername))
        );
    }
}

#[test]
fn username_of_length_three_succeeds() {
    let mut l = Ledger::new();
    let alice: u64 = 1;
    assert_eq!(l.register_username(alice, String::from("abc")), Ok(()));
    assert_eq!(l.username_owner(&String::from("abc")), Some(alice));
}

#[test]
fn username_of_length_thirty_two_succeeds() {
    let mut l = Ledger::new();
    let alice: u64 = 1;
    let name = "x".repeat(32);
    assert_eq!(l.register_username(alice, name.clone()), Ok(()));
    assert_eq!(l.username_owner(&name), Some(alice));
}

#[test]
fn username_with_digits_and_underscore_succeeds() {
    let mut l = Ledger::new();
    let alice: u64 = 1;
    assert_eq!(l.register_username(alice, String::from("user_123")), Ok(()));
    assert_eq!(l.username_owner(&String::from("user_123")), Some(alice));
}

#[test]
fn username_can_be_claimed_only_once() {
    let mut l = Ledger::new();
    let alice: u64 = 1;
    let bob: u64 = 2;
    assert_eq!(l.register_username(alice, String::from("taken")), Ok(()));
    assert_eq!(
        l.register_username(bob, String::from("taken")),
        Err(TxError::AccountInUse)
    );
    assert_eq!(
        l.register_username(alice, String::from("taken")),
        Err(TxError::AccountInUse)
    );
    assert_eq!(l.username_owner(&String::from("taken")), Some(alice));
}

#[test]
fn creator_account_is_created_once() {
    let mut l = Ledger::new();
    let carol: u64 = 7;
    assert_eq!(l.initialize_creator(carol), Ok(()));
    assert_eq!(l.content_count(carol), Some(0));
    assert_eq!(l.initialize_creator(carol), Err(TxError::AccountInUse));
}

#[test]
fn content_ids_count_up_from_one_in_insertion_order() {
    let mut l = Ledger::new();
    let carol: u64 = 7;
    assert_eq!(l.initialize_creator(carol), Ok(()));
    assert_eq!(
        l.add_content(carol, String::from("zebra"), 9_999, vec![9, 9]),
        Ok(())
    );
    assert_eq!(
        l.add_content(carol, String::from("apple"), 1, vec![]),
        Ok(())
    );
    assert_eq!(
        l.add_content(carol, String::from("mango"), 500_000, vec![1, 2, 3]),
        Ok(())
    );
    assert_eq!(l.content_count(carol), Some(3));
    assert_eq!(l.content_id_at(carol, 0), Some(1));
    assert_eq!(l.content_id_at(carol, 1), Some(2));
    assert_eq!(l.content_id_at(carol, 2), Some(3));
    assert_eq!(l.content_id_at(carol, 3), None);
    assert_eq!(l.content_title_at(carol, 0), Some(String::from("zebra")));
    assert_eq!(l.content_title_at(carol, 1), Some(String::from("apple")));
    assert_eq!(l.content_title_at(carol, 2), Some(String::from("mango")));
    assert_eq!(l.content_price(carol, 1), Some(9_999));
    assert_eq!(l.content_price(carol, 2), Some(1));
    assert_eq!(l.content_price(carol, 3), Some(500_000));
}

#[test]
fn add_content_without_account_fails() {
    let mut l = Ledger::new();
    let nobody: u64 = 99;
    assert_eq!(
        l.add_content(nobody, String::from("ghost"), 1, vec![]),
        Err(TxError::AccountNotFound)
    );
}
