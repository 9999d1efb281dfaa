use auton_ledger::storage::creator_space_for;
use auton_ledger::storage::username_space_for;

#[test]
fn creator_space_grows_by_the_per_item_budget() {
    // head: 8 + 32 + 8 + 4 = 52; per item: 8 + 4 + 128 + 8 + 4 + 100 = 252
    assert_eq!(creator_space_for(0), Some(52));
    assert_eq!(creator_space_for(1), Some(304));
    assert_eq!(creator_space_for(2), Some(556));
    assert_eq!(creator_space_for(3), Some(808));
}

#[test]
fn creator_space_reports_overflow() {
    assert_eq!(creator_space_for(u64::MAX), None);
}

#[test]
fn username_record_size_counts_the_name() {
    // 8 + 32 + 4 + name bytes
    assert_eq!(username_space_for(3), 47);
    assert_eq!(username_space_for(32), 76);
}
