//! Storage budgets: the byte sizes the host store allocates for records.
//!
//! A creator account is grown on every append using a fixed per-item budget.
//! The formula is a compatibility contract with the stored layout: it must
//! never underestimate what an item actually takes, or the growth falls
//! short. [`lemma_item_budget_is_conservative`] proves the budget covers
//! every item whose title and locator fit their reserved sizes.

use vstd::prelude::*;

verus! {

/// Bytes of the fixed type discriminator every stored record starts with.
pub const DISCRIMINATOR_BYTES: u64 = 8;

/// Bytes of a stored address.
pub const ADDRESS_BYTES: u64 = 32;

/// Bytes of the length prefix written before a string or byte blob.
pub const LEN_PREFIX_BYTES: u64 = 4;

/// The byte budget reserved for one item's title.
pub const TITLE_BYTE_BUDGET: u64 = 128;

/// The byte budget reserved for one item's payload locator.
pub const LOCATOR_BYTE_BUDGET: u64 = 100;

/// The conservative per-item budget: id, length-prefixed title, price and
/// length-prefixed locator, each at its reserved size.
pub const ITEM_BYTE_BUDGET: u64 = 8 + LEN_PREFIX_BYTES + TITLE_BYTE_BUDGET + 8 + LEN_PREFIX_BYTES
    + LOCATOR_BYTE_BUDGET;

/// The fixed head of a creator account: discriminator, wallet, id counter
/// and the catalog's length prefix.
pub const CREATOR_BASE_BYTES: u64 = DISCRIMINATOR_BYTES + ADDRESS_BYTES + 8 + LEN_PREFIX_BYTES;

/// The bytes one stored item actually takes: id, length-prefixed title
/// bytes, price and length-prefixed locator bytes.
pub open spec fn item_stored_bytes(title_bytes: int, locator_bytes: int) -> int {
    8 + LEN_PREFIX_BYTES + title_bytes + 8 + LEN_PREFIX_BYTES + locator_bytes
}

/// The space a creator account is grown to when it holds `items` items: the
/// fixed head plus the full per-item budget for each of them.
pub open spec fn creator_account_bytes(items: int) -> int {
    CREATOR_BASE_BYTES + items * ITEM_BYTE_BUDGET
}

/// The space a username record takes: discriminator, owner address and the
/// length-prefixed name.
pub open spec fn username_record_bytes(name_bytes: int) -> int {
    DISCRIMINATOR_BYTES + ADDRESS_BYTES + LEN_PREFIX_BYTES + name_bytes
}

/// The per-item budget never underestimates: it covers every item whose
/// title and locator fit their reserved sizes.
pub proof fn lemma_item_budget_is_conservative(title_bytes: int, locator_bytes: int)
    requires
        0 <= title_bytes <= TITLE_BYTE_BUDGET,
        0 <= locator_bytes <= LOCATOR_BYTE_BUDGET,
    ensures
        item_stored_bytes(title_bytes, locator_bytes) <= ITEM_BYTE_BUDGET,
{
}

/// Computes the space a creator account with `items` items is grown to;
/// `None` when the size leaves the unsigned 64-bit range.
pub fn creator_space_for(items: u64) -> (r: Option<u64>)
    ensures
        match r {
            Some(n) => n == creator_account_bytes(items as int),
            None => creator_account_bytes(items as int) > u64::MAX,
        },
{
    proof {
        assert((items as int) * (ITEM_BYTE_BUDGET as int) <= (u64::MAX as int) * (
        ITEM_BYTE_BUDGET as int)) by (nonlinear_arith)
            requires
                items <= u64::MAX,
        ;
    }
    let n: u128 = (CREATOR_BASE_BYTES as u128) + (items as u128) * (ITEM_BYTE_BUDGET as u128);
    if n > u64::MAX as u128 {
        None
    } else {
        Some(n as u64)
    }
}

/// Computes the space a username record takes; the name is at most 32 bytes
/// once validated, so the size always fits.
pub fn username_space_for(name_bytes: u64) -> (r: u64)
    requires
        name_bytes <= 32,
    ensures
        r == username_record_bytes(name_bytes as int),
{
    DISCRIMINATOR_BYTES + ADDRESS_BYTES + LEN_PREFIX_BYTES + name_bytes
}

} // verus!
