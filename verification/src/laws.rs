//! Laws that relate several operations: what one transaction leaves behind
//! decides what the next one may do.

use vstd::prelude::*;

use crate::accounts::PaidAccessAccount;
use crate::errors::SponsorError;
use crate::errors::TxError;
use crate::ledger::LedgerView;
use crate::ledger::lemma_creator_index_unique;
use crate::ledger::lemma_sponsored_index_unique;
use crate::registry::spec_process_payment;
use crate::registry::spec_register_username;
use crate::sponsor::spec_sponsor_user;

verus! {

/// A username is claimed at most once: after a successful registration of
/// `name`, registering the same name again fails on the occupied slot,
/// whoever signs the second attempt, and changes nothing.
pub proof fn lemma_username_claimed_once(s: LedgerView, first: u64, second: u64, name: Seq<char>)
    requires
        spec_register_username(s, first, name).1 is Ok,
    ensures
        spec_register_username(spec_register_username(s, first, name).0, second, name).1 == Err::<
            (),
            TxError,
        >(TxError::AccountInUse),
        spec_register_username(spec_register_username(s, first, name).0, second, name).0
            == spec_register_username(s, first, name).0,
{
    let s1 = spec_register_username(s, first, name).0;
    assert(s1.usernames[s.usernames.len() as int].username == name);
    assert(s1.has_username(name));
}

/// Content ids form the sequence 1, 2, 3, ... per creator, in insertion
/// order, whatever the titles and prices: in every well-formed state the
/// item at position `i` of a catalog carries id `i + 1`, and the counter
/// equals the catalog's length.
pub proof fn lemma_content_ids_sequential(s: LedgerView, wallet: u64)
    requires
        s.wf(),
        s.has_creator(wallet),
    ensures
        s.creator_at(wallet).last_content_id == s.creator_at(wallet).content.len(),
        forall|i: int|
            0 <= i < s.creator_at(wallet).content.len() ==> #[trigger] s.creator_at(
                wallet,
            ).content[i].id == i + 1,
{
    let j = s.creator_index(wallet);
    assert(0 <= j < s.creators.len() && s.creators[j].creator_wallet == wallet);
    assert(s.creators[j].wf());
}

/// A payment settles at most once: after a successful payment the receipt
/// occupies the (buyer, content id) slot, so the same buyer paying for the
/// same content id again fails and leaves every balance as the first payment
/// left it. The first payment moved exactly the item's price from the buyer
/// to the creator's wallet.
pub proof fn lemma_payment_settles_once(s: LedgerView, buyer: u64, creator: u64, content_id: u64)
    requires
        s.wf(),
        spec_process_payment(s, buyer, creator, content_id).1 is Ok,
    ensures
        ({
            let s1 = spec_process_payment(s, buyer, creator, content_id).0;
            let wallet = s.creator_at(creator).creator_wallet;
            let price = s.creator_at(creator).content_at(content_id).price;
            &&& s1.has_receipt(buyer, content_id)
            &&& spec_process_payment(s1, buyer, creator, content_id).1 == Err::<(), TxError>(
                TxError::AccountInUse,
            )
            &&& spec_process_payment(s1, buyer, creator, content_id).0 == s1
            &&& buyer != wallet ==> s1.balances[buyer] == s.balances[buyer] - price
            &&& buyer != wallet ==> s1.balances[wallet] == s.balances[wallet] + price
            &&& buyer == wallet ==> s1.balances == s.balances
        }),
{
    let s1 = spec_process_payment(s, buyer, creator, content_id).0;
    let c = s.creator_at(creator);
    let i = s.creator_index(creator);
    assert(s.has_creator(creator));
    assert(0 <= i < s.creators.len() && s.creators[i].creator_wallet == creator);
    assert(s1.receipts == s.receipts.push(
        PaidAccessAccount { buyer: buyer, content_id: content_id },
    ));
    assert(s1.receipts[s.receipts.len() as int].buyer == buyer);
    assert(s1.has_receipt(buyer, content_id));
    assert forall|x: int, y: int|
        0 <= x < y < s1.receipts.len() implies !(s1.receipts[x].buyer == s1.receipts[y].buyer
        && s1.receipts[x].content_id == s1.receipts[y].content_id) by {
        if y == s1.receipts.len() - 1 {
            assert(s1.receipts[x] == s.receipts[x]);
        }
    }
    assert(s1.wf());
    lemma_creator_index_unique(s1, creator, i);
    assert(s1.creator_at(creator) == c);
    assert(c.has_content(content_id));
}

/// Sponsorship is one-shot: after a successful sponsorship of `user`, any
/// further attempt fails as `AlreadySponsored`, whatever the amount and
/// whoever pays, and changes nothing.
pub proof fn lemma_sponsorship_one_shot(
    s: LedgerView,
    vault: u64,
    user: u64,
    amount: u64,
    now: i64,
    second_vault: u64,
    second_amount: u64,
    second_now: i64,
)
    requires
        s.wf(),
        spec_sponsor_user(s, vault, user, amount, now).1 is Ok,
    ensures
        ({
            let s1 = spec_sponsor_user(s, vault, user, amount, now).0;
            &&& spec_sponsor_user(s1, second_vault, user, second_amount, second_now).1 == Err::<
                (),
                TxError,
            >(TxError::Sponsor(SponsorError::AlreadySponsored))
            &&& spec_sponsor_user(s1, second_vault, user, second_amount, second_now).0 == s1
        }),
{
    let s1 = spec_sponsor_user(s, vault, user, amount, now).0;
    let i = s.sponsored_index(user);
    assert(s.has_sponsored_record(user));
    assert(0 <= i < s.sponsored.len() && s.sponsored[i].user == user);
    assert(s1.sponsored[i].user == user && s1.sponsored[i].is_sponsored);
    assert(s1.has_sponsored_record(user));
    assert forall|x: int, y: int|
        0 <= x < y < s1.sponsored.len() implies s1.sponsored[x].user != s1.sponsored[y].user by {
        assert(s1.sponsored[x].user == s.sponsored[x].user);
        assert(s1.sponsored[y].user == s.sponsored[y].user);
    }
    assert(s1.wf());
    lemma_sponsored_index_unique(s1, user, i);
}

} // verus!
