//! The combined state the three modules act on, and its mathematical view.
//!
//! Every record lives in a slot keyed by what makes it unique: a username, a
//! creator's wallet, a (buyer, content id) pair, a sponsored user's address,
//! or the fixed vault slot. Creating a record whose slot is occupied fails,
//! and that collision is the sole duplicate-prevention mechanism.

use vstd::prelude::*;

use crate::accounts::CreatorAccount;
use crate::accounts::CreatorView;
use crate::accounts::PaidAccessAccount;
use crate::accounts::SponsoredUserAccount;
use crate::accounts::UsernameAccount;
use crate::accounts::UsernameView;
use crate::accounts::VaultState;
use crate::bank::Bank;
use crate::errors::TxError;

verus! {

/// Mathematical view of the whole state: balances, the four record stores,
/// and the vault singleton.
#[verifier::ext_equal]
pub ghost struct LedgerView {
    /// Balance of every address, 0 where none was ever funded.
    pub balances: Map<u64, u64>,
    /// Username records, keyed by the name.
    pub usernames: Seq<UsernameView>,
    /// Creator accounts, keyed by the creator's wallet.
    pub creators: Seq<CreatorView>,
    /// Payment receipts, keyed by the (buyer, content id) pair.
    pub receipts: Seq<PaidAccessAccount>,
    /// Sponsorship records, keyed by the user.
    pub sponsored: Seq<SponsoredUserAccount>,
    /// The treasury singleton, absent until initialized.
    pub vault: Option<VaultState>,
}

impl LedgerView {
    /// Keys are unique in every store, and every creator account is
    /// internally well formed (ids 1, 2, 3, ... in insertion order).
    pub open spec fn wf(self) -> bool {
        &&& forall|i: int, j: int|
            0 <= i < j < self.usernames.len() ==> self.usernames[i].username
                != self.usernames[j].username
        &&& forall|i: int, j: int|
            0 <= i < j < self.creators.len() ==> self.creators[i].creator_wallet
                != self.creators[j].creator_wallet
        &&& forall|i: int| 0 <= i < self.creators.len() ==> (#[trigger] self.creators[i]).wf()
        &&& forall|i: int, j: int|
            0 <= i < j < self.receipts.len() ==> !(self.receipts[i].buyer
                == self.receipts[j].buyer && self.receipts[i].content_id
                == self.receipts[j].content_id)
        &&& forall|i: int, j: int|
            0 <= i < j < self.sponsored.len() ==> self.sponsored[i].user != self.sponsored[j].user
    }

    /// Whether the name is already claimed.
    pub open spec fn has_username(self, name: Seq<char>) -> bool {
        exists|i: int|
            0 <= i < self.usernames.len() && (#[trigger] self.usernames[i]).username == name
    }

    /// Whether a creator account exists for this wallet.
    pub open spec fn has_creator(self, wallet: u64) -> bool {
        exists|i: int|
            0 <= i < self.creators.len() && (#[trigger] self.creators[i]).creator_wallet == wallet
    }

    /// The position of the creator account with this wallet.
    pub open spec fn creator_index(self, wallet: u64) -> int {
        choose|i: int|
            0 <= i < self.creators.len() && (#[trigger] self.creators[i]).creator_wallet == wallet
    }

    /// The creator account with this wallet.
    pub open spec fn creator_at(self, wallet: u64) -> CreatorView {
        self.creators[self.creator_index(wallet)]
    }

    /// Whether a receipt exists for this buyer and content id.
    pub open spec fn has_receipt(self, buyer: u64, content_id: u64) -> bool {
        exists|i: int|
            0 <= i < self.receipts.len() && (#[trigger] self.receipts[i]).buyer == buyer
                && self.receipts[i].content_id == content_id
    }

    /// Whether a sponsorship record exists for this user.
    pub open spec fn has_sponsored_record(self, user: u64) -> bool {
        exists|i: int|
            0 <= i < self.sponsored.len() && (#[trigger] self.sponsored[i]).user == user
    }

    /// The position of this user's sponsorship record.
    pub open spec fn sponsored_index(self, user: u64) -> int {
        choose|i: int|
            0 <= i < self.sponsored.len() && (#[trigger] self.sponsored[i]).user == user
    }

    /// This user's sponsorship record.
    pub open spec fn sponsored_rec(self, user: u64) -> SponsoredUserAccount {
        self.sponsored[self.sponsored_index(user)]
    }
}

/// Under [`LedgerView::wf`] a wallet identifies at most one creator account.
pub proof fn lemma_creator_index_unique(s: LedgerView, wallet: u64, i: int)
    requires
        s.wf(),
        0 <= i < s.creators.len(),
        s.creators[i].creator_wallet == wallet,
    ensures
        s.creator_index(wallet) == i,
{
    let j = s.creator_index(wallet);
    assert(0 <= j < s.creators.len() && s.creators[j].creator_wallet == wallet);
}

/// Under [`LedgerView::wf`] a user has at most one sponsorship record.
pub proof fn lemma_sponsored_index_unique(s: LedgerView, user: u64, i: int)
    requires
        s.wf(),
        0 <= i < s.sponsored.len(),
        s.sponsored[i].user == user,
    ensures
        s.sponsored_index(user) == i,
{
    let j = s.sponsored_index(user);
    assert(0 <= j < s.sponsored.len() && s.sponsored[j].user == user);
}

/// Mapping a function over a sequence commutes with appending an element.
pub proof fn lemma_map_values_push<A, B>(s: Seq<A>, f: spec_fn(A) -> B, x: A)
    ensures
        s.push(x).map_values(f) =~= s.map_values(f).push(f(x)),
{
    assert forall|i: int| 0 <= i < s.len() + 1 implies s.push(x).map_values(f)[i] == s.map_values(
        f,
    ).push(f(x))[i] by {
        if i < s.len() {
            assert(s.push(x)[i] == s[i]);
        }
    }
}

/// Mapping a function over a sequence commutes with updating one element.
pub proof fn lemma_map_values_update<A, B>(s: Seq<A>, f: spec_fn(A) -> B, i: int, x: A)
    requires
        0 <= i < s.len(),
    ensures
        s.update(i, x).map_values(f) =~= s.map_values(f).update(i, f(x)),
{
    assert forall|j: int| 0 <= j < s.len() implies s.update(i, x).map_values(f)[j] == s.map_values(
        f,
    ).update(i, f(x))[j] by {
        if j != i {
            assert(s.update(i, x)[j] == s[j]);
        }
    }
}

/// The whole state: the balance pool, the four record stores and the vault
/// singleton. Each public operation is one atomic transaction: it either
/// performs its full effect or fails with an error and changes nothing.
pub struct Ledger {
    /// The pool of native-unit balances.
    pub bank: Bank,
    /// Username records, keyed by the name.
    pub usernames: Vec<UsernameAccount>,
    /// Creator accounts, keyed by the creator's wallet.
    pub creators: Vec<CreatorAccount>,
    /// Payment receipts, keyed by the (buyer, content id) pair.
    pub receipts: Vec<PaidAccessAccount>,
    /// Sponsorship records, keyed by the user.
    pub sponsored: Vec<SponsoredUserAccount>,
    /// The treasury singleton, absent until initialized.
    pub vault: Option<VaultState>,
}

impl View for Ledger {
    type V = LedgerView;

    open spec fn view(&self) -> LedgerView {
        LedgerView {
            balances: self.bank@,
            usernames: self.usernames@.map_values(|u: UsernameAccount| u@),
            creators: self.creators@.map_values(|c: CreatorAccount| c@),
            receipts: self.receipts@,
            sponsored: self.sponsored@,
            vault: self.vault,
        }
    }
}

impl Ledger {
    /// The view is well formed and the balance pool holds one entry per
    /// address.
    pub open spec fn wf(self) -> bool {
        &&& self@.wf()
        &&& self.bank.wf()
    }

    /// The sum of all balances. Only [`Ledger::credit`] changes it; every
    /// other operation conserves it.
    pub open spec fn total_units(self) -> int {
        self.bank.total()
    }

    /// A fresh, empty state: no records, no vault, every balance 0.
    pub fn new() -> (r: Ledger)
        ensures
            r.wf(),
            r@.usernames.len() == 0,
            r@.creators.len() == 0,
            r@.receipts.len() == 0,
            r@.sponsored.len() == 0,
            r@.vault is None,
            forall|a: u64| r@.balances[a] == 0,
            r.total_units() == 0,
    {
        Ledger {
            bank: Bank::new(),
            usernames: Vec::new(),
            creators: Vec::new(),
            receipts: Vec::new(),
            sponsored: Vec::new(),
            vault: None,
        }
    }

    /// Mints `amount` fresh units onto `addr`'s balance; this stands for
    /// value arriving from outside the modeled state and is the one
    /// operation that grows the total.
    pub fn credit(&mut self, addr: u64, amount: u64) -> (r: Result<(), TxError>)
        requires
            old(self).wf(),
        ensures
            final(self).wf(),
            r is Ok <==> old(self)@.balances[addr] + amount <= u64::MAX,
            r is Ok ==> final(self)@ == (LedgerView {
                balances: old(self)@.balances.insert(
                    addr,
                    (old(self)@.balances[addr] + amount) as u64,
                ),
                ..old(self)@
            }),
            r is Ok ==> final(self).total_units() == old(self).total_units() + amount,
            r is Err ==> *final(self) == *old(self) && r == Err::<(), TxError>(
                TxError::ArithmeticOverflow,
            ),
    {
        let r = self.bank.credit(addr, amount);
        proof {
            if r is Ok {
                assert(self@ =~= (LedgerView {
                    balances: old(self)@.balances.insert(
                        addr,
                        (old(self)@.balances[addr] + amount) as u64,
                    ),
                    ..old(self)@
                }));
            }
        }
        r
    }

    /// The balance `addr` holds.
    pub fn balance(&self, addr: u64) -> (r: u64)
        requires
            self.wf(),
        ensures
            r == self@.balances[addr],
    {
        self.bank.balance(addr)
    }
}

} // verus!
