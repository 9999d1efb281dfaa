//! Identity registry, content catalog and payment settlement.

use vstd::prelude::*;

use crate::accounts::ContentItem;
use crate::accounts::ContentItemView;
use crate::accounts::CreatorAccount;
use crate::accounts::CreatorView;
use crate::accounts::PaidAccessAccount;
use crate::accounts::UsernameAccount;
use crate::accounts::UsernameView;
use crate::accounts::lemma_content_index_unique;
use crate::bank::transfer_map;
use crate::bank::transfer_result;
use crate::errors::CustomError;
use crate::errors::TxError;
use crate::ledger::Ledger;
use crate::ledger::LedgerView;
use crate::ledger::lemma_creator_index_unique;
use crate::ledger::lemma_map_values_push;
use crate::ledger::lemma_map_values_update;
use crate::username::check_username;
use crate::username::valid_username;

verus! {

/// What registering a username does: a malformed name is rejected as
/// `InvalidUsername`; a name whose slot is occupied collides; otherwise a
/// record mapping the name to the claimant is created.
pub open spec fn spec_register_username(s: LedgerView, claimant: u64, name: Seq<char>) -> (
    LedgerView,
    Result<(), TxError>,
) {
    if !valid_username(name) {
        (s, Err(TxError::Custom(CustomError::InvalidUsername)))
    } else if s.has_username(name) {
        (s, Err(TxError::AccountInUse))
    } else {
        (
            LedgerView {
                usernames: s.usernames.push(UsernameView { authority: claimant, username: name }),
                ..s
            },
            Ok(()),
        )
    }
}

/// What initializing a creator account does: the slot keyed by the creator's
/// wallet is created once, with counter 0 and an empty catalog; a second
/// initialization collides.
pub open spec fn spec_initialize_creator(s: LedgerView, creator: u64) -> (
    LedgerView,
    Result<(), TxError>,
) {
    if s.has_creator(creator) {
        (s, Err(TxError::AccountInUse))
    } else {
        (
            LedgerView {
                creators: s.creators.push(
                    CreatorView {
                        creator_wallet: creator,
                        last_content_id: 0,
                        content: Seq::empty(),
                    },
                ),
                ..s
            },
            Ok(()),
        )
    }
}

/// What adding content does: the signer's own account takes one more item,
/// with the next id, at the end of the catalog; nothing else changes.
pub open spec fn spec_add_content(
    s: LedgerView,
    signer: u64,
    title: Seq<char>,
    price: u64,
    encrypted_cid: Seq<u8>,
) -> (LedgerView, Result<(), TxError>) {
    if !s.has_creator(signer) {
        (s, Err(TxError::AccountNotFound))
    } else {
        let c = s.creator_at(signer);
        if c.last_content_id == u64::MAX {
            (s, Err(TxError::ArithmeticOverflow))
        } else {
            let item = ContentItemView {
                id: (c.last_content_id + 1) as u64,
                title: title,
                price: price,
                encrypted_cid: encrypted_cid,
            };
            (
                LedgerView {
                    creators: s.creators.update(
                        s.creator_index(signer),
                        CreatorView {
                            last_content_id: (c.last_content_id + 1) as u64,
                            content: c.content.push(item),
                            ..c
                        },
                    ),
                    ..s
                },
                Ok(()),
            )
        }
    }
}

/// What paying for content does: the item is looked up by id in the chosen
/// creator's catalog; its price moves from the buyer to the wallet stored in
/// the creator's account; a receipt for (buyer, content id) is created, and
/// a second payment for the same pair collides on that receipt's slot.
pub open spec fn spec_process_payment(
    s: LedgerView,
    buyer: u64,
    creator: u64,
    content_id: u64,
) -> (LedgerView, Result<(), TxError>) {
    if !s.has_creator(creator) {
        (s, Err(TxError::AccountNotFound))
    } else {
        let c = s.creator_at(creator);
        if !c.has_content(content_id) {
            (s, Err(TxError::Custom(CustomError::ContentNotFound)))
        } else if s.has_receipt(buyer, content_id) {
            (s, Err(TxError::AccountInUse))
        } else {
            let price = c.content_at(content_id).price;
            match transfer_result(s.balances, buyer, c.creator_wallet, price) {
                Err(e) => (s, Err(e)),
                Ok(_) => (
                    LedgerView {
                        balances: transfer_map(s.balances, buyer, c.creator_wallet, price),
                        receipts: s.receipts.push(
                            PaidAccessAccount { buyer: buyer, content_id: content_id },
                        ),
                        ..s
                    },
                    Ok(()),
                ),
            }
        }
    }
}

impl Ledger {
    fn find_username(&self, name: &String) -> (r: Option<usize>)
        ensures
            match r {
                Some(i) => i < self.usernames@.len() && self.usernames@[i as int].username@
                    == name@,
                None => !self@.has_username(name@),
            },
    {
        let mut i: usize = 0;
        while i < self.usernames.len()
            invariant
                i <= self.usernames@.len(),
                forall|j: int| 0 <= j < i ==> self.usernames@[j].username@ != name@,
            decreases self.usernames@.len() - i,
        {
            if self.usernames[i].username == *name {
                return Some(i);
            }
            i += 1;
        }
        proof {
            assert forall|j: int| 0 <= j < self@.usernames.len() implies (
            #[trigger] self@.usernames[j]).username != name@ by {
                assert(self@.usernames[j] == self.usernames@[j]@);
            }
        }
        None
    }

    pub(crate) fn find_creator(&self, wallet: u64) -> (r: Option<usize>)
        ensures
            match r {
                Some(i) => i < self.creators@.len() && self.creators@[i as int].creator_wallet
                    == wallet,
                None => !self@.has_creator(wallet),
            },
    {
        let mut i: usize = 0;
        while i < self.creators.len()
            invariant
                i <= self.creators@.len(),
                forall|j: int| 0 <= j < i ==> self.creators@[j].creator_wallet != wallet,
            decreases self.creators@.len() - i,
        {
            if self.creators[i].creator_wallet == wallet {
                return Some(i);
            }
            i += 1;
        }
        proof {
            assert forall|j: int| 0 <= j < self@.creators.len() implies (
            #[trigger] self@.creators[j]).creator_wallet != wallet by {
                assert(self@.creators[j] == self.creators@[j]@);
            }
        }
        None
    }

    pub(crate) fn find_receipt(&self, buyer: u64, content_id: u64) -> (r: Option<usize>)
        ensures
            match r {
                Some(i) => i < self.receipts@.len() && self.receipts@[i as int].buyer == buyer
                    && self.receipts@[i as int].content_id == content_id,
                None => !self@.has_receipt(buyer, content_id),
            },
    {
        let mut i: usize = 0;
        while i < self.receipts.len()
            invariant
                i <= self.receipts@.len(),
                forall|j: int|
                    0 <= j < i ==> !(self.receipts@[j].buyer == buyer
                        && self.receipts@[j].content_id == content_id),
            decreases self.receipts@.len() - i,
        {
            let rec = self.receipts[i];
            if rec.buyer == buyer && rec.content_id == content_id {
                return Some(i);
            }
            i += 1;
        }
        None
    }

    fn find_content(&self, ci: usize, content_id: u64) -> (r: Option<usize>)
        requires
            ci < self.creators@.len(),
        ensures
            match r {
                Some(j) => j < self.creators@[ci as int].content@.len()
                    && self.creators@[ci as int].content@[j as int].id == content_id,
                None => forall|k: int|
                    0 <= k < self.creators@[ci as int].content@.len()
                        ==> self.creators@[ci as int].content@[k].id != content_id,
            },
    {
        let n = self.creators[ci].content.len();
        let mut j: usize = 0;
        while j < n
            invariant
                ci < self.creators@.len(),
                n == self.creators@[ci as int].content@.len(),
                j <= n,
                forall|k: int| 0 <= k < j ==> self.creators@[ci as int].content@[k].id != content_id,
            decreases n - j,
        {
            if self.creators[ci].content[j].id == content_id {
                return Some(j);
            }
            j += 1;
        }
        None
    }

    /// The owner of a claimed username, `None` while the name is free.
    pub fn username_owner(&self, name: &String) -> (r: Option<u64>)
        ensures
            match r {
                Some(owner) => exists|i: int|
                    0 <= i < self@.usernames.len() && (#[trigger] self@.usernames[i]).username
                        == name@ && self@.usernames[i].authority == owner,
                None => !self@.has_username(name@),
            },
    {
        match self.find_username(name) {
            Some(i) => {
                let owner = self.usernames[i].authority;
                proof {
                    assert(self@.usernames[i as int] == self.usernames@[i as int]@);
                }
                Some(owner)
            },
            None => None,
        }
    }

    /// How many items a creator's catalog holds, `None` without an account.
    pub fn content_count(&self, creator: u64) -> (r: Option<u64>)
        requires
            self.wf(),
        ensures
            match r {
                Some(n) => self@.has_creator(creator) && n == self@.creator_at(
                    creator,
                ).last_content_id && n == self@.creator_at(creator).content.len(),
                None => !self@.has_creator(creator),
            },
    {
        match self.find_creator(creator) {
            Some(i) => {
                proof {
                    assert(self@.creators[i as int] == self.creators@[i as int]@);
                    lemma_creator_index_unique(self@, creator, i as int);
                }
                Some(self.creators[i].last_content_id)
            },
            None => None,
        }
    }

    /// The price of the item with this id in the creator's catalog.
    pub fn content_price(&self, creator: u64, content_id: u64) -> (r: Option<u64>)
        requires
            self.wf(),
        ensures
            match r {
                Some(p) => self@.has_creator(creator) && self@.creator_at(creator).has_content(
                    content_id,
                ) && p == self@.creator_at(creator).content_at(content_id).price,
                None => !self@.has_creator(creator) || !self@.creator_at(creator).has_content(
                    content_id,
                ),
            },
    {
        let ci = match self.find_creator(creator) {
            Some(i) => i,
            None => {
                return None;
            },
        };
        proof {
            assert(self@.creators[ci as int] == self.creators@[ci as int]@);
            lemma_creator_index_unique(self@, creator, ci as int);
        }
        let ghost cv = self@.creator_at(creator);
        match self.find_content(ci, content_id) {
            Some(j) => {
                proof {
                    assert(cv.content[j as int] == self.creators@[ci as int].content@[j as int]@);
                    lemma_content_index_unique(cv, content_id, j as int);
                }
                Some(self.creators[ci].content[j].price)
            },
            None => {
                proof {
                    assert forall|k: int| 0 <= k < cv.content.len() implies (
                    #[trigger] cv.content[k]).id != content_id by {
                        assert(cv.content[k] == self.creators@[ci as int].content@[k]@);
                    }
                }
                None
            },
        }
    }

    /// The id of the item at `index` in the creator's catalog, in insertion
    /// order.
    pub fn content_id_at(&self, creator: u64, index: usize) -> (r: Option<u64>)
        requires
            self.wf(),
        ensures
            match r {
                Some(id) => self@.has_creator(creator) && index < self@.creator_at(
                    creator,
                ).content.len() && id == self@.creator_at(creator).content[index as int].id,
                None => !self@.has_creator(creator) || index >= self@.creator_at(
                    creator,
                ).content.len(),
            },
    {
        let ci = match self.find_creator(creator) {
            Some(i) => i,
            None => {
                return None;
            },
        };
        proof {
            assert(self@.creators[ci as int] == self.creators@[ci as int]@);
            lemma_creator_index_unique(self@, creator, ci as int);
        }
        if index >= self.creators[ci].content.len() {
            return None;
        }
        proof {
            assert(self@.creator_at(creator).content[index as int] == self.creators@[
                ci as int
            ].content@[index as int]@);
        }
        Some(self.creators[ci].content[index].id)
    }

    /// The title of the item at `index` in the creator's catalog, in
    /// insertion order.
    pub fn content_title_at(&self, creator: u64, index: usize) -> (r: Option<String>)
        requires
            self.wf(),
        ensures
            match r {
                Some(t) => self@.has_creator(creator) && index < self@.creator_at(
                    creator,
                ).content.len() && t@ == self@.creator_at(creator).content[index as int].title,
                None => !self@.has_creator(creator) || index >= self@.creator_at(
                    creator,
                ).content.len(),
            },
    {
        let ci = match self.find_creator(creator) {
            Some(i) => i,
            None => {
                return None;
            },
        };
        proof {
            assert(self@.creators[ci as int] == self.creators@[ci as int]@);
            lemma_creator_index_unique(self@, creator, ci as int);
        }
        if index >= self.creators[ci].content.len() {
            return None;
        }
        proof {
            assert(self@.creator_at(creator).content[index as int] == self.creators@[
                ci as int
            ].content@[index as int]@);
        }
        Some(self.creators[ci].content[index].title.clone())
    }

    /// Whether a receipt proves that `buyer` paid for `content_id`.
    pub fn has_access(&self, buyer: u64, content_id: u64) -> (r: bool)
        ensures
            r == self@.has_receipt(buyer, content_id),
    {
        match self.find_receipt(buyer, content_id) {
            Some(i) => {
                proof {
                    assert(self@.receipts[i as int].buyer == buyer && self@.receipts[
                        i as int
                    ].content_id == content_id);
                }
                true
            },
            None => false,
        }
    }

    /// Claims `username` for `claimant`. A malformed name fails as
    /// `InvalidUsername`; a name already claimed, by anyone, collides on its
    /// slot; otherwise the record is created, immutable from then on.
    pub fn register_username(&mut self, claimant: u64, username: String) -> (r: Result<
        (),
        TxError,
    >)
        requires
            old(self).wf(),
        ensures
            final(self).wf(),
            final(self)@ == spec_register_username(old(self)@, claimant, username@).0,
            r == spec_register_username(old(self)@, claimant, username@).1,
            final(self).total_units() == old(self).total_units(),
    {
        if !check_username(username.as_str()) {
            return Err(TxError::Custom(CustomError::InvalidUsername));
        }
        match self.find_username(&username) {
            Some(i) => {
                proof {
                    assert(self@.usernames[i as int] == self.usernames@[i as int]@);
                }
                return Err(TxError::AccountInUse);
            },
            None => {},
        }
        let ghost name: Seq<char> = username@;
        let ghost pre = self@;
        self.usernames.push(UsernameAccount { authority: claimant, username });
        proof {
            let rec = self.usernames@.last();
            lemma_map_values_push(old(self).usernames@, |u: UsernameAccount| u@, rec);
            assert(self@ =~= spec_register_username(pre, claimant, name).0);
            assert forall|i: int, j: int|
                0 <= i < j < self@.usernames.len() implies self@.usernames[i].username
                != self@.usernames[j].username by {
                if j == self@.usernames.len() - 1 {
                    assert(self@.usernames[i] == pre.usernames[i]);
                }
            }
        }
        Ok(())
    }

    /// Creates the signer's creator account, with counter 0 and an empty
    /// catalog. A second initialization collides on the same slot.
    pub fn initialize_creator(&mut self, creator: u64) -> (r: Result<(), TxError>)
        requires
            old(self).wf(),
        ensures
            final(self).wf(),
            final(self)@ == spec_initialize_creator(old(self)@, creator).0,
            r == spec_initialize_creator(old(self)@, creator).1,
            final(self).total_units() == old(self).total_units(),
    {
        match self.find_creator(creator) {
            Some(i) => {
                proof {
                    assert(self@.creators[i as int] == self.creators@[i as int]@);
                }
                return Err(TxError::AccountInUse);
            },
            None => {},
        }
        let ghost pre = self@;
        self.creators.push(
            CreatorAccount { creator_wallet: creator, last_content_id: 0, content: Vec::new() },
        );
        proof {
            let rec = self.creators@.last();
            lemma_map_values_push(old(self).creators@, |c: CreatorAccount| c@, rec);
            assert(rec@.content =~= Seq::<ContentItemView>::empty());
            assert(self@ =~= spec_initialize_creator(pre, creator).0);
            assert forall|i: int, j: int|
                0 <= i < j < self@.creators.len() implies self@.creators[i].creator_wallet
                != self@.creators[j].creator_wallet by {
                if j == self@.creators.len() - 1 {
                    assert(self@.creators[i] == pre.creators[i]);
                }
            }
        }
        Ok(())
    }

    /// Appends one item to the signer's own catalog, under the next id:
    /// ids form the sequence 1, 2, 3, ... in insertion order, whatever the
    /// titles and prices.
    pub fn add_content(
        &mut self,
        signer: u64,
        title: String,
        price: u64,
        encrypted_cid: Vec<u8>,
    ) -> (r: Result<(), TxError>)
        requires
            old(self).wf(),
        ensures
            final(self).wf(),
            final(self)@ == spec_add_content(old(self)@, signer, title@, price, encrypted_cid@).0,
            r == spec_add_content(old(self)@, signer, title@, price, encrypted_cid@).1,
            final(self).total_units() == old(self).total_units(),
    {
        let i = match self.find_creator(signer) {
            Some(i) => i,
            None => {
                return Err(TxError::AccountNotFound);
            },
        };
        proof {
            assert(self@.creators[i as int] == self.creators@[i as int]@);
            lemma_creator_index_unique(self@, signer, i as int);
        }
        // Defensive re-check of ownership, as the host's account constraints
        // would perform it; the lookup by wallet makes it always pass.
        if self.creators[i].creator_wallet != signer {
            return Err(TxError::Custom(CustomError::Unauthorized));
        }
        let last = self.creators[i].last_content_id;
        if last == u64::MAX {
            return Err(TxError::ArithmeticOverflow);
        }
        let ghost title_v: Seq<char> = title@;
        let ghost cid_v: Seq<u8> = encrypted_cid@;
        let ghost pre = self@;
        let c = &mut self.creators[i];
        c.last_content_id = last + 1;
        c.content.push(
            ContentItem { id: last + 1, title: title, price: price, encrypted_cid: encrypted_cid },
        );
        proof {
            let newc = self.creators@[i as int];
            let item = newc.content@.last();
            lemma_map_values_push(old(self).creators@[i as int].content@, |t: ContentItem| t@, item);
            lemma_map_values_update(old(self).creators@, |cc: CreatorAccount| cc@, i as int, newc);
            assert(self@ =~= spec_add_content(pre, signer, title_v, price, cid_v).0);
            let cv = pre.creator_at(signer);
            assert forall|k: int| 0 <= k < self@.creators.len() implies (
            #[trigger] self@.creators[k]).wf() by {
                if k == i as int {
                    assert(self@.creators[k] == (CreatorView {
                        last_content_id: (cv.last_content_id + 1) as u64,
                        content: cv.content.push(
                            ContentItemView {
                                id: (cv.last_content_id + 1) as u64,
                                title: title_v,
                                price: price,
                                encrypted_cid: cid_v,
                            },
                        ),
                        ..cv
                    }));
                } else {
                    assert(self@.creators[k] == pre.creators[k]);
                }
            }
        }
        Ok(())
    }

    /// Settles a payment: looks the item up by id in the chosen creator's
    /// catalog, moves its price from the buyer to the wallet stored in the
    /// creator's account, and creates the access receipt whose existence
    /// proves the payment. A repeat payment for the same (buyer, content id)
    /// collides on the receipt's slot; any failure leaves every balance
    /// unchanged.
    pub fn process_payment(&mut self, buyer: u64, creator: u64, content_id: u64) -> (r: Result<
        (),
        TxError,
    >)
        requires
            old(self).wf(),
        ensures
            final(self).wf(),
            final(self)@ == spec_process_payment(old(self)@, buyer, creator, content_id).0,
            r == spec_process_payment(old(self)@, buyer, creator, content_id).1,
            final(self).total_units() == old(self).total_units(),
    {
        let ci = match self.find_creator(creator) {
            Some(i) => i,
            None => {
                return Err(TxError::AccountNotFound);
            },
        };
        proof {
            assert(self@.creators[ci as int] == self.creators@[ci as int]@);
            lemma_creator_index_unique(self@, creator, ci as int);
        }
        let wallet = self.creators[ci].creator_wallet;
        let ghost cv = self@.creator_at(creator);
        let j = match self.find_content(ci, content_id) {
            Some(j) => j,
            None => {
                proof {
                    assert forall|k: int| 0 <= k < cv.content.len() implies (
                    #[trigger] cv.content[k]).id != content_id by {
                        assert(cv.content[k] == self.creators@[ci as int].content@[k]@);
                    }
                }
                return Err(TxError::Custom(CustomError::ContentNotFound));
            },
        };
        let price = self.creators[ci].content[j].price;
        proof {
            assert(cv.content[j as int] == self.creators@[ci as int].content@[j as int]@);
            lemma_content_index_unique(cv, content_id, j as int);
        }
        match self.find_receipt(buyer, content_id) {
            Some(ri) => {
                proof {
                    assert(self@.receipts[ri as int].buyer == buyer && self@.receipts[
                        ri as int
                    ].content_id == content_id);
                    assert(self@.has_receipt(buyer, content_id));
                }
                return Err(TxError::AccountInUse);
            },
            None => {},
        }
        let ghost pre = self@;
        match self.bank.transfer(buyer, wallet, price) {
            Ok(_) => {},
            Err(e) => {
                return Err(e);
            },
        }
        self.receipts.push(PaidAccessAccount { buyer: buyer, content_id: content_id });
        proof {
            assert(self@ =~= spec_process_payment(pre, buyer, creator, content_id).0);
            assert forall|x: int, y: int|
                0 <= x < y < self@.receipts.len() implies !(self@.receipts[x].buyer
                == self@.receipts[y].buyer && self@.receipts[x].content_id
                == self@.receipts[y].content_id) by {
                if y == self@.receipts.len() - 1 {
                    assert(self@.receipts[x] == pre.receipts[x]);
                }
            }
        }
        Ok(())
    }
}

} // verus!
