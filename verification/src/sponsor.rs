//! The one-shot sponsorship gate: a subsidized transfer to a new user.

use vstd::prelude::*;

use crate::accounts::SponsoredUserAccount;
use crate::bank::transfer_map;
use crate::bank::transfer_result;
use crate::errors::SponsorError;
use crate::errors::TxError;
use crate::ledger::Ledger;
use crate::ledger::LedgerView;
use crate::ledger::lemma_sponsored_index_unique;

verus! {

/// The largest amount a single sponsorship may move, in native units.
pub const MAX_SPONSORSHIP_AMOUNT: u64 = 10_000_000;

/// What initializing a sponsorship record does: the slot keyed by the user
/// is created once, unsponsored; a second initialization collides.
pub open spec fn spec_initialize_sponsored_user(s: LedgerView, user: u64) -> (
    LedgerView,
    Result<(), TxError>,
) {
    if s.has_sponsored_record(user) {
        (s, Err(TxError::AccountInUse))
    } else {
        (
            LedgerView {
                sponsored: s.sponsored.push(
                    SponsoredUserAccount {
                        user: user,
                        is_sponsored: false,
                        sponsored_at: 0,
                        amount: 0,
                    },
                ),
                ..s
            },
            Ok(()),
        )
    }
}

/// What sponsoring a user does: only an unsponsored user with a record, and
/// only up to the cap; the amount moves from the vault signer to the user and
/// the record flips to sponsored, once and for all.
pub open spec fn spec_sponsor_user(
    s: LedgerView,
    vault: u64,
    user: u64,
    amount: u64,
    now: i64,
) -> (LedgerView, Result<(), TxError>) {
    if !s.has_sponsored_record(user) {
        (s, Err(TxError::AccountNotFound))
    } else if s.sponsored_rec(user).is_sponsored {
        (s, Err(TxError::Sponsor(SponsorError::AlreadySponsored)))
    } else if amount > MAX_SPONSORSHIP_AMOUNT {
        (s, Err(TxError::Sponsor(SponsorError::AmountTooLarge)))
    } else {
        match transfer_result(s.balances, vault, user, amount) {
            Err(e) => (s, Err(e)),
            Ok(_) => (
                LedgerView {
                    balances: transfer_map(s.balances, vault, user, amount),
                    sponsored: s.sponsored.update(
                        s.sponsored_index(user),
                        SponsoredUserAccount {
                            user: user,
                            is_sponsored: true,
                            sponsored_at: now,
                            amount: amount,
                        },
                    ),
                    ..s
                },
                Ok(()),
            ),
        }
    }
}

impl Ledger {
    pub(crate) fn find_sponsored(&self, user: u64) -> (r: Option<usize>)
        ensures
            match r {
                Some(i) => i < self.sponsored@.len() && self.sponsored@[i as int].user == user,
                None => !self@.has_sponsored_record(user),
            },
    {
        let mut i: usize = 0;
        while i < self.sponsored.len()
            invariant
                i <= self.sponsored@.len(),
                forall|j: int| 0 <= j < i ==> self.sponsored@[j].user != user,
            decreases self.sponsored@.len() - i,
        {
            if self.sponsored[i].user == user {
                return Some(i);
            }
            i += 1;
        }
        None
    }

    /// A user's sponsorship record, `None` before initialization.
    pub fn sponsored_info(&self, user: u64) -> (r: Option<SponsoredUserAccount>)
        requires
            self.wf(),
        ensures
            match r {
                Some(rec) => self@.has_sponsored_record(user) && rec == self@.sponsored_rec(user),
                None => !self@.has_sponsored_record(user),
            },
    {
        match self.find_sponsored(user) {
            Some(i) => {
                proof {
                    assert(self@.sponsored[i as int].user == user);
                    lemma_sponsored_index_unique(self@, user, i as int);
                }
                Some(self.sponsored[i])
            },
            None => None,
        }
    }

    /// Creates the caller's sponsorship record, unsponsored. A second
    /// initialization collides on the same slot.
    pub fn initialize_sponsored_user(&mut self, user: u64) -> (r: Result<(), TxError>)
        requires
            old(self).wf(),
        ensures
            final(self).wf(),
            final(self)@ == spec_initialize_sponsored_user(old(self)@, user).0,
            r == spec_initialize_sponsored_user(old(self)@, user).1,
            final(self).total_units() == old(self).total_units(),
    {
        match self.find_sponsored(user) {
            Some(i) => {
                proof {
                    assert(self@.sponsored[i as int].user == user);
                    assert(self@.has_sponsored_record(user));
                }
                return Err(TxError::AccountInUse);
            },
            None => {},
        }
        let ghost pre = self@;
        self.sponsored.push(
            SponsoredUserAccount { user: user, is_sponsored: false, sponsored_at: 0, amount: 0 },
        );
        proof {
            assert(self@ =~= spec_initialize_sponsored_user(pre, user).0);
            assert forall|i: int, j: int|
                0 <= i < j < self@.sponsored.len() implies self@.sponsored[i].user
                != self@.sponsored[j].user by {
                if j == self@.sponsored.len() - 1 {
                    assert(self@.sponsored[i] == pre.sponsored[i]);
                }
            }
        }
        Ok(())
    }

    /// Sponsors `user`'s first steps: moves `amount` (at most the cap) from
    /// the vault signer to the user and marks the record sponsored with the
    /// chain timestamp `now`. One-shot: a sponsored user can never be
    /// sponsored again, and any failure changes nothing.
    pub fn sponsor_user(&mut self, vault: u64, user: u64, amount: u64, now: i64) -> (r: Result<
        (),
        TxError,
    >)
        requires
            old(self).wf(),
        ensures
            final(self).wf(),
            final(self)@ == spec_sponsor_user(old(self)@, vault, user, amount, now).0,
            r == spec_sponsor_user(old(self)@, vault, user, amount, now).1,
            final(self).total_units() == old(self).total_units(),
    {
        let i = match self.find_sponsored(user) {
            Some(i) => i,
            None => {
                return Err(TxError::AccountNotFound);
            },
        };
        proof {
            assert(self@.sponsored[i as int].user == user);
            assert(self@.has_sponsored_record(user));
            lemma_sponsored_index_unique(self@, user, i as int);
        }
        let rec = self.sponsored[i];
        if rec.is_sponsored {
            return Err(TxError::Sponsor(SponsorError::AlreadySponsored));
        }
        if amount > MAX_SPONSORSHIP_AMOUNT {
            return Err(TxError::Sponsor(SponsorError::AmountTooLarge));
        }
        let ghost pre = self@;
        match self.bank.transfer(vault, user, amount) {
            Ok(_) => {},
            Err(e) => {
                return Err(e);
            },
        }
        self.sponsored[i] = SponsoredUserAccount {
            user: user,
            is_sponsored: true,
            sponsored_at: now,
            amount: amount,
        };
        proof {
            assert(self@ =~= spec_sponsor_user(pre, vault, user, amount, now).0);
            assert forall|x: int, y: int|
                0 <= x < y < self@.sponsored.len() implies self@.sponsored[x].user
                != self@.sponsored[y].user by {
                assert(pre.sponsored[x].user == self@.sponsored[x].user);
                assert(pre.sponsored[y].user == self@.sponsored[y].user);
            }
        }
        Ok(())
    }
}

} // verus!
