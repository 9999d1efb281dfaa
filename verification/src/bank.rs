//! Native-unit balances and the atomic transfer primitive.
//!
//! The bank is the one place value moves. A transfer debits and credits in
//! the same step, fails as a whole when the paying balance is short or the
//! receiving balance would overflow, and never changes the sum of all
//! balances: that conservation is part of its contract.

use vstd::prelude::*;

use crate::errors::TxError;

verus! {

/// The balance `a` holds in `s`, 0 when no entry exists.
pub open spec fn bal_in(s: Seq<(u64, u64)>, a: u64) -> u64
    decreases s.len(),
{
    if s.len() == 0 {
        0u64
    } else if s.last().0 == a {
        s.last().1
    } else {
        bal_in(s.drop_last(), a)
    }
}

/// The sum of all balances in `s`.
pub open spec fn total_in(s: Seq<(u64, u64)>) -> int
    decreases s.len(),
{
    if s.len() == 0 {
        0
    } else {
        total_in(s.drop_last()) + s.last().1
    }
}

/// Each address holds at most one entry.
pub open spec fn distinct_keys(s: Seq<(u64, u64)>) -> bool {
    forall|i: int, j: int| 0 <= i < j < s.len() ==> s[i].0 != s[j].0
}

/// Whether a transfer succeeds, and if not, why: the paying balance must
/// cover the amount, and the receiving balance must stay within `u64`.
pub open spec fn transfer_result(b: Map<u64, u64>, from: u64, to: u64, amount: u64) -> Result<
    (),
    TxError,
> {
    if b[from] < amount {
        Err(TxError::InsufficientFunds)
    } else if from != to && b[to] + amount > u64::MAX {
        Err(TxError::ArithmeticOverflow)
    } else {
        Ok(())
    }
}

/// The balances after a successful transfer: `amount` moves from `from` to
/// `to`; a transfer to oneself changes nothing.
pub open spec fn transfer_map(b: Map<u64, u64>, from: u64, to: u64, amount: u64) -> Map<
    u64,
    u64,
> {
    if from == to {
        b
    } else {
        b.insert(from, (b[from] - amount) as u64).insert(to, (b[to] + amount) as u64)
    }
}

/// The pool of native-unit balances: one entry per address that ever held
/// units. Its view is the total map from address to balance, 0 for addresses
/// without an entry.
pub struct Bank {
    accounts: Vec<(u64, u64)>,
}

impl View for Bank {
    type V = Map<u64, u64>;

    closed spec fn view(&self) -> Map<u64, u64> {
        Map::total(|a: u64| bal_in(self.accounts@, a))
    }
}

proof fn lemma_bal_at(s: Seq<(u64, u64)>, i: int)
    requires
        distinct_keys(s),
        0 <= i < s.len(),
    ensures
        bal_in(s, s[i].0) == s[i].1,
    decreases s.len(),
{
    if i == s.len() - 1 {
    } else {
        assert(s.drop_last()[i] == s[i]);
        lemma_bal_at(s.drop_last(), i);
    }
}

proof fn lemma_bal_absent(s: Seq<(u64, u64)>, a: u64)
    requires
        forall|j: int| 0 <= j < s.len() ==> s[j].0 != a,
    ensures
        bal_in(s, a) == 0,
    decreases s.len(),
{
    if s.len() > 0 {
        lemma_bal_absent(s.drop_last(), a);
    }
}

proof fn lemma_bal_update(s: Seq<(u64, u64)>, i: int, v: u64)
    requires
        distinct_keys(s),
        0 <= i < s.len(),
    ensures
        distinct_keys(s.update(i, (s[i].0, v))),
        forall|b: u64|
            #[trigger] bal_in(s.update(i, (s[i].0, v)), b) == if b == s[i].0 {
                v
            } else {
                bal_in(s, b)
            },
        total_in(s.update(i, (s[i].0, v))) == total_in(s) - s[i].1 + v,
    decreases s.len(),
{
    let a = s[i].0;
    let t = s.update(i, (a, v));
    assert(forall|p: int| 0 <= p < s.len() ==> t[p].0 == s[p].0);
    if i == s.len() - 1 {
        assert(t.drop_last() =~= s.drop_last());
        assert forall|b: u64| #[trigger] bal_in(t, b) == if b == a {
            v
        } else {
            bal_in(s, b)
        } by {
            if b != a {
                assert(bal_in(t, b) == bal_in(t.drop_last(), b));
                assert(bal_in(s, b) == bal_in(s.drop_last(), b));
            }
        }
    } else {
        assert(t.drop_last() =~= s.drop_last().update(i, (a, v)));
        assert(s.drop_last()[i] == s[i]);
        lemma_bal_update(s.drop_last(), i, v);
        assert(s.last().0 != a);
        assert(t.last() == s.last());
        assert forall|b: u64| #[trigger] bal_in(t, b) == if b == a {
            v
        } else {
            bal_in(s, b)
        } by {
            if b == t.last().0 {
            } else {
                assert(bal_in(t, b) == bal_in(t.drop_last(), b));
                assert(bal_in(s, b) == bal_in(s.drop_last(), b));
            }
        }
    }
}

proof fn lemma_bal_push(s: Seq<(u64, u64)>, x: (u64, u64))
    requires
        distinct_keys(s),
        forall|j: int| 0 <= j < s.len() ==> s[j].0 != x.0,
    ensures
        distinct_keys(s.push(x)),
        forall|b: u64|
            #[trigger] bal_in(s.push(x), b) == if b == x.0 {
                x.1
            } else {
                bal_in(s, b)
            },
        total_in(s.push(x)) == total_in(s) + x.1,
{
    assert(s.push(x).drop_last() =~= s);
    assert(s.push(x).last() == x);
    assert(forall|p: int| 0 <= p < s.len() ==> s.push(x)[p] == s[p]);
}

impl Bank {
    /// Every address has at most one entry.
    pub closed spec fn wf(self) -> bool {
        distinct_keys(self.accounts@)
    }

    /// The sum of all balances. No operation but [`Bank::credit`] changes it.
    pub closed spec fn total(self) -> int {
        total_in(self.accounts@)
    }

    /// An empty pool: every balance is 0.
    pub fn new() -> (r: Bank)
        ensures
            r.wf(),
            r.total() == 0,
            forall|a: u64| r@[a] == 0,
    {
        let r = Bank { accounts: Vec::new() };
        proof {
            assert forall|a: u64| r@[a] == 0 by {
                assert(bal_in(r.accounts@, a) == 0);
            }
        }
        r
    }

    fn find_index(&self, addr: u64) -> (r: Option<usize>)
        ensures
            match r {
                Some(i) => i < self.accounts@.len() && self.accounts@[i as int].0 == addr,
                None => forall|j: int| 0 <= j < self.accounts@.len() ==> self.accounts@[j].0 != addr,
            },
    {
        let mut i: usize = 0;
        while i < self.accounts.len()
            invariant
                i <= self.accounts@.len(),
                forall|j: int| 0 <= j < i ==> self.accounts@[j].0 != addr,
            decreases self.accounts@.len() - i,
        {
            if self.accounts[i].0 == addr {
                return Some(i);
            }
            i += 1;
        }
        None
    }

    /// The balance `addr` holds.
    pub fn balance(&self, addr: u64) -> (r: u64)
        requires
            self.wf(),
        ensures
            r == self@[addr],
    {
        match self.find_index(addr) {
            Some(i) => {
                proof {
                    lemma_bal_at(self.accounts@, i as int);
                }
                self.accounts[i].1
            },
            None => {
                proof {
                    lemma_bal_absent(self.accounts@, addr);
                }
                0
            },
        }
    }

    /// Mints `amount` fresh units onto `addr`'s balance; the one operation
    /// that grows the total. Fails only when the balance would overflow.
    pub fn credit(&mut self, addr: u64, amount: u64) -> (r: Result<(), TxError>)
        requires
            old(self).wf(),
        ensures
            final(self).wf(),
            r is Ok <==> old(self)@[addr] + amount <= u64::MAX,
            r is Ok ==> final(self)@ == old(self)@.insert(
                addr,
                (old(self)@[addr] + amount) as u64,
            ),
            r is Ok ==> final(self).total() == old(self).total() + amount,
            r is Err ==> *final(self) == *old(self) && r == Err::<(), TxError>(
                TxError::ArithmeticOverflow,
            ),
    {
        let ghost s0 = self.accounts@;
        match self.find_index(addr) {
            Some(i) => {
                let b = self.accounts[i].1;
                proof {
                    lemma_bal_at(s0, i as int);
                }
                if amount > u64::MAX - b {
                    return Err(TxError::ArithmeticOverflow);
                }
                self.accounts[i] = (addr, b + amount);
                proof {
                    lemma_bal_update(s0, i as int, (b + amount) as u64);
                    assert(self@ =~= old(self)@.insert(addr, (old(self)@[addr] + amount) as u64));
                }
                Ok(())
            },
            None => {
                proof {
                    lemma_bal_absent(s0, addr);
                }
                self.accounts.push((addr, amount));
                proof {
                    lemma_bal_push(s0, (addr, amount));
                    assert(self@ =~= old(self)@.insert(addr, (old(self)@[addr] + amount) as u64));
                }
                Ok(())
            },
        }
    }

    /// Moves `amount` units from `from` to `to` atomically. On any failure
    /// nothing changes; on success exactly the two balances change and the
    /// total is conserved.
    pub fn transfer(&mut self, from: u64, to: u64, amount: u64) -> (r: Result<(), TxError>)
        requires
            old(self).wf(),
        ensures
            final(self).wf(),
            r == transfer_result(old(self)@, from, to, amount),
            r is Ok ==> final(self)@ == transfer_map(old(self)@, from, to, amount),
            r is Err ==> *final(self) == *old(self),
            final(self).total() == old(self).total(),
    {
        let bf = self.balance(from);
        if bf < amount {
            return Err(TxError::InsufficientFunds);
        }
        if from == to {
            return Ok(());
        }
        let bt = self.balance(to);
        if amount > u64::MAX - bt {
            return Err(TxError::ArithmeticOverflow);
        }
        let ghost s0 = self.accounts@;
        match self.find_index(from) {
            Some(i) => {
                self.accounts[i] = (from, bf - amount);
                proof {
                    lemma_bal_at(s0, i as int);
                    lemma_bal_update(s0, i as int, (bf - amount) as u64);
                }
            },
            None => {
                proof {
                    lemma_bal_absent(s0, from);
                }
                // absent means a zero balance, so nothing has to move out
            },
        }
        let ghost s1 = self.accounts@;
        proof {
            assert(bal_in(s1, to) == bt);
        }
        match self.find_index(to) {
            Some(j) => {
                self.accounts[j] = (to, bt + amount);
                proof {
                    lemma_bal_at(s1, j as int);
                    lemma_bal_update(s1, j as int, (bt + amount) as u64);
                }
            },
            None => {
                proof {
                    lemma_bal_absent(s1, to);
                }
                self.accounts.push((to, bt + amount));
                proof {
                    lemma_bal_push(s1, (to, (bt + amount) as u64));
                }
            },
        }
        proof {
            assert(self@ =~= transfer_map(old(self)@, from, to, amount));
        }
        Ok(())
    }
}

} // verus!
