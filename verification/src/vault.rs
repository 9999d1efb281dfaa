//! The vault: a singleton treasury with admin-gated governance, fee
//! collection and a reserve-floor withdrawal.

use vstd::prelude::*;

use crate::accounts::VaultState;
use crate::bank::transfer_map;
use crate::bank::transfer_result;
use crate::errors::TxError;
use crate::errors::VaultError;
use crate::ledger::Ledger;
use crate::ledger::LedgerView;
use crate::sponsor::MAX_SPONSORSHIP_AMOUNT;

verus! {

/// Fees are expressed in basis points; 10000 is 100%.
pub const MAX_FEE_BPS: u64 = 10000;

/// The balance the vault's wallet must keep after any withdrawal.
pub const RESERVE_FLOOR: u64 = 5_000_000_000;

/// What initializing the vault does: the singleton is created once at its
/// fixed slot, with both counters at zero; a second initialization collides.
pub open spec fn spec_initialize_vault(
    s: LedgerView,
    admin: u64,
    vault_wallet: u64,
    fee_percentage: u64,
    sponsorship_amount: u64,
) -> (LedgerView, Result<(), TxError>) {
    if s.vault is Some {
        (s, Err(TxError::AccountInUse))
    } else {
        (
            LedgerView {
                vault: Some(
                    VaultState {
                        vault_wallet: vault_wallet,
                        admin: admin,
                        fee_percentage: fee_percentage,
                        sponsorship_amount: sponsorship_amount,
                        total_collected: 0,
                        total_sponsored: 0,
                        is_initialized: true,
                    },
                ),
                ..s
            },
            Ok(()),
        )
    }
}

/// What replacing the admin does: only the current admin may hand the role
/// over.
pub open spec fn spec_update_admin(s: LedgerView, signer: u64, new_admin: u64) -> (
    LedgerView,
    Result<(), TxError>,
) {
    match s.vault {
        None => (s, Err(TxError::AccountNotFound)),
        Some(v) => {
            if v.admin != signer {
                (s, Err(TxError::Vault(VaultError::Unauthorized)))
            } else {
                (LedgerView { vault: Some(VaultState { admin: new_admin, ..v }), ..s }, Ok(()))
            }
        },
    }
}

/// What changing the fee does: admin only, and never above 10000 basis
/// points.
pub open spec fn spec_update_fee_percentage(s: LedgerView, signer: u64, new_fee: u64) -> (
    LedgerView,
    Result<(), TxError>,
) {
    match s.vault {
        None => (s, Err(TxError::AccountNotFound)),
        Some(v) => {
            if v.admin != signer {
                (s, Err(TxError::Vault(VaultError::Unauthorized)))
            } else if new_fee > MAX_FEE_BPS {
                (s, Err(TxError::Vault(VaultError::InvalidFee)))
            } else {
                (
                    LedgerView { vault: Some(VaultState { fee_percentage: new_fee, ..v }), ..s },
                    Ok(()),
                )
            }
        },
    }
}

/// What changing the sponsorship amount does: admin only, and never above
/// the sponsorship cap.
pub open spec fn spec_update_sponsorship_amount(s: LedgerView, signer: u64, new_amount: u64) -> (
    LedgerView,
    Result<(), TxError>,
) {
    match s.vault {
        None => (s, Err(TxError::AccountNotFound)),
        Some(v) => {
            if v.admin != signer {
                (s, Err(TxError::Vault(VaultError::Unauthorized)))
            } else if new_amount > MAX_SPONSORSHIP_AMOUNT {
                (s, Err(TxError::Vault(VaultError::AmountTooLarge)))
            } else {
                (
                    LedgerView {
                        vault: Some(VaultState { sponsorship_amount: new_amount, ..v }),
                        ..s
                    },
                    Ok(()),
                )
            }
        },
    }
}

/// The fee a payment of `amount` owes under `fee_percentage` basis points:
/// the exact product scaled down by 10000, rounded down, never up.
pub open spec fn fee_of(amount: u64, fee_percentage: u64) -> int {
    (amount * fee_percentage) / (MAX_FEE_BPS as int)
}

/// What collecting fees does: the fee owed on `amount` moves from the payer
/// to the vault's wallet and is added to `total_collected`. The call trusts
/// its transaction context and checks no signer of its own.
pub open spec fn spec_collect_fees(s: LedgerView, payer: u64, amount: u64) -> (
    LedgerView,
    Result<(), TxError>,
) {
    match s.vault {
        None => (s, Err(TxError::AccountNotFound)),
        Some(v) => {
            if amount * v.fee_percentage > u64::MAX {
                (s, Err(TxError::ArithmeticOverflow))
            } else {
                let fee = fee_of(amount, v.fee_percentage) as u64;
                if v.total_collected + fee > u64::MAX {
                    (s, Err(TxError::ArithmeticOverflow))
                } else {
                    match transfer_result(s.balances, payer, v.vault_wallet, fee) {
                        Err(e) => (s, Err(e)),
                        Ok(_) => (
                            LedgerView {
                                balances: transfer_map(s.balances, payer, v.vault_wallet, fee),
                                vault: Some(
                                    VaultState {
                                        total_collected: (v.total_collected + fee) as u64,
                                        ..v
                                    },
                                ),
                                ..s
                            },
                            Ok(()),
                        ),
                    }
                }
            }
        },
    }
}

/// What withdrawing does: admin only, and the vault's wallet must keep at
/// least the reserve floor after the withdrawal.
pub open spec fn spec_withdraw(s: LedgerView, signer: u64, amount: u64, recipient: u64) -> (
    LedgerView,
    Result<(), TxError>,
) {
    match s.vault {
        None => (s, Err(TxError::AccountNotFound)),
        Some(v) => {
            if v.admin != signer {
                (s, Err(TxError::Vault(VaultError::Unauthorized)))
            } else if s.balances[v.vault_wallet] < amount + RESERVE_FLOOR {
                (s, Err(TxError::Vault(VaultError::InsufficientBalance)))
            } else {
                match transfer_result(s.balances, v.vault_wallet, recipient, amount) {
                    Err(e) => (s, Err(e)),
                    Ok(_) => (
                        LedgerView {
                            balances: transfer_map(s.balances, v.vault_wallet, recipient, amount),
                            ..s
                        },
                        Ok(()),
                    ),
                }
            }
        },
    }
}

/// What recording a sponsorship does: the amount is added to
/// `total_sponsored`. The call trusts its transaction context and checks no
/// signer of its own.
pub open spec fn spec_record_sponsorship(s: LedgerView, amount: u64) -> (
    LedgerView,
    Result<(), TxError>,
) {
    match s.vault {
        None => (s, Err(TxError::AccountNotFound)),
        Some(v) => {
            if v.total_sponsored + amount > u64::MAX {
                (s, Err(TxError::ArithmeticOverflow))
            } else {
                (
                    LedgerView {
                        vault: Some(
                            VaultState { total_sponsored: (v.total_sponsored + amount) as u64, ..v },
                        ),
                        ..s
                    },
                    Ok(()),
                )
            }
        },
    }
}

impl Ledger {
    /// The vault singleton, `None` before initialization.
    pub fn vault_info(&self) -> (r: Option<VaultState>)
        ensures
            r == self@.vault,
    {
        self.vault
    }

    /// Creates the vault singleton at its fixed slot: wallet, admin and the
    /// two parameters as given, both counters at zero. A second
    /// initialization collides.
    pub fn initialize_vault(
        &mut self,
        admin: u64,
        vault_wallet: u64,
        fee_percentage: u64,
        sponsorship_amount: u64,
    ) -> (r: Result<(), TxError>)
        requires
            old(self).wf(),
        ensures
            final(self).wf(),
            final(self)@ == spec_initialize_vault(
                old(self)@,
                admin,
                vault_wallet,
                fee_percentage,
                sponsorship_amount,
            ).0,
            r == spec_initialize_vault(
                old(self)@,
                admin,
                vault_wallet,
                fee_percentage,
                sponsorship_amount,
            ).1,
            final(self).total_units() == old(self).total_units(),
    {
        if self.vault.is_some() {
            return Err(TxError::AccountInUse);
        }
        let ghost pre = self@;
        self.vault = Some(
            VaultState {
                vault_wallet: vault_wallet,
                admin: admin,
                fee_percentage: fee_percentage,
                sponsorship_amount: sponsorship_amount,
                total_collected: 0,
                total_sponsored: 0,
                is_initialized: true,
            },
        );
        proof {
            assert(self@ =~= spec_initialize_vault(
                pre,
                admin,
                vault_wallet,
                fee_percentage,
                sponsorship_amount,
            ).0);
        }
        Ok(())
    }

    /// Hands the admin role to `new_admin`; only the current admin may.
    pub fn update_admin(&mut self, signer: u64, new_admin: u64) -> (r: Result<(), TxError>)
        requires
            old(self).wf(),
        ensures
            final(self).wf(),
            final(self)@ == spec_update_admin(old(self)@, signer, new_admin).0,
            r == spec_update_admin(old(self)@, signer, new_admin).1,
            final(self).total_units() == old(self).total_units(),
    {
        let v = match self.vault {
            Some(v) => v,
            None => {
                return Err(TxError::AccountNotFound);
            },
        };
        if v.admin != signer {
            return Err(TxError::Vault(VaultError::Unauthorized));
        }
        let ghost pre = self@;
        self.vault = Some(VaultState { admin: new_admin, ..v });
        proof {
            assert(self@ =~= spec_update_admin(pre, signer, new_admin).0);
        }
        Ok(())
    }

    /// Sets the platform fee; admin only, at most 10000 basis points.
    pub fn update_fee_percentage(&mut self, signer: u64, new_fee: u64) -> (r: Result<(), TxError>)
        requires
            old(self).wf(),
        ensures
            final(self).wf(),
            final(self)@ == spec_update_fee_percentage(old(self)@, signer, new_fee).0,
            r == spec_update_fee_percentage(old(self)@, signer, new_fee).1,
            final(self).total_units() == old(self).total_units(),
    {
        let v = match self.vault {
            Some(v) => v,
            None => {
                return Err(TxError::AccountNotFound);
            },
        };
        if v.admin != signer {
            return Err(TxError::Vault(VaultError::Unauthorized));
        }
        if new_fee > MAX_FEE_BPS {
            return Err(TxError::Vault(VaultError::InvalidFee));
        }
        let ghost pre = self@;
        self.vault = Some(VaultState { fee_percentage: new_fee, ..v });
        proof {
            assert(self@ =~= spec_update_fee_percentage(pre, signer, new_fee).0);
        }
        Ok(())
    }

    /// Sets the per-user sponsorship amount; admin only, at most the cap.
    pub fn update_sponsorship_amount(&mut self, signer: u64, new_amount: u64) -> (r: Result<
        (),
        TxError,
    >)
        requires
            old(self).wf(),
        ensures
            final(self).wf(),
            final(self)@ == spec_update_sponsorship_amount(old(self)@, signer, new_amount).0,
            r == spec_update_sponsorship_amount(old(self)@, signer, new_amount).1,
            final(self).total_units() == old(self).total_units(),
    {
        let v = match self.vault {
            Some(v) => v,
            None => {
                return Err(TxError::AccountNotFound);
            },
        };
        if v.admin != signer {
            return Err(TxError::Vault(VaultError::Unauthorized));
        }
        if new_amount > MAX_SPONSORSHIP_AMOUNT {
            return Err(TxError::Vault(VaultError::AmountTooLarge));
        }
        let ghost pre = self@;
        self.vault = Some(VaultState { sponsorship_amount: new_amount, ..v });
        proof {
            assert(self@ =~= spec_update_sponsorship_amount(pre, signer, new_amount).0);
        }
        Ok(())
    }

    /// Collects the fee a payment of `amount` owes: exactly
    /// `floor(amount * feeBps / 10000)` units move from `payer` to the
    /// vault's wallet and are added to `total_collected`. Meant to run in
    /// the same transaction as the payment; it checks no signer of its own.
    pub fn collect_fees(&mut self, payer: u64, amount: u64) -> (r: Result<(), TxError>)
        requires
            old(self).wf(),
        ensures
            final(self).wf(),
            final(self)@ == spec_collect_fees(old(self)@, payer, amount).0,
            r == spec_collect_fees(old(self)@, payer, amount).1,
            final(self).total_units() == old(self).total_units(),
    {
        let v = match self.vault {
            Some(v) => v,
            None => {
                return Err(TxError::AccountNotFound);
            },
        };
        proof {
            assert((amount as int) * (v.fee_percentage as int) <= (u64::MAX as int) * (
            u64::MAX as int)) by (nonlinear_arith)
                requires
                    amount <= u64::MAX,
                    v.fee_percentage <= u64::MAX,
            ;
        }
        let prod: u128 = (amount as u128) * (v.fee_percentage as u128);
        if prod > u64::MAX as u128 {
            return Err(TxError::ArithmeticOverflow);
        }
        let fee: u64 = (prod / (MAX_FEE_BPS as u128)) as u64;
        proof {
            assert(fee == fee_of(amount, v.fee_percentage));
        }
        if v.total_collected > u64::MAX - fee {
            return Err(TxError::ArithmeticOverflow);
        }
        let ghost pre = self@;
        match self.bank.transfer(payer, v.vault_wallet, fee) {
            Ok(_) => {},
            Err(e) => {
                return Err(e);
            },
        }
        self.vault = Some(VaultState { total_collected: v.total_collected + fee, ..v });
        proof {
            assert(self@ =~= spec_collect_fees(pre, payer, amount).0);
        }
        Ok(())
    }

    /// Withdraws `amount` from the vault's wallet to `recipient`; admin
    /// only, and the wallet must keep at least the reserve floor.
    pub fn withdraw(&mut self, signer: u64, amount: u64, recipient: u64) -> (r: Result<
        (),
        TxError,
    >)
        requires
            old(self).wf(),
        ensures
            final(self).wf(),
            final(self)@ == spec_withdraw(old(self)@, signer, amount, recipient).0,
            r == spec_withdraw(old(self)@, signer, amount, recipient).1,
            final(self).total_units() == old(self).total_units(),
    {
        let v = match self.vault {
            Some(v) => v,
            None => {
                return Err(TxError::AccountNotFound);
            },
        };
        if v.admin != signer {
            return Err(TxError::Vault(VaultError::Unauthorized));
        }
        let b = self.bank.balance(v.vault_wallet);
        let kept = if amount > b {
            0
        } else {
            b - amount
        };
        if kept < RESERVE_FLOOR {
            return Err(TxError::Vault(VaultError::InsufficientBalance));
        }
        let ghost pre = self@;
        match self.bank.transfer(v.vault_wallet, recipient, amount) {
            Ok(_) => {},
            Err(e) => {
                return Err(e);
            },
        }
        proof {
            assert(self@ =~= spec_withdraw(pre, signer, amount, recipient).0);
        }
        Ok(())
    }

    /// Adds a sponsorship's amount to `total_sponsored`. Meant to run in the
    /// same transaction as the sponsorship; it checks no signer of its own.
    pub fn record_sponsorship(&mut self, amount: u64) -> (r: Result<(), TxError>)
        requires
            old(self).wf(),
        ensures
            final(self).wf(),
            final(self)@ == spec_record_sponsorship(old(self)@, amount).0,
            r == spec_record_sponsorship(old(self)@, amount).1,
            final(self).total_units() == old(self).total_units(),
    {
        let v = match self.vault {
            Some(v) => v,
            None => {
                return Err(TxError::AccountNotFound);
            },
        };
        if v.total_sponsored > u64::MAX - amount {
            return Err(TxError::ArithmeticOverflow);
        }
        let ghost pre = self@;
        self.vault = Some(VaultState { total_sponsored: v.total_sponsored + amount, ..v });
        proof {
            assert(self@ =~= spec_record_sponsorship(pre, amount).0);
        }
        Ok(())
    }
}

} // verus!
