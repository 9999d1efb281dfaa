//! The ways a transaction can fail.

use vstd::prelude::*;

verus! {

/// Named failures of the identity registry and payment ledger.
#[derive(Clone, Copy, Debug, PartialEq, Eq, Structural)]
pub enum CustomError {
    /// The signer is not the authority the operation requires.
    Unauthorized,
    /// No content item with the requested id exists in the creator's catalog.
    ContentNotFound,
    /// The username is shorter than 3, longer than 32, or holds a character
    /// outside letters, digits and underscore.
    InvalidUsername,
}

/// Named failures of the sponsorship gate.
#[derive(Clone, Copy, Debug, PartialEq, Eq, Structural)]
pub enum SponsorError {
    /// The user was sponsored before; sponsorship is one-shot.
    AlreadySponsored,
    /// The sponsorship amount exceeds the cap.
    AmountTooLarge,
}

/// Named failures of the vault treasury and its governance.
#[derive(Clone, Copy, Debug, PartialEq, Eq, Structural)]
pub enum VaultError {
    /// The signer is not the vault's admin.
    Unauthorized,
    /// The fee exceeds 10000 basis points (100%).
    InvalidFee,
    /// The sponsorship amount exceeds the cap.
    AmountTooLarge,
    /// The withdrawal would leave the vault below its reserve floor.
    InsufficientBalance,
}

/// Everything a transaction can fail with: a named error of one of the three
/// modules above, or a failure of the hosting store and value-transfer layer.
/// Any failure discards the whole transaction's effects.
#[derive(Clone, Copy, Debug, PartialEq, Eq, Structural)]
pub enum TxError {
    /// A named failure of the registry and payment ledger.
    Custom(CustomError),
    /// A named failure of the sponsorship gate.
    Sponsor(SponsorError),
    /// A named failure of the vault.
    Vault(VaultError),
    /// The slot derived for a new record is already occupied; callers treat
    /// this as the duplicate-prevention signal.
    AccountInUse,
    /// A record the operation needs has not been created yet.
    AccountNotFound,
    /// The paying balance is smaller than the amount to move.
    InsufficientFunds,
    /// A counter or balance would leave the unsigned 64-bit range.
    ArithmeticOverflow,
}

} // verus!
