//! The errors the program answers with.
use vstd::prelude::*;

verus! {

/// The program's own errors, in the order that fixes their codes.
#[derive(Clone, Copy, Debug, PartialEq, Eq, Structural)]
pub enum SavingsVaultError {
    /// The bump seed provided does not match the bump seed generated from the account seeds.
    BumpSeedNotInHashMap,
    /// Pubkey mismatch.
    PublicKeyMismatch,
    /// The account is not initialized.
    UninitializedAccount,
    /// Incorrect owner provided.
    IncorrectOwner,
    /// The derived key is invalid.
    DerivedKeyInvalid,
    /// Numerical overflow.
    NumericalOverflow,
    /// Invalid associated token account.
    InvalidAssociatedTokenAccount,
    /// Invalid deposit amount.
    InvalidDepositAmount,
    /// Interest Depositor Whitelist full.
    WhitelistFull,
    /// Whitelist entry not found.
    WhitelistEntryNotFound,
    /// Cranked too recently.
    CrankedTooRecently,
    /// Not enough interest to accrue.
    NotEnoughInterestToAccrue,
    /// Insufficient funds to withdraw from savings vault.
    InsufficientFundsToWithdrawSavingsVault,
}

/// The error of an instruction whose body also builds a token-program instruction: the
/// program's own error, or the token program's refusal of a program id that is not its own.
#[derive(Clone, Copy, Debug, PartialEq, Eq, Structural)]
pub enum InstructionError {
    SavingsVault(SavingsVaultError),
    IncorrectProgramId,
}

/// Which kind of account constraint refused the accounts handed to an instruction.
#[derive(Clone, Copy, Debug, PartialEq, Eq, Structural)]
pub enum ConstraintViolation {
    /// A `has_one` constraint: a field of the account differs from the named account's address.
    HasOne,
    /// A `constraint = ..` expression was false.
    Raw,
    /// The account's address is not the one derived from its seeds.
    Seeds,
    /// An `address = ..` constraint: the account's address differs from the expected one.
    Address,
}

} // verus!
