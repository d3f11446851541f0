//! A savings vault: deposits earn a fixed monthly interest funded by whitelisted depositors.
pub mod pubkey;
pub mod ids;
pub mod state;
pub mod error;
pub mod token;
pub mod whitelist;
pub mod pda;
pub mod instructions;
pub mod laws;

pub use error::{ConstraintViolation, InstructionError, SavingsVaultError};
pub use instructions::interest_depositor_manager::{
    add_whitelist, create_interest_depositor_manager, deposit_liquidity_for_interest,
    remove_whitelist, AddWhitelist, CreateInterestDepositorManager,
    CreateInterestDepositorManagerBumps, DepositLiquidityForInterest, RemoveWhitelist,
};
pub use instructions::savings_vault::{
    accrue_interest, accrue_interest_fits_bounds, create_savings_vault, deposit_savings_vault, withdraw_savings_vault,
    AccrueInterest, CreateSavingsVault, CreateSavingsVaultBumps, DepositSavingsVault,
    WithdrawSavingsVault,
};
pub use pubkey::Pubkey;
pub use state::{
    AccrueInterestEvent, AddWhitelistEvent, CreateInterestDepositorManagerEvent,
    CreateSavingsVaultEvent, DepositLiquidityForInterestEvent, DepositSavingsVaultEvent,
    InterestDepositorManager, RemoveWhitelistEvent, SavingsVault, WithdrawSavingsVaultEvent,
};
pub use token::{AccountMeta, CreateTokenAccount, Instruction, TokenAccount, TokenTransfer};
