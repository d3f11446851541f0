//! The program's accounts (the interest depositor manager and the savings vaults), the constants
//! that govern them, and the events that the instructions emit.
use vstd::prelude::*;
use crate::pubkey::Pubkey;

verus! {

/// The most whitelisted depositors a manager holds.
pub const WHITELIST_SIZE: usize = 10;

/// The space reserved for a manager's data (after the account discriminator).
pub const SIZE_OF_INTEREST_DEPOSITOR_MANAGER: usize = 1 + 32 + 8 + 32 + 1 + WHITELIST_SIZE * 32;

/// The space reserved for a savings vault's data (after the account discriminator).
pub const SIZE_OF_SAVINGS_VAULT: usize = 1 + 32 + 32 + 8 + 8 + 8 + 32 + 1;

/// Thirty days, in seconds: the least time between two interest accruals.
pub const SECONDS_PER_MONTH: i64 = 30 * 24 * 60 * 60;

/// Interest per month, in percent of the current balance.
pub const INTEREST_RATE_PER_MONTH: u64 = 1;

/// `b"savings_vault"`
pub open spec fn seed_savings_vault() -> Seq<u8> {
    seq![115u8, 97, 118, 105, 110, 103, 115, 95, 118, 97, 117, 108, 116]
}

/// `b"savings_vault-treasury"`
pub open spec fn seed_savings_vault_treasury() -> Seq<u8> {
    seq![
        115u8, 97, 118, 105, 110, 103, 115, 95, 118, 97, 117, 108, 116, 45, 116, 114, 101, 97,
        115, 117, 114, 121,
    ]
}

/// `b"interest_depositor_manager"`
pub open spec fn seed_interest_depositor_manager() -> Seq<u8> {
    seq![
        105u8, 110, 116, 101, 114, 101, 115, 116, 95, 100, 101, 112, 111, 115, 105, 116, 111,
        114, 95, 109, 97, 110, 97, 103, 101, 114,
    ]
}

/// `b"interest_depositor_treasury"`
pub open spec fn seed_interest_depositor_treasury() -> Seq<u8> {
    seq![
        105u8, 110, 116, 101, 114, 101, 115, 116, 95, 100, 101, 112, 111, 115, 105, 116, 111,
        114, 95, 116, 114, 101, 97, 115, 117, 114, 121,
    ]
}

/// The seed prefix of savings vault addresses.
pub fn savings_vault_seed() -> (v: Vec<u8>)
    ensures
        v@ == seed_savings_vault(),
{
    let v = vec![115u8, 97, 118, 105, 110, 103, 115, 95, 118, 97, 117, 108, 116];
    assert(v@ =~= seed_savings_vault());
    v
}

/// The seed prefix of savings vault treasury addresses.
pub fn savings_vault_treasury_seed() -> (v: Vec<u8>)
    ensures
        v@ == seed_savings_vault_treasury(),
{
    let v = vec![
        115u8, 97, 118, 105, 110, 103, 115, 95, 118, 97, 117, 108, 116, 45, 116, 114, 101, 97,
        115, 117, 114, 121,
    ];
    assert(v@ =~= seed_savings_vault_treasury());
    v
}

/// The seed prefix of interest depositor manager addresses.
pub fn interest_depositor_manager_seed() -> (v: Vec<u8>)
    ensures
        v@ == seed_interest_depositor_manager(),
{
    let v = vec![
        105u8, 110, 116, 101, 114, 101, 115, 116, 95, 100, 101, 112, 111, 115, 105, 116, 111,
        114, 95, 109, 97, 110, 97, 103, 101, 114,
    ];
    assert(v@ =~= seed_interest_depositor_manager());
    v
}

/// The seed prefix of interest depositor treasury addresses.
pub fn interest_depositor_treasury_seed() -> (v: Vec<u8>)
    ensures
        v@ == seed_interest_depositor_treasury(),
{
    let v = vec![
        105u8, 110, 116, 101, 114, 101, 115, 116, 95, 100, 101, 112, 111, 115, 105, 116, 111,
        114, 95, 116, 114, 101, 97, 115, 117, 114, 121,
    ];
    assert(v@ =~= seed_interest_depositor_treasury());
    v
}

/// The manager of one mint's interest: who may fund it, and how much they have funded.
#[derive(Clone, Debug)]
pub struct InterestDepositorManager {
    pub bump: u8,
    pub authority: Pubkey,
    pub mint: Pubkey,
    pub total_liquidity_for_interest: u64,
    pub interest_depositor_treasury: Pubkey,
    pub interest_depositor_treasury_bump: u8,
    pub whitelist: Vec<Pubkey>,
}

impl InterestDepositorManager {
    /// The whitelist never holds more than `WHITELIST_SIZE` entries.
    pub open spec fn wf(&self) -> bool {
        self.whitelist@.len() <= WHITELIST_SIZE
    }

    /// A manager with every field zero and an empty whitelist (the `Default` of the account).
    pub fn zeroed() -> (m: InterestDepositorManager)
        ensures
            m.bump == 0,
            m.authority@ == Seq::new(32, |i: int| 0u8),
            m.mint@ == Seq::new(32, |i: int| 0u8),
            m.total_liquidity_for_interest == 0,
            m.interest_depositor_treasury@ == Seq::new(32, |i: int| 0u8),
            m.interest_depositor_treasury_bump == 0,
            m.whitelist@.len() == 0,
            m.wf(),
    {
        InterestDepositorManager {
            bump: 0,
            authority: Pubkey::zeroed(),
            mint: Pubkey::zeroed(),
            total_liquidity_for_interest: 0,
            interest_depositor_treasury: Pubkey::zeroed(),
            interest_depositor_treasury_bump: 0,
            whitelist: Vec::new(),
        }
    }
}

/// One wallet's savings in one mint.
#[derive(Clone, Copy, Debug)]
pub struct SavingsVault {
    pub bump: u8,
    pub wallet: Pubkey,
    pub mint: Pubkey,
    pub created_ts: i64,
    pub last_accrued_ts: i64,
    pub starting_balance: u64,
    pub current_balance: u64,
    pub interest_depositor_manager: Pubkey,
    pub savings_vault_treasury: Pubkey,
    pub savings_vault_treasury_bump: u8,
    pub amount_withdrawn: u64,
    pub last_withdrawn_ts: i64,
}

impl SavingsVault {
    /// A vault with every field zero (the `Default` of the account).
    pub fn zeroed() -> (v: SavingsVault)
        ensures
            v.bump == 0,
            v.wallet@ == Seq::new(32, |i: int| 0u8),
            v.mint@ == Seq::new(32, |i: int| 0u8),
            v.created_ts == 0,
            v.last_accrued_ts == 0,
            v.starting_balance == 0,
            v.current_balance == 0,
            v.interest_depositor_manager@ == Seq::new(32, |i: int| 0u8),
            v.savings_vault_treasury@ == Seq::new(32, |i: int| 0u8),
            v.savings_vault_treasury_bump == 0,
            v.amount_withdrawn == 0,
            v.last_withdrawn_ts == 0,
    {
        SavingsVault {
            bump: 0,
            wallet: Pubkey::zeroed(),
            mint: Pubkey::zeroed(),
            created_ts: 0,
            last_accrued_ts: 0,
            starting_balance: 0,
            current_balance: 0,
            interest_depositor_manager: Pubkey::zeroed(),
            savings_vault_treasury: Pubkey::zeroed(),
            savings_vault_treasury_bump: 0,
            amount_withdrawn: 0,
            last_withdrawn_ts: 0,
        }
    }
}

/// Emitted when a manager is created.
#[derive(Clone, Debug, PartialEq, Eq)]
pub struct CreateInterestDepositorManagerEvent {
    pub mint: Pubkey,
    pub whitelist: Vec<Pubkey>,
}

/// Emitted when a depositor is whitelisted.
#[derive(Clone, Debug, PartialEq, Eq)]
pub struct AddWhitelistEvent {
    pub mint: Pubkey,
    pub whitelist_entry: Pubkey,
}

/// Emitted when a depositor is taken off the whitelist.
#[derive(Clone, Debug, PartialEq, Eq)]
pub struct RemoveWhitelistEvent {
    pub mint: Pubkey,
    pub whitelist_entry: Pubkey,
}

/// Emitted when a whitelisted depositor funds interest.
#[derive(Clone, Debug, PartialEq, Eq)]
pub struct DepositLiquidityForInterestEvent {
    pub mint: Pubkey,
    pub depositor: Pubkey,
    pub number_of_tokens_deposited: u64,
}

/// Emitted when a savings vault is opened.
#[derive(Clone, Debug, PartialEq, Eq)]
pub struct CreateSavingsVaultEvent {
    pub wallet: Pubkey,
    pub mint: Pubkey,
    pub created_ts: i64,
    pub current_balance: u64,
}

/// Emitted when more tokens are put into a savings vault.
#[derive(Clone, Debug, PartialEq, Eq)]
pub struct DepositSavingsVaultEvent {
    pub wallet: Pubkey,
    pub mint: Pubkey,
    pub number_of_additional_tokens_deposited: u64,
    pub current_balance: u64,
}

/// The record of a withdrawal from a savings vault.
#[derive(Clone, Debug, PartialEq, Eq)]
pub struct WithdrawSavingsVaultEvent {
    pub wallet: Pubkey,
    pub mint: Pubkey,
    pub number_of_tokens_withdrawn: u64,
    pub current_balance: u64,
}

/// Emitted when interest is accrued to a savings vault.
#[derive(Clone, Debug, PartialEq, Eq)]
pub struct AccrueInterestEvent {
    pub wallet: Pubkey,
    pub mint: Pubkey,
    pub number_of_tokens_accrued: u64,
    pub current_balance: u64,
}

} // verus!
