//! The instructions on savings vaults: opening one, depositing, withdrawing, and accruing the
//! monthly interest.
use vstd::prelude::*;
use crate::error::{ConstraintViolation, InstructionError, SavingsVaultError};
use crate::ids::{is_native_mint, native_mint_bytes, token_program_id_bytes};
use crate::pda::{
    check_seeds, derived_from, doubly_keyed_seeds, doubly_unbumped_seeds, keyed_seeds,
    make_doubly_keyed_seeds, make_doubly_unbumped_seeds, make_keyed_seeds, make_unbumped_seeds,
    search_seeds, seeds_search, unbumped_seeds,
};
use crate::pubkey::Pubkey;
use crate::state::{
    interest_depositor_manager_seed, interest_depositor_treasury_seed, savings_vault_seed,
    savings_vault_treasury_seed, seed_interest_depositor_manager,
    seed_interest_depositor_treasury, seed_savings_vault, seed_savings_vault_treasury,
    AccrueInterestEvent, CreateSavingsVaultEvent, DepositSavingsVaultEvent,
    InterestDepositorManager, SavingsVault, INTEREST_RATE_PER_MONTH, SECONDS_PER_MONTH,
};
use crate::token::{is_token_transfer, seeds_view, CreateTokenAccount, TokenAccount, TokenTransfer};

verus! {

/// The interest a month earns on a balance: `INTEREST_RATE_PER_MONTH` percent, rounded down.
pub open spec fn monthly_interest(balance: u64) -> int {
    (balance * INTEREST_RATE_PER_MONTH) as int / 100
}

/// The vault after a deposit of `amount`.
pub open spec fn deposited(v: SavingsVault, amount: u64) -> SavingsVault {
    SavingsVault { current_balance: (v.current_balance + amount) as u64, ..v }
}

/// The vault after a withdrawal of `amount` at time `now`.
pub open spec fn withdrawn(v: SavingsVault, amount: u64, now: i64) -> SavingsVault {
    SavingsVault {
        current_balance: (v.current_balance - amount) as u64,
        last_withdrawn_ts: now,
        amount_withdrawn: (v.amount_withdrawn + amount) as u64,
        ..v
    }
}

/// The vault after a month's interest is accrued at time `now`.
pub open spec fn accrued(v: SavingsVault, now: i64) -> SavingsVault {
    SavingsVault {
        current_balance: (v.current_balance + monthly_interest(v.current_balance)) as u64,
        last_accrued_ts: now,
        ..v
    }
}

/// A successful call on a vault, as far as the vault's data goes: a deposit of an amount, a
/// withdrawal of an amount at a time, or an accrual at a time.
#[derive(Clone, Copy, Debug, PartialEq, Eq)]
pub enum VaultCall {
    Deposit(u64),
    Withdraw(u64, i64),
    Accrue(i64),
}

/// What the vault must satisfy for the call to go through (besides its accounts and, for an
/// accrual, a funded manager treasury): a deposit or an accrual must not overflow the balance, a
/// withdrawal must be covered by the balance, and an accrual must be due.
pub open spec fn call_succeeds(v: SavingsVault, c: VaultCall) -> bool {
    match c {
        VaultCall::Deposit(amount) => v.current_balance + amount <= u64::MAX,
        VaultCall::Withdraw(amount, _) => amount <= v.current_balance && v.amount_withdrawn + amount <= u64::MAX,
        VaultCall::Accrue(now) => accrual_due(v, now)
            && v.current_balance + monthly_interest(v.current_balance) <= u64::MAX,
    }
}

/// The vault after the call.
pub open spec fn after_call(v: SavingsVault, c: VaultCall) -> SavingsVault {
    match c {
        VaultCall::Deposit(amount) => deposited(v, amount),
        VaultCall::Withdraw(amount, now) => withdrawn(v, amount, now),
        VaultCall::Accrue(now) => accrued(v, now),
    }
}

/// The vault after the calls, in order.
pub open spec fn after_calls(v: SavingsVault, calls: Seq<VaultCall>) -> SavingsVault
    decreases calls.len(),
{
    if calls.len() == 0 {
        v
    } else {
        after_call(after_calls(v, calls.drop_last()), calls.last())
    }
}

/// Every call goes through on the vault as the earlier calls left it.
pub open spec fn calls_succeed(v: SavingsVault, calls: Seq<VaultCall>) -> bool
    decreases calls.len(),
{
    calls.len() == 0 || (calls_succeed(v, calls.drop_last())
        && call_succeeds(after_calls(v, calls.drop_last()), calls.last()))
}

/// The sum of the deposits among the calls.
pub open spec fn deposits_in(calls: Seq<VaultCall>) -> int
    decreases calls.len(),
{
    if calls.len() == 0 {
        0
    } else {
        deposits_in(calls.drop_last()) + match calls.last() {
            VaultCall::Deposit(amount) => amount as int,
            _ => 0,
        }
    }
}

/// The sum of the withdrawals among the calls.
pub open spec fn withdrawals_in(calls: Seq<VaultCall>) -> int
    decreases calls.len(),
{
    if calls.len() == 0 {
        0
    } else {
        withdrawals_in(calls.drop_last()) + match calls.last() {
            VaultCall::Withdraw(amount, _) => amount as int,
            _ => 0,
        }
    }
}

/// The sum of the interest the accruals among the calls credit, each on the balance the earlier
/// calls left.
pub open spec fn interest_in(v: SavingsVault, calls: Seq<VaultCall>) -> int
    decreases calls.len(),
{
    if calls.len() == 0 {
        0
    } else {
        interest_in(v, calls.drop_last()) + match calls.last() {
            VaultCall::Accrue(_) => monthly_interest(after_calls(v, calls.drop_last()).current_balance),
            _ => 0,
        }
    }
}

/// The constraints on a token account that pays from a wallet: it is the wallet's own and of
/// the vault's mint, in that order.
pub open spec fn wallet_token_account_check(account: TokenAccount, wallet: Pubkey, mint: Pubkey) -> Result<(), ConstraintViolation> {
    if account.owner != wallet {
        Err(ConstraintViolation::Raw)
    } else if account.mint != mint {
        Err(ConstraintViolation::Raw)
    } else {
        Ok(())
    }
}

/// Checks `wallet_token_account_check`.
fn check_wallet_token_account(account: &TokenAccount, wallet: &Pubkey, mint: &Pubkey) -> (r: Result<(), ConstraintViolation>)
    ensures
        r == wallet_token_account_check(*account, *wallet, *mint),
{
    if !account.owner.same_as(wallet) {
        return Err(ConstraintViolation::Raw);
    }
    if !account.mint.same_as(mint) {
        return Err(ConstraintViolation::Raw);
    }
    Ok(())
}

/// The seeds of a vault's address: the vault prefix, the wallet, the mint and the bump.
pub open spec fn vault_seeds(wallet: Pubkey, mint: Pubkey, bump: u8) -> Seq<Seq<u8>> {
    doubly_keyed_seeds(seed_savings_vault(), wallet, mint, bump)
}

// ---------------------------------------------------------------------------------------------
// create_savings_vault
// ---------------------------------------------------------------------------------------------

/// The accounts of `create_savings_vault`: the wallet that opens and pays, its token account,
/// the vault being created (its address and its data), the address of the vault's treasury,
/// the address of the mint's interest manager, the mint, the token program, and the clock's
/// time.
#[derive(Clone, Copy, Debug)]
pub struct CreateSavingsVault {
    pub wallet: Pubkey,
    pub wallet_token_account: TokenAccount,
    pub savings_vault_key: Pubkey,
    pub savings_vault: SavingsVault,
    pub savings_vault_treasury: Pubkey,
    pub interest_depositor_manager_key: Pubkey,
    pub mint: Pubkey,
    pub token_program: Pubkey,
    pub clock_unix_timestamp: i64,
}

/// The bump seeds found for the program-derived accounts of `create_savings_vault`, where one
/// was found.
#[derive(Clone, Copy, Debug, PartialEq, Eq)]
pub struct CreateSavingsVaultBumps {
    pub savings_vault: Option<u8>,
    pub savings_vault_treasury: Option<u8>,
    pub interest_depositor_manager: Option<u8>,
}

/// The checks on the accounts of `create_savings_vault`, in the order they are made: first the
/// account being created, the vault, whose bump is searched for (from the wallet and the mint)
/// and whose address must be the one found; then, in field order, the wallet's token account is
/// the wallet's own, of the mint, and holds at least the deposit, and the bumps are searched for
/// the vault's treasury (from the vault) and the mint's manager (from the mint), each address
/// being the one found. `None` where a search finds no bump; the found bumps on success.
pub open spec fn create_savings_vault_accounts_check(
    ctx: CreateSavingsVault,
    number_of_tokens_deposited: u64,
    program_id: Pubkey,
) -> Option<Result<CreateSavingsVaultBumps, ConstraintViolation>> {
    match seeds_search(ctx.savings_vault_key, doubly_unbumped_seeds(seed_savings_vault(), ctx.wallet, ctx.mint), program_id) {
        None => None,
        Some(Err(e)) => Some(Err(e)),
        Some(Ok(vault_bump)) => if wallet_token_account_check(ctx.wallet_token_account, ctx.wallet, ctx.mint) is Err
            || ctx.wallet_token_account.amount < number_of_tokens_deposited {
            Some(Err(ConstraintViolation::Raw))
        } else {
            match seeds_search(
                ctx.savings_vault_treasury,
                unbumped_seeds(seed_savings_vault_treasury(), ctx.savings_vault_key),
                program_id,
            ) {
                None => None,
                Some(Err(e)) => Some(Err(e)),
                Some(Ok(treasury_bump)) => match seeds_search(
                    ctx.interest_depositor_manager_key,
                    unbumped_seeds(seed_interest_depositor_manager(), ctx.mint),
                    program_id,
                ) {
                    None => None,
                    Some(Err(e)) => Some(Err(e)),
                    Some(Ok(manager_bump)) => Some(Ok(CreateSavingsVaultBumps {
                        savings_vault: Some(vault_bump),
                        savings_vault_treasury: Some(treasury_bump),
                        interest_depositor_manager: Some(manager_bump),
                    })),
                },
            }
        },
    }
}

impl CreateSavingsVault {
    /// Checks the accounts for a deposit of `number_of_tokens_deposited` for the program at
    /// `program_id`, and finds their bumps (see `create_savings_vault_accounts_check`).
    pub fn validate(&self, number_of_tokens_deposited: u64, program_id: &Pubkey) -> (r: Option<Result<CreateSavingsVaultBumps, ConstraintViolation>>)
        ensures
            r == create_savings_vault_accounts_check(*self, number_of_tokens_deposited, *program_id),
            r matches Some(Ok(b)) ==> {
                &&& derived_from(self.savings_vault_key, vault_seeds(self.wallet, self.mint, b.savings_vault->0), *program_id)
                &&& derived_from(
                    self.savings_vault_treasury,
                    keyed_seeds(seed_savings_vault_treasury(), self.savings_vault_key, b.savings_vault_treasury->0),
                    *program_id,
                )
                &&& derived_from(
                    self.interest_depositor_manager_key,
                    keyed_seeds(seed_interest_depositor_manager(), self.mint, b.interest_depositor_manager->0),
                    *program_id,
                )
            },
    {
        let vault_search_seeds = make_doubly_unbumped_seeds(savings_vault_seed(), &self.wallet, &self.mint);
        let vault_bump: u8 = match search_seeds(&self.savings_vault_key, &vault_search_seeds, program_id) {
            None => return None,
            Some(Err(e)) => return Some(Err(e)),
            Some(Ok(b)) => b,
        };
        assert(seeds_view(vault_search_seeds@).push(seq![vault_bump]) =~= vault_seeds(self.wallet, self.mint, vault_bump));
        if check_wallet_token_account(&self.wallet_token_account, &self.wallet, &self.mint).is_err()
            || self.wallet_token_account.amount < number_of_tokens_deposited {
            return Some(Err(ConstraintViolation::Raw));
        }
        let treasury_seeds = make_unbumped_seeds(savings_vault_treasury_seed(), &self.savings_vault_key);
        let treasury_bump: u8 = match search_seeds(&self.savings_vault_treasury, &treasury_seeds, program_id) {
            None => return None,
            Some(Err(e)) => return Some(Err(e)),
            Some(Ok(b)) => b,
        };
        assert(seeds_view(treasury_seeds@).push(seq![treasury_bump]) =~= keyed_seeds(
            seed_savings_vault_treasury(), self.savings_vault_key, treasury_bump));
        let manager_seeds = make_unbumped_seeds(interest_depositor_manager_seed(), &self.mint);
        let manager_bump: u8 = match search_seeds(&self.interest_depositor_manager_key, &manager_seeds, program_id) {
            None => return None,
            Some(Err(e)) => return Some(Err(e)),
            Some(Ok(b)) => b,
        };
        assert(seeds_view(manager_seeds@).push(seq![manager_bump]) =~= keyed_seeds(
            seed_interest_depositor_manager(), self.mint, manager_bump));
        Some(Ok(CreateSavingsVaultBumps {
            savings_vault: Some(vault_bump),
            savings_vault_treasury: Some(treasury_bump),
            interest_depositor_manager: Some(manager_bump),
        }))
    }
}

/// The treasury account that `create_savings_vault` asks to create.
pub open spec fn is_vault_treasury_creation(c: CreateTokenAccount, ctx: CreateSavingsVault, treasury_bump: u8) -> bool {
    &&& c.token_account == ctx.savings_vault_treasury
    &&& c.payer == ctx.wallet
    &&& c.mint == ctx.mint
    &&& c.owner == ctx.savings_vault_key
    &&& seeds_view(c.signer_seeds@) == keyed_seeds(seed_savings_vault_treasury(), ctx.savings_vault_key, treasury_bump)
    &&& c.is_native == (ctx.mint@ == native_mint_bytes())
}

/// The vault that `create_savings_vault` records.
pub open spec fn opened_vault(
    ctx: CreateSavingsVault,
    bumps: CreateSavingsVaultBumps,
    number_of_tokens_deposited: u64,
    savings_vault_treasury_bump: u8,
) -> SavingsVault {
    SavingsVault {
        bump: bumps.savings_vault->0,
        wallet: ctx.wallet,
        mint: ctx.mint,
        created_ts: ctx.clock_unix_timestamp,
        last_accrued_ts: ctx.clock_unix_timestamp,
        starting_balance: number_of_tokens_deposited,
        current_balance: number_of_tokens_deposited,
        interest_depositor_manager: ctx.interest_depositor_manager_key,
        savings_vault_treasury: ctx.savings_vault_treasury,
        savings_vault_treasury_bump,
        amount_withdrawn: 0,
        last_withdrawn_ts: 0,
    }
}

/// Whether `create_savings_vault` goes through on these inputs.
pub open spec fn create_savings_vault_succeeds(
    ctx: CreateSavingsVault,
    bumps: CreateSavingsVaultBumps,
    number_of_tokens_deposited: u64,
    savings_vault_treasury_bump: u8,
) -> bool {
    &&& number_of_tokens_deposited != 0
    &&& bumps.savings_vault_treasury == Some(savings_vault_treasury_bump)
    &&& ctx.token_program@ == token_program_id_bytes()
}

/// Opens a savings vault: refuses an empty deposit, checks the treasury bump the caller gives
/// against the one found for the treasury, asks for the treasury token account (owned by the
/// vault) and for the transfer of the deposit from the wallet's token account into it, and
/// records the vault with the deposit as starting and current balance and the clock's time as
/// creation and last accrual.
pub fn create_savings_vault(
    ctx: &mut CreateSavingsVault,
    bumps: &CreateSavingsVaultBumps,
    number_of_tokens_deposited: u64,
    savings_vault_treasury_bump: u8,
) -> (r: Result<(CreateTokenAccount, TokenTransfer, CreateSavingsVaultEvent), InstructionError>)
    requires
        create_savings_vault_succeeds(*old(ctx), *bumps, number_of_tokens_deposited, savings_vault_treasury_bump)
            ==> bumps.savings_vault is Some,
    ensures
        r is Ok <==> create_savings_vault_succeeds(*old(ctx), *bumps, number_of_tokens_deposited, savings_vault_treasury_bump),
        number_of_tokens_deposited == 0 ==> r == Err::<(CreateTokenAccount, TokenTransfer, CreateSavingsVaultEvent), InstructionError>(
            InstructionError::SavingsVault(SavingsVaultError::InvalidDepositAmount)),
        number_of_tokens_deposited != 0 && bumps.savings_vault_treasury != Some(savings_vault_treasury_bump)
            ==> r == Err::<(CreateTokenAccount, TokenTransfer, CreateSavingsVaultEvent), InstructionError>(
            InstructionError::SavingsVault(SavingsVaultError::BumpSeedNotInHashMap)),
        number_of_tokens_deposited != 0 && bumps.savings_vault_treasury == Some(savings_vault_treasury_bump)
            && old(ctx).token_program@ != token_program_id_bytes()
            ==> r == Err::<(CreateTokenAccount, TokenTransfer, CreateSavingsVaultEvent), InstructionError>(
            InstructionError::IncorrectProgramId),
        r is Err ==> *final(ctx) == *old(ctx),
        r matches Ok((create, transfer, event)) ==> {
            &&& transfer.destination == old(ctx).savings_vault_treasury
            &&& final(ctx).savings_vault.current_balance == transfer.amount
            &&& is_vault_treasury_creation(create, *old(ctx), savings_vault_treasury_bump)
            &&& is_token_transfer(
                transfer,
                old(ctx).token_program,
                old(ctx).wallet_token_account.key,
                old(ctx).savings_vault_treasury,
                old(ctx).wallet,
                number_of_tokens_deposited,
                Seq::empty(),
            )
            &&& *final(ctx) == (CreateSavingsVault {
                savings_vault: opened_vault(*old(ctx), *bumps, number_of_tokens_deposited, savings_vault_treasury_bump),
                ..*old(ctx)
            })
            &&& event == (CreateSavingsVaultEvent {
                wallet: old(ctx).wallet,
                mint: old(ctx).mint,
                created_ts: old(ctx).clock_unix_timestamp,
                current_balance: number_of_tokens_deposited,
            })
        },
{
    if number_of_tokens_deposited == 0 {
        return Err(InstructionError::SavingsVault(SavingsVaultError::InvalidDepositAmount));
    }
    let bump_from_account: u8 = match bumps.savings_vault_treasury {
        Some(b) => b,
        None => {
            return Err(InstructionError::SavingsVault(SavingsVaultError::BumpSeedNotInHashMap));
        },
    };
    if savings_vault_treasury_bump != bump_from_account {
        return Err(InstructionError::SavingsVault(SavingsVaultError::BumpSeedNotInHashMap));
    }
    let savings_vault_treasury_seeds = make_keyed_seeds(
        savings_vault_treasury_seed(),
        &ctx.savings_vault_key,
        savings_vault_treasury_bump,
    );
    let is_native = is_native_mint(&ctx.mint);
    let create = CreateTokenAccount {
        token_account: ctx.savings_vault_treasury,
        payer: ctx.wallet,
        mint: ctx.mint,
        owner: ctx.savings_vault_key,
        signer_seeds: savings_vault_treasury_seeds,
        is_native,
    };
    let no_seeds: Vec<Vec<u8>> = Vec::new();
    assert(seeds_view(no_seeds@) =~= Seq::<Seq<u8>>::empty());
    let transfer = match TokenTransfer::new(
        &ctx.token_program,
        &ctx.wallet_token_account.key,
        &ctx.savings_vault_treasury,
        &ctx.wallet,
        number_of_tokens_deposited,
        no_seeds,
    ) {
        Some(t) => t,
        None => {
            return Err(InstructionError::IncorrectProgramId);
        },
    };
    let bump: u8 = bumps.savings_vault.unwrap();
    ctx.savings_vault = SavingsVault {
        bump,
        wallet: ctx.wallet,
        mint: ctx.mint,
        created_ts: ctx.clock_unix_timestamp,
        last_accrued_ts: ctx.clock_unix_timestamp,
        starting_balance: number_of_tokens_deposited,
        current_balance: number_of_tokens_deposited,
        interest_depositor_manager: ctx.interest_depositor_manager_key,
        savings_vault_treasury: ctx.savings_vault_treasury,
        savings_vault_treasury_bump,
        amount_withdrawn: 0,
        last_withdrawn_ts: 0,
    };
    let event = CreateSavingsVaultEvent {
        wallet: ctx.wallet,
        mint: ctx.mint,
        created_ts: ctx.savings_vault.created_ts,
        current_balance: ctx.savings_vault.current_balance,
    };
    Ok((create, transfer, event))
}

// ---------------------------------------------------------------------------------------------
// deposit_savings_vault
// ---------------------------------------------------------------------------------------------

/// The accounts of `deposit_savings_vault`: the wallet and its token account, the vault (its
/// address and its data), the vault's treasury, the mint's interest manager (its address and
/// its data), the mint, and the token program.
#[derive(Clone, Debug)]
pub struct DepositSavingsVault {
    pub wallet: Pubkey,
    pub wallet_token_account: TokenAccount,
    pub savings_vault_key: Pubkey,
    pub savings_vault: SavingsVault,
    pub savings_vault_treasury: Pubkey,
    pub interest_depositor_manager_key: Pubkey,
    pub interest_depositor_manager: InterestDepositorManager,
    pub mint: Pubkey,
    pub token_program: Pubkey,
}

/// The constraints on the accounts of `deposit_savings_vault`, in the order they are checked:
/// the wallet's token account is the wallet's own, of the mint, and holds at least the deposit;
/// the vault is at the address derived from the wallet, the mint and its bump; the treasury and
/// the manager are the vault's; the mint is the manager's.
pub open spec fn deposit_savings_vault_accounts_check(
    ctx: DepositSavingsVault,
    number_of_additional_tokens_deposited: u64,
    program_id: Pubkey,
) -> Result<(), ConstraintViolation> {
    let v = ctx.savings_vault;
    if wallet_token_account_check(ctx.wallet_token_account, ctx.wallet, ctx.mint) is Err {
        Err(ConstraintViolation::Raw)
    } else if ctx.wallet_token_account.amount < number_of_additional_tokens_deposited {
        Err(ConstraintViolation::Raw)
    } else if !derived_from(ctx.savings_vault_key, vault_seeds(ctx.wallet, ctx.mint, v.bump), program_id) {
        Err(ConstraintViolation::Seeds)
    } else if ctx.savings_vault_treasury != v.savings_vault_treasury {
        Err(ConstraintViolation::Address)
    } else if ctx.interest_depositor_manager_key != v.interest_depositor_manager {
        Err(ConstraintViolation::Address)
    } else if ctx.mint != ctx.interest_depositor_manager.mint {
        Err(ConstraintViolation::Address)
    } else {
        Ok(())
    }
}

impl DepositSavingsVault {
    /// Checks the accounts' constraints for a deposit of `number_of_additional_tokens_deposited`
    /// for the program at `program_id`.
    pub fn validate(&self, number_of_additional_tokens_deposited: u64, program_id: &Pubkey) -> (r: Result<(), ConstraintViolation>)
        ensures
            r == deposit_savings_vault_accounts_check(*self, number_of_additional_tokens_deposited, *program_id),
    {
        check_wallet_token_account(&self.wallet_token_account, &self.wallet, &self.mint)?;
        if self.wallet_token_account.amount < number_of_additional_tokens_deposited {
            return Err(ConstraintViolation::Raw);
        }
        let seeds = make_doubly_keyed_seeds(savings_vault_seed(), &self.wallet, &self.mint, self.savings_vault.bump);
        check_seeds(&self.savings_vault_key, &seeds, program_id)?;
        if !self.savings_vault_treasury.same_as(&self.savings_vault.savings_vault_treasury) {
            return Err(ConstraintViolation::Address);
        }
        if !self.interest_depositor_manager_key.same_as(&self.savings_vault.interest_depositor_manager) {
            return Err(ConstraintViolation::Address);
        }
        if !self.mint.same_as(&self.interest_depositor_manager.mint) {
            return Err(ConstraintViolation::Address);
        }
        Ok(())
    }
}

/// Deposits more into a vault: asks for the transfer of the deposit from the wallet's token
/// account into the vault's treasury and adds it to the vault's current balance.
pub fn deposit_savings_vault(
    ctx: &mut DepositSavingsVault,
    number_of_additional_tokens_deposited: u64,
) -> (r: Result<(TokenTransfer, DepositSavingsVaultEvent), InstructionError>)
    requires
        old(ctx).token_program@ == token_program_id_bytes()
            ==> old(ctx).savings_vault.current_balance + number_of_additional_tokens_deposited <= u64::MAX,
    ensures
        r is Ok <==> old(ctx).token_program@ == token_program_id_bytes(),
        r is Err ==> r == Err::<(TokenTransfer, DepositSavingsVaultEvent), InstructionError>(InstructionError::IncorrectProgramId)
            && *final(ctx) == *old(ctx),
        r is Ok ==> call_succeeds(old(ctx).savings_vault, VaultCall::Deposit(number_of_additional_tokens_deposited))
            && final(ctx).savings_vault == after_call(old(ctx).savings_vault, VaultCall::Deposit(number_of_additional_tokens_deposited)),
        r matches Ok((transfer, event)) ==> {
            let balance: u64 = (old(ctx).savings_vault.current_balance + number_of_additional_tokens_deposited) as u64;
            &&& transfer.destination == old(ctx).savings_vault_treasury
            &&& final(ctx).savings_vault.current_balance == old(ctx).savings_vault.current_balance + transfer.amount
            &&& is_token_transfer(
                transfer,
                old(ctx).token_program,
                old(ctx).wallet_token_account.key,
                old(ctx).savings_vault_treasury,
                old(ctx).wallet,
                number_of_additional_tokens_deposited,
                Seq::empty(),
            )
            &&& *final(ctx) == (DepositSavingsVault {
                savings_vault: deposited(old(ctx).savings_vault, number_of_additional_tokens_deposited),
                ..*old(ctx)
            })
            &&& event == (DepositSavingsVaultEvent {
                wallet: old(ctx).wallet,
                mint: old(ctx).mint,
                number_of_additional_tokens_deposited,
                current_balance: balance,
            })
        },
{
    let no_seeds: Vec<Vec<u8>> = Vec::new();
    assert(seeds_view(no_seeds@) =~= Seq::<Seq<u8>>::empty());
    let transfer = match TokenTransfer::new(
        &ctx.token_program,
        &ctx.wallet_token_account.key,
        &ctx.savings_vault_treasury,
        &ctx.wallet,
        number_of_additional_tokens_deposited,
        no_seeds,
    ) {
        Some(t) => t,
        None => {
            return Err(InstructionError::IncorrectProgramId);
        },
    };
    ctx.savings_vault.current_balance = ctx.savings_vault.current_balance + number_of_additional_tokens_deposited;
    let event = DepositSavingsVaultEvent {
        wallet: ctx.wallet,
        mint: ctx.mint,
        number_of_additional_tokens_deposited,
        current_balance: ctx.savings_vault.current_balance,
    };
    Ok((transfer, event))
}

// ---------------------------------------------------------------------------------------------
// withdraw_savings_vault
// ---------------------------------------------------------------------------------------------

/// The accounts of `withdraw_savings_vault`: the wallet and its token account, the vault (its
/// address and its data), the vault's treasury, the mint, and the clock's time.
#[derive(Clone, Copy, Debug)]
pub struct WithdrawSavingsVault {
    pub wallet: Pubkey,
    pub wallet_token_account: TokenAccount,
    pub savings_vault_key: Pubkey,
    pub savings_vault: SavingsVault,
    pub savings_vault_treasury: Pubkey,
    pub mint: Pubkey,
    pub clock_unix_timestamp: i64,
}

/// The constraints on the accounts of `withdraw_savings_vault`, in the order they are checked:
/// the wallet is the vault's; its token account is its own and of the mint; the vault is at the
/// address derived from the wallet, the mint and its bump; the treasury is the vault's; the mint
/// is the vault's.
pub open spec fn withdraw_savings_vault_accounts_check(ctx: WithdrawSavingsVault, program_id: Pubkey) -> Result<(), ConstraintViolation> {
    let v = ctx.savings_vault;
    if ctx.wallet != v.wallet {
        Err(ConstraintViolation::Address)
    } else if wallet_token_account_check(ctx.wallet_token_account, ctx.wallet, ctx.mint) is Err {
        Err(ConstraintViolation::Raw)
    } else if !derived_from(ctx.savings_vault_key, vault_seeds(ctx.wallet, ctx.mint, v.bump), program_id) {
        Err(ConstraintViolation::Seeds)
    } else if ctx.savings_vault_treasury != v.savings_vault_treasury {
        Err(ConstraintViolation::Address)
    } else if ctx.mint != v.mint {
        Err(ConstraintViolation::Address)
    } else {
        Ok(())
    }
}

impl WithdrawSavingsVault {
    /// Checks the accounts' constraints for the program at `program_id`.
    pub fn validate(&self, program_id: &Pubkey) -> (r: Result<(), ConstraintViolation>)
        ensures
            r == withdraw_savings_vault_accounts_check(*self, *program_id),
    {
        if !self.wallet.same_as(&self.savings_vault.wallet) {
            return Err(ConstraintViolation::Address);
        }
        check_wallet_token_account(&self.wallet_token_account, &self.wallet, &self.mint)?;
        let seeds = make_doubly_keyed_seeds(savings_vault_seed(), &self.wallet, &self.mint, self.savings_vault.bump);
        check_seeds(&self.savings_vault_key, &seeds, program_id)?;
        if !self.savings_vault_treasury.same_as(&self.savings_vault.savings_vault_treasury) {
            return Err(ConstraintViolation::Address);
        }
        if !self.mint.same_as(&self.savings_vault.mint) {
            return Err(ConstraintViolation::Address);
        }
        Ok(())
    }
}

/// Withdraws from a vault, unless the amount exceeds its current balance: asks for the
/// transfer of the amount from the vault's treasury to the wallet's token account, with the
/// vault as authority, signed with the treasury's seeds; takes the amount off the current
/// balance, adds it to the amount withdrawn, and records the clock's time as last withdrawal.
pub fn withdraw_savings_vault(ctx: &mut WithdrawSavingsVault, amount_to_withdraw: u64) -> (r: Result<TokenTransfer, SavingsVaultError>)
    requires
        amount_to_withdraw <= old(ctx).savings_vault.current_balance
            ==> old(ctx).savings_vault.amount_withdrawn + amount_to_withdraw <= u64::MAX,
    ensures
        r is Ok <==> amount_to_withdraw <= old(ctx).savings_vault.current_balance,
        r is Err ==> r == Err::<TokenTransfer, SavingsVaultError>(SavingsVaultError::InsufficientFundsToWithdrawSavingsVault)
            && *final(ctx) == *old(ctx),
        r is Ok ==> call_succeeds(old(ctx).savings_vault, VaultCall::Withdraw(amount_to_withdraw, old(ctx).clock_unix_timestamp))
            && final(ctx).savings_vault == after_call(
                old(ctx).savings_vault, VaultCall::Withdraw(amount_to_withdraw, old(ctx).clock_unix_timestamp)),
        r matches Ok(transfer) ==> {
            &&& transfer.source == old(ctx).savings_vault_treasury
            &&& final(ctx).savings_vault.current_balance == old(ctx).savings_vault.current_balance - transfer.amount
            &&& transfer.instruction.program_id@ == token_program_id_bytes()
            &&& is_token_transfer(
                transfer,
                transfer.instruction.program_id,
                old(ctx).savings_vault_treasury,
                old(ctx).wallet_token_account.key,
                old(ctx).savings_vault_key,
                amount_to_withdraw,
                keyed_seeds(seed_savings_vault_treasury(), old(ctx).savings_vault_key, old(ctx).savings_vault.savings_vault_treasury_bump),
            )
            &&& *final(ctx) == (WithdrawSavingsVault {
                savings_vault: withdrawn(old(ctx).savings_vault, amount_to_withdraw, old(ctx).clock_unix_timestamp),
                ..*old(ctx)
            })
        },
{
    if ctx.savings_vault.current_balance < amount_to_withdraw {
        return Err(SavingsVaultError::InsufficientFundsToWithdrawSavingsVault);
    }
    let savings_vault_treasury_seeds = make_keyed_seeds(
        savings_vault_treasury_seed(),
        &ctx.savings_vault_key,
        ctx.savings_vault.savings_vault_treasury_bump,
    );
    let transfer = TokenTransfer::through_token_program(
        &ctx.savings_vault_treasury,
        &ctx.wallet_token_account.key,
        &ctx.savings_vault_key,
        amount_to_withdraw,
        savings_vault_treasury_seeds,
    );
    ctx.savings_vault.current_balance = ctx.savings_vault.current_balance - amount_to_withdraw;
    ctx.savings_vault.last_withdrawn_ts = ctx.clock_unix_timestamp;
    ctx.savings_vault.amount_withdrawn = ctx.savings_vault.amount_withdrawn + amount_to_withdraw;
    Ok(transfer)
}

// ---------------------------------------------------------------------------------------------
// accrue_interest
// ---------------------------------------------------------------------------------------------

/// The accounts of `accrue_interest`: whoever cranks, the vault's wallet, the vault (its address
/// and its data), the vault's treasury, the mint's interest manager (its address and its data),
/// the manager's treasury, the mint, and the clock's time.
#[derive(Clone, Debug)]
pub struct AccrueInterest {
    pub cranker: Pubkey,
    pub wallet: Pubkey,
    pub savings_vault_key: Pubkey,
    pub savings_vault: SavingsVault,
    pub savings_vault_treasury: Pubkey,
    pub interest_depositor_manager_key: Pubkey,
    pub interest_depositor_manager: InterestDepositorManager,
    pub interest_depositor_treasury: TokenAccount,
    pub mint: Pubkey,
    pub clock_unix_timestamp: i64,
}

/// The constraints on the accounts of `accrue_interest`, in the order they are checked: the
/// wallet is the vault's; the vault is at the address derived from the wallet, the mint and its
/// bump, and names the treasury given; the treasury is at the address derived from the vault
/// and the treasury bump; the manager is the vault's; the manager's treasury is the manager's;
/// the mint is the vault's.
pub open spec fn accrue_interest_accounts_check(ctx: AccrueInterest, program_id: Pubkey) -> Result<(), ConstraintViolation> {
    let v = ctx.savings_vault;
    if ctx.wallet != v.wallet {
        Err(ConstraintViolation::Address)
    } else if !derived_from(ctx.savings_vault_key, vault_seeds(ctx.wallet, ctx.mint, v.bump), program_id) {
        Err(ConstraintViolation::Seeds)
    } else if v.savings_vault_treasury != ctx.savings_vault_treasury {
        Err(ConstraintViolation::HasOne)
    } else if !derived_from(
        ctx.savings_vault_treasury,
        keyed_seeds(seed_savings_vault_treasury(), ctx.savings_vault_key, v.savings_vault_treasury_bump),
        program_id,
    ) {
        Err(ConstraintViolation::Seeds)
    } else if ctx.interest_depositor_manager_key != v.interest_depositor_manager {
        Err(ConstraintViolation::Address)
    } else if ctx.interest_depositor_treasury.key != ctx.interest_depositor_manager.interest_depositor_treasury {
        Err(ConstraintViolation::Address)
    } else if ctx.mint != v.mint {
        Err(ConstraintViolation::Address)
    } else {
        Ok(())
    }
}

impl AccrueInterest {
    /// Checks the accounts' constraints for the program at `program_id`.
    pub fn validate(&self, program_id: &Pubkey) -> (r: Result<(), ConstraintViolation>)
        ensures
            r == accrue_interest_accounts_check(*self, *program_id),
    {
        let v = &self.savings_vault;
        if !self.wallet.same_as(&v.wallet) {
            return Err(ConstraintViolation::Address);
        }
        let seeds = make_doubly_keyed_seeds(savings_vault_seed(), &self.wallet, &self.mint, v.bump);
        check_seeds(&self.savings_vault_key, &seeds, program_id)?;
        if !v.savings_vault_treasury.same_as(&self.savings_vault_treasury) {
            return Err(ConstraintViolation::HasOne);
        }
        let treasury_seeds = make_keyed_seeds(
            savings_vault_treasury_seed(),
            &self.savings_vault_key,
            v.savings_vault_treasury_bump,
        );
        check_seeds(&self.savings_vault_treasury, &treasury_seeds, program_id)?;
        if !self.interest_depositor_manager_key.same_as(&v.interest_depositor_manager) {
            return Err(ConstraintViolation::Address);
        }
        if !self.interest_depositor_treasury.key.same_as(&self.interest_depositor_manager.interest_depositor_treasury) {
            return Err(ConstraintViolation::Address);
        }
        if !self.mint.same_as(&v.mint) {
            return Err(ConstraintViolation::Address);
        }
        Ok(())
    }
}

/// Whether a month has passed since the vault's last accrual at `now`.
pub open spec fn accrual_due(v: SavingsVault, now: i64) -> bool {
    now >= v.last_accrued_ts + SECONDS_PER_MONTH
}

/// The precondition of `accrue_interest`: the time a month after the last accrual, and on the
/// success path the new balance, fit in their types.
pub open spec fn accrue_interest_fits(ctx: AccrueInterest) -> bool {
    &&& ctx.savings_vault.last_accrued_ts + SECONDS_PER_MONTH <= i64::MAX
    &&& accrual_due(ctx.savings_vault, ctx.clock_unix_timestamp)
        && ctx.interest_depositor_treasury.amount >= monthly_interest(ctx.savings_vault.current_balance)
        ==> ctx.savings_vault.current_balance + monthly_interest(ctx.savings_vault.current_balance) <= u64::MAX
}

/// Whether `accrue_interest` may be called on these accounts, that is, whether its arithmetic
/// stays within bounds.
pub fn accrue_interest_fits_bounds(ctx: &AccrueInterest) -> (r: bool)
    ensures
        r == accrue_interest_fits(*ctx),
{
    let v = &ctx.savings_vault;
    if v.last_accrued_ts > i64::MAX - SECONDS_PER_MONTH {
        return false;
    }
    if ctx.clock_unix_timestamp < v.last_accrued_ts + SECONDS_PER_MONTH {
        return true;
    }
    let interest: u64 = v.current_balance * INTEREST_RATE_PER_MONTH / 100;
    if ctx.interest_depositor_treasury.amount < interest {
        return true;
    }
    interest <= u64::MAX - v.current_balance
}

/// Accrues a month's interest to a vault: refused until a month has passed since the last
/// accrual, and when the manager's treasury holds less than the interest; otherwise asks for
/// the transfer of the interest from the manager's treasury to the vault's treasury, with the
/// manager as authority, signed with the manager treasury's seeds; adds the interest to the
/// current balance and records the clock's time as last accrual.
pub fn accrue_interest(ctx: &mut AccrueInterest) -> (r: Result<(TokenTransfer, AccrueInterestEvent), SavingsVaultError>)
    requires
        accrue_interest_fits(*old(ctx)),
    ensures
        !accrual_due(old(ctx).savings_vault, old(ctx).clock_unix_timestamp)
            ==> r == Err::<(TokenTransfer, AccrueInterestEvent), SavingsVaultError>(SavingsVaultError::CrankedTooRecently),
        accrual_due(old(ctx).savings_vault, old(ctx).clock_unix_timestamp)
            && old(ctx).interest_depositor_treasury.amount < monthly_interest(old(ctx).savings_vault.current_balance)
            ==> r == Err::<(TokenTransfer, AccrueInterestEvent), SavingsVaultError>(SavingsVaultError::NotEnoughInterestToAccrue),
        r is Ok <==> accrual_due(old(ctx).savings_vault, old(ctx).clock_unix_timestamp)
            && old(ctx).interest_depositor_treasury.amount >= monthly_interest(old(ctx).savings_vault.current_balance),
        r is Ok ==> call_succeeds(old(ctx).savings_vault, VaultCall::Accrue(old(ctx).clock_unix_timestamp))
            && final(ctx).savings_vault == after_call(old(ctx).savings_vault, VaultCall::Accrue(old(ctx).clock_unix_timestamp)),
        r is Err ==> *final(ctx) == *old(ctx),
        r matches Ok((transfer, event)) ==> {
            let interest: u64 = monthly_interest(old(ctx).savings_vault.current_balance) as u64;
            let balance: u64 = (old(ctx).savings_vault.current_balance + interest) as u64;
            &&& transfer.destination == old(ctx).savings_vault_treasury
            &&& final(ctx).savings_vault.current_balance == old(ctx).savings_vault.current_balance + transfer.amount
            &&& transfer.instruction.program_id@ == token_program_id_bytes()
            &&& is_token_transfer(
                transfer,
                transfer.instruction.program_id,
                old(ctx).interest_depositor_treasury.key,
                old(ctx).savings_vault_treasury,
                old(ctx).interest_depositor_manager_key,
                interest,
                keyed_seeds(
                    seed_interest_depositor_treasury(),
                    old(ctx).interest_depositor_manager_key,
                    old(ctx).interest_depositor_manager.interest_depositor_treasury_bump,
                ),
            )
            &&& *final(ctx) == (AccrueInterest {
                savings_vault: accrued(old(ctx).savings_vault, old(ctx).clock_unix_timestamp),
                ..*old(ctx)
            })
            &&& event == (AccrueInterestEvent {
                wallet: old(ctx).wallet,
                mint: old(ctx).mint,
                number_of_tokens_accrued: interest,
                current_balance: balance,
            })
        },
{
    if ctx.clock_unix_timestamp < ctx.savings_vault.last_accrued_ts + SECONDS_PER_MONTH {
        return Err(SavingsVaultError::CrankedTooRecently);
    }
    let interest_to_accrue: u64 = ctx.savings_vault.current_balance * INTEREST_RATE_PER_MONTH / 100;
    if ctx.interest_depositor_treasury.amount < interest_to_accrue {
        return Err(SavingsVaultError::NotEnoughInterestToAccrue);
    }
    let interest_depositor_treasury_seeds = make_keyed_seeds(
        interest_depositor_treasury_seed(),
        &ctx.interest_depositor_manager_key,
        ctx.interest_depositor_manager.interest_depositor_treasury_bump,
    );
    let transfer = TokenTransfer::through_token_program(
        &ctx.interest_depositor_treasury.key,
        &ctx.savings_vault_treasury,
        &ctx.interest_depositor_manager_key,
        interest_to_accrue,
        interest_depositor_treasury_seeds,
    );
    ctx.savings_vault.current_balance = ctx.savings_vault.current_balance + interest_to_accrue;
    ctx.savings_vault.last_accrued_ts = ctx.clock_unix_timestamp;
    let event = AccrueInterestEvent {
        wallet: ctx.wallet,
        mint: ctx.mint,
        number_of_tokens_accrued: interest_to_accrue,
        current_balance: ctx.savings_vault.current_balance,
    };
    Ok((transfer, event))
}

} // verus!
