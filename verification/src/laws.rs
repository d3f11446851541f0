//! What holds of the program across its instructions.
use vstd::prelude::*;
use crate::instructions::interest_depositor_manager::{
    deposit_liquidity_accounts_check, whitelist_accounts_check, DepositLiquidityForInterest,
};
use crate::instructions::savings_vault::{deposit_savings_vault_accounts_check, DepositSavingsVault};
use crate::state::{
    seed_interest_depositor_manager, seed_savings_vault,
    seed_savings_vault_treasury, InterestDepositorManager,
};
use crate::instructions::savings_vault::{
    accrual_due, accrue_interest_accounts_check, accrued, after_calls, calls_succeed,
    create_savings_vault_succeeds, deposits_in, interest_in, withdrawals_in, VaultCall,
    deposited, monthly_interest, opened_vault, vault_seeds, withdraw_savings_vault_accounts_check,
    withdrawn, AccrueInterest, CreateSavingsVault, CreateSavingsVaultBumps, WithdrawSavingsVault,
};
use crate::pda::derived_from;
use crate::token::{token_flow, TokenAccount, TokenTransfer};
use crate::pubkey::Pubkey;
use crate::state::{SavingsVault, SECONDS_PER_MONTH, WHITELIST_SIZE};
use crate::whitelist::{lemma_without_absent, lemma_without_contains, lemma_without_push, without};

verus! {

/// What a vault has received is its current balance plus what was withdrawn: that sum starts at
/// the opening deposit, grows by exactly each deposit and each accrued interest, and is kept by
/// withdrawals.
pub proof fn law_balance_accounting(
    v: SavingsVault,
    amount: u64,
    now: i64,
    ctx: CreateSavingsVault,
    bumps: CreateSavingsVaultBumps,
    number_of_tokens_deposited: u64,
    savings_vault_treasury_bump: u8,
)
    ensures
        ({
            let o = opened_vault(ctx, bumps, number_of_tokens_deposited, savings_vault_treasury_bump);
            o.current_balance + o.amount_withdrawn == o.starting_balance
        }),
        v.current_balance + amount <= u64::MAX ==> deposited(v, amount).current_balance
            + deposited(v, amount).amount_withdrawn == v.current_balance + v.amount_withdrawn + amount,
        amount <= v.current_balance && v.amount_withdrawn + amount <= u64::MAX
            ==> withdrawn(v, amount, now).current_balance + withdrawn(v, amount, now).amount_withdrawn
            == v.current_balance + v.amount_withdrawn,
        v.current_balance + monthly_interest(v.current_balance) <= u64::MAX
            ==> accrued(v, now).current_balance + accrued(v, now).amount_withdrawn
            == v.current_balance + v.amount_withdrawn + monthly_interest(v.current_balance),
{
}

/// Over any run of successful deposits, withdrawals and accruals on a vault, the amount withdrawn
/// grows by exactly the sum of the withdrawals, and the current balance plus the amount withdrawn
/// grows by exactly the sum of the deposits and of the interest credited; the vault's owner,
/// mint, creation time and starting balance stay.
pub proof fn law_vault_history(v: SavingsVault, calls: Seq<VaultCall>)
    requires
        calls_succeed(v, calls),
    ensures
        after_calls(v, calls).amount_withdrawn == v.amount_withdrawn + withdrawals_in(calls),
        after_calls(v, calls).current_balance + after_calls(v, calls).amount_withdrawn
            == v.current_balance + v.amount_withdrawn + deposits_in(calls) + interest_in(v, calls),
        after_calls(v, calls).starting_balance == v.starting_balance,
        after_calls(v, calls).wallet == v.wallet,
        after_calls(v, calls).mint == v.mint,
        after_calls(v, calls).created_ts == v.created_ts,
    decreases calls.len(),
{
    if calls.len() > 0 {
        law_vault_history(v, calls.drop_last());
    }
}

/// For a vault opened with a deposit of `s`, after any run of successful calls the amount
/// withdrawn is the sum of the withdrawals and the current balance is `s` plus the deposits plus
/// the interest credited, minus the amount withdrawn; the starting balance stays `s`.
pub proof fn law_opened_vault_history(
    ctx: CreateSavingsVault,
    bumps: CreateSavingsVaultBumps,
    number_of_tokens_deposited: u64,
    savings_vault_treasury_bump: u8,
    calls: Seq<VaultCall>,
)
    requires
        calls_succeed(opened_vault(ctx, bumps, number_of_tokens_deposited, savings_vault_treasury_bump), calls),
    ensures
        ({
            let o = opened_vault(ctx, bumps, number_of_tokens_deposited, savings_vault_treasury_bump);
            let v = after_calls(o, calls);
            &&& v.amount_withdrawn == withdrawals_in(calls)
            &&& v.current_balance == number_of_tokens_deposited + deposits_in(calls) + interest_in(o, calls)
                - v.amount_withdrawn
            &&& v.starting_balance == number_of_tokens_deposited
        }),
{
    law_vault_history(opened_vault(ctx, bumps, number_of_tokens_deposited, savings_vault_treasury_bump), calls);
}

/// A vault's balance stays covered by its treasury: each deposit, withdrawal or accrual changes
/// the balance by exactly the amount of the transfer it asks for into or out of the vault's own
/// treasury (see their `ensures`), so if the treasury held at least the balance before, it holds
/// at least the new balance once the transfer is made. A transfer between two different
/// accounts is assumed; one from an account to itself moves nothing.
pub proof fn law_balance_within_treasury(
    before: SavingsVault,
    after: SavingsVault,
    t: TokenTransfer,
    treasury: Pubkey,
    treasury_amount: int,
)
    requires
        before.current_balance <= treasury_amount,
        t.source != t.destination,
        (t.destination == treasury && after.current_balance == before.current_balance + t.amount)
            || (t.source == treasury && after.current_balance == before.current_balance - t.amount),
    ensures
        after.current_balance <= treasury_amount + token_flow(t, treasury),
        t.source == treasury ==> t.amount <= treasury_amount,
{
}

/// A vault opened into its treasury starts covered by it: the opening balance is the amount
/// of the transfer into the treasury.
pub proof fn law_opened_balance_within_treasury(
    opened: SavingsVault,
    t: TokenTransfer,
    treasury: Pubkey,
    treasury_amount: int,
)
    requires
        treasury_amount >= 0,
        t.source != t.destination,
        t.destination == treasury,
        opened.current_balance == t.amount,
    ensures
        opened.current_balance <= treasury_amount + token_flow(t, treasury),
{
}

/// Withdrawing what was just deposited is always allowed and gives the current balance back.
pub proof fn law_deposit_then_withdraw(v: SavingsVault, amount: u64, now: i64)
    requires
        v.current_balance + amount <= u64::MAX,
    ensures
        amount <= deposited(v, amount).current_balance,
        withdrawn(deposited(v, amount), amount, now).current_balance == v.current_balance,
{
}

/// A vault opened on accounts whose address checks passed accepts its owner's withdrawals:
/// handing in the vault's own address, treasury and mint, with a token account of the owner in
/// that mint, passes every account check of `withdraw_savings_vault`.
pub proof fn law_opened_vault_accepts_owner(
    ctx: CreateSavingsVault,
    bumps: CreateSavingsVaultBumps,
    number_of_tokens_deposited: u64,
    savings_vault_treasury_bump: u8,
    program_id: Pubkey,
    wallet_token_account: TokenAccount,
    now: i64,
)
    requires
        create_savings_vault_succeeds(ctx, bumps, number_of_tokens_deposited, savings_vault_treasury_bump),
        bumps.savings_vault is Some,
        derived_from(ctx.savings_vault_key, vault_seeds(ctx.wallet, ctx.mint, bumps.savings_vault->0), program_id),
        wallet_token_account.owner == ctx.wallet,
        wallet_token_account.mint == ctx.mint,
    ensures
        withdraw_savings_vault_accounts_check(
            WithdrawSavingsVault {
                wallet: ctx.wallet,
                wallet_token_account,
                savings_vault_key: ctx.savings_vault_key,
                savings_vault: opened_vault(ctx, bumps, number_of_tokens_deposited, savings_vault_treasury_bump),
                savings_vault_treasury: ctx.savings_vault_treasury,
                mint: ctx.mint,
                clock_unix_timestamp: now,
            },
            program_id,
        ) == Ok::<(), crate::error::ConstraintViolation>(()),
{
}

/// No interest accrues within the first month after a vault is opened.
pub proof fn law_no_interest_in_first_month(
    ctx: CreateSavingsVault,
    bumps: CreateSavingsVaultBumps,
    number_of_tokens_deposited: u64,
    savings_vault_treasury_bump: u8,
    later: i64,
)
    requires
        later < ctx.clock_unix_timestamp + SECONDS_PER_MONTH,
    ensures
        !accrual_due(opened_vault(ctx, bumps, number_of_tokens_deposited, savings_vault_treasury_bump), later),
{
}

/// After an accrual at `now`, no accrual is due before a month has passed since `now`.
pub proof fn law_accrual_at_most_monthly(v: SavingsVault, now: i64, later: i64)
    requires
        accrual_due(v, now),
        later < now + SECONDS_PER_MONTH,
    ensures
        !accrual_due(accrued(v, now), later),
{
}

/// An accrual adds a hundredth of the current balance (rounded down), never lowers it, and
/// moves the time of the last accrual forward.
pub proof fn law_accrual_adds_one_percent(v: SavingsVault, now: i64)
    requires
        accrual_due(v, now),
        v.current_balance + monthly_interest(v.current_balance) <= u64::MAX,
    ensures
        accrued(v, now).current_balance == v.current_balance + v.current_balance / 100,
        accrued(v, now).current_balance >= v.current_balance,
        accrued(v, now).last_accrued_ts > v.last_accrued_ts,
{
}

/// The balances are the only thing deposits, withdrawals and accruals change of a vault, with
/// the times of the last withdrawal and accrual: its owner, mint, creation time, starting
/// balance, manager, treasury and bumps stay as they were created.
pub proof fn law_vault_identity_kept(v: SavingsVault, amount: u64, now: i64)
    ensures
        ({
            let d = deposited(v, amount);
            let w = withdrawn(v, amount, now);
            let a = accrued(v, now);
            &&& d.wallet == v.wallet && w.wallet == v.wallet && a.wallet == v.wallet
            &&& d.mint == v.mint && w.mint == v.mint && a.mint == v.mint
            &&& d.created_ts == v.created_ts && w.created_ts == v.created_ts && a.created_ts == v.created_ts
            &&& d.starting_balance == v.starting_balance && w.starting_balance == v.starting_balance
                && a.starting_balance == v.starting_balance
            &&& d.interest_depositor_manager == v.interest_depositor_manager
                && w.interest_depositor_manager == v.interest_depositor_manager
                && a.interest_depositor_manager == v.interest_depositor_manager
            &&& d.savings_vault_treasury == v.savings_vault_treasury
                && w.savings_vault_treasury == v.savings_vault_treasury
                && a.savings_vault_treasury == v.savings_vault_treasury
            &&& d.bump == v.bump && w.bump == v.bump && a.bump == v.bump
            &&& d.savings_vault_treasury_bump == v.savings_vault_treasury_bump
                && w.savings_vault_treasury_bump == v.savings_vault_treasury_bump
                && a.savings_vault_treasury_bump == v.savings_vault_treasury_bump
        }),
{
}

/// An entry just added to the whitelist is on it.
pub proof fn law_added_entry_is_whitelisted(whitelist: Seq<Pubkey>, entry: Pubkey)
    ensures
        whitelist.push(entry).contains(entry),
{
    assert(whitelist.push(entry)[whitelist.len() as int] == entry);
}

/// An entry just removed from the whitelist is no longer on it, and every other entry is on it
/// exactly when it was before.
pub proof fn law_removed_entry_is_not_whitelisted(whitelist: Seq<Pubkey>, entry: Pubkey, other: Pubkey)
    ensures
        !without(whitelist, entry).contains(entry),
        other != entry ==> (without(whitelist, entry).contains(other) <==> whitelist.contains(other)),
{
    lemma_without_contains(whitelist, entry, other);
}

/// Removing an entry that was just added, when it was not on the whitelist before, gives the
/// whitelist back.
pub proof fn law_add_then_remove_restores(whitelist: Seq<Pubkey>, entry: Pubkey)
    requires
        !whitelist.contains(entry),
    ensures
        without(whitelist.push(entry), entry) == whitelist,
{
    lemma_without_push(whitelist, entry);
}

/// Removing an entry that is not on the whitelist would change nothing (which is why the
/// program refuses it instead).
pub proof fn law_remove_absent_changes_nothing(whitelist: Seq<Pubkey>, entry: Pubkey)
    requires
        !whitelist.contains(entry),
    ensures
        without(whitelist, entry) == whitelist,
{
    lemma_without_absent(whitelist, entry);
}

/// The whitelist never grows beyond `WHITELIST_SIZE`: an addition is made only below the limit,
/// and a removal never lengthens it.
pub proof fn law_whitelist_bounded(whitelist: Seq<Pubkey>, entry: Pubkey)
    requires
        whitelist.len() <= WHITELIST_SIZE,
    ensures
        whitelist.len() != WHITELIST_SIZE ==> whitelist.push(entry).len() <= WHITELIST_SIZE,
        without(whitelist, entry).len() <= WHITELIST_SIZE,
{
    lemma_without_contains(whitelist, entry, entry);
}

/// Only a whitelisted depositor can fund interest, and only from its own token account of the
/// manager's mint holding at least the deposit, into the manager's own treasury.
pub proof fn law_only_whitelisted_fund_interest(ctx: DepositLiquidityForInterest, amount: u64, program_id: Pubkey)
    requires
        deposit_liquidity_accounts_check(ctx, amount, program_id) is Ok,
    ensures
        ctx.interest_depositor_manager.whitelist@.contains(ctx.depositor),
        ctx.depositor_token_account.owner == ctx.depositor,
        ctx.depositor_token_account.mint == ctx.interest_depositor_manager.mint,
        ctx.depositor_token_account.amount >= amount,
        ctx.interest_depositor_treasury.key == ctx.interest_depositor_manager.interest_depositor_treasury,
{
}

/// Only the vault's own wallet can withdraw from it, out of the vault's treasury, into a token
/// account of the wallet in the vault's mint.
pub proof fn law_only_owner_withdraws(ctx: WithdrawSavingsVault, program_id: Pubkey)
    requires
        withdraw_savings_vault_accounts_check(ctx, program_id) is Ok,
    ensures
        ctx.wallet == ctx.savings_vault.wallet,
        ctx.wallet_token_account.owner == ctx.savings_vault.wallet,
        ctx.wallet_token_account.mint == ctx.savings_vault.mint,
        ctx.savings_vault_treasury == ctx.savings_vault.savings_vault_treasury,
{
}

/// Interest is paid only into the vault's own treasury and only out of the treasury of the
/// manager the vault was opened with.
pub proof fn law_interest_from_vaults_manager(ctx: AccrueInterest, program_id: Pubkey)
    requires
        accrue_interest_accounts_check(ctx, program_id) is Ok,
    ensures
        ctx.savings_vault_treasury == ctx.savings_vault.savings_vault_treasury,
        ctx.interest_depositor_manager_key == ctx.savings_vault.interest_depositor_manager,
        ctx.interest_depositor_treasury.key == ctx.interest_depositor_manager.interest_depositor_treasury,
        ctx.wallet == ctx.savings_vault.wallet,
        ctx.mint == ctx.savings_vault.mint,
{
}

/// An accrual is due exactly when a month or more has passed since the last one, however long
/// ago that was: `accrue_interest` refuses a crank as too recent only within the month.
pub proof fn law_accrual_due_after_a_month(v: SavingsVault, now: i64)
    ensures
        accrual_due(v, now) <==> now as int >= v.last_accrued_ts as int + 2592000,
        now as int >= v.last_accrued_ts as int + 2592000 ==> accrual_due(v, now),
{
}

/// The monthly interest is a hundredth of the balance, rounded down.
pub proof fn law_monthly_interest_is_one_percent(balance: u64)
    ensures
        monthly_interest(balance) * 100 <= balance,
        balance < (monthly_interest(balance) + 1) * 100,
        monthly_interest(balance) >= 0,
{
}

/// A deposit changes nothing of a vault but its current balance, which grows by the amount: in
/// particular the accrual schedule, the amount withdrawn and the time of the last withdrawal
/// stay.
pub proof fn law_deposit_changes_only_balance(v: SavingsVault, amount: u64)
    requires
        v.current_balance + amount <= u64::MAX,
    ensures
        deposited(v, amount).current_balance == v.current_balance + amount,
        deposited(v, amount).last_accrued_ts == v.last_accrued_ts,
        deposited(v, amount).amount_withdrawn == v.amount_withdrawn,
        deposited(v, amount).last_withdrawn_ts == v.last_withdrawn_ts,
        deposited(v, amount).created_ts == v.created_ts,
        deposited(v, amount).starting_balance == v.starting_balance,
        deposited(v, amount).wallet == v.wallet,
        deposited(v, amount).mint == v.mint,
        deposited(v, amount).bump == v.bump,
        deposited(v, amount).interest_depositor_manager == v.interest_depositor_manager,
        deposited(v, amount).savings_vault_treasury == v.savings_vault_treasury,
        deposited(v, amount).savings_vault_treasury_bump == v.savings_vault_treasury_bump,
{
}

/// A withdrawal takes the amount off the balance, adds it to the amount withdrawn and records
/// its time as the last withdrawal; it does not touch the accrual schedule or anything else.
pub proof fn law_withdrawal_changes_only_withdrawal_fields(v: SavingsVault, amount: u64, now: i64)
    requires
        amount <= v.current_balance,
        v.amount_withdrawn + amount <= u64::MAX,
    ensures
        withdrawn(v, amount, now).current_balance == v.current_balance - amount,
        withdrawn(v, amount, now).amount_withdrawn == v.amount_withdrawn + amount,
        withdrawn(v, amount, now).last_withdrawn_ts == now,
        withdrawn(v, amount, now).last_accrued_ts == v.last_accrued_ts,
        withdrawn(v, amount, now).created_ts == v.created_ts,
        withdrawn(v, amount, now).starting_balance == v.starting_balance,
        withdrawn(v, amount, now).wallet == v.wallet,
        withdrawn(v, amount, now).mint == v.mint,
        withdrawn(v, amount, now).bump == v.bump,
        withdrawn(v, amount, now).interest_depositor_manager == v.interest_depositor_manager,
        withdrawn(v, amount, now).savings_vault_treasury == v.savings_vault_treasury,
        withdrawn(v, amount, now).savings_vault_treasury_bump == v.savings_vault_treasury_bump,
{
}

/// An accrual adds a hundredth of the balance (rounded down) and records its time as the last
/// accrual; the amount withdrawn, the time of the last withdrawal and the rest stay.
pub proof fn law_accrual_changes_only_accrual_fields(v: SavingsVault, now: i64)
    requires
        v.current_balance + v.current_balance / 100 <= u64::MAX,
    ensures
        accrued(v, now).current_balance == v.current_balance + v.current_balance / 100,
        accrued(v, now).last_accrued_ts == now,
        accrued(v, now).amount_withdrawn == v.amount_withdrawn,
        accrued(v, now).last_withdrawn_ts == v.last_withdrawn_ts,
        accrued(v, now).created_ts == v.created_ts,
        accrued(v, now).starting_balance == v.starting_balance,
        accrued(v, now).wallet == v.wallet,
        accrued(v, now).mint == v.mint,
        accrued(v, now).bump == v.bump,
        accrued(v, now).interest_depositor_manager == v.interest_depositor_manager,
        accrued(v, now).savings_vault_treasury == v.savings_vault_treasury,
        accrued(v, now).savings_vault_treasury_bump == v.savings_vault_treasury_bump,
{
}

/// Every whitelisted depositor may fund interest, wherever it stands on the whitelist: when its
/// own token account of the mint holds the deposit, the manager is at the address derived from
/// its mint and bump, and the treasury and mint are the manager's, the accounts pass.
pub proof fn law_every_whitelisted_depositor_may_fund(ctx: DepositLiquidityForInterest, amount: u64, program_id: Pubkey)
    requires
        ctx.interest_depositor_manager.whitelist@.contains(ctx.depositor),
        ctx.depositor_token_account.owner == ctx.depositor,
        ctx.depositor_token_account.mint == ctx.mint,
        ctx.depositor_token_account.amount >= amount,
        derived_from(
            ctx.interest_depositor_manager_key,
            seq![
                seed_interest_depositor_manager(),
                ctx.interest_depositor_manager.mint@,
                seq![ctx.interest_depositor_manager.bump],
            ],
            program_id,
        ),
        ctx.interest_depositor_treasury.key == ctx.interest_depositor_manager.interest_depositor_treasury,
        ctx.mint == ctx.interest_depositor_manager.mint,
    ensures
        deposit_liquidity_accounts_check(ctx, amount, program_id) is Ok,
{
    assert(seq![
        seed_interest_depositor_manager(),
        ctx.interest_depositor_manager.mint@,
        seq![ctx.interest_depositor_manager.bump],
    ] =~= crate::pda::keyed_seeds(seed_interest_depositor_manager(), ctx.interest_depositor_manager.mint, ctx.interest_depositor_manager.bump));
}

/// The accounts of `add_whitelist` and `remove_whitelist` are judged by the authority, the mint
/// and the manager's address alone, never by the whitelist: with the manager's own authority and
/// mint and the manager at its derived address they pass, whatever the whitelist holds (full,
/// empty or anything else).
pub proof fn law_whitelist_accounts_ignore_the_whitelist(
    authority: Pubkey,
    mint: Pubkey,
    manager_key: Pubkey,
    manager: InterestDepositorManager,
    whitelist: Vec<Pubkey>,
    program_id: Pubkey,
)
    ensures
        whitelist_accounts_check(authority, mint, manager_key, manager, program_id)
            == whitelist_accounts_check(
                authority, mint, manager_key, InterestDepositorManager { whitelist, ..manager }, program_id),
        authority == manager.authority && mint == manager.mint
            && derived_from(manager_key, seq![seed_interest_depositor_manager(), manager.mint@, seq![manager.bump]], program_id)
            ==> whitelist_accounts_check(authority, mint, manager_key, manager, program_id) is Ok,
{
    assert(seq![seed_interest_depositor_manager(), manager.mint@, seq![manager.bump]]
        =~= crate::pda::keyed_seeds(seed_interest_depositor_manager(), manager.mint, manager.bump));
}

/// The vault's owner may always deposit: with a token account of its own in the vault's mint
/// holding the deposit, the vault at its derived address, and the vault's treasury, manager and
/// mint, the accounts pass.
pub proof fn law_owner_may_deposit(ctx: DepositSavingsVault, amount: u64, program_id: Pubkey)
    requires
        ctx.wallet_token_account.owner == ctx.wallet,
        ctx.wallet_token_account.mint == ctx.mint,
        ctx.wallet_token_account.amount >= amount,
        derived_from(
            ctx.savings_vault_key,
            seq![seed_savings_vault(), ctx.wallet@, ctx.mint@, seq![ctx.savings_vault.bump]],
            program_id,
        ),
        ctx.savings_vault_treasury == ctx.savings_vault.savings_vault_treasury,
        ctx.interest_depositor_manager_key == ctx.savings_vault.interest_depositor_manager,
        ctx.mint == ctx.interest_depositor_manager.mint,
    ensures
        deposit_savings_vault_accounts_check(ctx, amount, program_id) is Ok,
{
    assert(seq![seed_savings_vault(), ctx.wallet@, ctx.mint@, seq![ctx.savings_vault.bump]]
        =~= vault_seeds(ctx.wallet, ctx.mint, ctx.savings_vault.bump));
}

/// The vault's owner may always withdraw: being the vault's wallet, with a token account of its
/// own in the vault's mint, the vault at its derived address and the vault's treasury, the
/// accounts pass.
pub proof fn law_owner_may_withdraw(ctx: WithdrawSavingsVault, program_id: Pubkey)
    requires
        ctx.wallet == ctx.savings_vault.wallet,
        ctx.wallet_token_account.owner == ctx.wallet,
        ctx.wallet_token_account.mint == ctx.mint,
        derived_from(
            ctx.savings_vault_key,
            seq![seed_savings_vault(), ctx.wallet@, ctx.mint@, seq![ctx.savings_vault.bump]],
            program_id,
        ),
        ctx.savings_vault_treasury == ctx.savings_vault.savings_vault_treasury,
        ctx.mint == ctx.savings_vault.mint,
    ensures
        withdraw_savings_vault_accounts_check(ctx, program_id) is Ok,
{
    assert(seq![seed_savings_vault(), ctx.wallet@, ctx.mint@, seq![ctx.savings_vault.bump]]
        =~= vault_seeds(ctx.wallet, ctx.mint, ctx.savings_vault.bump));
}

/// Anyone may crank a vault: with the vault's wallet, the vault and its treasury at their derived
/// addresses, and the vault's manager, the manager's treasury and the vault's mint, the accounts
/// pass, whoever the cranker is.
pub proof fn law_anyone_may_crank(ctx: AccrueInterest, program_id: Pubkey)
    requires
        ctx.wallet == ctx.savings_vault.wallet,
        derived_from(
            ctx.savings_vault_key,
            seq![seed_savings_vault(), ctx.wallet@, ctx.mint@, seq![ctx.savings_vault.bump]],
            program_id,
        ),
        ctx.savings_vault_treasury == ctx.savings_vault.savings_vault_treasury,
        derived_from(
            ctx.savings_vault_treasury,
            seq![seed_savings_vault_treasury(), ctx.savings_vault_key@, seq![ctx.savings_vault.savings_vault_treasury_bump]],
            program_id,
        ),
        ctx.interest_depositor_manager_key == ctx.savings_vault.interest_depositor_manager,
        ctx.interest_depositor_treasury.key == ctx.interest_depositor_manager.interest_depositor_treasury,
        ctx.mint == ctx.savings_vault.mint,
    ensures
        accrue_interest_accounts_check(ctx, program_id) is Ok,
{
    assert(seq![seed_savings_vault(), ctx.wallet@, ctx.mint@, seq![ctx.savings_vault.bump]]
        =~= vault_seeds(ctx.wallet, ctx.mint, ctx.savings_vault.bump));
    assert(seq![seed_savings_vault_treasury(), ctx.savings_vault_key@, seq![ctx.savings_vault.savings_vault_treasury_bump]]
        =~= crate::pda::keyed_seeds(seed_savings_vault_treasury(), ctx.savings_vault_key, ctx.savings_vault.savings_vault_treasury_bump));
}

} // verus!
