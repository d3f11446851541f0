use savings_vault::ids::id;
use savings_vault::state::SECONDS_PER_MONTH;
use savings_vault::{
    accrue_interest, create_savings_vault, deposit_savings_vault, withdraw_savings_vault,
    AccrueInterest, AccrueInterestEvent, ConstraintViolation, CreateSavingsVault,
    CreateSavingsVaultBumps, CreateSavingsVaultEvent, DepositSavingsVault,
    DepositSavingsVaultEvent, InstructionError, InterestDepositorManager, Pubkey, SavingsVault,
    SavingsVaultError, TokenAccount, WithdrawSavingsVault,
};
use solana_program::pubkey::Pubkey as SolPubkey;
use std::str::FromStr;

fn token_program() -> Pubkey {
    Pubkey::new_from_array(SolPubkey::from_str("TokenkegQfeZyiNwAJbNbGKPFXCWuBvf9Ss623VQ5DA").unwrap().to_bytes())
}

fn native_mint() -> Pubkey {
    Pubkey::new_from_array(SolPubkey::from_str("So11111111111111111111111111111111111111112").unwrap().to_bytes())
}

fn key(b: u8) -> Pubkey {
    Pubkey::new_from_array([b; 32])
}

fn program() -> SolPubkey {
    SolPubkey::from_str("7UGWo3y9HkLof88nHW3LGYX5hVts9WAMMmEeYYLK8dKB").unwrap()
}

fn vault_pda(wallet: &Pubkey, mint: &Pubkey) -> (Pubkey, u8) {
    let (k, b) = SolPubkey::find_program_address(
        &[b"savings_vault", wallet.to_bytes().as_ref(), mint.to_bytes().as_ref()],
        &program(),
    );
    (Pubkey::new_from_array(k.to_bytes()), b)
}

fn treasury_pda(vault: &Pubkey) -> (Pubkey, u8) {
    let (k, b) = SolPubkey::find_program_address(&[b"savings_vault-treasury", vault.to_bytes().as_ref()], &program());
    (Pubkey::new_from_array(k.to_bytes()), b)
}

fn vault(balance: u64, last_accrued_ts: i64) -> SavingsVault {
    let wallet = key(1);
    let mint = key(4);
    let (vault_key, bump) = vault_pda(&wallet, &mint);
    let (treasury, treasury_bump) = treasury_pda(&vault_key);
    let mut v = SavingsVault::zeroed();
    v.bump = bump;
    v.wallet = wallet;
    v.mint = mint;
    v.created_ts = 5;
    v.last_accrued_ts = last_accrued_ts;
    v.starting_balance = 500;
    v.current_balance = balance;
    v.interest_depositor_manager = key(7);
    v.savings_vault_treasury = treasury;
    v.savings_vault_treasury_bump = treasury_bump;
    v
}

// ---------------------------------------------------------------------------------------------
// create_savings_vault
// ---------------------------------------------------------------------------------------------

fn create_ctx(mint: Pubkey) -> CreateSavingsVault {
    CreateSavingsVault {
        wallet: key(1),
        wallet_token_account: TokenAccount { key: key(2), owner: key(1), mint, amount: 1000 },
        savings_vault_key: key(3),
        savings_vault: SavingsVault::zeroed(),
        savings_vault_treasury: key(5),
        interest_depositor_manager_key: key(7),
        mint,
        token_program: token_program(),
        clock_unix_timestamp: 1_700_000_000,
    }
}

fn create_bumps() -> CreateSavingsVaultBumps {
    CreateSavingsVaultBumps { savings_vault: Some(253), savings_vault_treasury: Some(252), interest_depositor_manager: Some(251) }
}

#[test]
fn create_savings_vault_opens_vault() {
    let mut ctx = create_ctx(key(4));
    let (create, transfer, event) = create_savings_vault(&mut ctx, &create_bumps(), 500, 252).unwrap();
    let v = ctx.savings_vault;
    assert_eq!(v.bump, 253);
    assert_eq!(v.wallet, key(1));
    assert_eq!(v.mint, key(4));
    assert_eq!(v.created_ts, 1_700_000_000);
    assert_eq!(v.last_accrued_ts, 1_700_000_000);
    assert_eq!(v.starting_balance, 500);
    assert_eq!(v.current_balance, 500);
    assert_eq!(v.interest_depositor_manager, key(7));
    assert_eq!(v.savings_vault_treasury, key(5));
    assert_eq!(v.savings_vault_treasury_bump, 252);
    assert_eq!(v.amount_withdrawn, 0);
    assert_eq!(v.last_withdrawn_ts, 0);
    assert_eq!(create.token_account, key(5));
    assert_eq!(create.payer, key(1));
    assert_eq!(create.owner, key(3));
    assert_eq!(create.signer_seeds, vec![b"savings_vault-treasury".to_vec(), vec![3u8; 32], vec![252u8]]);
    assert!(!create.is_native);
    assert_eq!(transfer.instruction.accounts[0].pubkey, key(2));
    assert_eq!(transfer.instruction.accounts[1].pubkey, key(5));
    assert_eq!(transfer.instruction.accounts[2].pubkey, key(1));
    assert_eq!(transfer.instruction.data, vec![3u8, 0xf4, 0x01, 0, 0, 0, 0, 0, 0]);
    assert!(transfer.signer_seeds.is_empty());
    assert_eq!(event, CreateSavingsVaultEvent { wallet: key(1), mint: key(4), created_ts: 1_700_000_000, current_balance: 500 });
}

#[test]
fn create_savings_vault_native_mint() {
    let mut ctx = create_ctx(native_mint());
    let (create, _, _) = create_savings_vault(&mut ctx, &create_bumps(), 1, 252).unwrap();
    assert!(create.is_native);
}

#[test]
fn create_savings_vault_zero_deposit() {
    let mut ctx = create_ctx(key(4));
    let r = create_savings_vault(&mut ctx, &create_bumps(), 0, 252);
    assert_eq!(r.unwrap_err(), InstructionError::SavingsVault(SavingsVaultError::InvalidDepositAmount));
    assert_eq!(ctx.savings_vault.current_balance, 0);
}

#[test]
fn create_savings_vault_bump_mismatch() {
    let mut ctx = create_ctx(key(4));
    let r = create_savings_vault(&mut ctx, &create_bumps(), 10, 251);
    assert_eq!(r.unwrap_err(), InstructionError::SavingsVault(SavingsVaultError::BumpSeedNotInHashMap));
    let bumps = CreateSavingsVaultBumps { savings_vault: Some(253), savings_vault_treasury: None, interest_depositor_manager: Some(251) };
    let r = create_savings_vault(&mut ctx, &bumps, 10, 252);
    assert_eq!(r.unwrap_err(), InstructionError::SavingsVault(SavingsVaultError::BumpSeedNotInHashMap));
}

#[test]
fn create_savings_vault_wrong_token_program() {
    let mut ctx = create_ctx(key(4));
    ctx.token_program = key(9);
    let r = create_savings_vault(&mut ctx, &create_bumps(), 10, 252);
    assert_eq!(r.unwrap_err(), InstructionError::IncorrectProgramId);
    assert_eq!(ctx.savings_vault.current_balance, 0);
}

fn manager_pda(mint: &Pubkey) -> (Pubkey, u8) {
    let (k, b) = SolPubkey::find_program_address(&[b"interest_depositor_manager", mint.to_bytes().as_ref()], &program());
    (Pubkey::new_from_array(k.to_bytes()), b)
}

/// A `create_savings_vault` context whose program-derived addresses are the real ones.
fn derived_create_ctx() -> (CreateSavingsVault, CreateSavingsVaultBumps) {
    let mut ctx = create_ctx(key(4));
    let (vault_key, vault_bump) = vault_pda(&ctx.wallet, &ctx.mint);
    let (treasury, treasury_bump) = treasury_pda(&vault_key);
    let (manager, manager_bump) = manager_pda(&ctx.mint);
    ctx.savings_vault_key = vault_key;
    ctx.savings_vault_treasury = treasury;
    ctx.interest_depositor_manager_key = manager;
    let bumps = CreateSavingsVaultBumps {
        savings_vault: Some(vault_bump),
        savings_vault_treasury: Some(treasury_bump),
        interest_depositor_manager: Some(manager_bump),
    };
    (ctx, bumps)
}

#[test]
fn create_savings_vault_validation() {
    let program_id = id();
    let (ctx, bumps) = derived_create_ctx();
    assert_eq!(ctx.validate(1000, &program_id), Some(Ok(bumps)));
    assert_eq!(ctx.validate(1001, &program_id), Some(Err(ConstraintViolation::Raw)));
    let mut foreign = ctx;
    foreign.wallet_token_account.owner = key(9);
    assert_eq!(foreign.validate(1, &program_id), Some(Err(ConstraintViolation::Raw)));
    let mut other_mint = ctx;
    other_mint.wallet_token_account.mint = key(9);
    assert_eq!(other_mint.validate(1, &program_id), Some(Err(ConstraintViolation::Raw)));
    let mut wrong_vault = ctx;
    wrong_vault.savings_vault_key = key(9);
    assert_eq!(wrong_vault.validate(1, &program_id), Some(Err(ConstraintViolation::Seeds)));
    let mut wrong_treasury = ctx;
    wrong_treasury.savings_vault_treasury = key(9);
    assert_eq!(wrong_treasury.validate(1, &program_id), Some(Err(ConstraintViolation::Seeds)));
    let mut wrong_manager = ctx;
    wrong_manager.interest_depositor_manager_key = key(9);
    assert_eq!(wrong_manager.validate(1, &program_id), Some(Err(ConstraintViolation::Seeds)));
}

#[test]
fn opened_vault_accepts_owner_withdrawal() {
    let program_id = id();
    let (mut ctx, _) = derived_create_ctx();
    let bumps = ctx.validate(500, &program_id).unwrap().unwrap();
    let treasury_bump = bumps.savings_vault_treasury.unwrap();
    create_savings_vault(&mut ctx, &bumps, 500, treasury_bump).unwrap();
    let mut w = WithdrawSavingsVault {
        wallet: ctx.wallet,
        wallet_token_account: TokenAccount { key: key(2), owner: ctx.wallet, mint: ctx.mint, amount: 0 },
        savings_vault_key: ctx.savings_vault_key,
        savings_vault: ctx.savings_vault,
        savings_vault_treasury: ctx.savings_vault_treasury,
        mint: ctx.mint,
        clock_unix_timestamp: ctx.clock_unix_timestamp + 10,
    };
    assert_eq!(w.validate(&program_id), Ok(()));
    withdraw_savings_vault(&mut w, 500).unwrap();
    assert_eq!(w.savings_vault.current_balance, 0);
}

#[test]
fn no_interest_in_first_month() {
    let program_id = id();
    let (mut ctx, _) = derived_create_ctx();
    let bumps = ctx.validate(1000, &program_id).unwrap().unwrap();
    let treasury_bump = bumps.savings_vault_treasury.unwrap();
    create_savings_vault(&mut ctx, &bumps, 1000, treasury_bump).unwrap();
    let mut a = accrue_ctx(0, 0, ctx.clock_unix_timestamp + SECONDS_PER_MONTH - 1, 100);
    a.savings_vault = ctx.savings_vault;
    assert_eq!(accrue_interest(&mut a).unwrap_err(), SavingsVaultError::CrankedTooRecently);
    a.clock_unix_timestamp = ctx.clock_unix_timestamp + SECONDS_PER_MONTH;
    let (_, event) = accrue_interest(&mut a).unwrap();
    assert_eq!(event.number_of_tokens_accrued, 10);
}

// ---------------------------------------------------------------------------------------------
// deposit_savings_vault
// ---------------------------------------------------------------------------------------------

fn deposit_ctx() -> DepositSavingsVault {
    let v = vault(500, 5);
    let (vault_key, _) = vault_pda(&v.wallet, &v.mint);
    let mut m = InterestDepositorManager::zeroed();
    m.mint = v.mint;
    DepositSavingsVault {
        wallet: v.wallet,
        wallet_token_account: TokenAccount { key: key(2), owner: v.wallet, mint: v.mint, amount: 300 },
        savings_vault_key: vault_key,
        savings_vault: v,
        savings_vault_treasury: v.savings_vault_treasury,
        interest_depositor_manager_key: key(7),
        interest_depositor_manager: m,
        mint: v.mint,
        token_program: token_program(),
    }
}

#[test]
fn deposit_savings_vault_adds_to_balance() {
    let mut ctx = deposit_ctx();
    let treasury = ctx.savings_vault_treasury;
    let (transfer, event) = deposit_savings_vault(&mut ctx, 300).unwrap();
    assert_eq!(ctx.savings_vault.current_balance, 800);
    assert_eq!(ctx.savings_vault.starting_balance, 500);
    assert_eq!(event, DepositSavingsVaultEvent { wallet: key(1), mint: key(4), number_of_additional_tokens_deposited: 300, current_balance: 800 });
    assert_eq!(transfer.instruction.accounts[0].pubkey, key(2));
    assert_eq!(transfer.instruction.accounts[1].pubkey, treasury);
    assert_eq!(transfer.instruction.accounts[2].pubkey, key(1));
}

#[test]
fn deposit_savings_vault_wrong_token_program() {
    let mut ctx = deposit_ctx();
    ctx.token_program = key(9);
    assert_eq!(deposit_savings_vault(&mut ctx, 1).unwrap_err(), InstructionError::IncorrectProgramId);
    assert_eq!(ctx.savings_vault.current_balance, 500);
}

#[test]
fn deposit_savings_vault_validation() {
    let program_id = id();
    let good = deposit_ctx();
    assert_eq!(good.validate(300, &program_id), Ok(()));
    assert_eq!(good.validate(301, &program_id), Err(ConstraintViolation::Raw));
    let mut wrong_vault = deposit_ctx();
    wrong_vault.savings_vault_key = key(9);
    assert_eq!(wrong_vault.validate(1, &program_id), Err(ConstraintViolation::Seeds));
    let mut wrong_treasury = deposit_ctx();
    wrong_treasury.savings_vault_treasury = key(9);
    assert_eq!(wrong_treasury.validate(1, &program_id), Err(ConstraintViolation::Address));
    let mut wrong_manager = deposit_ctx();
    wrong_manager.interest_depositor_manager_key = key(9);
    assert_eq!(wrong_manager.validate(1, &program_id), Err(ConstraintViolation::Address));
    let mut wrong_manager_mint = deposit_ctx();
    wrong_manager_mint.interest_depositor_manager.mint = key(9);
    assert_eq!(wrong_manager_mint.validate(1, &program_id), Err(ConstraintViolation::Address));
}

// ---------------------------------------------------------------------------------------------
// withdraw_savings_vault
// ---------------------------------------------------------------------------------------------

fn withdraw_ctx(balance: u64) -> WithdrawSavingsVault {
    let v = vault(balance, 5);
    let (vault_key, _) = vault_pda(&v.wallet, &v.mint);
    WithdrawSavingsVault {
        wallet: v.wallet,
        wallet_token_account: TokenAccount { key: key(2), owner: v.wallet, mint: v.mint, amount: 0 },
        savings_vault_key: vault_key,
        savings_vault: v,
        savings_vault_treasury: v.savings_vault_treasury,
        mint: v.mint,
        clock_unix_timestamp: 1_800_000_000,
    }
}

#[test]
fn withdraw_takes_from_balance() {
    let mut ctx = withdraw_ctx(500);
    let vault_key = ctx.savings_vault_key;
    let treasury = ctx.savings_vault_treasury;
    let bump = ctx.savings_vault.savings_vault_treasury_bump;
    let transfer = withdraw_savings_vault(&mut ctx, 200).unwrap();
    assert_eq!(ctx.savings_vault.current_balance, 300);
    assert_eq!(ctx.savings_vault.amount_withdrawn, 200);
    assert_eq!(ctx.savings_vault.last_withdrawn_ts, 1_800_000_000);
    assert_eq!(transfer.instruction.program_id, token_program());
    assert_eq!(transfer.instruction.accounts[0].pubkey, treasury);
    assert_eq!(transfer.instruction.accounts[1].pubkey, key(2));
    assert_eq!(transfer.instruction.accounts[2].pubkey, vault_key);
    assert_eq!(transfer.instruction.data, vec![3u8, 200, 0, 0, 0, 0, 0, 0, 0]);
    assert_eq!(transfer.signer_seeds, vec![b"savings_vault-treasury".to_vec(), vault_key.to_vec(), vec![bump]]);
}

#[test]
fn withdraw_whole_balance() {
    let mut ctx = withdraw_ctx(500);
    withdraw_savings_vault(&mut ctx, 500).unwrap();
    assert_eq!(ctx.savings_vault.current_balance, 0);
    assert_eq!(ctx.savings_vault.current_balance + ctx.savings_vault.amount_withdrawn, 500);
}

#[test]
fn withdraw_more_than_balance() {
    let mut ctx = withdraw_ctx(500);
    let r = withdraw_savings_vault(&mut ctx, 501);
    assert_eq!(r.unwrap_err(), SavingsVaultError::InsufficientFundsToWithdrawSavingsVault);
    assert_eq!(ctx.savings_vault.current_balance, 500);
    assert_eq!(ctx.savings_vault.amount_withdrawn, 0);
}

#[test]
fn deposit_then_withdraw_restores_balance() {
    let mut d = deposit_ctx();
    deposit_savings_vault(&mut d, 250).unwrap();
    let mut w = withdraw_ctx(0);
    w.savings_vault = d.savings_vault;
    withdraw_savings_vault(&mut w, 250).unwrap();
    assert_eq!(w.savings_vault.current_balance, 500);
    assert_eq!(w.savings_vault.amount_withdrawn, 250);
}

#[test]
fn withdraw_validation() {
    let program_id = id();
    let good = withdraw_ctx(500);
    assert_eq!(good.validate(&program_id), Ok(()));
    let mut other_wallet = withdraw_ctx(500);
    other_wallet.wallet = key(9);
    other_wallet.wallet_token_account.owner = key(9);
    assert_eq!(other_wallet.validate(&program_id), Err(ConstraintViolation::Address));
    let mut foreign_account = withdraw_ctx(500);
    foreign_account.wallet_token_account.owner = key(9);
    assert_eq!(foreign_account.validate(&program_id), Err(ConstraintViolation::Raw));
    let mut wrong_vault = withdraw_ctx(500);
    wrong_vault.savings_vault_key = key(9);
    assert_eq!(wrong_vault.validate(&program_id), Err(ConstraintViolation::Seeds));
    let mut wrong_treasury = withdraw_ctx(500);
    wrong_treasury.savings_vault_treasury = key(9);
    assert_eq!(wrong_treasury.validate(&program_id), Err(ConstraintViolation::Address));
}

// ---------------------------------------------------------------------------------------------
// accrue_interest
// ---------------------------------------------------------------------------------------------

fn accrue_ctx(balance: u64, last_accrued_ts: i64, now: i64, available: u64) -> AccrueInterest {
    let v = vault(balance, last_accrued_ts);
    let (vault_key, _) = vault_pda(&v.wallet, &v.mint);
    let mut m = InterestDepositorManager::zeroed();
    m.mint = v.mint;
    m.interest_depositor_treasury = key(8);
    m.interest_depositor_treasury_bump = 249;
    AccrueInterest {
        cranker: key(11),
        wallet: v.wallet,
        savings_vault_key: vault_key,
        savings_vault: v,
        savings_vault_treasury: v.savings_vault_treasury,
        interest_depositor_manager_key: key(7),
        interest_depositor_manager: m,
        interest_depositor_treasury: TokenAccount { key: key(8), owner: key(7), mint: v.mint, amount: available },
        mint: v.mint,
        clock_unix_timestamp: now,
    }
}

#[test]
fn accrue_adds_one_percent() {
    let mut ctx = accrue_ctx(1000, 100, 100 + SECONDS_PER_MONTH, 50);
    let treasury = ctx.savings_vault_treasury;
    let (transfer, event) = accrue_interest(&mut ctx).unwrap();
    assert_eq!(ctx.savings_vault.current_balance, 1010);
    assert_eq!(ctx.savings_vault.last_accrued_ts, 100 + SECONDS_PER_MONTH);
    assert_eq!(event, AccrueInterestEvent { wallet: key(1), mint: key(4), number_of_tokens_accrued: 10, current_balance: 1010 });
    assert_eq!(transfer.instruction.accounts[0].pubkey, key(8));
    assert_eq!(transfer.instruction.accounts[1].pubkey, treasury);
    assert_eq!(transfer.instruction.accounts[2].pubkey, key(7));
    assert_eq!(transfer.instruction.data, vec![3u8, 10, 0, 0, 0, 0, 0, 0, 0]);
    assert_eq!(transfer.signer_seeds, vec![b"interest_depositor_treasury".to_vec(), vec![7u8; 32], vec![249u8]]);
}

#[test]
fn accrue_rounds_interest_down() {
    let mut ctx = accrue_ctx(199, 0, SECONDS_PER_MONTH, 50);
    let (_, event) = accrue_interest(&mut ctx).unwrap();
    assert_eq!(event.number_of_tokens_accrued, 1);
    assert_eq!(ctx.savings_vault.current_balance, 200);
    let mut small = accrue_ctx(99, 0, SECONDS_PER_MONTH, 0);
    let (_, event) = accrue_interest(&mut small).unwrap();
    assert_eq!(event.number_of_tokens_accrued, 0);
    assert_eq!(small.savings_vault.current_balance, 99);
}

#[test]
fn accrue_too_early() {
    let mut ctx = accrue_ctx(1000, 100, 99 + SECONDS_PER_MONTH, 50);
    assert_eq!(accrue_interest(&mut ctx).unwrap_err(), SavingsVaultError::CrankedTooRecently);
    assert_eq!(ctx.savings_vault.current_balance, 1000);
}

#[test]
fn accrue_not_enough_interest() {
    let mut ctx = accrue_ctx(1000, 100, 100 + SECONDS_PER_MONTH, 9);
    assert_eq!(accrue_interest(&mut ctx).unwrap_err(), SavingsVaultError::NotEnoughInterestToAccrue);
    assert_eq!(ctx.savings_vault.last_accrued_ts, 100);
}

#[test]
fn accrue_twice_within_a_month() {
    let mut ctx = accrue_ctx(1000, 100, 100 + SECONDS_PER_MONTH, 50);
    accrue_interest(&mut ctx).unwrap();
    ctx.clock_unix_timestamp = 100 + 2 * SECONDS_PER_MONTH - 1;
    assert_eq!(accrue_interest(&mut ctx).unwrap_err(), SavingsVaultError::CrankedTooRecently);
    ctx.clock_unix_timestamp = 100 + 2 * SECONDS_PER_MONTH;
    let (_, event) = accrue_interest(&mut ctx).unwrap();
    assert_eq!(event.number_of_tokens_accrued, 10);
    assert_eq!(ctx.savings_vault.current_balance, 1020);
}

#[test]
fn accrue_validation() {
    let program_id = id();
    let good = accrue_ctx(1000, 0, SECONDS_PER_MONTH, 10);
    assert_eq!(good.validate(&program_id), Ok(()));
    let mut other_wallet = good.clone();
    other_wallet.wallet = key(9);
    assert_eq!(other_wallet.validate(&program_id), Err(ConstraintViolation::Address));
    let mut wrong_vault = good.clone();
    wrong_vault.savings_vault_key = key(9);
    assert_eq!(wrong_vault.validate(&program_id), Err(ConstraintViolation::Seeds));
    let mut wrong_treasury = good.clone();
    wrong_treasury.savings_vault_treasury = key(9);
    assert_eq!(wrong_treasury.validate(&program_id), Err(ConstraintViolation::HasOne));
    let mut wrong_manager = good.clone();
    wrong_manager.interest_depositor_manager_key = key(9);
    assert_eq!(wrong_manager.validate(&program_id), Err(ConstraintViolation::Address));
    let mut wrong_interest_treasury = good.clone();
    wrong_interest_treasury.interest_depositor_treasury.key = key(9);
    assert_eq!(wrong_interest_treasury.validate(&program_id), Err(ConstraintViolation::Address));
}

#[test]
fn accrue_validation_treasury_seeds() {
    let program_id = id();
    let mut ctx = accrue_ctx(1000, 0, SECONDS_PER_MONTH, 10);
    ctx.savings_vault.savings_vault_treasury = key(9);
    ctx.savings_vault_treasury = key(9);
    assert_eq!(ctx.validate(&program_id), Err(ConstraintViolation::Seeds));
}

#[test]
fn balance_accounting_over_a_history() {
    let mut d = deposit_ctx();
    let start = d.savings_vault.current_balance + d.savings_vault.amount_withdrawn;
    deposit_savings_vault(&mut d, 300).unwrap();
    let mut a = accrue_ctx(0, 0, d.savings_vault.last_accrued_ts + SECONDS_PER_MONTH, 100);
    a.savings_vault = d.savings_vault;
    let (_, event) = accrue_interest(&mut a).unwrap();
    assert_eq!(event.number_of_tokens_accrued, 8);
    let mut w = withdraw_ctx(0);
    w.savings_vault = a.savings_vault;
    withdraw_savings_vault(&mut w, 400).unwrap();
    let v = w.savings_vault;
    assert_eq!(v.current_balance, 408);
    assert_eq!(v.current_balance + v.amount_withdrawn, start + 300 + 8);
    assert_eq!(v.starting_balance, 500);
    assert_eq!(v.created_ts, 5);
}

#[test]
fn create_savings_vault_checks_the_vault_address_first() {
    let program_id = id();
    let (ctx, _) = derived_create_ctx();
    let mut both_wrong = ctx;
    both_wrong.savings_vault_key = key(9);
    both_wrong.wallet_token_account.owner = key(9);
    assert_eq!(both_wrong.validate(1, &program_id), Some(Err(ConstraintViolation::Seeds)));
    let mut raw_and_treasury_wrong = ctx;
    raw_and_treasury_wrong.savings_vault_treasury = key(9);
    raw_and_treasury_wrong.wallet_token_account.mint = key(9);
    assert_eq!(raw_and_treasury_wrong.validate(1, &program_id), Some(Err(ConstraintViolation::Raw)));
}

#[test]
fn transfers_move_the_balance_change_through_the_treasury() {
    let mut d = deposit_ctx();
    let treasury = d.savings_vault_treasury;
    let before = d.savings_vault.current_balance;
    let (t, _) = deposit_savings_vault(&mut d, 120).unwrap();
    assert_eq!((t.source, t.destination, t.authority, t.amount), (key(2), treasury, key(1), 120));
    assert_eq!(d.savings_vault.current_balance, before + t.amount);

    let mut w = withdraw_ctx(300);
    let vault_key = w.savings_vault_key;
    let t = withdraw_savings_vault(&mut w, 100).unwrap();
    assert_eq!((t.source, t.destination, t.authority, t.amount), (treasury, key(2), vault_key, 100));
    assert_eq!(w.savings_vault.current_balance, 300 - t.amount);

    let mut a = accrue_ctx(1000, 0, SECONDS_PER_MONTH, 50);
    let (t, _) = accrue_interest(&mut a).unwrap();
    assert_eq!((t.source, t.destination, t.authority, t.amount), (key(8), treasury, key(7), 10));
    assert_eq!(a.savings_vault.current_balance, 1000 + t.amount);

    let (mut c, bumps) = derived_create_ctx();
    let (_, t, _) = create_savings_vault(&mut c, &bumps, 77, bumps.savings_vault_treasury.unwrap()).unwrap();
    assert_eq!(t.destination, c.savings_vault_treasury);
    assert_eq!(c.savings_vault.current_balance, t.amount);
}
