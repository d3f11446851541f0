use savings_vault::ids::{id, is_native_mint};
use savings_vault::whitelist::{contains, remove_all};
use savings_vault::{
    add_whitelist, create_interest_depositor_manager, deposit_liquidity_for_interest,
    remove_whitelist, AccountMeta, AddWhitelist, AddWhitelistEvent, ConstraintViolation,
    CreateInterestDepositorManager, CreateInterestDepositorManagerBumps,
    DepositLiquidityForInterest, DepositLiquidityForInterestEvent, InterestDepositorManager,
    Pubkey, RemoveWhitelist, RemoveWhitelistEvent, SavingsVaultError, TokenAccount,
    TokenTransfer,
};
use solana_program::pubkey::Pubkey as SolPubkey;
use std::str::FromStr;

fn token_program() -> Pubkey {
    Pubkey::new_from_array(SolPubkey::from_str("TokenkegQfeZyiNwAJbNbGKPFXCWuBvf9Ss623VQ5DA").unwrap().to_bytes())
}

fn native_mint() -> Pubkey {
    Pubkey::new_from_array(SolPubkey::from_str("So11111111111111111111111111111111111111112").unwrap().to_bytes())
}

fn key(b: u8) -> Pubkey {
    Pubkey::new_from_array([b; 32])
}

fn sol(k: &Pubkey) -> SolPubkey {
    SolPubkey::new_from_array(k.to_bytes())
}

fn program() -> SolPubkey {
    SolPubkey::from_str("7UGWo3y9HkLof88nHW3LGYX5hVts9WAMMmEeYYLK8dKB").unwrap()
}

/// The manager's address and bump for a mint, as the runtime derives them.
fn manager_pda(mint: &Pubkey) -> (Pubkey, u8) {
    let (k, b) = SolPubkey::find_program_address(&[b"interest_depositor_manager", mint.to_bytes().as_ref()], &program());
    (Pubkey::new_from_array(k.to_bytes()), b)
}

fn manager(authority: u8, mint: &Pubkey, treasury: u8, bump: u8, whitelist: Vec<Pubkey>) -> InterestDepositorManager {
    let mut m = InterestDepositorManager::zeroed();
    m.bump = bump;
    m.authority = key(authority);
    m.mint = *mint;
    m.interest_depositor_treasury = key(treasury);
    m.interest_depositor_treasury_bump = 254;
    m.whitelist = whitelist;
    m
}

// ---------------------------------------------------------------------------------------------
// fixed addresses and token instructions
// ---------------------------------------------------------------------------------------------

#[test]
fn program_id_is_the_declared_address() {
    assert_eq!(id().to_bytes(), program().to_bytes());
}

#[test]
fn token_program_id_is_spl_token() {
    let expected = SolPubkey::from_str("TokenkegQfeZyiNwAJbNbGKPFXCWuBvf9Ss623VQ5DA").unwrap();
    let t = TokenTransfer::through_token_program(&key(1), &key(2), &key(3), 1, vec![]);
    assert_eq!(t.instruction.program_id.to_bytes(), expected.to_bytes());
    assert!(TokenTransfer::new(&Pubkey::new_from_array(expected.to_bytes()), &key(1), &key(2), &key(3), 1, vec![]).is_some());
}

#[test]
fn native_mint_is_wrapped_sol() {
    let expected = SolPubkey::from_str("So11111111111111111111111111111111111111112").unwrap();
    assert!(is_native_mint(&Pubkey::new_from_array(expected.to_bytes())));
    assert!(!is_native_mint(&key(7)));
}

#[test]
fn transfer_instruction_layout() {
    let t = TokenTransfer::new(&token_program(), &key(1), &key(2), &key(3), 0x0102_0304_0506_0708, vec![vec![9u8]]).unwrap();
    assert_eq!(t.instruction.program_id, token_program());
    assert_eq!(t.instruction.data, vec![3u8, 8, 7, 6, 5, 4, 3, 2, 1]);
    assert_eq!(
        t.instruction.accounts,
        vec![
            AccountMeta { pubkey: key(1), is_signer: false, is_writable: true },
            AccountMeta { pubkey: key(2), is_signer: false, is_writable: true },
            AccountMeta { pubkey: key(3), is_signer: true, is_writable: false },
        ]
    );
    assert_eq!(t.signer_seeds, vec![vec![9u8]]);
}

#[test]
fn transfer_refused_for_another_program() {
    assert!(TokenTransfer::new(&key(5), &key(1), &key(2), &key(3), 10, vec![]).is_none());
}

#[test]
fn transfer_through_token_program_matches_builder() {
    let a = TokenTransfer::through_token_program(&key(1), &key(2), &key(3), 1, vec![]);
    let b = TokenTransfer::new(&token_program(), &key(1), &key(2), &key(3), 1, vec![]).unwrap();
    assert_eq!(a, b);
    assert_eq!(a.instruction.data, vec![3u8, 1, 0, 0, 0, 0, 0, 0, 0]);
}

// ---------------------------------------------------------------------------------------------
// addresses and lists
// ---------------------------------------------------------------------------------------------

#[test]
fn pubkey_equality_is_bytewise() {
    let mut b = [4u8; 32];
    assert!(key(4).same_as(&Pubkey::new_from_array(b)));
    b[31] = 5;
    assert!(!key(4).same_as(&Pubkey::new_from_array(b)));
    assert_eq!(key(4).to_vec(), vec![4u8; 32]);
    assert_eq!(Pubkey::zeroed().to_bytes(), [0u8; 32]);
}

#[test]
fn whitelist_search_and_removal() {
    let list = vec![key(1), key(2), key(1), key(3)];
    assert!(contains(&list, &key(3)));
    assert!(!contains(&list, &key(4)));
    assert_eq!(remove_all(&list, &key(1)), vec![key(2), key(3)]);
    assert_eq!(remove_all(&list, &key(9)), list);
}

// ---------------------------------------------------------------------------------------------
// create_interest_depositor_manager
// ---------------------------------------------------------------------------------------------

fn create_ctx(mint: Pubkey) -> CreateInterestDepositorManager {
    CreateInterestDepositorManager {
        authority: key(1),
        interest_depositor_manager_key: key(2),
        interest_depositor_manager: InterestDepositorManager::zeroed(),
        interest_depositor_treasury: key(3),
        mint,
    }
}

#[test]
fn create_manager_records_the_manager() {
    let mut ctx = create_ctx(key(4));
    let bumps = CreateInterestDepositorManagerBumps { interest_depositor_manager: Some(250), interest_depositor_treasury: Some(251) };
    let (create, event) = create_interest_depositor_manager(&mut ctx, &bumps, 251).unwrap();
    let m = &ctx.interest_depositor_manager;
    assert_eq!(m.bump, 250);
    assert_eq!(m.authority, key(1));
    assert_eq!(m.mint, key(4));
    assert_eq!(m.total_liquidity_for_interest, 0);
    assert_eq!(m.interest_depositor_treasury, key(3));
    assert_eq!(m.interest_depositor_treasury_bump, 251);
    assert!(m.whitelist.is_empty());
    assert_eq!(create.token_account, key(3));
    assert_eq!(create.payer, key(1));
    assert_eq!(create.mint, key(4));
    assert_eq!(create.owner, key(2));
    assert_eq!(create.signer_seeds, vec![b"interest_depositor_treasury".to_vec(), vec![2u8; 32], vec![251u8]]);
    assert!(!create.is_native);
    assert_eq!(event.mint, key(4));
    assert!(event.whitelist.is_empty());
}

#[test]
fn create_manager_for_native_mint() {
    let mut ctx = create_ctx(native_mint());
    let bumps = CreateInterestDepositorManagerBumps { interest_depositor_manager: Some(250), interest_depositor_treasury: Some(251) };
    let (create, _) = create_interest_depositor_manager(&mut ctx, &bumps, 251).unwrap();
    assert!(create.is_native);
}

#[test]
fn create_manager_bump_mismatch() {
    let mut ctx = create_ctx(key(4));
    let bumps = CreateInterestDepositorManagerBumps { interest_depositor_manager: Some(250), interest_depositor_treasury: Some(251) };
    let r = create_interest_depositor_manager(&mut ctx, &bumps, 252);
    assert_eq!(r.unwrap_err(), SavingsVaultError::BumpSeedNotInHashMap);
    assert_eq!(ctx.interest_depositor_manager.bump, 0);
}

#[test]
fn create_manager_bump_missing() {
    let mut ctx = create_ctx(key(4));
    let bumps = CreateInterestDepositorManagerBumps { interest_depositor_manager: None, interest_depositor_treasury: None };
    let r = create_interest_depositor_manager(&mut ctx, &bumps, 251);
    assert_eq!(r.unwrap_err(), SavingsVaultError::BumpSeedNotInHashMap);
}

#[test]
fn create_manager_validation() {
    let program_id = id();
    let mint = key(4);
    let (manager_key, manager_bump) = manager_pda(&mint);
    let (treasury, treasury_bump) = SolPubkey::find_program_address(
        &[b"interest_depositor_treasury", manager_key.to_bytes().as_ref()],
        &program(),
    );
    let mut ctx = create_ctx(mint);
    ctx.interest_depositor_manager_key = manager_key;
    ctx.interest_depositor_treasury = Pubkey::new_from_array(treasury.to_bytes());
    let expected = CreateInterestDepositorManagerBumps {
        interest_depositor_manager: Some(manager_bump),
        interest_depositor_treasury: Some(treasury_bump),
    };
    assert_eq!(ctx.validate(&program_id), Some(Ok(expected)));
    let (_, event) = create_interest_depositor_manager(&mut ctx, &expected, treasury_bump).unwrap();
    assert_eq!(ctx.interest_depositor_manager.bump, manager_bump);
    assert_eq!(event.mint, mint);

    let mut wrong_treasury = create_ctx(mint);
    wrong_treasury.interest_depositor_manager_key = manager_key;
    assert_eq!(wrong_treasury.validate(&program_id), Some(Err(ConstraintViolation::Seeds)));
    let wrong_manager = create_ctx(mint);
    assert_eq!(wrong_manager.validate(&program_id), Some(Err(ConstraintViolation::Seeds)));
}

// ---------------------------------------------------------------------------------------------
// add_whitelist / remove_whitelist
// ---------------------------------------------------------------------------------------------

#[test]
fn add_whitelist_appends_until_full() {
    let mint = key(4);
    let mut ctx = AddWhitelist {
        authority: key(1),
        mint,
        interest_depositor_manager_key: key(2),
        interest_depositor_manager: manager(1, &mint, 3, 255, vec![]),
    };
    for i in 0..10u8 {
        let event = add_whitelist(&mut ctx, key(100 + i)).unwrap();
        assert_eq!(event, AddWhitelistEvent { mint, whitelist_entry: key(100 + i) });
        assert_eq!(ctx.interest_depositor_manager.whitelist.len(), (i + 1) as usize);
        assert_eq!(ctx.interest_depositor_manager.whitelist[i as usize], key(100 + i));
    }
    let r = add_whitelist(&mut ctx, key(200));
    assert_eq!(r.unwrap_err(), SavingsVaultError::WhitelistFull);
    assert_eq!(ctx.interest_depositor_manager.whitelist.len(), 10);
}

#[test]
fn add_whitelist_allows_duplicates() {
    let mint = key(4);
    let mut ctx = AddWhitelist {
        authority: key(1),
        mint,
        interest_depositor_manager_key: key(2),
        interest_depositor_manager: manager(1, &mint, 3, 255, vec![key(7)]),
    };
    add_whitelist(&mut ctx, key(7)).unwrap();
    assert_eq!(ctx.interest_depositor_manager.whitelist, vec![key(7), key(7)]);
}

#[test]
fn remove_whitelist_takes_every_occurrence() {
    let mint = key(4);
    let mut ctx = RemoveWhitelist {
        authority: key(1),
        mint,
        interest_depositor_manager_key: key(2),
        interest_depositor_manager: manager(1, &mint, 3, 255, vec![key(7), key(8), key(7)]),
    };
    let event = remove_whitelist(&mut ctx, key(7)).unwrap();
    assert_eq!(event, RemoveWhitelistEvent { mint, whitelist_entry: key(7) });
    assert_eq!(ctx.interest_depositor_manager.whitelist, vec![key(8)]);
    assert_eq!(ctx.interest_depositor_manager.authority, key(1));
}

#[test]
fn remove_whitelist_entry_not_found() {
    let mint = key(4);
    let mut ctx = RemoveWhitelist {
        authority: key(1),
        mint,
        interest_depositor_manager_key: key(2),
        interest_depositor_manager: manager(1, &mint, 3, 255, vec![key(8)]),
    };
    let r = remove_whitelist(&mut ctx, key(7));
    assert_eq!(r.unwrap_err(), SavingsVaultError::WhitelistEntryNotFound);
    assert_eq!(ctx.interest_depositor_manager.whitelist, vec![key(8)]);
}

#[test]
fn add_then_remove_restores_whitelist() {
    let mint = key(4);
    let start = vec![key(8), key(9)];
    let mut add = AddWhitelist {
        authority: key(1),
        mint,
        interest_depositor_manager_key: key(2),
        interest_depositor_manager: manager(1, &mint, 3, 255, start.clone()),
    };
    add_whitelist(&mut add, key(7)).unwrap();
    let mut remove = RemoveWhitelist {
        authority: key(1),
        mint,
        interest_depositor_manager_key: key(2),
        interest_depositor_manager: add.interest_depositor_manager.clone(),
    };
    remove_whitelist(&mut remove, key(7)).unwrap();
    assert_eq!(remove.interest_depositor_manager.whitelist, start);
}

#[test]
fn whitelist_accounts_validation() {
    let mint = key(4);
    let (manager_key, bump) = manager_pda(&mint);
    let program_id = id();
    let good = AddWhitelist {
        authority: key(1),
        mint,
        interest_depositor_manager_key: manager_key,
        interest_depositor_manager: manager(1, &mint, 3, bump, vec![]),
    };
    assert_eq!(good.validate(&program_id), Ok(()));

    let mut wrong_authority = good.clone();
    wrong_authority.authority = key(9);
    assert_eq!(wrong_authority.validate(&program_id), Err(ConstraintViolation::Address));

    let mut wrong_mint = good.clone();
    wrong_mint.mint = key(9);
    assert_eq!(wrong_mint.validate(&program_id), Err(ConstraintViolation::Address));

    let mut wrong_manager = good.clone();
    wrong_manager.interest_depositor_manager_key = key(9);
    assert_eq!(wrong_manager.validate(&program_id), Err(ConstraintViolation::Seeds));

    let remove = RemoveWhitelist {
        authority: key(1),
        mint,
        interest_depositor_manager_key: manager_key,
        interest_depositor_manager: manager(1, &mint, 3, bump, vec![]),
    };
    assert_eq!(remove.validate(&program_id), Ok(()));
    assert_eq!(remove.validate(&key(6)), Err(ConstraintViolation::Seeds));
}

// ---------------------------------------------------------------------------------------------
// deposit_liquidity_for_interest
// ---------------------------------------------------------------------------------------------

fn liquidity_ctx() -> DepositLiquidityForInterest {
    let mint = key(4);
    let (manager_key, bump) = manager_pda(&mint);
    let mut m = manager(1, &mint, 3, bump, vec![key(5)]);
    m.total_liquidity_for_interest = 100;
    DepositLiquidityForInterest {
        depositor: key(5),
        depositor_token_account: TokenAccount { key: key(6), owner: key(5), mint, amount: 1000 },
        interest_depositor_manager_key: manager_key,
        interest_depositor_manager: m,
        interest_depositor_treasury: TokenAccount { key: key(3), owner: manager_key, mint, amount: 0 },
        mint,
    }
}

#[test]
fn deposit_liquidity_adds_to_total() {
    let mut ctx = liquidity_ctx();
    let (transfer, event) = deposit_liquidity_for_interest(&mut ctx, 250);
    assert_eq!(ctx.interest_depositor_manager.total_liquidity_for_interest, 350);
    assert_eq!(event, DepositLiquidityForInterestEvent { mint: key(4), depositor: key(5), number_of_tokens_deposited: 250 });
    assert_eq!(transfer.instruction.program_id, token_program());
    assert_eq!(transfer.instruction.accounts[0].pubkey, key(6));
    assert_eq!(transfer.instruction.accounts[1].pubkey, key(3));
    assert_eq!(transfer.instruction.accounts[2].pubkey, key(5));
    assert_eq!(transfer.instruction.data, vec![3u8, 250, 0, 0, 0, 0, 0, 0, 0]);
    assert!(transfer.signer_seeds.is_empty());
}

#[test]
fn deposit_liquidity_validation() {
    let program_id = id();
    let good = liquidity_ctx();
    assert_eq!(good.validate(1000, &program_id), Ok(()));

    let mut not_whitelisted = good.clone();
    not_whitelisted.depositor = key(8);
    not_whitelisted.depositor_token_account.owner = key(8);
    assert_eq!(not_whitelisted.validate(10, &program_id), Err(ConstraintViolation::Raw));

    let mut foreign_account = good.clone();
    foreign_account.depositor_token_account.owner = key(8);
    assert_eq!(foreign_account.validate(10, &program_id), Err(ConstraintViolation::Raw));

    let mut other_mint = good.clone();
    other_mint.depositor_token_account.mint = key(8);
    assert_eq!(other_mint.validate(10, &program_id), Err(ConstraintViolation::Raw));

    assert_eq!(good.validate(1001, &program_id), Err(ConstraintViolation::Raw));

    let mut wrong_manager = good.clone();
    wrong_manager.interest_depositor_manager_key = key(9);
    assert_eq!(wrong_manager.validate(10, &program_id), Err(ConstraintViolation::Seeds));

    let mut wrong_treasury = good.clone();
    wrong_treasury.interest_depositor_treasury.key = key(9);
    assert_eq!(wrong_treasury.validate(10, &program_id), Err(ConstraintViolation::Raw));
}

#[test]
fn deposit_liquidity_validation_wrong_mint() {
    let program_id = id();
    let mut ctx = liquidity_ctx();
    ctx.mint = key(9);
    ctx.depositor_token_account.mint = key(9);
    assert_eq!(ctx.validate(10, &program_id), Err(ConstraintViolation::Address));
}

#[test]
fn seeds_check_uses_the_derived_address() {
    let mint = key(4);
    let (manager_key, bump) = manager_pda(&mint);
    let expected = SolPubkey::create_program_address(&[b"interest_depositor_manager", mint.to_bytes().as_ref(), &[bump]], &program()).unwrap();
    assert_eq!(manager_key.to_bytes(), expected.to_bytes());
    assert_ne!(manager_key, mint);
    let ctx = AddWhitelist {
        authority: key(1),
        mint,
        interest_depositor_manager_key: Pubkey::new_from_array(sol(&manager_key).to_bytes()),
        interest_depositor_manager: manager(1, &mint, 3, bump, vec![]),
    };
    assert_eq!(ctx.validate(&id()), Ok(()));
}
