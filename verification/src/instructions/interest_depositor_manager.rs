//! The instructions on the interest depositor manager: creating it, keeping its whitelist, and
//! funding the interest it pays.
use vstd::prelude::*;
use crate::error::{ConstraintViolation, SavingsVaultError};
use crate::ids::{is_native_mint, native_mint_bytes, token_program_id_bytes};
use crate::pda::{
    check_seeds, derived_from, keyed_seeds, make_keyed_seeds, make_unbumped_seeds, search_seeds,
    seeds_search, unbumped_seeds,
};
use crate::pubkey::Pubkey;
use crate::state::{
    interest_depositor_manager_seed, interest_depositor_treasury_seed,
    seed_interest_depositor_manager, seed_interest_depositor_treasury, AddWhitelistEvent,
    CreateInterestDepositorManagerEvent, DepositLiquidityForInterestEvent,
    InterestDepositorManager, RemoveWhitelistEvent, WHITELIST_SIZE,
};
use crate::token::{
    is_token_transfer, seeds_view, CreateTokenAccount, TokenAccount, TokenTransfer,
};
use crate::whitelist::{contains, lemma_without_contains, remove_all, without};

verus! {

/// The manager's fields other than its whitelist are the same in both.
pub open spec fn same_but_whitelist(a: InterestDepositorManager, b: InterestDepositorManager) -> bool {
    &&& a.bump == b.bump
    &&& a.authority == b.authority
    &&& a.mint == b.mint
    &&& a.total_liquidity_for_interest == b.total_liquidity_for_interest
    &&& a.interest_depositor_treasury == b.interest_depositor_treasury
    &&& a.interest_depositor_treasury_bump == b.interest_depositor_treasury_bump
}

// ---------------------------------------------------------------------------------------------
// create_interest_depositor_manager
// ---------------------------------------------------------------------------------------------

/// The accounts of `create_interest_depositor_manager`: the authority that creates and pays,
/// the manager being created (its address and its data), the address of its treasury, and the
/// mint.
#[derive(Clone, Debug)]
pub struct CreateInterestDepositorManager {
    pub authority: Pubkey,
    pub interest_depositor_manager_key: Pubkey,
    pub interest_depositor_manager: InterestDepositorManager,
    pub interest_depositor_treasury: Pubkey,
    pub mint: Pubkey,
}

/// The bump seeds found for the program-derived accounts of `create_interest_depositor_manager`,
/// where one was found.
#[derive(Clone, Copy, Debug, PartialEq, Eq)]
pub struct CreateInterestDepositorManagerBumps {
    pub interest_depositor_manager: Option<u8>,
    pub interest_depositor_treasury: Option<u8>,
}

/// The checks on the accounts of `create_interest_depositor_manager`, in the order they are
/// made: the bumps are searched for the manager (from the mint) and its treasury (from the
/// manager), each address being the one found. `None` where a search finds no bump; the found
/// bumps on success.
pub open spec fn create_manager_accounts_check(
    ctx: CreateInterestDepositorManager,
    program_id: Pubkey,
) -> Option<Result<CreateInterestDepositorManagerBumps, ConstraintViolation>> {
    match seeds_search(
        ctx.interest_depositor_manager_key,
        unbumped_seeds(seed_interest_depositor_manager(), ctx.mint),
        program_id,
    ) {
        None => None,
        Some(Err(e)) => Some(Err(e)),
        Some(Ok(manager_bump)) => match seeds_search(
            ctx.interest_depositor_treasury,
            unbumped_seeds(seed_interest_depositor_treasury(), ctx.interest_depositor_manager_key),
            program_id,
        ) {
            None => None,
            Some(Err(e)) => Some(Err(e)),
            Some(Ok(treasury_bump)) => Some(Ok(CreateInterestDepositorManagerBumps {
                interest_depositor_manager: Some(manager_bump),
                interest_depositor_treasury: Some(treasury_bump),
            })),
        },
    }
}

impl CreateInterestDepositorManager {
    /// Checks the accounts for the program at `program_id` and finds their bumps (see
    /// `create_manager_accounts_check`); found bumps derive the accounts' addresses.
    pub fn validate(&self, program_id: &Pubkey) -> (r: Option<Result<CreateInterestDepositorManagerBumps, ConstraintViolation>>)
        ensures
            r == create_manager_accounts_check(*self, *program_id),
            r matches Some(Ok(b)) ==> {
                &&& derived_from(
                    self.interest_depositor_manager_key,
                    keyed_seeds(seed_interest_depositor_manager(), self.mint, b.interest_depositor_manager->0),
                    *program_id,
                )
                &&& derived_from(
                    self.interest_depositor_treasury,
                    keyed_seeds(seed_interest_depositor_treasury(), self.interest_depositor_manager_key, b.interest_depositor_treasury->0),
                    *program_id,
                )
            },
    {
        let manager_seeds = make_unbumped_seeds(interest_depositor_manager_seed(), &self.mint);
        let manager_bump: u8 = match search_seeds(&self.interest_depositor_manager_key, &manager_seeds, program_id) {
            None => return None,
            Some(Err(e)) => return Some(Err(e)),
            Some(Ok(b)) => b,
        };
        assert(seeds_view(manager_seeds@).push(seq![manager_bump]) =~= keyed_seeds(
            seed_interest_depositor_manager(), self.mint, manager_bump));
        let treasury_seeds = make_unbumped_seeds(interest_depositor_treasury_seed(), &self.interest_depositor_manager_key);
        let treasury_bump: u8 = match search_seeds(&self.interest_depositor_treasury, &treasury_seeds, program_id) {
            None => return None,
            Some(Err(e)) => return Some(Err(e)),
            Some(Ok(b)) => b,
        };
        assert(seeds_view(treasury_seeds@).push(seq![treasury_bump]) =~= keyed_seeds(
            seed_interest_depositor_treasury(), self.interest_depositor_manager_key, treasury_bump));
        Some(Ok(CreateInterestDepositorManagerBumps {
            interest_depositor_manager: Some(manager_bump),
            interest_depositor_treasury: Some(treasury_bump),
        }))
    }
}

/// The treasury account that `create_interest_depositor_manager` asks to create.
pub open spec fn is_manager_treasury_creation(
    c: CreateTokenAccount,
    ctx: CreateInterestDepositorManager,
    treasury_bump: u8,
) -> bool {
    &&& c.token_account == ctx.interest_depositor_treasury
    &&& c.payer == ctx.authority
    &&& c.mint == ctx.mint
    &&& c.owner == ctx.interest_depositor_manager_key
    &&& seeds_view(c.signer_seeds@) == keyed_seeds(
        seed_interest_depositor_treasury(),
        ctx.interest_depositor_manager_key,
        treasury_bump,
    )
    &&& c.is_native == (ctx.mint@ == native_mint_bytes())
}

/// Creates the manager of a mint's interest: checks the treasury bump the caller gives against
/// the one found for the treasury, asks for the treasury token account (owned by the manager),
/// and records the authority, the mint, the treasury and the bumps, with no liquidity and an
/// empty whitelist.
pub fn create_interest_depositor_manager(
    ctx: &mut CreateInterestDepositorManager,
    bumps: &CreateInterestDepositorManagerBumps,
    interest_depositor_treasury_bump: u8,
) -> (r: Result<(CreateTokenAccount, CreateInterestDepositorManagerEvent), SavingsVaultError>)
    requires
        bumps.interest_depositor_treasury == Some(interest_depositor_treasury_bump)
            ==> bumps.interest_depositor_manager is Some,
    ensures
        r is Ok <==> bumps.interest_depositor_treasury == Some(interest_depositor_treasury_bump),
        r is Err ==> r == Err::<(CreateTokenAccount, CreateInterestDepositorManagerEvent), SavingsVaultError>(
            SavingsVaultError::BumpSeedNotInHashMap) && *final(ctx) == *old(ctx),
        r matches Ok((create, event)) ==> {
            let m = final(ctx).interest_depositor_manager;
            &&& is_manager_treasury_creation(create, *old(ctx), interest_depositor_treasury_bump)
            &&& m.bump == bumps.interest_depositor_manager->0
            &&& m.authority == old(ctx).authority
            &&& m.mint == old(ctx).mint
            &&& m.total_liquidity_for_interest == 0
            &&& m.interest_depositor_treasury == old(ctx).interest_depositor_treasury
            &&& m.interest_depositor_treasury_bump == interest_depositor_treasury_bump
            &&& m.whitelist@ == Seq::<Pubkey>::empty()
            &&& final(ctx).authority == old(ctx).authority
            &&& final(ctx).interest_depositor_manager_key == old(ctx).interest_depositor_manager_key
            &&& final(ctx).interest_depositor_treasury == old(ctx).interest_depositor_treasury
            &&& final(ctx).mint == old(ctx).mint
            &&& event.mint == old(ctx).mint
            &&& event.whitelist@ == Seq::<Pubkey>::empty()
            &&& final(ctx).interest_depositor_manager.wf()
        },
{
    let bump_from_account: u8 = match bumps.interest_depositor_treasury {
        Some(b) => b,
        None => {
            return Err(SavingsVaultError::BumpSeedNotInHashMap);
        },
    };
    if interest_depositor_treasury_bump != bump_from_account {
        return Err(SavingsVaultError::BumpSeedNotInHashMap);
    }
    let interest_depositor_treasury_seeds = make_keyed_seeds(
        interest_depositor_treasury_seed(),
        &ctx.interest_depositor_manager_key,
        interest_depositor_treasury_bump,
    );
    let is_native = is_native_mint(&ctx.mint);
    let create = CreateTokenAccount {
        token_account: ctx.interest_depositor_treasury,
        payer: ctx.authority,
        mint: ctx.mint,
        owner: ctx.interest_depositor_manager_key,
        signer_seeds: interest_depositor_treasury_seeds,
        is_native,
    };
    let bump: u8 = bumps.interest_depositor_manager.unwrap();
    ctx.interest_depositor_manager = InterestDepositorManager {
        bump,
        authority: ctx.authority,
        mint: ctx.mint,
        total_liquidity_for_interest: 0,
        interest_depositor_treasury: ctx.interest_depositor_treasury,
        interest_depositor_treasury_bump,
        whitelist: Vec::new(),
    };
    let event = CreateInterestDepositorManagerEvent { mint: ctx.mint, whitelist: Vec::new() };
    Ok((create, event))
}

// ---------------------------------------------------------------------------------------------
// add_whitelist
// ---------------------------------------------------------------------------------------------

/// The accounts of `add_whitelist`: the manager's authority, the mint, and the manager (its
/// address and its data).
#[derive(Clone, Debug)]
pub struct AddWhitelist {
    pub authority: Pubkey,
    pub mint: Pubkey,
    pub interest_depositor_manager_key: Pubkey,
    pub interest_depositor_manager: InterestDepositorManager,
}

/// The constraints on the accounts of `add_whitelist` and `remove_whitelist`, in the order they
/// are checked: the authority is the manager's authority, the mint is the manager's mint, and
/// the manager is at the address derived from its mint and its bump.
pub open spec fn whitelist_accounts_check(
    authority: Pubkey,
    mint: Pubkey,
    manager_key: Pubkey,
    manager: InterestDepositorManager,
    program_id: Pubkey,
) -> Result<(), ConstraintViolation> {
    if authority != manager.authority {
        Err(ConstraintViolation::Address)
    } else if mint != manager.mint {
        Err(ConstraintViolation::Address)
    } else if !derived_from(
        manager_key,
        keyed_seeds(seed_interest_depositor_manager(), manager.mint, manager.bump),
        program_id,
    ) {
        Err(ConstraintViolation::Seeds)
    } else {
        Ok(())
    }
}

/// Checks the accounts of a whitelist instruction (see `whitelist_accounts_check`).
fn check_whitelist_accounts(
    authority: &Pubkey,
    mint: &Pubkey,
    manager_key: &Pubkey,
    manager: &InterestDepositorManager,
    program_id: &Pubkey,
) -> (r: Result<(), ConstraintViolation>)
    ensures
        r == whitelist_accounts_check(*authority, *mint, *manager_key, *manager, *program_id),
{
    if !authority.same_as(&manager.authority) {
        return Err(ConstraintViolation::Address);
    }
    if !mint.same_as(&manager.mint) {
        return Err(ConstraintViolation::Address);
    }
    let seeds = make_keyed_seeds(interest_depositor_manager_seed(), &manager.mint, manager.bump);
    check_seeds(manager_key, &seeds, program_id)
}

impl AddWhitelist {
    /// Checks the accounts' constraints for the program at `program_id`.
    pub fn validate(&self, program_id: &Pubkey) -> (r: Result<(), ConstraintViolation>)
        ensures
            r == whitelist_accounts_check(
                self.authority, self.mint, self.interest_depositor_manager_key,
                self.interest_depositor_manager, *program_id),
    {
        check_whitelist_accounts(
            &self.authority,
            &self.mint,
            &self.interest_depositor_manager_key,
            &self.interest_depositor_manager,
            program_id,
        )
    }
}

/// Adds an entry to the manager's whitelist, unless the whitelist is full.
pub fn add_whitelist(ctx: &mut AddWhitelist, whitelist_entry: Pubkey) -> (r: Result<AddWhitelistEvent, SavingsVaultError>)
    ensures
        r is Ok <==> old(ctx).interest_depositor_manager.whitelist@.len() != WHITELIST_SIZE,
        r is Err ==> r == Err::<AddWhitelistEvent, SavingsVaultError>(SavingsVaultError::WhitelistFull)
            && *final(ctx) == *old(ctx),
        r matches Ok(event) ==> {
            &&& final(ctx).interest_depositor_manager.whitelist@
                == old(ctx).interest_depositor_manager.whitelist@.push(whitelist_entry)
            &&& same_but_whitelist(final(ctx).interest_depositor_manager, old(ctx).interest_depositor_manager)
            &&& final(ctx).authority == old(ctx).authority
            &&& final(ctx).mint == old(ctx).mint
            &&& final(ctx).interest_depositor_manager_key == old(ctx).interest_depositor_manager_key
            &&& event == AddWhitelistEvent { mint: old(ctx).mint, whitelist_entry }
        },
        old(ctx).interest_depositor_manager.wf() ==> final(ctx).interest_depositor_manager.wf(),
{
    if ctx.interest_depositor_manager.whitelist.len() == WHITELIST_SIZE {
        return Err(SavingsVaultError::WhitelistFull);
    }
    ctx.interest_depositor_manager.whitelist.push(whitelist_entry);
    Ok(AddWhitelistEvent { mint: ctx.mint, whitelist_entry })
}

// ---------------------------------------------------------------------------------------------
// remove_whitelist
// ---------------------------------------------------------------------------------------------

/// The accounts of `remove_whitelist`: the manager's authority, the mint, and the manager (its
/// address and its data).
#[derive(Clone, Debug)]
pub struct RemoveWhitelist {
    pub authority: Pubkey,
    pub mint: Pubkey,
    pub interest_depositor_manager_key: Pubkey,
    pub interest_depositor_manager: InterestDepositorManager,
}

impl RemoveWhitelist {
    /// Checks the accounts' constraints for the program at `program_id`.
    pub fn validate(&self, program_id: &Pubkey) -> (r: Result<(), ConstraintViolation>)
        ensures
            r == whitelist_accounts_check(
                self.authority, self.mint, self.interest_depositor_manager_key,
                self.interest_depositor_manager, *program_id),
    {
        check_whitelist_accounts(
            &self.authority,
            &self.mint,
            &self.interest_depositor_manager_key,
            &self.interest_depositor_manager,
            program_id,
        )
    }
}

/// Takes every occurrence of an entry off the manager's whitelist; refused when the entry is
/// not on it.
pub fn remove_whitelist(ctx: &mut RemoveWhitelist, whitelist_entry: Pubkey) -> (r: Result<RemoveWhitelistEvent, SavingsVaultError>)
    ensures
        r is Ok <==> old(ctx).interest_depositor_manager.whitelist@.contains(whitelist_entry),
        r is Err ==> r == Err::<RemoveWhitelistEvent, SavingsVaultError>(SavingsVaultError::WhitelistEntryNotFound)
            && *final(ctx) == *old(ctx),
        r matches Ok(event) ==> {
            &&& final(ctx).interest_depositor_manager.whitelist@
                == without(old(ctx).interest_depositor_manager.whitelist@, whitelist_entry)
            &&& same_but_whitelist(final(ctx).interest_depositor_manager, old(ctx).interest_depositor_manager)
            &&& final(ctx).authority == old(ctx).authority
            &&& final(ctx).mint == old(ctx).mint
            &&& final(ctx).interest_depositor_manager_key == old(ctx).interest_depositor_manager_key
            &&& event == RemoveWhitelistEvent { mint: old(ctx).mint, whitelist_entry }
        },
        old(ctx).interest_depositor_manager.wf() ==> final(ctx).interest_depositor_manager.wf(),
{
    if !contains(&ctx.interest_depositor_manager.whitelist, &whitelist_entry) {
        return Err(SavingsVaultError::WhitelistEntryNotFound);
    }
    let kept = remove_all(&ctx.interest_depositor_manager.whitelist, &whitelist_entry);
    proof {
        lemma_without_contains(ctx.interest_depositor_manager.whitelist@, whitelist_entry, whitelist_entry);
    }
    ctx.interest_depositor_manager.whitelist = kept;
    Ok(RemoveWhitelistEvent { mint: ctx.mint, whitelist_entry })
}

// ---------------------------------------------------------------------------------------------
// deposit_liquidity_for_interest
// ---------------------------------------------------------------------------------------------

/// The accounts of `deposit_liquidity_for_interest`: the depositor and its token account, the
/// manager (its address and its data), the manager's treasury, and the mint.
#[derive(Clone, Debug)]
pub struct DepositLiquidityForInterest {
    pub depositor: Pubkey,
    pub depositor_token_account: TokenAccount,
    pub interest_depositor_manager_key: Pubkey,
    pub interest_depositor_manager: InterestDepositorManager,
    pub interest_depositor_treasury: TokenAccount,
    pub mint: Pubkey,
}

/// The constraints on the accounts of `deposit_liquidity_for_interest`, in the order they are
/// checked: the depositor is whitelisted; its token account is its own, of the mint, and holds
/// at least the deposit; the manager is at the address derived from its mint and bump; the
/// treasury is the manager's; the mint is the manager's.
pub open spec fn deposit_liquidity_accounts_check(
    ctx: DepositLiquidityForInterest,
    number_of_tokens_deposited: u64,
    program_id: Pubkey,
) -> Result<(), ConstraintViolation> {
    let m = ctx.interest_depositor_manager;
    if !m.whitelist@.contains(ctx.depositor) {
        Err(ConstraintViolation::Raw)
    } else if ctx.depositor_token_account.owner != ctx.depositor {
        Err(ConstraintViolation::Raw)
    } else if ctx.depositor_token_account.mint != ctx.mint {
        Err(ConstraintViolation::Raw)
    } else if ctx.depositor_token_account.amount < number_of_tokens_deposited {
        Err(ConstraintViolation::Raw)
    } else if !derived_from(
        ctx.interest_depositor_manager_key,
        keyed_seeds(seed_interest_depositor_manager(), m.mint, m.bump),
        program_id,
    ) {
        Err(ConstraintViolation::Seeds)
    } else if m.interest_depositor_treasury != ctx.interest_depositor_treasury.key {
        Err(ConstraintViolation::Raw)
    } else if ctx.mint != m.mint {
        Err(ConstraintViolation::Address)
    } else {
        Ok(())
    }
}

impl DepositLiquidityForInterest {
    /// Checks the accounts' constraints for a deposit of `number_of_tokens_deposited` for the
    /// program at `program_id`.
    pub fn validate(&self, number_of_tokens_deposited: u64, program_id: &Pubkey) -> (r: Result<(), ConstraintViolation>)
        ensures
            r == deposit_liquidity_accounts_check(*self, number_of_tokens_deposited, *program_id),
    {
        let m = &self.interest_depositor_manager;
        if !contains(&m.whitelist, &self.depositor) {
            return Err(ConstraintViolation::Raw);
        }
        if !self.depositor_token_account.owner.same_as(&self.depositor) {
            return Err(ConstraintViolation::Raw);
        }
        if !self.depositor_token_account.mint.same_as(&self.mint) {
            return Err(ConstraintViolation::Raw);
        }
        if self.depositor_token_account.amount < number_of_tokens_deposited {
            return Err(ConstraintViolation::Raw);
        }
        let seeds = make_keyed_seeds(interest_depositor_manager_seed(), &m.mint, m.bump);
        check_seeds(&self.interest_depositor_manager_key, &seeds, program_id)?;
        if !m.interest_depositor_treasury.same_as(&self.interest_depositor_treasury.key) {
            return Err(ConstraintViolation::Raw);
        }
        if !self.mint.same_as(&m.mint) {
            return Err(ConstraintViolation::Address);
        }
        Ok(())
    }
}

/// Funds interest: moves the deposit from the depositor's token account to the manager's
/// treasury on the depositor's own signature, and adds it to the manager's total liquidity.
pub fn deposit_liquidity_for_interest(
    ctx: &mut DepositLiquidityForInterest,
    number_of_tokens_deposited: u64,
) -> (r: (TokenTransfer, DepositLiquidityForInterestEvent))
    requires
        old(ctx).interest_depositor_manager.total_liquidity_for_interest + number_of_tokens_deposited <= u64::MAX,
    ensures
        is_token_transfer(
            r.0,
            r.0.instruction.program_id,
            old(ctx).depositor_token_account.key,
            old(ctx).interest_depositor_treasury.key,
            old(ctx).depositor,
            number_of_tokens_deposited,
            Seq::empty(),
        ),
        r.0.instruction.program_id@ == token_program_id_bytes(),
        final(ctx).interest_depositor_manager.total_liquidity_for_interest
            == old(ctx).interest_depositor_manager.total_liquidity_for_interest + number_of_tokens_deposited,
        final(ctx).interest_depositor_manager.whitelist == old(ctx).interest_depositor_manager.whitelist,
        final(ctx).interest_depositor_manager.bump == old(ctx).interest_depositor_manager.bump,
        final(ctx).interest_depositor_manager.authority == old(ctx).interest_depositor_manager.authority,
        final(ctx).interest_depositor_manager.mint == old(ctx).interest_depositor_manager.mint,
        final(ctx).interest_depositor_manager.interest_depositor_treasury
            == old(ctx).interest_depositor_manager.interest_depositor_treasury,
        final(ctx).interest_depositor_manager.interest_depositor_treasury_bump
            == old(ctx).interest_depositor_manager.interest_depositor_treasury_bump,
        final(ctx).depositor == old(ctx).depositor,
        final(ctx).depositor_token_account == old(ctx).depositor_token_account,
        final(ctx).interest_depositor_manager_key == old(ctx).interest_depositor_manager_key,
        final(ctx).interest_depositor_treasury == old(ctx).interest_depositor_treasury,
        final(ctx).mint == old(ctx).mint,
        r.1 == (DepositLiquidityForInterestEvent {
            mint: old(ctx).mint,
            depositor: old(ctx).depositor,
            number_of_tokens_deposited,
        }),
{
    let no_seeds: Vec<Vec<u8>> = Vec::new();
    assert(seeds_view(no_seeds@) =~= Seq::<Seq<u8>>::empty());
    let transfer = TokenTransfer::through_token_program(
        &ctx.depositor_token_account.key,
        &ctx.interest_depositor_treasury.key,
        &ctx.depositor,
        number_of_tokens_deposited,
        no_seeds,
    );
    ctx.interest_depositor_manager.total_liquidity_for_interest =
        ctx.interest_depositor_manager.total_liquidity_for_interest + number_of_tokens_deposited;
    let event = DepositLiquidityForInterestEvent {
        mint: ctx.mint,
        depositor: ctx.depositor,
        number_of_tokens_deposited,
    };
    (transfer, event)
}

} // verus!
