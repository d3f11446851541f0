//! What the program asks of the SPL token program: token transfers, described as the
//! instructions the token program receives, and the creation of program-owned token accounts.
use vstd::prelude::*;
use crate::ids::{token_program_id, token_program_id_bytes};
use crate::pubkey::Pubkey;

verus! {

/// An account that an instruction names, with the rights it needs.
#[derive(Clone, Copy, Debug, PartialEq, Eq)]
pub struct AccountMeta {
    pub pubkey: Pubkey,
    pub is_signer: bool,
    pub is_writable: bool,
}

/// The error type of solana-program, which the token program's instruction builders return.
#[verifier::external_type_specification]
#[verifier::external_body]
pub struct ExProgramError(solana_program::program_error::ProgramError);

/// An instruction for another program: whom it is for, the accounts it names, its data.
#[derive(Clone, Debug, PartialEq, Eq)]
pub struct Instruction {
    pub program_id: Pubkey,
    pub accounts: Vec<AccountMeta>,
    pub data: Vec<u8>,
}

/// The eight little-endian bytes of an amount.
pub open spec fn le_bytes(amount: u64) -> Seq<u8> {
    seq![
        (amount % 0x100) as u8,
        ((amount / 0x100) % 0x100) as u8,
        ((amount / 0x1_0000) % 0x100) as u8,
        ((amount / 0x100_0000) % 0x100) as u8,
        ((amount / 0x1_0000_0000) % 0x100) as u8,
        ((amount / 0x100_0000_0000) % 0x100) as u8,
        ((amount / 0x1_0000_0000_0000) % 0x100) as u8,
        ((amount / 0x100_0000_0000_0000) % 0x100) as u8,
    ]
}

/// The data of a token `Transfer` instruction: its tag 3, then the amount.
pub open spec fn transfer_data(amount: u64) -> Seq<u8> {
    seq![3u8] + le_bytes(amount)
}

/// The accounts of a token `Transfer` with a single authority: the source and the destination,
/// writable, then the authority, read-only and signing.
pub open spec fn transfer_account_metas(source: Pubkey, destination: Pubkey, authority: Pubkey) -> Seq<AccountMeta> {
    seq![
        AccountMeta { pubkey: source, is_signer: false, is_writable: true },
        AccountMeta { pubkey: destination, is_signer: false, is_writable: true },
        AccountMeta { pubkey: authority, is_signer: true, is_writable: false },
    ]
}

/// The instruction that moves `amount` tokens from `source` to `destination` on the
/// authority of `authority`, for the token program at `program_id`.
pub open spec fn is_transfer_instruction(
    ix: Instruction,
    program_id: Pubkey,
    source: Pubkey,
    destination: Pubkey,
    authority: Pubkey,
    amount: u64,
) -> bool {
    &&& ix.program_id == program_id
    &&& ix.accounts@ == transfer_account_metas(source, destination, authority)
    &&& ix.data@ == transfer_data(amount)
}

/// The contents of a list of seeds.
pub open spec fn seeds_view(seeds: Seq<Vec<u8>>) -> Seq<Seq<u8>> {
    seeds.map_values(|s: Vec<u8>| s@)
}

/// `spl_token::instruction::transfer(token_program_id, source, destination, authority, &[], amount)`.
/// Its source checks the program id first (`IncorrectProgramId` unless it is the token
/// program's) and otherwise returns the instruction for the given program id whose data is the
/// tag 3 followed by the amount in little-endian bytes and whose accounts are the source and
/// destination (writable, not signing) and the authority (read-only, signing, as no multisig
/// signers are given). The wrapper hands the instruction back field by field.
#[verifier::external_body]
fn transfer_instruction(
    token_program_id: &Pubkey,
    source: &Pubkey,
    destination: &Pubkey,
    authority: &Pubkey,
    amount: u64,
) -> (res: Result<Instruction, solana_program::program_error::ProgramError>)
    ensures
        res is Ok <==> token_program_id@ == token_program_id_bytes(),
        res matches Ok(ix) ==> is_transfer_instruction(ix, *token_program_id, *source, *destination, *authority, amount),
{
    let k = |p: &Pubkey| solana_program::pubkey::Pubkey::new_from_array(p.bytes);
    spl_token::instruction::transfer(&k(token_program_id), &k(source), &k(destination), &k(authority), &[], amount)
        .map(|ix| Instruction {
            program_id: Pubkey { bytes: ix.program_id.to_bytes() },
            accounts: ix.accounts.iter().map(|m| AccountMeta {
                pubkey: Pubkey { bytes: m.pubkey.to_bytes() },
                is_signer: m.is_signer,
                is_writable: m.is_writable,
            }).collect(),
            data: ix.data,
        })
}

/// A token transfer to invoke: the token account it moves tokens from, the one it moves them
/// to, the authority over the source, how many tokens it moves, the instruction that does it,
/// and the seeds with which the program signs for a program-derived authority (none when the
/// authority signs the transaction itself).
#[derive(Clone, Debug, PartialEq, Eq)]
pub struct TokenTransfer {
    pub source: Pubkey,
    pub destination: Pubkey,
    pub authority: Pubkey,
    pub amount: u64,
    pub instruction: Instruction,
    pub signer_seeds: Vec<Vec<u8>>,
}

/// The transfer of `amount` from `source` to `destination` by `authority` through the token
/// program at `program_id`, signed with `seeds`.
pub open spec fn is_token_transfer(
    t: TokenTransfer,
    program_id: Pubkey,
    source: Pubkey,
    destination: Pubkey,
    authority: Pubkey,
    amount: u64,
    seeds: Seq<Seq<u8>>,
) -> bool {
    &&& t.source == source
    &&& t.destination == destination
    &&& t.authority == authority
    &&& t.amount == amount
    &&& is_transfer_instruction(t.instruction, program_id, source, destination, authority, amount)
    &&& seeds_view(t.signer_seeds@) == seeds
}

/// What a transfer does to the tokens of `account`: it gains the amount as destination and
/// loses it as source (a transfer from an account to itself moves nothing).
pub open spec fn token_flow(t: TokenTransfer, account: Pubkey) -> int {
    (if t.destination == account { t.amount as int } else { 0 })
        - (if t.source == account { t.amount as int } else { 0 })
}

impl TokenTransfer {
    /// Builds the transfer through the token program at `token_program_id`; `None` when that is
    /// not the token program's address, which the token program's builder refuses.
    pub fn new(
        token_program_id: &Pubkey,
        source: &Pubkey,
        destination: &Pubkey,
        authority: &Pubkey,
        amount: u64,
        signer_seeds: Vec<Vec<u8>>,
    ) -> (r: Option<TokenTransfer>)
        ensures
            r is Some <==> token_program_id@ == token_program_id_bytes(),
            r matches Some(t) ==> is_token_transfer(
                t, *token_program_id, *source, *destination, *authority, amount, seeds_view(signer_seeds@)),
    {
        match transfer_instruction(token_program_id, source, destination, authority, amount) {
            Ok(instruction) => Some(TokenTransfer {
                source: *source,
                destination: *destination,
                authority: *authority,
                amount,
                instruction,
                signer_seeds,
            }),
            Err(_) => None,
        }
    }

    /// Builds the transfer through the token program itself (as the token crate's own CPI
    /// helpers do), which is never refused.
    pub fn through_token_program(
        source: &Pubkey,
        destination: &Pubkey,
        authority: &Pubkey,
        amount: u64,
        signer_seeds: Vec<Vec<u8>>,
    ) -> (t: TokenTransfer)
        ensures
            t.instruction.program_id@ == token_program_id_bytes(),
            is_token_transfer(
                t, t.instruction.program_id, *source, *destination, *authority, amount,
                seeds_view(signer_seeds@)),
    {
        let token_program = token_program_id();
        match TokenTransfer::new(&token_program, source, destination, authority, amount, signer_seeds) {
            Some(t) => t,
            None => unreached(),
        }
    }
}

/// A program-owned token account to create unless it exists: its address, who pays for it,
/// its mint, the account that owns its tokens, the seeds that sign for its address, and
/// whether the mint is the native mint.
#[derive(Clone, Debug, PartialEq, Eq)]
pub struct CreateTokenAccount {
    pub token_account: Pubkey,
    pub payer: Pubkey,
    pub mint: Pubkey,
    pub owner: Pubkey,
    pub signer_seeds: Vec<Vec<u8>>,
    pub is_native: bool,
}

} // verus!

verus! {

/// What the program reads of a token account: its address, the owner of its tokens, its mint,
/// and how many tokens it holds.
#[derive(Clone, Copy, Debug, PartialEq, Eq)]
pub struct TokenAccount {
    pub key: Pubkey,
    pub owner: Pubkey,
    pub mint: Pubkey,
    pub amount: u64,
}

} // verus!
