//! Program-derived addresses: the addresses a program derives from seeds, and the seed lists the
//! program uses for its accounts.
use vstd::prelude::*;
use crate::error::ConstraintViolation;
use crate::pubkey::Pubkey;
use crate::token::seeds_view;

verus! {

/// The address that `Pubkey::create_program_address` derives from the seeds and the program id,
/// or `None` where it refuses them (too many or too long seeds, or a hash that lies on the curve).
pub uninterp spec fn program_address(seeds: Seq<Seq<u8>>, program_id: Seq<u8>) -> Option<Seq<u8>>;

/// `solana_program::pubkey::Pubkey::create_program_address(seeds, program_id)`: a hash of the
/// seeds, the program id and a fixed marker, refused when it is a point of the curve or when the
/// seeds exceed their limits. The contract only names the result (`program_address`); the error
/// kind is dropped.
#[verifier::external_body]
fn create_program_address(seeds: &Vec<Vec<u8>>, program_id: &Pubkey) -> (r: Option<Pubkey>)
    ensures
        program_address(seeds_view(seeds@), program_id@) == (match r {
            Some(k) => Some(k@),
            None => None,
        }),
{
    let refs: Vec<&[u8]> = seeds.iter().map(|s| s.as_slice()).collect();
    solana_program::pubkey::Pubkey::create_program_address(
        &refs,
        &solana_program::pubkey::Pubkey::new_from_array(program_id.bytes),
    ).ok().map(|k| Pubkey { bytes: k.to_bytes() })
}

/// The first bump from `bump` down to 1 for which `create_program_address` accepts the seeds
/// followed by `[bump]`, with the address it derives; `None` when there is none.
pub open spec fn search_bumps_from(seeds: Seq<Seq<u8>>, program_id: Seq<u8>, bump: int) -> Option<(Seq<u8>, u8)>
    decreases bump,
{
    if bump < 1 {
        None
    } else {
        match program_address(seeds.push(seq![bump as u8]), program_id) {
            Some(k) => Some((k, bump as u8)),
            None => search_bumps_from(seeds, program_id, bump - 1),
        }
    }
}

/// The address and bump that `Pubkey::try_find_program_address` finds for the seeds and the
/// program id: the canonical bump, the first from 255 down to 1 that gives an address.
pub open spec fn found_program_address(seeds: Seq<Seq<u8>>, program_id: Seq<u8>) -> Option<(Seq<u8>, u8)> {
    search_bumps_from(seeds, program_id, 255)
}

/// A bump the search finds gives the address found with it.
pub proof fn lemma_found_address_is_derived(seeds: Seq<Seq<u8>>, program_id: Seq<u8>, bump: int)
    ensures
        search_bumps_from(seeds, program_id, bump) matches Some((k, b))
            ==> program_address(seeds.push(seq![b]), program_id) == Some(k),
    decreases bump,
{
    if bump >= 1 {
        lemma_found_address_is_derived(seeds, program_id, bump - 1);
    }
}

/// `solana_program::pubkey::Pubkey::try_find_program_address(seeds, program_id)`: tries the bumps
/// from 255 down to 1 and returns the first address that `create_program_address` accepts for
/// the seeds followed by `[bump]`, with that bump; `None` when none is accepted (also when the
/// seeds exceed their limits, where `create_program_address` accepts none).
#[verifier::external_body]
fn try_find_program_address(seeds: &Vec<Vec<u8>>, program_id: &Pubkey) -> (r: Option<(Pubkey, u8)>)
    ensures
        found_program_address(seeds_view(seeds@), program_id@) == (match r {
            Some((k, b)) => Some((k@, b)),
            None => None,
        }),
{
    let refs: Vec<&[u8]> = seeds.iter().map(|s| s.as_slice()).collect();
    solana_program::pubkey::Pubkey::try_find_program_address(
        &refs,
        &solana_program::pubkey::Pubkey::new_from_array(program_id.bytes),
    ).map(|(k, b)| (Pubkey { bytes: k.to_bytes() }, b))
}

/// The outcome of the `seeds = [..], bump` check, where the bump is searched for: `None` where no
/// bump gives an address (the runtime's search panics there), otherwise the found bump when the
/// found address is the account's, and `ConstraintViolation::Seeds` when it is not.
pub open spec fn seeds_search(account: Pubkey, seeds: Seq<Seq<u8>>, program_id: Pubkey) -> Option<Result<u8, ConstraintViolation>> {
    match found_program_address(seeds, program_id@) {
        None => None,
        Some((k, b)) => if k == account@ {
            Some(Ok(b))
        } else {
            Some(Err(ConstraintViolation::Seeds))
        },
    }
}

/// Searches the bump for the seeds and checks that the found address is the account's (see
/// `seeds_search`); a found bump always derives the account's address.
pub fn search_seeds(account: &Pubkey, seeds: &Vec<Vec<u8>>, program_id: &Pubkey) -> (r: Option<Result<u8, ConstraintViolation>>)
    ensures
        r == seeds_search(*account, seeds_view(seeds@), *program_id),
        r matches Some(Ok(b)) ==> derived_from(*account, seeds_view(seeds@).push(seq![b]), *program_id),
{
    proof {
        lemma_found_address_is_derived(seeds_view(seeds@), program_id@, 255);
    }
    match try_find_program_address(seeds, program_id) {
        None => None,
        Some((k, b)) => {
            if k.same_as(account) {
                Some(Ok(b))
            } else {
                Some(Err(ConstraintViolation::Seeds))
            }
        },
    }
}

/// `[prefix, key]`
pub open spec fn unbumped_seeds(prefix: Seq<u8>, key: Pubkey) -> Seq<Seq<u8>> {
    seq![prefix, key@]
}

/// `[prefix, first, second]`
pub open spec fn doubly_unbumped_seeds(prefix: Seq<u8>, first: Pubkey, second: Pubkey) -> Seq<Seq<u8>> {
    seq![prefix, first@, second@]
}

/// Builds `[prefix, key]`.
pub fn make_unbumped_seeds(prefix: Vec<u8>, key: &Pubkey) -> (s: Vec<Vec<u8>>)
    ensures
        seeds_view(s@) == unbumped_seeds(prefix@, *key),
{
    let ghost p = prefix@;
    let k = key.to_vec();
    let mut s: Vec<Vec<u8>> = Vec::new();
    s.push(prefix);
    s.push(k);
    assert(s@[0]@ == p && s@[1]@ == key@);
    assert(seeds_view(s@) =~= unbumped_seeds(p, *key));
    s
}

/// Builds `[prefix, first, second]`.
pub fn make_doubly_unbumped_seeds(prefix: Vec<u8>, first: &Pubkey, second: &Pubkey) -> (s: Vec<Vec<u8>>)
    ensures
        seeds_view(s@) == doubly_unbumped_seeds(prefix@, *first, *second),
{
    let ghost p = prefix@;
    let f = first.to_vec();
    let g = second.to_vec();
    let mut s: Vec<Vec<u8>> = Vec::new();
    s.push(prefix);
    s.push(f);
    s.push(g);
    assert(s@[0]@ == p && s@[1]@ == first@ && s@[2]@ == second@);
    assert(seeds_view(s@) =~= doubly_unbumped_seeds(p, *first, *second));
    s
}

/// `[prefix, key, [bump]]`
pub open spec fn keyed_seeds(prefix: Seq<u8>, key: Pubkey, bump: u8) -> Seq<Seq<u8>> {
    seq![prefix, key@, seq![bump]]
}

/// `[prefix, first, second, [bump]]`
pub open spec fn doubly_keyed_seeds(prefix: Seq<u8>, first: Pubkey, second: Pubkey, bump: u8) -> Seq<Seq<u8>> {
    seq![prefix, first@, second@, seq![bump]]
}

/// Builds `[prefix, key, [bump]]`.
pub fn make_keyed_seeds(prefix: Vec<u8>, key: &Pubkey, bump: u8) -> (s: Vec<Vec<u8>>)
    ensures
        seeds_view(s@) == keyed_seeds(prefix@, *key, bump),
{
    let ghost p = prefix@;
    let k = key.to_vec();
    let mut b: Vec<u8> = Vec::new();
    b.push(bump);
    assert(b@ =~= seq![bump]);
    let mut s: Vec<Vec<u8>> = Vec::new();
    s.push(prefix);
    s.push(k);
    s.push(b);
    assert(s@[0]@ == p && s@[1]@ == key@ && s@[2]@ == seq![bump]);
    assert(seeds_view(s@) =~= keyed_seeds(p, *key, bump));
    s
}

/// Builds `[prefix, first, second, [bump]]`.
pub fn make_doubly_keyed_seeds(prefix: Vec<u8>, first: &Pubkey, second: &Pubkey, bump: u8) -> (s: Vec<Vec<u8>>)
    ensures
        seeds_view(s@) == doubly_keyed_seeds(prefix@, *first, *second, bump),
{
    let ghost p = prefix@;
    let f = first.to_vec();
    let g = second.to_vec();
    let mut b: Vec<u8> = Vec::new();
    b.push(bump);
    assert(b@ =~= seq![bump]);
    let mut s: Vec<Vec<u8>> = Vec::new();
    s.push(prefix);
    s.push(f);
    s.push(g);
    s.push(b);
    assert(s@[0]@ == p && s@[1]@ == first@ && s@[2]@ == second@ && s@[3]@ == seq![bump]);
    assert(seeds_view(s@) =~= doubly_keyed_seeds(p, *first, *second, bump));
    s
}

/// Whether `account` is the address derived from `seeds` for the program.
pub open spec fn derived_from(account: Pubkey, seeds: Seq<Seq<u8>>, program_id: Pubkey) -> bool {
    program_address(seeds, program_id@) == Some(account@)
}

/// The `seeds = [..], bump = ..` check: the account must be the address derived from its seeds
/// (the last of which is the bump) for the program; `ConstraintViolation::Seeds` otherwise,
/// also where no address can be derived.
pub fn check_seeds(account: &Pubkey, seeds: &Vec<Vec<u8>>, program_id: &Pubkey) -> (r: Result<(), ConstraintViolation>)
    ensures
        r == (if derived_from(*account, seeds_view(seeds@), *program_id) {
            Ok::<(), ConstraintViolation>(())
        } else {
            Err(ConstraintViolation::Seeds)
        }),
{
    match create_program_address(seeds, program_id) {
        Some(k) => {
            if k.same_as(account) {
                Ok(())
            } else {
                Err(ConstraintViolation::Seeds)
            }
        },
        None => Err(ConstraintViolation::Seeds),
    }
}

} // verus!
