//! The fixed addresses: this program's own id, the SPL token program and the native (wrapped SOL) mint.
use vstd::prelude::*;
use crate::pubkey::Pubkey;

verus! {

/// The bytes of this program's address, `7UGWo3y9HkLof88nHW3LGYX5hVts9WAMMmEeYYLK8dKB`.
pub open spec fn program_id_bytes() -> Seq<u8> {
    seq![
        96u8, 34, 88, 68, 1, 89, 61, 159, 100, 89, 95, 168, 82, 195, 79, 1,
        59, 79, 178, 152, 124, 234, 165, 223, 210, 26, 212, 228, 190, 175, 8, 134,
    ]
}

/// The bytes of the SPL token program's address, `TokenkegQfeZyiNwAJbNbGKPFXCWuBvf9Ss623VQ5DA`.
pub open spec fn token_program_id_bytes() -> Seq<u8> {
    seq![
        6u8, 221, 246, 225, 215, 101, 161, 147, 217, 203, 225, 70, 206, 235, 121, 172,
        28, 180, 133, 237, 95, 91, 55, 145, 58, 140, 245, 133, 126, 255, 0, 169,
    ]
}

/// The bytes of the native mint's address, `So11111111111111111111111111111111111111112`.
pub open spec fn native_mint_bytes() -> Seq<u8> {
    seq![
        6u8, 155, 136, 87, 254, 171, 129, 132, 251, 104, 127, 99, 70, 24, 192, 53,
        218, 196, 57, 220, 26, 235, 59, 85, 152, 160, 240, 0, 0, 0, 0, 1,
    ]
}

/// This program's address.
pub fn id() -> (k: Pubkey)
    ensures
        k@ == program_id_bytes(),
{
    let k = Pubkey {
        bytes: [
            96u8, 34, 88, 68, 1, 89, 61, 159, 100, 89, 95, 168, 82, 195, 79, 1,
            59, 79, 178, 152, 124, 234, 165, 223, 210, 26, 212, 228, 190, 175, 8, 134,
        ],
    };
    assert(k@ =~= program_id_bytes());
    k
}

/// `spl_token::id()`: the address that `declare_id!` in spl-token fixes for the token program,
/// `TokenkegQfeZyiNwAJbNbGKPFXCWuBvf9Ss623VQ5DA`, as bytes.
#[verifier::external_body]
pub(crate) fn token_program_id() -> (k: Pubkey)
    ensures
        k@ == token_program_id_bytes(),
{
    Pubkey { bytes: spl_token::id().to_bytes() }
}

/// `spl_token::native_mint::id()`: the address that `declare_id!` in spl-token fixes for the
/// native mint, `So11111111111111111111111111111111111111112`, as bytes.
#[verifier::external_body]
pub(crate) fn native_mint_id() -> (k: Pubkey)
    ensures
        k@ == native_mint_bytes(),
{
    Pubkey { bytes: spl_token::native_mint::id().to_bytes() }
}

/// Whether the mint is the native mint (wrapped SOL).
pub fn is_native_mint(mint: &Pubkey) -> (r: bool)
    ensures
        r == (mint@ == native_mint_bytes()),
{
    let native = native_mint_id();
    mint.same_as(&native)
}

} // verus!
