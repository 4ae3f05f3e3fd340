//! The addresses of the programs that the protocol deals with.

use crate::pubkey::Pubkey;
use vstd::prelude::*;

verus! {

/// The address under which this program is deployed.
pub const ID: [u8; 32] = [
    12, 127, 197, 5, 175, 131, 253, 87, 181, 254, 61, 83, 120, 83, 161, 76, 8, 21, 106, 138, 85,
    102, 103, 121, 168, 95, 29, 8, 95, 116, 17, 196,
];

/// The bytes of the token program's address.
pub open spec fn token_program_bytes() -> Seq<u8> {
    seq![
        6u8, 221, 246, 225, 215, 101, 161, 147, 217, 203, 225, 70, 206, 235, 121, 172, 28, 180,
        133, 237, 95, 91, 55, 145, 58, 140, 245, 133, 126, 255, 0, 169,
    ]
}

/// The bytes of the address of the mint that stands for the native currency.
pub open spec fn native_mint_bytes() -> Seq<u8> {
    seq![
        6u8, 155, 136, 87, 254, 171, 129, 132, 251, 104, 127, 99, 70, 24, 192, 53, 218, 196, 57,
        220, 26, 235, 59, 85, 152, 160, 240, 0, 0, 0, 0, 1,
    ]
}

/// The bytes of the associated-token program's address.
pub open spec fn associated_token_program_bytes() -> Seq<u8> {
    seq![
        140u8, 151, 37, 143, 78, 36, 137, 241, 187, 61, 16, 41, 20, 142, 13, 131, 11, 90, 19, 153,
        218, 255, 16, 132, 4, 142, 123, 216, 219, 233, 248, 89,
    ]
}

/// The bytes of the token-metadata program's address.
pub open spec fn token_metadata_program_bytes() -> Seq<u8> {
    seq![
        11u8, 112, 101, 177, 227, 209, 124, 69, 56, 157, 82, 127, 107, 4, 195, 205, 88, 184, 108,
        115, 26, 160, 253, 181, 73, 182, 209, 188, 3, 248, 41, 70,
    ]
}

/// Calls `spl_token::id`. Trusted: the token program's address, which that crate
/// declares as `TokenkegQfeZyiNwAJbNbGKPFXCWuBvf9Ss623VQ5DA`, is the 32 bytes of
/// `token_program_bytes`.
#[verifier::external_body]
fn spl_token_id() -> (key: Pubkey)
    ensures
        key@ == token_program_bytes(),
{
    Pubkey { bytes: spl_token::id().to_bytes() }
}

/// Calls `spl_token::native_mint::id`. Trusted: the native mint's address, which
/// that crate declares as `So11111111111111111111111111111111111111112`, is the
/// 32 bytes of `native_mint_bytes`.
#[verifier::external_body]
fn spl_token_native_mint_id() -> (key: Pubkey)
    ensures
        key@ == native_mint_bytes(),
{
    Pubkey { bytes: spl_token::native_mint::id().to_bytes() }
}

/// Reads `anchor_spl::associated_token::ID`. Trusted: the associated-token
/// program's address, declared as `ATokenGPvbdGVxr1b2hvZbsiqW5xWH25efTNsLJA8knL`,
/// is the 32 bytes of `associated_token_program_bytes`.
#[verifier::external_body]
fn anchor_spl_associated_token_id() -> (key: Pubkey)
    ensures
        key@ == associated_token_program_bytes(),
{
    Pubkey { bytes: anchor_spl::associated_token::ID.to_bytes() }
}

/// Reads `anchor_spl::metadata::ID`. Trusted: the token-metadata program's
/// address, declared as `metaqbxxUerdq28cj1RbAWkYQm3ybzjb6a8bt518x1s`, is the 32
/// bytes of `token_metadata_program_bytes`.
#[verifier::external_body]
fn anchor_spl_metadata_id() -> (key: Pubkey)
    ensures
        key@ == token_metadata_program_bytes(),
{
    Pubkey { bytes: anchor_spl::metadata::ID.to_bytes() }
}

/// The address of this program.
pub fn id() -> (key: Pubkey)
    ensures
        key@ == ID@,
{
    Pubkey { bytes: ID }
}

/// The address of the token program.
pub fn token_program_id() -> (key: Pubkey)
    ensures
        key@ == token_program_bytes(),
{
    spl_token_id()
}

/// The address of the mint that stands for the native currency.
pub fn native_mint_id() -> (key: Pubkey)
    ensures
        key@ == native_mint_bytes(),
{
    spl_token_native_mint_id()
}

/// The address of the associated-token program.
pub fn associated_token_program_id() -> (key: Pubkey)
    ensures
        key@ == associated_token_program_bytes(),
{
    anchor_spl_associated_token_id()
}

/// The address of the token-metadata program.
pub fn token_metadata_program_id() -> (key: Pubkey)
    ensures
        key@ == token_metadata_program_bytes(),
{
    anchor_spl_metadata_id()
}

/// Whether payment in the given mint is payment in the native currency.
pub fn is_native(treasury_mint: &Pubkey) -> (native: bool)
    ensures
        native == (treasury_mint@ == native_mint_bytes()),
{
    let native_mint = native_mint_id();
    proof {
        Pubkey::lemma_view_injective(*treasury_mint, native_mint);
    }
    *treasury_mint == native_mint
}

} // verus!
