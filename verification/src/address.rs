//! Derived addresses: the addresses that a program owns because they are
//! computed from seeds of its choice, and the seeds of every address that the
//! protocol derives.

use crate::error::ErrorCode;
use crate::programs;
use crate::pubkey::Pubkey;
use vstd::prelude::*;

verus! {

broadcast use vstd::array::group_array_axioms;

/// The error of `anchor_lang::solana_program::pubkey::Pubkey`'s derivations.
#[verifier::external_type_specification]
#[verifier::external_body]
pub struct ExPubkeyError(anchor_lang::solana_program::pubkey::PubkeyError);

/// The address that `Pubkey::create_program_address` derives for a program from
/// a list of seeds, or `None` where it derives none.
pub uninterp spec fn program_address(seeds: Seq<Seq<u8>>, program_id: Seq<u8>) -> Option<Seq<u8>>;

/// The seeds that a list of byte vectors holds.
pub open spec fn seeds_view(seeds: Seq<Vec<u8>>) -> Seq<Seq<u8>> {
    seeds.map_values(|seed: Vec<u8>| seed@)
}

/// A list of seeds followed by a one-byte disambiguating seed.
pub open spec fn with_bump(seeds: Seq<Seq<u8>>, bump: u8) -> Seq<Seq<u8>> {
    seeds.push(seq![bump])
}

/// Calls `Pubkey::create_program_address` of `anchor_lang::solana_program`.
/// Trusted: off chain the call hashes the seeds, the program id and a fixed
/// marker, and returns the hash unless it is a point of the curve or the seeds
/// are too many or too long. Its outcome is a function of the seeds and the
/// program id alone, which `program_address` names; an error stands for `None`.
#[verifier::external_body]
fn create_program_address(seeds: &Vec<Vec<u8>>, program_id: &Pubkey) -> (derived: Result<
    Pubkey,
    anchor_lang::solana_program::pubkey::PubkeyError,
>)
    ensures
        derived matches Ok(key) ==> program_address(seeds_view(seeds@), program_id@) == Some(key@),
        derived is Err ==> program_address(seeds_view(seeds@), program_id@) is None,
{
    let parts: Vec<&[u8]> = seeds.iter().map(|seed| seed.as_slice()).collect();
    let program = anchor_lang::solana_program::pubkey::Pubkey::new_from_array(program_id.bytes);
    match anchor_lang::solana_program::pubkey::Pubkey::create_program_address(&parts, &program) {
        Ok(key) => Ok(Pubkey { bytes: key.to_bytes() }),
        Err(error) => Err(error),
    }
}

/// The search for the canonical bump: the highest bump, from `bump` down to 1,
/// with which the seeds derive an address. Bump 0 is never tried.
pub open spec fn search_from(seeds: Seq<Seq<u8>>, program_id: Seq<u8>, bump: u8) -> Option<
    (Seq<u8>, u8),
>
    decreases bump,
{
    if bump == 0 {
        None
    } else {
        match program_address(with_bump(seeds, bump), program_id) {
            Some(address) => Some((address, bump)),
            None => search_from(seeds, program_id, (bump - 1) as u8),
        }
    }
}

/// The canonical address of a list of seeds under a program, with its bump.
pub open spec fn canonical_address(seeds: Seq<Seq<u8>>, program_id: Seq<u8>) -> Option<
    (Seq<u8>, u8),
> {
    search_from(seeds, program_id, 255)
}

/// What the search finds is what its bump derives, and no higher bump from
/// where the search began derives anything.
pub proof fn lemma_search_finds_the_highest_bump(seeds: Seq<Seq<u8>>, program_id: Seq<u8>, bump: u8)
    ensures
        search_from(seeds, program_id, bump) matches Some((address, found)) ==> 1 <= found <= bump
            && program_address(with_bump(seeds, found), program_id) == Some(address) && forall|
            higher: u8,
        |
            found < higher <= bump ==> program_address(
                #[trigger] with_bump(seeds, higher),
                program_id,
            ) is None,
        search_from(seeds, program_id, bump) is None ==> forall|tried: u8|
            1 <= tried <= bump ==> program_address(
                #[trigger] with_bump(seeds, tried),
                program_id,
            ) is None,
    decreases bump,
{
    if bump > 0 {
        lemma_search_finds_the_highest_bump(seeds, program_id, (bump - 1) as u8);
    }
}

/// Whether `candidate` is the address that the seeds and the bump derive.
pub open spec fn derives(candidate: Pubkey, seeds: Seq<Seq<u8>>, bump: u8, program_id: Seq<u8>) -> bool {
    program_address(with_bump(seeds, bump), program_id) == Some(candidate@)
}

/// Whether `candidate` is the canonical address of the seeds, whatever its bump.
pub open spec fn is_canonical(candidate: Pubkey, seeds: Seq<Seq<u8>>, program_id: Seq<u8>) -> bool {
    canonical_address(seeds, program_id) matches Some((address, _)) && address == candidate@
}

fn copy_seed(seed: &Vec<u8>) -> (copy: Vec<u8>)
    ensures
        copy@ == seed@,
{
    let mut copy: Vec<u8> = Vec::new();
    let mut i: usize = 0;
    while i < seed.len()
        invariant
            i <= seed.len(),
            copy@ == seed@.subrange(0, i as int),
        decreases seed.len() - i,
    {
        copy.push(seed[i]);
        i = i + 1;
        assert(copy@ =~= seed@.subrange(0, i as int));
    }
    assert(copy@ =~= seed@);
    copy
}

/// A copy of the seeds, followed by the bump as a seed of its own.
pub fn seeds_with_bump(seeds: &Vec<Vec<u8>>, bump: u8) -> (all: Vec<Vec<u8>>)
    ensures
        seeds_view(all@) == with_bump(seeds_view(seeds@), bump),
{
    let mut all: Vec<Vec<u8>> = Vec::new();
    let mut i: usize = 0;
    while i < seeds.len()
        invariant
            i <= seeds.len(),
            all.len() == i,
            forall|j: int| 0 <= j < i ==> all[j]@ == seeds[j]@,
        decreases seeds.len() - i,
    {
        all.push(copy_seed(&seeds[i]));
        i = i + 1;
    }
    let mut last: Vec<u8> = Vec::new();
    last.push(bump);
    assert(last@ =~= seq![bump]);
    all.push(last);
    assert(seeds_view(all@) =~= with_bump(seeds_view(seeds@), bump));
    all
}

/// Derives the address of the seeds and the bump under a program.
pub fn derive_address(seeds: &Vec<Vec<u8>>, bump: u8, program_id: &Pubkey) -> (address: Option<Pubkey>)
    ensures
        address matches Some(key) ==> derives(key, seeds_view(seeds@), bump, program_id@),
        address is None ==> program_address(
            with_bump(seeds_view(seeds@), bump),
            program_id@,
        ) is None,
{
    let all = seeds_with_bump(seeds, bump);
    match create_program_address(&all, program_id) {
        Ok(key) => Some(key),
        Err(_) => None,
    }
}

/// Finds the canonical address of the seeds under a program, and its bump.
pub fn find_program_address(seeds: &Vec<Vec<u8>>, program_id: &Pubkey) -> (found: Option<
    (Pubkey, u8),
>)
    ensures
        found matches Some((key, bump)) ==> canonical_address(seeds_view(seeds@), program_id@)
            == Some((key@, bump)),
        found is None ==> canonical_address(seeds_view(seeds@), program_id@) is None,
{
    let mut bump: u8 = 255;
    while bump > 0
        invariant
            canonical_address(seeds_view(seeds@), program_id@) == search_from(
                seeds_view(seeds@),
                program_id@,
                bump,
            ),
        decreases bump,
    {
        match derive_address(seeds, bump, program_id) {
            Some(key) => {
                return Some((key, bump));
            },
            None => {},
        }
        bump = bump - 1;
    }
    None
}

/// Re-derives the address of the seeds and the bump and compares it with the
/// candidate.
pub fn verify(candidate: &Pubkey, seeds: &Vec<Vec<u8>>, bump: u8, program_id: &Pubkey) -> (valid:
    bool)
    ensures
        valid == derives(*candidate, seeds_view(seeds@), bump, program_id@),
{
    match derive_address(seeds, bump, program_id) {
        Some(key) => {
            proof {
                Pubkey::lemma_view_injective(key, *candidate);
            }
            key == *candidate
        },
        None => false,
    }
}

/// Rejects a candidate that the seeds and the bump do not derive.
pub fn assert_derivation(
    candidate: &Pubkey,
    seeds: &Vec<Vec<u8>>,
    bump: u8,
    program_id: &Pubkey,
) -> (checked: Result<(), ErrorCode>)
    ensures
        derives(*candidate, seeds_view(seeds@), bump, program_id@) ==> checked == Ok::<
            (),
            ErrorCode,
        >(()),
        !derives(*candidate, seeds_view(seeds@), bump, program_id@) ==> checked == Err::<
            (),
            ErrorCode,
        >(ErrorCode::DerivedKeyInvalid),
{
    if verify(candidate, seeds, bump, program_id) {
        Ok(())
    } else {
        Err(ErrorCode::DerivedKeyInvalid)
    }
}

/// The namespace of every address that this program derives.
pub const PREFIX: [u8; 15] = [116, 111, 107, 101, 110, 95, 101, 110, 116, 97, 110, 103, 108, 101, 114];

/// The tag of the escrow addresses.
pub const ESCROW: [u8; 6] = [101, 115, 99, 114, 111, 119];

/// The tag of the first asset's side.
pub const A_NAME: [u8; 1] = [65];

/// The tag of the second asset's side.
pub const B_NAME: [u8; 1] = [66];

/// The namespace of the metadata program's addresses.
pub const METADATA_PREFIX: [u8; 8] = [109, 101, 116, 97, 100, 97, 116, 97];

/// The tag of an edition record's address.
pub const EDITION_SUFFIX: [u8; 7] = [101, 100, 105, 116, 105, 111, 110];

/// One of the two assets of a pair.
#[derive(Clone, Copy, Debug, PartialEq, Eq, Structural)]
pub enum Side {
    A,
    B,
}

impl Side {
    /// The other asset of the pair.
    pub open spec fn other(self) -> Side {
        match self {
            Side::A => Side::B,
            Side::B => Side::A,
        }
    }

    /// The tag of this side in an escrow address.
    pub open spec fn name(self) -> Seq<u8> {
        match self {
            Side::A => A_NAME@,
            Side::B => B_NAME@,
        }
    }

    /// The other asset of the pair.
    pub fn opposite(self) -> (side: Side)
        ensures
            side == self.other(),
    {
        match self {
            Side::A => Side::B,
            Side::B => Side::A,
        }
    }
}

/// The seeds of the record of a pair, without the bump.
pub open spec fn pair_seeds(mint_a: Pubkey, mint_b: Pubkey) -> Seq<Seq<u8>> {
    seq![PREFIX@, mint_a@, mint_b@]
}

/// The seeds of the escrow of one side of a pair, without the bump.
pub open spec fn escrow_seeds(mint_a: Pubkey, mint_b: Pubkey, side: Side) -> Seq<Seq<u8>> {
    seq![PREFIX@, mint_a@, mint_b@, ESCROW@, side.name()]
}

/// The seeds of the metadata record of an asset.
pub open spec fn metadata_seeds(mint: Pubkey) -> Seq<Seq<u8>> {
    seq![METADATA_PREFIX@, programs::token_metadata_program_bytes(), mint@]
}

/// The seeds of the edition record of an asset.
pub open spec fn edition_seeds(mint: Pubkey) -> Seq<Seq<u8>> {
    seq![METADATA_PREFIX@, programs::token_metadata_program_bytes(), mint@, EDITION_SUFFIX@]
}

/// The seeds of the associated token account of a wallet for an asset.
pub open spec fn associated_token_seeds(wallet: Pubkey, mint: Pubkey) -> Seq<Seq<u8>> {
    seq![wallet@, programs::token_program_bytes(), mint@]
}

/// Whether `candidate` is the address of the record of the pair, with its bump.
pub open spec fn is_pair_address(candidate: Pubkey, mint_a: Pubkey, mint_b: Pubkey, bump: u8) -> bool {
    derives(candidate, pair_seeds(mint_a, mint_b), bump, programs::ID@)
}

/// Whether `candidate` and `bump` are the canonical address of the record of
/// the pair and its bump: the one slot that the ordered pair has.
pub open spec fn is_pair_slot(candidate: Pubkey, mint_a: Pubkey, mint_b: Pubkey, bump: u8) -> bool {
    canonical_address(pair_seeds(mint_a, mint_b), programs::ID@) == Some((candidate@, bump))
}

/// Whether `candidate` is the address of the escrow of one side, with its bump.
pub open spec fn is_escrow_address(
    candidate: Pubkey,
    mint_a: Pubkey,
    mint_b: Pubkey,
    side: Side,
    bump: u8,
) -> bool {
    derives(candidate, escrow_seeds(mint_a, mint_b, side), bump, programs::ID@)
}

/// Whether `candidate` is the address of the metadata record of an asset.
pub open spec fn is_metadata_address(candidate: Pubkey, mint: Pubkey) -> bool {
    is_canonical(candidate, metadata_seeds(mint), programs::token_metadata_program_bytes())
}

/// Whether `candidate` is the address of the edition record of an asset.
pub open spec fn is_edition_address(candidate: Pubkey, mint: Pubkey) -> bool {
    is_canonical(candidate, edition_seeds(mint), programs::token_metadata_program_bytes())
}

/// Whether `candidate` is the associated token account of a wallet for an asset.
pub open spec fn is_associated_token_address(candidate: Pubkey, wallet: Pubkey, mint: Pubkey) -> bool {
    is_canonical(
        candidate,
        associated_token_seeds(wallet, mint),
        programs::associated_token_program_bytes(),
    )
}

fn tag<const N: usize>(bytes: &[u8; N]) -> (seed: Vec<u8>)
    ensures
        seed@ == bytes@,
{
    vstd::slice::slice_to_vec(bytes.as_slice())
}

/// The seeds of the record of a pair, without the bump.
pub fn pair_seed_list(mint_a: &Pubkey, mint_b: &Pubkey) -> (seeds: Vec<Vec<u8>>)
    ensures
        seeds_view(seeds@) == pair_seeds(*mint_a, *mint_b),
{
    let mut seeds: Vec<Vec<u8>> = Vec::new();
    seeds.push(tag(&PREFIX));
    seeds.push(mint_a.to_vec());
    seeds.push(mint_b.to_vec());
    assert(seeds_view(seeds@) =~= pair_seeds(*mint_a, *mint_b));
    seeds
}

/// The seeds of the escrow of one side of a pair, without the bump.
pub fn escrow_seed_list(mint_a: &Pubkey, mint_b: &Pubkey, side: Side) -> (seeds: Vec<Vec<u8>>)
    ensures
        seeds_view(seeds@) == escrow_seeds(*mint_a, *mint_b, side),
{
    let mut seeds: Vec<Vec<u8>> = Vec::new();
    seeds.push(tag(&PREFIX));
    seeds.push(mint_a.to_vec());
    seeds.push(mint_b.to_vec());
    seeds.push(tag(&ESCROW));
    match side {
        Side::A => seeds.push(tag(&A_NAME)),
        Side::B => seeds.push(tag(&B_NAME)),
    }
    assert(seeds_view(seeds@) =~= escrow_seeds(*mint_a, *mint_b, side));
    seeds
}

/// The seeds of the metadata record of an asset.
pub fn metadata_seed_list(mint: &Pubkey) -> (seeds: Vec<Vec<u8>>)
    ensures
        seeds_view(seeds@) == metadata_seeds(*mint),
{
    let mut seeds: Vec<Vec<u8>> = Vec::new();
    seeds.push(tag(&METADATA_PREFIX));
    seeds.push(programs::token_metadata_program_id().to_vec());
    seeds.push(mint.to_vec());
    assert(seeds_view(seeds@) =~= metadata_seeds(*mint));
    seeds
}

/// The seeds of the edition record of an asset.
pub fn edition_seed_list(mint: &Pubkey) -> (seeds: Vec<Vec<u8>>)
    ensures
        seeds_view(seeds@) == edition_seeds(*mint),
{
    let mut seeds: Vec<Vec<u8>> = Vec::new();
    seeds.push(tag(&METADATA_PREFIX));
    seeds.push(programs::token_metadata_program_id().to_vec());
    seeds.push(mint.to_vec());
    seeds.push(tag(&EDITION_SUFFIX));
    assert(seeds_view(seeds@) =~= edition_seeds(*mint));
    seeds
}

/// The seeds of the associated token account of a wallet for an asset.
pub fn associated_token_seed_list(wallet: &Pubkey, mint: &Pubkey) -> (seeds: Vec<Vec<u8>>)
    ensures
        seeds_view(seeds@) == associated_token_seeds(*wallet, *mint),
{
    let mut seeds: Vec<Vec<u8>> = Vec::new();
    seeds.push(wallet.to_vec());
    seeds.push(programs::token_program_id().to_vec());
    seeds.push(mint.to_vec());
    assert(seeds_view(seeds@) =~= associated_token_seeds(*wallet, *mint));
    seeds
}

/// Whether `candidate` is the canonical address of the seeds under a program.
pub fn verify_canonical(candidate: &Pubkey, seeds: &Vec<Vec<u8>>, program_id: &Pubkey) -> (valid:
    bool)
    ensures
        valid == is_canonical(*candidate, seeds_view(seeds@), program_id@),
{
    match find_program_address(seeds, program_id) {
        Some((key, _)) => {
            proof {
                Pubkey::lemma_view_injective(key, *candidate);
            }
            key == *candidate
        },
        None => false,
    }
}

/// Whether `candidate` is the address of the record of the pair, with its bump.
pub fn verify_pair_address(candidate: &Pubkey, mint_a: &Pubkey, mint_b: &Pubkey, bump: u8) -> (valid:
    bool)
    ensures
        valid == is_pair_address(*candidate, *mint_a, *mint_b, bump),
{
    let seeds = pair_seed_list(mint_a, mint_b);
    verify(candidate, &seeds, bump, &programs::id())
}

/// Whether `candidate` and `bump` are the one slot of the ordered pair.
pub fn verify_pair_slot(candidate: &Pubkey, mint_a: &Pubkey, mint_b: &Pubkey, bump: u8) -> (valid:
    bool)
    ensures
        valid == is_pair_slot(*candidate, *mint_a, *mint_b, bump),
{
    let seeds = pair_seed_list(mint_a, mint_b);
    match find_program_address(&seeds, &programs::id()) {
        Some((key, found)) => {
            proof {
                Pubkey::lemma_view_injective(key, *candidate);
            }
            key == *candidate && found == bump
        },
        None => false,
    }
}

/// Whether `candidate` is the address of the escrow of one side, with its bump.
pub fn verify_escrow_address(
    candidate: &Pubkey,
    mint_a: &Pubkey,
    mint_b: &Pubkey,
    side: Side,
    bump: u8,
) -> (valid: bool)
    ensures
        valid == is_escrow_address(*candidate, *mint_a, *mint_b, side, bump),
{
    let seeds = escrow_seed_list(mint_a, mint_b, side);
    verify(candidate, &seeds, bump, &programs::id())
}

/// Whether `candidate` is the address of the metadata record of an asset.
pub fn verify_metadata_address(candidate: &Pubkey, mint: &Pubkey) -> (valid: bool)
    ensures
        valid == is_metadata_address(*candidate, *mint),
{
    let seeds = metadata_seed_list(mint);
    verify_canonical(candidate, &seeds, &programs::token_metadata_program_id())
}

/// Whether `candidate` is the address of the edition record of an asset.
pub fn verify_edition_address(candidate: &Pubkey, mint: &Pubkey) -> (valid: bool)
    ensures
        valid == is_edition_address(*candidate, *mint),
{
    let seeds = edition_seed_list(mint);
    verify_canonical(candidate, &seeds, &programs::token_metadata_program_id())
}

/// Whether `candidate` is the associated token account of a wallet for an asset.
pub fn verify_associated_token_address(candidate: &Pubkey, wallet: &Pubkey, mint: &Pubkey) -> (valid:
    bool)
    ensures
        valid == is_associated_token_address(*candidate, *wallet, *mint),
{
    let seeds = associated_token_seed_list(wallet, mint);
    verify_canonical(candidate, &seeds, &programs::associated_token_program_id())
}

} // verus!
