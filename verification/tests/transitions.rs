use token_entangler::address::{
    associated_token_seed_list, edition_seed_list, escrow_seed_list, find_program_address,
    metadata_seed_list, pair_seed_list, Side,
};
use token_entangler::create::{plan_create, CreateArgs};
use token_entangler::programs;
use token_entangler::swap::plan_swap;
use token_entangler::{
    create_entangled_pair, swap, update_entangled_pair, Account, AccountData, CreateEntangledPair,
    Creator, CustodyError, EntangledPair, ErrorCode, Invocation, Ledger, Metadata, Mint,
    ProgramSigner, Pubkey, Swap, TokenAccount, TransitionError, UpdateEntangledPair,
};

const RENT: u64 = 2_039_280;

fn key(fill: u8) -> Pubkey {
    Pubkey::new_from_array([fill; 32])
}

fn ata(wallet: &Pubkey, mint: &Pubkey) -> Pubkey {
    find_program_address(
        &associated_token_seed_list(wallet, mint),
        &programs::associated_token_program_id(),
    )
    .unwrap()
    .0
}

fn metadata_of(mint: &Pubkey) -> Pubkey {
    find_program_address(&metadata_seed_list(mint), &programs::token_metadata_program_id())
        .unwrap()
        .0
}

fn edition_of(mint: &Pubkey) -> Pubkey {
    find_program_address(&edition_seed_list(mint), &programs::token_metadata_program_id())
        .unwrap()
        .0
}

fn put(ledger: &mut Ledger, key: Pubkey, lamports: u64, data: AccountData) {
    ledger.set_account(key, Account { lamports, data });
}

fn token(mint: Pubkey, owner: Pubkey, amount: u64) -> AccountData {
    AccountData::Token(TokenAccount::new(mint, owner, amount))
}

fn metadata(creators: Vec<Creator>) -> AccountData {
    AccountData::Metadata(Metadata { creators })
}

/// A ledger on which the holder owns one unit of each of two unique assets,
/// with everything a creation reads, and the accounts and arguments of that
/// creation.
struct World {
    ledger: Ledger,
    holder: Pubkey,
    authority: Pubkey,
    creator: Pubkey,
    treasury_mint: Pubkey,
    accounts: CreateEntangledPair,
    args: CreateArgs,
    token_a: Pubkey,
}

fn world_with(treasury_mint: Pubkey, price: u64, pays_every_time: bool) -> World {
    let holder = key(1);
    let authority = key(2);
    let creator = key(3);
    let mint_a = key(10);
    let mint_b = key(11);
    let mut ledger = Ledger::new(RENT);
    put(&mut ledger, holder, 1_000_000_000, AccountData::Empty);
    put(&mut ledger, creator, 5, AccountData::Empty);
    put(&mut ledger, mint_a, 1, AccountData::Mint(Mint { supply: 1, decimals: 0 }));
    put(&mut ledger, mint_b, 1, AccountData::Mint(Mint { supply: 1, decimals: 0 }));
    put(&mut ledger, treasury_mint, 1, AccountData::Mint(Mint { supply: 1_000_000_000_000, decimals: 9 }));
    let creators = vec![Creator { address: creator, share: 100 }];
    put(&mut ledger, metadata_of(&mint_a), 1, metadata(creators.clone()));
    put(&mut ledger, metadata_of(&mint_b), 1, metadata(creators));
    let token_a = ata(&holder, &mint_a);
    let token_b = ata(&holder, &mint_b);
    put(&mut ledger, token_a, RENT, token(mint_a, holder, 1));
    put(&mut ledger, token_b, RENT, token(mint_b, holder, 1));
    let (entangled_pair, bump) =
        find_program_address(&pair_seed_list(&mint_a, &mint_b), &programs::id()).unwrap();
    let (reverse_entangled_pair, reverse_bump) =
        find_program_address(&pair_seed_list(&mint_b, &mint_a), &programs::id()).unwrap();
    let (token_a_escrow, token_a_escrow_bump) =
        find_program_address(&escrow_seed_list(&mint_a, &mint_b, Side::A), &programs::id())
            .unwrap();
    let (token_b_escrow, token_b_escrow_bump) =
        find_program_address(&escrow_seed_list(&mint_a, &mint_b, Side::B), &programs::id())
            .unwrap();
    let accounts = CreateEntangledPair {
        treasury_mint,
        payer: holder,
        transfer_authority: holder,
        authority,
        mint_a,
        metadata_a: metadata_of(&mint_a),
        edition_a: edition_of(&mint_a),
        mint_b,
        metadata_b: metadata_of(&mint_b),
        edition_b: edition_of(&mint_b),
        token_b,
        token_a_escrow,
        token_b_escrow,
        entangled_pair,
        reverse_entangled_pair,
    };
    let args = CreateArgs {
        bump,
        reverse_bump,
        token_a_escrow_bump,
        token_b_escrow_bump,
        price,
        pays_every_time,
    };
    World { ledger, holder, authority, creator, treasury_mint, accounts, args, token_a }
}

fn world(price: u64, pays_every_time: bool) -> World {
    world_with(programs::native_mint_id(), price, pays_every_time)
}

fn create(world: &mut World) -> Result<Vec<Invocation>, TransitionError> {
    create_with(&mut world.ledger, &world.accounts, &world.args)
}

fn create_with(
    ledger: &mut Ledger,
    accounts: &CreateEntangledPair,
    args: &CreateArgs,
) -> Result<Vec<Invocation>, TransitionError> {
    create_entangled_pair(
        ledger,
        accounts,
        &everybody(),
        args.bump,
        args.reverse_bump,
        args.token_a_escrow_bump,
        args.token_b_escrow_bump,
        args.price,
        args.pays_every_time,
    )
}

/// The accounts of the swap in which the holder presents one side.
fn swap_accounts(world: &World, presented: Side) -> Swap {
    let a = &world.accounts;
    let (token_mint, replacement_token_mint) = match presented {
        Side::A => (a.mint_a, a.mint_b),
        Side::B => (a.mint_b, a.mint_a),
    };
    Swap {
        treasury_mint: world.treasury_mint,
        payer: world.holder,
        payment_account: world.holder,
        payment_transfer_authority: world.holder,
        token: ata(&world.holder, &token_mint),
        token_mint,
        replacement_token_metadata: metadata_of(&replacement_token_mint),
        replacement_token_mint,
        replacement_token: ata(&world.holder, &replacement_token_mint),
        transfer_authority: world.holder,
        token_a_escrow: a.token_a_escrow,
        token_b_escrow: a.token_b_escrow,
        entangled_pair: a.entangled_pair,
    }
}

fn swap_as_holder(
    presented: Side,
    remaining: Vec<Pubkey>,
    world: &mut World,
) -> Result<Vec<Invocation>, TransitionError> {
    let accounts = swap_accounts(world, presented);
    swap(&mut world.ledger, &accounts, &remaining, &everybody())
}

/// Every address of the tests as a signer.
fn everybody() -> Vec<Pubkey> {
    (0..=255u8).map(key).collect()
}

fn program(code: ErrorCode) -> TransitionError {
    TransitionError::Program(code)
}

fn snapshot(ledger: &Ledger, keys: &[Pubkey]) -> Vec<Option<Account>> {
    keys.iter().map(|k| ledger.account(k).cloned()).collect()
}

fn all_keys(world: &World) -> Vec<Pubkey> {
    let a = &world.accounts;
    vec![
        world.holder,
        world.authority,
        world.creator,
        world.treasury_mint,
        a.mint_a,
        a.mint_b,
        a.metadata_a,
        a.metadata_b,
        a.edition_a,
        a.edition_b,
        a.token_b,
        world.token_a,
        a.token_a_escrow,
        a.token_b_escrow,
        a.entangled_pair,
        a.reverse_entangled_pair,
    ]
}

#[test]
fn creation_escrows_the_second_asset_only() {
    let mut w = world(1_000_000, false);
    let plan = create(&mut w).unwrap();
    let a = w.accounts;
    assert_eq!(w.ledger.token_amount(&a.token_b_escrow), 1);
    assert_eq!(w.ledger.token_amount(&a.token_a_escrow), 0);
    assert_eq!(w.ledger.token_amount(&a.token_b), 0);
    assert_eq!(w.ledger.token_amount(&w.token_a), 1);
    assert_eq!(
        w.ledger.token(&a.token_b_escrow),
        Ok(TokenAccount::new(a.mint_b, a.entangled_pair, 1))
    );
    assert_eq!(
        w.ledger.token(&a.token_a_escrow),
        Ok(TokenAccount::new(a.mint_a, a.entangled_pair, 0))
    );
    assert_eq!(
        plan,
        vec![
            Invocation::CreateTokenAccount {
                account: a.token_a_escrow,
                mint: a.mint_a,
                owner: a.entangled_pair,
                payer: w.holder,
                signer: ProgramSigner::Escrow {
                    mint_a: a.mint_a,
                    mint_b: a.mint_b,
                    side: Side::A,
                    bump: w.args.token_a_escrow_bump,
                },
            },
            Invocation::CreateTokenAccount {
                account: a.token_b_escrow,
                mint: a.mint_b,
                owner: a.entangled_pair,
                payer: w.holder,
                signer: ProgramSigner::Escrow {
                    mint_a: a.mint_a,
                    mint_b: a.mint_b,
                    side: Side::B,
                    bump: w.args.token_b_escrow_bump,
                },
            },
            Invocation::TokenTransfer {
                source: a.token_b,
                destination: a.token_b_escrow,
                authority: w.holder,
                amount: 1,
                signer: ProgramSigner::Unsigned,
            },
        ]
    );
}

#[test]
fn creation_writes_the_record_unpaid() {
    let mut w = world(1_000_000, false);
    create(&mut w).unwrap();
    let a = w.accounts;
    assert_eq!(
        w.ledger.pair(&a.entangled_pair),
        Ok(EntangledPair {
            treasury_mint: programs::native_mint_id(),
            mint_a: a.mint_a,
            mint_b: a.mint_b,
            token_a_escrow: a.token_a_escrow,
            token_b_escrow: a.token_b_escrow,
            authority: w.authority,
            bump: w.args.bump,
            token_a_escrow_bump: w.args.token_a_escrow_bump,
            token_b_escrow_bump: w.args.token_b_escrow_bump,
            price: 1_000_000,
            paid: false,
            pays_every_time: false,
        })
    );
    assert!(w.ledger.data_is_empty(&a.reverse_entangled_pair));
}

#[test]
fn creation_debits_the_payer_for_both_escrows() {
    let mut w = world(0, false);
    create(&mut w).unwrap();
    assert_eq!(w.ledger.lamports(&w.holder), 1_000_000_000 - 2 * RENT);
    assert_eq!(w.ledger.lamports(&w.accounts.token_a_escrow), RENT);
    assert_eq!(w.ledger.lamports(&w.accounts.token_b_escrow), RENT);
}

#[test]
fn creation_plan_is_what_creation_does() {
    let mut w = world(7, true);
    let planned = plan_create(&w.ledger, &w.accounts, &everybody(), &w.args).unwrap();
    let done = create(&mut w).unwrap();
    assert_eq!(planned, done);
}

#[test]
fn second_creation_is_refused_in_either_order() {
    let mut w = world(1_000_000, false);
    create(&mut w).unwrap();
    let keys = all_keys(&w);
    let before = snapshot(&w.ledger, &keys);
    assert_eq!(create(&mut w), Err(program(ErrorCode::EntangledPairExists)));

    let a = w.accounts;
    let (escrow_a, bump_a) =
        find_program_address(&escrow_seed_list(&a.mint_b, &a.mint_a, Side::A), &programs::id())
            .unwrap();
    let (escrow_b, bump_b) =
        find_program_address(&escrow_seed_list(&a.mint_b, &a.mint_a, Side::B), &programs::id())
            .unwrap();
    let reversed = CreateEntangledPair {
        mint_a: a.mint_b,
        metadata_a: a.metadata_b,
        edition_a: a.edition_b,
        mint_b: a.mint_a,
        metadata_b: a.metadata_a,
        edition_b: a.edition_a,
        token_b: w.token_a,
        token_a_escrow: escrow_a,
        token_b_escrow: escrow_b,
        entangled_pair: a.reverse_entangled_pair,
        reverse_entangled_pair: a.entangled_pair,
        ..a
    };
    let reversed_args = CreateArgs {
        bump: w.args.reverse_bump,
        reverse_bump: w.args.bump,
        token_a_escrow_bump: bump_a,
        token_b_escrow_bump: bump_b,
        ..w.args
    };
    assert_eq!(
        create_with(&mut w.ledger, &reversed, &reversed_args),
        Err(program(ErrorCode::EntangledPairExists))
    );
    assert_eq!(snapshot(&w.ledger, &keys), before);
}

#[test]
fn reversed_creation_succeeds_where_no_pair_exists() {
    let mut w = world(1_000_000, false);
    let a = w.accounts;
    let (escrow_a, bump_a) =
        find_program_address(&escrow_seed_list(&a.mint_b, &a.mint_a, Side::A), &programs::id())
            .unwrap();
    let (escrow_b, bump_b) =
        find_program_address(&escrow_seed_list(&a.mint_b, &a.mint_a, Side::B), &programs::id())
            .unwrap();
    let reversed = CreateEntangledPair {
        mint_a: a.mint_b,
        metadata_a: a.metadata_b,
        edition_a: a.edition_b,
        mint_b: a.mint_a,
        metadata_b: a.metadata_a,
        edition_b: a.edition_a,
        token_b: w.token_a,
        token_a_escrow: escrow_a,
        token_b_escrow: escrow_b,
        entangled_pair: a.reverse_entangled_pair,
        reverse_entangled_pair: a.entangled_pair,
        ..a
    };
    let reversed_args = CreateArgs {
        bump: w.args.reverse_bump,
        reverse_bump: w.args.bump,
        token_a_escrow_bump: bump_a,
        token_b_escrow_bump: bump_b,
        ..w.args
    };
    create_with(&mut w.ledger, &reversed, &reversed_args).unwrap();
    assert_eq!(w.ledger.token_amount(&escrow_b), 1);
    assert_eq!(create(&mut w), Err(program(ErrorCode::EntangledPairExists)));
}

#[test]
fn an_asset_cannot_be_paired_with_itself() {
    let mut w = world(1, false);
    let a = w.accounts;
    let (slot, bump) =
        find_program_address(&pair_seed_list(&a.mint_a, &a.mint_a), &programs::id()).unwrap();
    let accounts = CreateEntangledPair {
        mint_b: a.mint_a,
        entangled_pair: slot,
        reverse_entangled_pair: slot,
        ..a
    };
    let args = CreateArgs { bump, reverse_bump: bump, ..w.args };
    assert_eq!(
        create_with(&mut w.ledger, &accounts, &args),
        Err(program(ErrorCode::EntangledPairExists))
    );
}

#[test]
fn creation_rejects_addresses_that_are_not_derived() {
    let w = world(1, false);
    let a = w.accounts;
    let cases: Vec<(CreateEntangledPair, CreateArgs)> = vec![
        (CreateEntangledPair { entangled_pair: key(90), ..a }, w.args),
        (CreateEntangledPair { reverse_entangled_pair: key(90), ..a }, w.args),
        (CreateEntangledPair { token_a_escrow: key(90), ..a }, w.args),
        (CreateEntangledPair { token_b_escrow: a.token_a_escrow, ..a }, w.args),
        (a, CreateArgs { bump: w.args.bump.wrapping_sub(1), ..w.args }),
        (a, CreateArgs { reverse_bump: w.args.reverse_bump.wrapping_sub(1), ..w.args }),
        (a, CreateArgs { token_a_escrow_bump: w.args.token_a_escrow_bump.wrapping_sub(1), ..w.args }),
        (a, CreateArgs { token_b_escrow_bump: w.args.token_b_escrow_bump.wrapping_sub(1), ..w.args }),
    ];
    for (accounts, args) in cases {
        let mut w = world(1, false);
        assert_eq!(
            create_with(&mut w.ledger, &accounts, &args),
            Err(program(ErrorCode::DerivedKeyInvalid))
        );
    }
}

#[test]
fn creation_accepts_both_conventions_of_a_unique_asset() {
    let mut w = world(1, false);
    let a = w.accounts;
    put(&mut w.ledger, a.mint_a, 1, AccountData::Mint(Mint { supply: 1_000_000, decimals: 6 }));
    put(&mut w.ledger, a.mint_b, 1, AccountData::Mint(Mint { supply: 100, decimals: 2 }));
    put(&mut w.ledger, a.token_b, RENT, token(a.mint_b, w.holder, 100));
    create(&mut w).unwrap();
    assert_eq!(w.ledger.token_amount(&a.token_b_escrow), 100);
    assert_eq!(w.ledger.token_amount(&a.token_b), 0);
}

#[test]
fn creation_rejects_assets_that_are_not_unique() {
    for (supply, decimals) in [(2u64, 0u8), (0, 0), (10, 2), (1000, 2), (99, 2)] {
        let mut w = world(1, false);
        let mint = w.accounts.mint_a;
        put(&mut w.ledger, mint, 1, AccountData::Mint(Mint { supply, decimals }));
        assert_eq!(create(&mut w), Err(program(ErrorCode::MustHaveSupplyOne)));
        let mut w = world(1, false);
        let mint = w.accounts.mint_b;
        put(&mut w.ledger, mint, 1, AccountData::Mint(Mint { supply, decimals }));
        assert_eq!(create(&mut w), Err(program(ErrorCode::MustHaveSupplyOne)));
    }
}

#[test]
fn creation_rejects_accounts_that_are_not_mints() {
    let mut w = world(1, false);
    let mint = w.accounts.mint_a;
    put(&mut w.ledger, mint, 1, AccountData::Empty);
    assert_eq!(create(&mut w), Err(program(ErrorCode::UninitializedAccount)));
    let mut w = world(1, false);
    let mint = w.accounts.mint_b;
    put(&mut w.ledger, mint, 1, AccountData::Edition);
    assert_eq!(create(&mut w), Err(program(ErrorCode::IncorrectOwner)));
    let mut w = world_with(key(200), 1, false);
    put(&mut w.ledger, key(200), 1, AccountData::Empty);
    assert_eq!(create(&mut w), Err(program(ErrorCode::UninitializedAccount)));
}

#[test]
fn creation_rejects_metadata_that_is_not_the_assets() {
    let mut w = world(1, false);
    w.accounts.metadata_a = w.accounts.metadata_b;
    assert_eq!(create(&mut w), Err(program(ErrorCode::MetadataDoesntExist)));

    let mut w = world(1, false);
    w.accounts.metadata_b = key(91);
    put(&mut w.ledger, key(91), 1, metadata(Vec::new()));
    assert_eq!(create(&mut w), Err(program(ErrorCode::MetadataDoesntExist)));

    let mut w = world(1, false);
    let at = w.accounts.metadata_a;
    put(&mut w.ledger, at, 1, AccountData::Empty);
    assert_eq!(create(&mut w), Err(program(ErrorCode::MetadataDoesntExist)));
}

#[test]
fn creation_checks_an_edition_only_where_one_is_supplied() {
    // An edition account without data is not supplied, wherever it lies.
    let mut w = world(1, false);
    w.accounts.edition_a = key(92);
    w.accounts.edition_b = key(93);
    create(&mut w).unwrap();

    // One with data must be the asset's edition record.
    let mut w = world(1, false);
    let at = w.accounts.edition_a;
    put(&mut w.ledger, at, 1, AccountData::Edition);
    let at = w.accounts.edition_b;
    put(&mut w.ledger, at, 1, AccountData::Edition);
    create(&mut w).unwrap();

    let mut w = world(1, false);
    w.accounts.edition_a = key(92);
    put(&mut w.ledger, key(92), 1, AccountData::Edition);
    assert_eq!(create(&mut w), Err(program(ErrorCode::EditionDoesntExist)));

    let mut w = world(1, false);
    w.accounts.edition_b = w.accounts.edition_a;
    let at = w.accounts.edition_a;
    put(&mut w.ledger, at, 1, AccountData::Edition);
    assert_eq!(create(&mut w), Err(program(ErrorCode::EditionDoesntExist)));

    let mut w = world(1, false);
    let at = w.accounts.edition_b;
    put(&mut w.ledger, at, 1, AccountData::Mint(Mint { supply: 1, decimals: 0 }));
    assert_eq!(create(&mut w), Err(program(ErrorCode::EditionDoesntExist)));
}

#[test]
fn creation_takes_the_second_asset_from_the_payers_associated_account() {
    let mut w = world(1, false);
    let at = w.accounts.token_b;
    put(&mut w.ledger, at, RENT, AccountData::Empty);
    assert_eq!(create(&mut w), Err(program(ErrorCode::UninitializedAccount)));

    let mut w = world(1, false);
    let at = w.accounts.token_b;
    put(&mut w.ledger, at, RENT, AccountData::Edition);
    assert_eq!(create(&mut w), Err(program(ErrorCode::IncorrectOwner)));

    let mut w = world(1, false);
    let (at, mint) = (w.accounts.token_b, w.accounts.mint_b);
    put(&mut w.ledger, at, RENT, token(mint, key(50), 1));
    assert_eq!(create(&mut w), Err(program(ErrorCode::PublicKeyMismatch)));

    let mut w = world(1, false);
    w.accounts.token_b = key(94);
    let mint = w.accounts.mint_b;
    put(&mut w.ledger, key(94), RENT, token(mint, w.holder, 1));
    assert_eq!(create(&mut w), Err(program(ErrorCode::PublicKeyMismatch)));
}

#[test]
fn creation_hands_on_what_the_custody_layer_refuses() {
    let mut w = world(1, false);
    put(&mut w.ledger, w.holder, 2 * RENT - 1, AccountData::Empty);
    let keys = all_keys(&w);
    let before = snapshot(&w.ledger, &keys);
    assert_eq!(
        create(&mut w),
        Err(TransitionError::Custody(CustodyError::InsufficientLamports))
    );
    assert_eq!(snapshot(&w.ledger, &keys), before);

    let mut w = world(1, false);
    let (at, mint) = (w.accounts.token_b, w.accounts.mint_b);
    put(&mut w.ledger, at, RENT, token(mint, w.holder, 0));
    let before = snapshot(&w.ledger, &keys);
    assert_eq!(create(&mut w), Err(TransitionError::Custody(CustodyError::InsufficientFunds)));
    assert_eq!(snapshot(&w.ledger, &keys), before);

    let mut w = world(1, false);
    w.accounts.transfer_authority = key(51);
    assert_eq!(create(&mut w), Err(TransitionError::Custody(CustodyError::OwnerMismatch)));
    assert_eq!(snapshot(&w.ledger, &keys), before_of(&world(1, false), &keys));
}

fn before_of(world: &World, keys: &[Pubkey]) -> Vec<Option<Account>> {
    snapshot(&world.ledger, keys)
}

#[test]
fn creation_keeps_an_escrow_that_is_there() {
    let mut w = world(1, false);
    let a = w.accounts;
    put(&mut w.ledger, a.token_a_escrow, RENT, token(a.mint_a, a.entangled_pair, 0));
    let plan = create(&mut w).unwrap();
    assert_eq!(plan.len(), 2);
    assert_eq!(w.ledger.lamports(&w.holder), 1_000_000_000 - RENT);
    assert_eq!(w.ledger.token_amount(&a.token_b_escrow), 1);
}

#[test]
fn update_replaces_the_terms() {
    let mut w = world(1_000_000, false);
    create(&mut w).unwrap();
    let before = w.ledger.pair(&w.accounts.entangled_pair).unwrap();
    let accounts = UpdateEntangledPair {
        authority: w.authority,
        new_authority: key(60),
        entangled_pair: w.accounts.entangled_pair,
    };
    assert_eq!(update_entangled_pair(&mut w.ledger, &accounts, &everybody(), 5, true), Ok(()));
    assert_eq!(
        w.ledger.pair(&w.accounts.entangled_pair),
        Ok(EntangledPair { authority: key(60), price: 5, pays_every_time: true, ..before })
    );
    assert_eq!(w.ledger.token_amount(&w.accounts.token_b_escrow), 1);
    assert_eq!(w.ledger.token_amount(&w.token_a), 1);
    // The old authority has no word any more.
    assert_eq!(
        update_entangled_pair(&mut w.ledger, &accounts, &everybody(), 6, false),
        Err(TransitionError::HasOneConstraintViolation)
    );
    let accounts = UpdateEntangledPair { authority: key(60), new_authority: key(61), ..accounts };
    assert_eq!(update_entangled_pair(&mut w.ledger, &accounts, &everybody(), 6, false), Ok(()));
    assert_eq!(w.ledger.pair(&w.accounts.entangled_pair).unwrap().price, 6);
}

#[test]
fn update_is_refused_to_others_than_the_authority() {
    let mut w = world(1_000_000, false);
    create(&mut w).unwrap();
    let keys = all_keys(&w);
    let before = snapshot(&w.ledger, &keys);
    let accounts = UpdateEntangledPair {
        authority: w.holder,
        new_authority: w.holder,
        entangled_pair: w.accounts.entangled_pair,
    };
    assert_eq!(
        update_entangled_pair(&mut w.ledger, &accounts, &everybody(), 0, false),
        Err(TransitionError::HasOneConstraintViolation)
    );
    assert_eq!(snapshot(&w.ledger, &keys), before);
}

#[test]
fn update_needs_a_record_at_its_own_address() {
    let mut w = world(1_000_000, false);
    let accounts = UpdateEntangledPair {
        authority: w.authority,
        new_authority: key(60),
        entangled_pair: w.accounts.entangled_pair,
    };
    assert_eq!(
        update_entangled_pair(&mut w.ledger, &accounts, &everybody(), 5, true),
        Err(program(ErrorCode::UninitializedAccount))
    );
    let elsewhere = UpdateEntangledPair { entangled_pair: w.accounts.mint_a, ..accounts };
    assert_eq!(
        update_entangled_pair(&mut w.ledger, &elsewhere, &everybody(), 5, true),
        Err(program(ErrorCode::IncorrectOwner))
    );
    create(&mut w).unwrap();
    let record = w.ledger.pair(&w.accounts.entangled_pair).unwrap();
    put(&mut w.ledger, key(95), 1, AccountData::Pair(record));
    let moved = UpdateEntangledPair { entangled_pair: key(95), ..accounts };
    assert_eq!(
        update_entangled_pair(&mut w.ledger, &moved, &everybody(), 5, true),
        Err(program(ErrorCode::DerivedKeyInvalid))
    );
}

#[test]
fn swap_exchanges_the_circulating_asset_for_the_captive_one() {
    let mut w = world(0, false);
    create(&mut w).unwrap();
    let accounts = swap_accounts(&w, Side::A);
    let a = w.accounts;
    let plan = swap(&mut w.ledger, &accounts, &vec![w.creator], &everybody()).unwrap();
    assert_eq!(w.ledger.token_amount(&a.token_a_escrow), 1);
    assert_eq!(w.ledger.token_amount(&a.token_b_escrow), 0);
    assert_eq!(w.ledger.token_amount(&w.token_a), 0);
    assert_eq!(w.ledger.token_amount(&a.token_b), 1);
    assert_eq!(
        plan[..2],
        [
            Invocation::TokenTransfer {
                source: w.token_a,
                destination: a.token_a_escrow,
                authority: w.holder,
                amount: 1,
                signer: ProgramSigner::Unsigned,
            },
            Invocation::TokenTransfer {
                source: a.token_b_escrow,
                destination: a.token_b,
                authority: a.entangled_pair,
                amount: 1,
                signer: ProgramSigner::Pair {
                    mint_a: a.mint_a,
                    mint_b: a.mint_b,
                    bump: w.args.bump,
                },
            },
        ]
    );
    // The mints are as they were.
    assert_eq!(w.ledger.mint(&a.mint_a), Ok(Mint { supply: 1, decimals: 0 }));
    assert_eq!(w.ledger.mint(&a.mint_b), Ok(Mint { supply: 1, decimals: 0 }));
}

#[test]
fn swap_creates_the_destination_where_it_is_missing() {
    let mut w = world(0, false);
    create(&mut w).unwrap();
    let newcomer = key(70);
    let a = w.accounts;
    put(&mut w.ledger, newcomer, 10 * RENT, AccountData::Empty);
    put(&mut w.ledger, ata(&newcomer, &a.mint_a), RENT, token(a.mint_a, newcomer, 1));
    put(&mut w.ledger, w.token_a, RENT, token(a.mint_a, w.holder, 0));
    let accounts = Swap {
        payer: newcomer,
        payment_account: newcomer,
        payment_transfer_authority: newcomer,
        token: ata(&newcomer, &a.mint_a),
        replacement_token: ata(&newcomer, &a.mint_b),
        transfer_authority: newcomer,
        ..swap_accounts(&w, Side::A)
    };
    let plan = swap(&mut w.ledger, &accounts, &vec![w.creator], &everybody()).unwrap();
    assert_eq!(
        plan[0],
        Invocation::CreateTokenAccount {
            account: ata(&newcomer, &a.mint_b),
            mint: a.mint_b,
            owner: newcomer,
            payer: newcomer,
            signer: ProgramSigner::Unsigned,
        }
    );
    assert_eq!(
        w.ledger.token(&ata(&newcomer, &a.mint_b)),
        Ok(TokenAccount::new(a.mint_b, newcomer, 1))
    );
    assert_eq!(w.ledger.lamports(&newcomer), 9 * RENT);
    assert_eq!(w.ledger.token_amount(&a.token_a_escrow), 1);
    assert_eq!(w.ledger.token_amount(&a.token_b_escrow), 0);
}

#[test]
fn the_price_is_charged_once_where_it_is_not_asked_every_time() {
    let mut w = world(1_000_000, false);
    create(&mut w).unwrap();
    let funds = w.ledger.lamports(&w.holder);
    let pair = w.accounts.entangled_pair;

    let first = swap_as_holder(Side::A, vec![w.creator], &mut w).unwrap();
    assert_eq!(first.len(), 3);
    assert_eq!(
        first[2],
        Invocation::NativeTransfer { from: w.holder, to: w.creator, amount: 1_000_000 }
    );
    assert_eq!(w.ledger.lamports(&w.holder), funds - 1_000_000);
    assert_eq!(w.ledger.lamports(&w.creator), 5 + 1_000_000);
    assert!(w.ledger.pair(&pair).unwrap().paid);

    let second = swap_as_holder(Side::B, vec![w.creator], &mut w).unwrap();
    assert_eq!(second.len(), 2);
    assert_eq!(w.ledger.lamports(&w.holder), funds - 1_000_000);
    assert_eq!(w.ledger.lamports(&w.creator), 5 + 1_000_000);
    assert!(w.ledger.pair(&pair).unwrap().paid);
    assert_eq!(w.ledger.token_amount(&w.accounts.token_b_escrow), 1);
    assert_eq!(w.ledger.token_amount(&w.accounts.token_a_escrow), 0);
    assert_eq!(w.ledger.token_amount(&w.token_a), 1);

    let third = swap_as_holder(Side::A, Vec::new(), &mut w).unwrap();
    assert_eq!(third.len(), 2);
    assert_eq!(w.ledger.lamports(&w.creator), 5 + 1_000_000);
}

#[test]
fn the_price_is_charged_every_time_where_it_is_asked() {
    let mut w = world(1_000_000, true);
    create(&mut w).unwrap();
    let funds = w.ledger.lamports(&w.holder);
    swap_as_holder(Side::A, vec![w.creator], &mut w).unwrap();
    assert!(w.ledger.pair(&w.accounts.entangled_pair).unwrap().paid);
    let plan = swap_as_holder(Side::B, vec![w.creator], &mut w).unwrap();
    assert_eq!(plan.len(), 3);
    swap_as_holder(Side::A, vec![w.creator], &mut w).unwrap();
    assert_eq!(w.ledger.lamports(&w.holder), funds - 3_000_000);
    assert_eq!(w.ledger.lamports(&w.creator), 5 + 3_000_000);
    assert!(w.ledger.pair(&w.accounts.entangled_pair).unwrap().paid);
}

#[test]
fn an_update_can_ask_for_the_price_again() {
    let mut w = world(1_000_000, false);
    create(&mut w).unwrap();
    swap_as_holder(Side::A, vec![w.creator], &mut w).unwrap();
    let update = UpdateEntangledPair {
        authority: w.authority,
        new_authority: w.authority,
        entangled_pair: w.accounts.entangled_pair,
    };
    update_entangled_pair(&mut w.ledger, &update, &everybody(), 40, true).unwrap();
    assert!(w.ledger.pair(&w.accounts.entangled_pair).unwrap().paid);
    let plan = swap_as_holder(Side::B, vec![w.creator], &mut w).unwrap();
    assert_eq!(
        plan[2],
        Invocation::NativeTransfer { from: w.holder, to: w.creator, amount: 40 }
    );
}

#[test]
fn the_price_is_split_by_the_creators_shares() {
    let mut w = world(1_000_001, false);
    let second = key(4);
    let creators = vec![
        Creator { address: w.creator, share: 60 },
        Creator { address: second, share: 40 },
    ];
    let at = w.accounts.metadata_b;
    put(&mut w.ledger, at, 1, metadata(creators));
    create(&mut w).unwrap();
    let funds = w.ledger.lamports(&w.holder);
    let plan =
        swap_as_holder(Side::A, vec![w.creator, second], &mut w).unwrap();
    assert_eq!(
        plan[2..],
        [
            Invocation::NativeTransfer { from: w.holder, to: w.creator, amount: 600_000 },
            Invocation::NativeTransfer { from: w.holder, to: second, amount: 400_000 },
        ]
    );
    assert_eq!(w.ledger.lamports(&w.creator), 5 + 600_000);
    assert_eq!(w.ledger.lamports(&second), 400_000);
    assert_eq!(w.ledger.lamports(&w.holder), funds - 1_000_000);
}

#[test]
fn the_price_is_paid_in_tokens_where_the_treasury_is_a_token() {
    let currency = key(20);
    let mut w = world_with(currency, 1_000, false);
    let purse = ata(&w.holder, &currency);
    let till = ata(&w.creator, &currency);
    put(&mut w.ledger, purse, RENT, token(currency, w.holder, 5_000));
    put(&mut w.ledger, till, RENT, token(currency, w.creator, 7));
    create(&mut w).unwrap();
    let accounts = Swap { payment_account: purse, ..swap_accounts(&w, Side::A) };
    // The creator's own address is not where a token is paid.
    assert_eq!(
        swap(&mut w.ledger, &accounts, &vec![w.creator], &everybody()),
        Err(program(ErrorCode::PublicKeyMismatch))
    );
    let funds = w.ledger.lamports(&w.holder);
    let plan = swap(&mut w.ledger, &accounts, &vec![till], &everybody()).unwrap();
    assert_eq!(
        plan[2],
        Invocation::TokenTransfer {
            source: purse,
            destination: till,
            authority: w.holder,
            amount: 1_000,
            signer: ProgramSigner::Unsigned,
        }
    );
    assert_eq!(w.ledger.token_amount(&purse), 4_000);
    assert_eq!(w.ledger.token_amount(&till), 1_007);
    assert_eq!(w.ledger.lamports(&w.holder), funds);
}

#[test]
fn a_swap_that_cannot_pay_changes_nothing() {
    let mut w = world(1_000_000, false);
    create(&mut w).unwrap();
    put(&mut w.ledger, w.holder, 999_999, AccountData::Empty);
    let keys = all_keys(&w);
    let before = snapshot(&w.ledger, &keys);
    assert_eq!(
        swap_as_holder(Side::A, vec![w.creator], &mut w),
        Err(TransitionError::Custody(CustodyError::InsufficientLamports))
    );
    assert_eq!(snapshot(&w.ledger, &keys), before);
    assert_eq!(w.ledger.token_amount(&w.accounts.token_b_escrow), 1);
    assert!(!w.ledger.pair(&w.accounts.entangled_pair).unwrap().paid);
}

#[test]
fn a_token_of_a_foreign_mint_is_refused() {
    let mut w = world(1_000_000, false);
    create(&mut w).unwrap();
    let foreign = key(30);
    put(&mut w.ledger, foreign, 1, AccountData::Mint(Mint { supply: 1, decimals: 0 }));
    put(&mut w.ledger, ata(&w.holder, &foreign), RENT, token(foreign, w.holder, 1));
    let keys = all_keys(&w);
    let before = snapshot(&w.ledger, &keys);
    let accounts = Swap {
        token: ata(&w.holder, &foreign),
        token_mint: foreign,
        ..swap_accounts(&w, Side::A)
    };
    assert_eq!(
        swap(&mut w.ledger, &accounts, &vec![w.creator], &everybody()),
        Err(program(ErrorCode::InvalidMint))
    );
    assert_eq!(snapshot(&w.ledger, &keys), before);
    assert_eq!(w.ledger.token_amount(&w.accounts.token_a_escrow), 0);
    assert_eq!(w.ledger.token_amount(&w.accounts.token_b_escrow), 1);
}

#[test]
fn a_token_presented_with_another_mint_is_refused() {
    let mut w = world(1_000_000, false);
    create(&mut w).unwrap();
    let accounts = Swap { token_mint: w.accounts.mint_b, ..swap_accounts(&w, Side::A) };
    assert_eq!(
        swap(&mut w.ledger, &accounts, &vec![w.creator], &everybody()),
        Err(program(ErrorCode::InvalidMint))
    );
}

#[test]
fn a_balance_short_of_the_supply_is_refused() {
    let mut w = world(1_000_000, false);
    let a = w.accounts;
    put(&mut w.ledger, a.mint_a, 1, AccountData::Mint(Mint { supply: 100, decimals: 2 }));
    put(&mut w.ledger, w.token_a, RENT, token(a.mint_a, w.holder, 100));
    create(&mut w).unwrap();
    put(&mut w.ledger, w.token_a, RENT, token(a.mint_a, w.holder, 99));
    let keys = all_keys(&w);
    let before = snapshot(&w.ledger, &keys);
    assert_eq!(
        swap_as_holder(Side::A, vec![w.creator], &mut w),
        Err(program(ErrorCode::InvalidTokenAmount))
    );
    assert_eq!(snapshot(&w.ledger, &keys), before);
    put(&mut w.ledger, w.token_a, RENT, token(a.mint_a, w.holder, 101));
    assert_eq!(
        swap_as_holder(Side::A, vec![w.creator], &mut w),
        Err(program(ErrorCode::InvalidTokenAmount))
    );
    put(&mut w.ledger, w.token_a, RENT, token(a.mint_a, w.holder, 100));
    swap_as_holder(Side::A, vec![w.creator], &mut w).unwrap();
    assert_eq!(w.ledger.token_amount(&a.token_a_escrow), 100);
}

#[test]
fn the_replacement_must_be_the_other_asset() {
    let mut w = world(1_000_000, false);
    create(&mut w).unwrap();
    let accounts = Swap {
        replacement_token_mint: w.accounts.mint_a,
        replacement_token: w.token_a,
        replacement_token_metadata: w.accounts.metadata_a,
        ..swap_accounts(&w, Side::A)
    };
    assert_eq!(
        swap(&mut w.ledger, &accounts, &vec![w.creator], &everybody()),
        Err(program(ErrorCode::InvalidMint))
    );
    let accounts = Swap { replacement_token_mint: w.treasury_mint, ..swap_accounts(&w, Side::A) };
    assert_eq!(
        swap(&mut w.ledger, &accounts, &vec![w.creator], &everybody()),
        Err(program(ErrorCode::InvalidMint))
    );
}

#[test]
fn the_destination_must_be_the_payers_associated_account() {
    let mut w = world(1_000_000, false);
    create(&mut w).unwrap();
    let mint_b = w.accounts.mint_b;
    // An account of the right asset at another address.
    put(&mut w.ledger, key(96), RENT, token(mint_b, w.holder, 0));
    let accounts = Swap { replacement_token: key(96), ..swap_accounts(&w, Side::A) };
    assert_eq!(
        swap(&mut w.ledger, &accounts, &vec![w.creator], &everybody()),
        Err(program(ErrorCode::PublicKeyMismatch))
    );
    // No account at another address.
    let accounts = Swap { replacement_token: key(97), ..swap_accounts(&w, Side::A) };
    assert_eq!(
        swap(&mut w.ledger, &accounts, &vec![w.creator], &everybody()),
        Err(program(ErrorCode::PublicKeyMismatch))
    );
    // Somebody else's associated account.
    let other = ata(&key(71), &mint_b);
    put(&mut w.ledger, other, RENT, token(mint_b, key(71), 0));
    let accounts = Swap { replacement_token: other, ..swap_accounts(&w, Side::A) };
    assert_eq!(
        swap(&mut w.ledger, &accounts, &vec![w.creator], &everybody()),
        Err(program(ErrorCode::PublicKeyMismatch))
    );
    // Something that is no token account.
    let at = w.accounts.token_b;
    put(&mut w.ledger, at, RENT, AccountData::Edition);
    assert_eq!(
        swap_as_holder(Side::A, vec![w.creator], &mut w),
        Err(program(ErrorCode::IncorrectOwner))
    );
}

#[test]
fn the_replacements_metadata_is_checked() {
    let mut w = world(1_000_000, false);
    create(&mut w).unwrap();
    let accounts = Swap {
        replacement_token_metadata: w.accounts.metadata_a,
        ..swap_accounts(&w, Side::A)
    };
    assert_eq!(
        swap(&mut w.ledger, &accounts, &vec![w.creator], &everybody()),
        Err(program(ErrorCode::MetadataDoesntExist))
    );
    let at = w.accounts.metadata_b;
    put(&mut w.ledger, at, 1, AccountData::Empty);
    assert_eq!(
        swap_as_holder(Side::A, vec![w.creator], &mut w),
        Err(program(ErrorCode::MetadataDoesntExist))
    );
}

#[test]
fn the_accounts_of_a_swap_must_be_the_records_own() {
    let mut w = world(1_000_000, false);
    create(&mut w).unwrap();
    let good = swap_accounts(&w, Side::A);
    let remaining = vec![w.creator];
    let a = w.accounts;
    assert_eq!(
        swap(&mut w.ledger, &Swap { token_a_escrow: a.token_b_escrow, ..good }, &remaining, &everybody()),
        Err(program(ErrorCode::DerivedKeyInvalid))
    );
    assert_eq!(
        swap(&mut w.ledger, &Swap { token_b_escrow: key(98), ..good }, &remaining, &everybody()),
        Err(program(ErrorCode::DerivedKeyInvalid))
    );
    assert_eq!(
        swap(&mut w.ledger, &Swap { entangled_pair: key(98), ..good }, &remaining, &everybody()),
        Err(program(ErrorCode::UninitializedAccount))
    );
    assert_eq!(
        swap(&mut w.ledger, &Swap { entangled_pair: a.mint_a, ..good }, &remaining, &everybody()),
        Err(program(ErrorCode::IncorrectOwner))
    );
    let record = w.ledger.pair(&a.entangled_pair).unwrap();
    put(&mut w.ledger, key(99), 1, AccountData::Pair(record));
    assert_eq!(
        swap(&mut w.ledger, &Swap { entangled_pair: key(99), ..good }, &remaining, &everybody()),
        Err(program(ErrorCode::DerivedKeyInvalid))
    );
    assert_eq!(
        swap(&mut w.ledger, &Swap { treasury_mint: a.mint_a, ..good }, &remaining, &everybody()),
        Err(TransitionError::HasOneConstraintViolation)
    );
    assert_eq!(
        swap(&mut w.ledger, &Swap { treasury_mint: key(98), ..good }, &remaining, &everybody()),
        Err(program(ErrorCode::UninitializedAccount))
    );
    assert_eq!(
        swap(&mut w.ledger, &Swap { token: key(98), ..good }, &remaining, &everybody()),
        Err(program(ErrorCode::UninitializedAccount))
    );
    assert_eq!(
        swap(&mut w.ledger, &Swap { token_mint: w.token_a, ..good }, &remaining, &everybody()),
        Err(program(ErrorCode::IncorrectOwner))
    );
    assert_eq!(
        swap(&mut w.ledger, &Swap { replacement_token_mint: key(98), ..good }, &remaining, &everybody()),
        Err(program(ErrorCode::UninitializedAccount))
    );
    swap(&mut w.ledger, &good, &remaining, &everybody()).unwrap();
}

#[test]
fn the_creators_accounts_must_follow_in_their_order() {
    let mut w = world(1_000_000, false);
    let second = key(4);
    let creators = vec![
        Creator { address: w.creator, share: 50 },
        Creator { address: second, share: 50 },
    ];
    let at = w.accounts.metadata_b;
    put(&mut w.ledger, at, 1, metadata(creators));
    create(&mut w).unwrap();
    let accounts = swap_accounts(&w, Side::A);
    assert_eq!(
        swap(&mut w.ledger, &accounts, &vec![w.creator], &everybody()),
        Err(TransitionError::NotEnoughAccountKeys)
    );
    assert_eq!(
        swap(&mut w.ledger, &accounts, &Vec::new(), &everybody()),
        Err(TransitionError::NotEnoughAccountKeys)
    );
    assert_eq!(
        swap(&mut w.ledger, &accounts, &vec![second, w.creator], &everybody()),
        Err(program(ErrorCode::PublicKeyMismatch))
    );
    swap(&mut w.ledger, &accounts, &vec![w.creator, second, key(5)], &everybody()).unwrap();
    assert_eq!(w.ledger.lamports(&second), 500_000);
}

#[test]
fn a_cut_that_does_not_fit_is_an_overflow() {
    let mut w = world(u64::MAX, false);
    let creators = vec![Creator { address: w.creator, share: 101 }];
    let at = w.accounts.metadata_b;
    put(&mut w.ledger, at, 1, metadata(creators));
    create(&mut w).unwrap();
    assert_eq!(
        swap_as_holder(Side::A, vec![w.creator], &mut w),
        Err(program(ErrorCode::NumericalOverflow))
    );
}

#[test]
fn an_asset_without_creators_is_swapped_for_nothing() {
    let mut w = world(1_000_000, false);
    let at = w.accounts.metadata_b;
    put(&mut w.ledger, at, 1, metadata(Vec::new()));
    create(&mut w).unwrap();
    let funds = w.ledger.lamports(&w.holder);
    let plan = swap_as_holder(Side::A, Vec::new(), &mut w).unwrap();
    assert_eq!(plan.len(), 2);
    assert_eq!(w.ledger.lamports(&w.holder), funds);
    assert!(w.ledger.pair(&w.accounts.entangled_pair).unwrap().paid);
}

#[test]
fn the_captive_asset_cannot_be_presented() {
    let mut w = world(0, false);
    create(&mut w).unwrap();
    // Somebody holds a forged unit of the captive asset; escrow A is empty.
    let b = w.accounts.mint_b;
    let at = w.accounts.token_b;
    put(&mut w.ledger, at, RENT, token(b, w.holder, 1));
    let keys = all_keys(&w);
    let before = snapshot(&w.ledger, &keys);
    assert_eq!(
        swap_as_holder(Side::B, vec![w.creator], &mut w),
        Err(TransitionError::Custody(CustodyError::InsufficientFunds))
    );
    assert_eq!(snapshot(&w.ledger, &keys), before);
}

#[test]
fn swap_plan_is_what_swap_does() {
    let mut w = world(1_000_000, true);
    create(&mut w).unwrap();
    let accounts = swap_accounts(&w, Side::A);
    let planned = plan_swap(&w.ledger, &accounts, &vec![w.creator], &everybody()).unwrap();
    let keys = all_keys(&w);
    let before = snapshot(&w.ledger, &keys);
    assert_eq!(snapshot(&w.ledger, &keys), before);
    let done = swap(&mut w.ledger, &accounts, &vec![w.creator], &everybody()).unwrap();
    assert_eq!(planned, done);
    assert_eq!(
        plan_swap(&w.ledger, &accounts, &vec![w.creator], &everybody()),
        Err(program(ErrorCode::InvalidTokenAmount))
    );
}

#[test]
fn a_delegate_of_the_holder_can_hand_the_assets_over() {
    let mut w = world(0, false);
    let hand = key(52);
    let a = w.accounts;
    put(
        &mut w.ledger,
        a.token_b,
        RENT,
        AccountData::Token(TokenAccount {
            delegate: Some(hand),
            delegated_amount: 1,
            ..TokenAccount::new(a.mint_b, w.holder, 1)
        }),
    );
    w.accounts.transfer_authority = hand;
    create(&mut w).unwrap();
    assert_eq!(w.ledger.token(&a.token_b), Ok(TokenAccount::new(a.mint_b, w.holder, 0)));
    assert_eq!(w.ledger.token_amount(&a.token_b_escrow), 1);

    put(
        &mut w.ledger,
        w.token_a,
        RENT,
        AccountData::Token(TokenAccount {
            delegate: Some(hand),
            delegated_amount: 5,
            ..TokenAccount::new(a.mint_a, w.holder, 1)
        }),
    );
    let accounts = Swap { transfer_authority: hand, ..swap_accounts(&w, Side::A) };
    swap(&mut w.ledger, &accounts, &vec![w.creator], &everybody()).unwrap();
    assert_eq!(
        w.ledger.token(&w.token_a),
        Ok(TokenAccount {
            delegate: Some(hand),
            delegated_amount: 4,
            ..TokenAccount::new(a.mint_a, w.holder, 0)
        })
    );
    assert_eq!(w.ledger.token_amount(&a.token_a_escrow), 1);
    assert_eq!(w.ledger.token_amount(&a.token_b), 1);
    // Somebody to whom nothing is delegated cannot.
    let accounts = Swap { transfer_authority: key(53), ..swap_accounts(&w, Side::B) };
    assert_eq!(
        swap(&mut w.ledger, &accounts, &Vec::new(), &everybody()),
        Err(TransitionError::Custody(CustodyError::OwnerMismatch))
    );
}

#[test]
fn a_transition_needs_the_signatures_of_those_it_acts_for() {
    let mut w = world(1_000_000, false);
    let hand = key(52);
    w.accounts.transfer_authority = hand;
    let a = w.accounts;
    let args = w.args;
    let keys = all_keys(&w);
    let before = snapshot(&w.ledger, &keys);
    let create_signed_by = |ledger: &mut Ledger, signers: &[Pubkey]| {
        create_entangled_pair(
            ledger,
            &a,
            &signers.to_vec(),
            args.bump,
            args.reverse_bump,
            args.token_a_escrow_bump,
            args.token_b_escrow_bump,
            args.price,
            args.pays_every_time,
        )
    };
    for signers in [vec![], vec![hand], vec![w.holder], vec![w.authority, key(9)]] {
        assert_eq!(
            create_signed_by(&mut w.ledger, &signers),
            Err(TransitionError::AccountNotSigner)
        );
        assert_eq!(snapshot(&w.ledger, &keys), before);
    }
    // Both have signed, but nothing is delegated to the transfer authority.
    assert_eq!(
        create_signed_by(&mut w.ledger, &[hand, w.holder]),
        Err(TransitionError::Custody(CustodyError::OwnerMismatch))
    );
    w.accounts.transfer_authority = w.holder;
    let a = w.accounts;
    create_entangled_pair(
        &mut w.ledger,
        &a,
        &vec![w.holder],
        args.bump,
        args.reverse_bump,
        args.token_a_escrow_bump,
        args.token_b_escrow_bump,
        args.price,
        args.pays_every_time,
    )
    .unwrap();

    let update = UpdateEntangledPair {
        authority: w.authority,
        new_authority: key(60),
        entangled_pair: a.entangled_pair,
    };
    for signers in [vec![], vec![w.holder], vec![key(60)]] {
        assert_eq!(
            update_entangled_pair(&mut w.ledger, &update, &signers, 5, true),
            Err(TransitionError::AccountNotSigner)
        );
    }
    assert_eq!(w.ledger.pair(&a.entangled_pair).unwrap().price, 1_000_000);
    // Without the signature it does not matter whether there is a record.
    let nowhere = UpdateEntangledPair { entangled_pair: key(98), ..update };
    assert_eq!(
        update_entangled_pair(&mut w.ledger, &nowhere, &Vec::new(), 5, true),
        Err(TransitionError::AccountNotSigner)
    );
    assert_eq!(update_entangled_pair(&mut w.ledger, &update, &vec![w.authority], 5, true), Ok(()));

    let accounts = Swap { transfer_authority: hand, ..swap_accounts(&w, Side::A) };
    let keys = all_keys(&w);
    let before = snapshot(&w.ledger, &keys);
    for signers in [vec![], vec![hand], vec![w.holder], vec![w.creator]] {
        assert_eq!(
            swap(&mut w.ledger, &accounts, &vec![w.creator], &signers),
            Err(TransitionError::AccountNotSigner)
        );
        assert_eq!(snapshot(&w.ledger, &keys), before);
    }
    let accounts = swap_accounts(&w, Side::A);
    swap(&mut w.ledger, &accounts, &vec![w.creator], &vec![w.holder]).unwrap();
}
