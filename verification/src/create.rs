//! The creation of a pair.

use crate::account::{AccountData, DataView, EntangledPair, Mint};
use crate::address::{
    is_escrow_address, is_pair_slot, verify_escrow_address, verify_pair_slot, Side,
};
use crate::custody::{
    apply_all, assert_is_ata, associated_token_check, creation_if_absent, execute_all,
    plan_creation_if_absent, Invocation, ProgramSigner,
};
use crate::error::{ErrorCode, TransitionError};
use crate::ledger::{Ledger, LedgerState};
use crate::metadata::{
    assert_metadata_valid, edition_if_supplied, metadata_check, supplied_edition,
};
use crate::mint::{has_supply_one, is_unique};
use crate::pubkey::Pubkey;
use vstd::prelude::*;

verus! {

/// The accounts of a creation of a pair.
#[derive(Clone, Copy, Debug, PartialEq, Eq)]
pub struct CreateEntangledPair {
    pub treasury_mint: Pubkey,
    pub payer: Pubkey,
    pub transfer_authority: Pubkey,
    pub authority: Pubkey,
    pub mint_a: Pubkey,
    pub metadata_a: Pubkey,
    pub edition_a: Pubkey,
    pub mint_b: Pubkey,
    pub metadata_b: Pubkey,
    pub edition_b: Pubkey,
    pub token_b: Pubkey,
    pub token_a_escrow: Pubkey,
    pub token_b_escrow: Pubkey,
    pub entangled_pair: Pubkey,
    pub reverse_entangled_pair: Pubkey,
}

/// The arguments of a creation of a pair.
#[derive(Clone, Copy, Debug, PartialEq, Eq)]
pub struct CreateArgs {
    pub bump: u8,
    pub reverse_bump: u8,
    pub token_a_escrow_bump: u8,
    pub token_b_escrow_bump: u8,
    pub price: u64,
    pub pays_every_time: bool,
}

/// The record that a creation writes: nothing is paid yet.
pub open spec fn created_record(accounts: CreateEntangledPair, args: CreateArgs) -> EntangledPair {
    EntangledPair {
        treasury_mint: accounts.treasury_mint,
        mint_a: accounts.mint_a,
        mint_b: accounts.mint_b,
        token_a_escrow: accounts.token_a_escrow,
        token_b_escrow: accounts.token_b_escrow,
        authority: accounts.authority,
        bump: args.bump,
        token_a_escrow_bump: args.token_a_escrow_bump,
        token_b_escrow_bump: args.token_b_escrow_bump,
        price: args.price,
        paid: false,
        pays_every_time: args.pays_every_time,
    }
}

/// The first precondition of a creation that does not hold, in the order in
/// which they are tested; the second asset's mint where all hold.
pub open spec fn create_check(
    state: LedgerState,
    accounts: CreateEntangledPair,
    signers: Seq<Pubkey>,
    args: CreateArgs,
) -> Result<Mint, TransitionError> {
    if !is_pair_slot(accounts.entangled_pair, accounts.mint_a, accounts.mint_b, args.bump) {
        Err(TransitionError::Program(ErrorCode::DerivedKeyInvalid))
    } else if !is_pair_slot(
        accounts.reverse_entangled_pair,
        accounts.mint_b,
        accounts.mint_a,
        args.reverse_bump,
    ) {
        Err(TransitionError::Program(ErrorCode::DerivedKeyInvalid))
    } else if !(state.data(accounts.entangled_pair) is Empty) {
        Err(TransitionError::Program(ErrorCode::EntangledPairExists))
    } else if accounts.reverse_entangled_pair == accounts.entangled_pair || !(state.data(
        accounts.reverse_entangled_pair,
    ) is Empty) {
        Err(TransitionError::Program(ErrorCode::EntangledPairExists))
    } else if state.mint(accounts.treasury_mint) is Err {
        Err(TransitionError::Program(state.mint(accounts.treasury_mint)->Err_0))
    } else if !signers.contains(accounts.payer) {
        Err(TransitionError::AccountNotSigner)
    } else if !signers.contains(accounts.transfer_authority) {
        Err(TransitionError::AccountNotSigner)
    } else if state.mint(accounts.mint_a) is Err {
        Err(TransitionError::Program(state.mint(accounts.mint_a)->Err_0))
    } else if state.mint(accounts.mint_b) is Err {
        Err(TransitionError::Program(state.mint(accounts.mint_b)->Err_0))
    } else if state.token(accounts.token_b) is Err {
        Err(TransitionError::Program(state.token(accounts.token_b)->Err_0))
    } else if !is_escrow_address(
        accounts.token_a_escrow,
        accounts.mint_a,
        accounts.mint_b,
        Side::A,
        args.token_a_escrow_bump,
    ) {
        Err(TransitionError::Program(ErrorCode::DerivedKeyInvalid))
    } else if !is_escrow_address(
        accounts.token_b_escrow,
        accounts.mint_a,
        accounts.mint_b,
        Side::B,
        args.token_b_escrow_bump,
    ) {
        Err(TransitionError::Program(ErrorCode::DerivedKeyInvalid))
    } else if !is_unique(state.mint(accounts.mint_a)->Ok_0) {
        Err(TransitionError::Program(ErrorCode::MustHaveSupplyOne))
    } else if !is_unique(state.mint(accounts.mint_b)->Ok_0) {
        Err(TransitionError::Program(ErrorCode::MustHaveSupplyOne))
    } else if metadata_check(
        state,
        accounts.metadata_a,
        supplied_edition(state, accounts.edition_a),
        accounts.mint_a,
    ) is Err {
        Err(
            TransitionError::Program(
                metadata_check(
                    state,
                    accounts.metadata_a,
                    supplied_edition(state, accounts.edition_a),
                    accounts.mint_a,
                )->Err_0,
            ),
        )
    } else if metadata_check(
        state,
        accounts.metadata_b,
        supplied_edition(state, accounts.edition_b),
        accounts.mint_b,
    ) is Err {
        Err(
            TransitionError::Program(
                metadata_check(
                    state,
                    accounts.metadata_b,
                    supplied_edition(state, accounts.edition_b),
                    accounts.mint_b,
                )->Err_0,
            ),
        )
    } else if associated_token_check(state, accounts.token_b, accounts.payer, accounts.mint_b) is Err {
        Err(
            TransitionError::Program(
                associated_token_check(
                    state,
                    accounts.token_b,
                    accounts.payer,
                    accounts.mint_b,
                )->Err_0,
            ),
        )
    } else {
        Ok(state.mint(accounts.mint_b)->Ok_0)
    }
}

/// The signer of the creation of the escrow of one side.
pub open spec fn escrow_signer(accounts: CreateEntangledPair, args: CreateArgs, side: Side) -> ProgramSigner {
    ProgramSigner::Escrow {
        mint_a: accounts.mint_a,
        mint_b: accounts.mint_b,
        side,
        bump: match side {
            Side::A => args.token_a_escrow_bump,
            Side::B => args.token_b_escrow_bump,
        },
    }
}

/// The transfer that moves the whole supply of the second asset from the
/// payer's account into its escrow.
pub open spec fn initial_deposit(accounts: CreateEntangledPair, supply: u64) -> Invocation {
    Invocation::TokenTransfer {
        source: accounts.token_b,
        destination: accounts.token_b_escrow,
        authority: accounts.transfer_authority,
        amount: supply,
        signer: ProgramSigner::Unsigned,
    }
}

/// What a creation asks of the custody layer, in order: the two escrows where
/// they hold no data yet, both in the custody of the record, then the deposit
/// of the second asset.
pub open spec fn create_plan(
    state: LedgerState,
    accounts: CreateEntangledPair,
    args: CreateArgs,
    supply: u64,
) -> Seq<Invocation> {
    creation_if_absent(
        state,
        accounts.token_a_escrow,
        accounts.mint_a,
        accounts.entangled_pair,
        accounts.payer,
        escrow_signer(accounts, args, Side::A),
    ) + creation_if_absent(
        state,
        accounts.token_b_escrow,
        accounts.mint_b,
        accounts.entangled_pair,
        accounts.payer,
        escrow_signer(accounts, args, Side::B),
    ) + seq![initial_deposit(accounts, supply)]
}

/// What a creation does: the invocations made and the ledger after them, or
/// why it is aborted.
pub open spec fn create_outcome(
    state: LedgerState,
    accounts: CreateEntangledPair,
    signers: Seq<Pubkey>,
    args: CreateArgs,
) -> Result<(Seq<Invocation>, LedgerState), TransitionError> {
    match create_check(state, accounts, signers, args) {
        Err(error) => Err(error),
        Ok(mint_b) => match apply_all(
            state.with_data(
                accounts.entangled_pair,
                DataView::Pair(created_record(accounts, args)),
            ),
            create_plan(state, accounts, args, mint_b.supply),
        ) {
            Err(error) => Err(TransitionError::Custody(error)),
            Ok(after) => Ok((create_plan(state, accounts, args, mint_b.supply), after)),
        },
    }
}

/// The ledger after a creation: as the creation leaves it, or as it was where
/// the creation is aborted.
pub open spec fn after_create(
    state: LedgerState,
    accounts: CreateEntangledPair,
    signers: Seq<Pubkey>,
    args: CreateArgs,
) -> LedgerState {
    match create_outcome(state, accounts, signers, args) {
        Ok((_, after)) => after,
        Err(_) => state,
    }
}

fn check_create(
    ledger: &Ledger,
    accounts: &CreateEntangledPair,
    signers: &Vec<Pubkey>,
    args: &CreateArgs,
) -> (checked: Result<Mint, TransitionError>)
    requires
        ledger.wf(),
    ensures
        checked == create_check(ledger@, *accounts, signers@, *args),
{
    if !verify_pair_slot(&accounts.entangled_pair, &accounts.mint_a, &accounts.mint_b, args.bump) {
        return Err(TransitionError::Program(ErrorCode::DerivedKeyInvalid));
    }
    if !verify_pair_slot(
        &accounts.reverse_entangled_pair,
        &accounts.mint_b,
        &accounts.mint_a,
        args.reverse_bump,
    ) {
        return Err(TransitionError::Program(ErrorCode::DerivedKeyInvalid));
    }
    if !ledger.data_is_empty(&accounts.entangled_pair) {
        return Err(TransitionError::Program(ErrorCode::EntangledPairExists));
    }
    if accounts.reverse_entangled_pair == accounts.entangled_pair || !ledger.data_is_empty(
        &accounts.reverse_entangled_pair,
    ) {
        return Err(TransitionError::Program(ErrorCode::EntangledPairExists));
    }
    match ledger.mint(&accounts.treasury_mint) {
        Ok(_) => {},
        Err(error) => {
            return Err(TransitionError::Program(error));
        },
    }
    if !accounts.payer.is_among(signers) {
        return Err(TransitionError::AccountNotSigner);
    }
    if !accounts.transfer_authority.is_among(signers) {
        return Err(TransitionError::AccountNotSigner);
    }
    let mint_a = match ledger.mint(&accounts.mint_a) {
        Ok(mint) => mint,
        Err(error) => {
            return Err(TransitionError::Program(error));
        },
    };
    let mint_b = match ledger.mint(&accounts.mint_b) {
        Ok(mint) => mint,
        Err(error) => {
            return Err(TransitionError::Program(error));
        },
    };
    match ledger.token(&accounts.token_b) {
        Ok(_) => {},
        Err(error) => {
            return Err(TransitionError::Program(error));
        },
    }
    if !verify_escrow_address(
        &accounts.token_a_escrow,
        &accounts.mint_a,
        &accounts.mint_b,
        Side::A,
        args.token_a_escrow_bump,
    ) {
        return Err(TransitionError::Program(ErrorCode::DerivedKeyInvalid));
    }
    if !verify_escrow_address(
        &accounts.token_b_escrow,
        &accounts.mint_a,
        &accounts.mint_b,
        Side::B,
        args.token_b_escrow_bump,
    ) {
        return Err(TransitionError::Program(ErrorCode::DerivedKeyInvalid));
    }
    if !has_supply_one(&mint_a) {
        return Err(TransitionError::Program(ErrorCode::MustHaveSupplyOne));
    }
    if !has_supply_one(&mint_b) {
        return Err(TransitionError::Program(ErrorCode::MustHaveSupplyOne));
    }
    let edition_a = edition_if_supplied(ledger, &accounts.edition_a);
    match assert_metadata_valid(ledger, &accounts.metadata_a, edition_a, &accounts.mint_a) {
        Ok(()) => {},
        Err(error) => {
            return Err(TransitionError::Program(error));
        },
    }
    let edition_b = edition_if_supplied(ledger, &accounts.edition_b);
    match assert_metadata_valid(ledger, &accounts.metadata_b, edition_b, &accounts.mint_b) {
        Ok(()) => {},
        Err(error) => {
            return Err(TransitionError::Program(error));
        },
    }
    match assert_is_ata(ledger, &accounts.token_b, &accounts.payer, &accounts.mint_b) {
        Ok(_) => {},
        Err(error) => {
            return Err(TransitionError::Program(error));
        },
    }
    Ok(mint_b)
}

fn new_record(accounts: &CreateEntangledPair, args: &CreateArgs) -> (record: EntangledPair)
    ensures
        record == created_record(*accounts, *args),
{
    EntangledPair {
        treasury_mint: accounts.treasury_mint,
        mint_a: accounts.mint_a,
        mint_b: accounts.mint_b,
        token_a_escrow: accounts.token_a_escrow,
        token_b_escrow: accounts.token_b_escrow,
        authority: accounts.authority,
        bump: args.bump,
        token_a_escrow_bump: args.token_a_escrow_bump,
        token_b_escrow_bump: args.token_b_escrow_bump,
        price: args.price,
        paid: false,
        pays_every_time: args.pays_every_time,
    }
}

/// Tests the preconditions of a creation and plans what it asks of the custody
/// layer. Nothing is changed.
pub fn plan_create(
    ledger: &Ledger,
    accounts: &CreateEntangledPair,
    signers: &Vec<Pubkey>,
    args: &CreateArgs,
) -> (planned: Result<Vec<Invocation>, TransitionError>)
    requires
        ledger.wf(),
    ensures
        match planned {
            Ok(plan) => create_check(ledger@, *accounts, signers@, *args) is Ok && plan@
                == create_plan(
                ledger@,
                *accounts,
                *args,
                create_check(ledger@, *accounts, signers@, *args)->Ok_0.supply,
            ),
            Err(error) => create_check(ledger@, *accounts, signers@, *args) == Err::<
                Mint,
                TransitionError,
            >(error),
        },
{
    let mint_b = match check_create(ledger, accounts, signers, args) {
        Ok(mint) => mint,
        Err(error) => {
            return Err(error);
        },
    };
    let mut plan: Vec<Invocation> = Vec::new();
    plan_creation_if_absent(
        ledger,
        &accounts.token_a_escrow,
        &accounts.mint_a,
        &accounts.entangled_pair,
        &accounts.payer,
        ProgramSigner::Escrow {
            mint_a: accounts.mint_a,
            mint_b: accounts.mint_b,
            side: Side::A,
            bump: args.token_a_escrow_bump,
        },
        &mut plan,
    );
    plan_creation_if_absent(
        ledger,
        &accounts.token_b_escrow,
        &accounts.mint_b,
        &accounts.entangled_pair,
        &accounts.payer,
        ProgramSigner::Escrow {
            mint_a: accounts.mint_a,
            mint_b: accounts.mint_b,
            side: Side::B,
            bump: args.token_b_escrow_bump,
        },
        &mut plan,
    );
    plan.push(
        Invocation::TokenTransfer {
            source: accounts.token_b,
            destination: accounts.token_b_escrow,
            authority: accounts.transfer_authority,
            amount: mint_b.supply,
            signer: ProgramSigner::Unsigned,
        },
    );
    assert(plan@ =~= create_plan(ledger@, *accounts, *args, mint_b.supply));
    Ok(plan)
}

/// Creates the record of a pair and takes the second asset into escrow.
///
/// The payer and the transfer authority must be among the signers of the
/// transaction. The record is written with `paid` unset, both escrows are created in the
/// custody of the record where they hold no data yet, and the whole supply of
/// the second asset moves from the payer's account into its escrow. The first
/// asset stays where it is. Returns what was asked of the custody layer. An
/// aborted creation changes nothing.
pub fn create_entangled_pair(
    ledger: &mut Ledger,
    accounts: &CreateEntangledPair,
    signers: &Vec<Pubkey>,
    bump: u8,
    reverse_bump: u8,
    token_a_escrow_bump: u8,
    token_b_escrow_bump: u8,
    price: u64,
    pays_every_time: bool,
) -> (created: Result<Vec<Invocation>, TransitionError>)
    requires
        old(ledger).wf(),
    ensures
        final(ledger).wf(),
        ({
            let args = CreateArgs {
                bump,
                reverse_bump,
                token_a_escrow_bump,
                token_b_escrow_bump,
                price,
                pays_every_time,
            };
            &&& final(ledger)@ == after_create(old(ledger)@, *accounts, signers@, args)
            &&& match created {
                Ok(plan) => create_outcome(old(ledger)@, *accounts, signers@, args) == Ok::<
                    (Seq<Invocation>, LedgerState),
                    TransitionError,
                >((plan@, final(ledger)@)),
                Err(error) => create_outcome(old(ledger)@, *accounts, signers@, args) == Err::<
                    (Seq<Invocation>, LedgerState),
                    TransitionError,
                >(error),
            }
        }),
{
    let args = CreateArgs {
        bump,
        reverse_bump,
        token_a_escrow_bump,
        token_b_escrow_bump,
        price,
        pays_every_time,
    };
    let plan = match plan_create(ledger, accounts, signers, &args) {
        Ok(plan) => plan,
        Err(error) => {
            return Err(error);
        },
    };
    let mut work = ledger.duplicate();
    work.set_data(accounts.entangled_pair, AccountData::Pair(new_record(accounts, &args)));
    match execute_all(&mut work, &plan) {
        Ok(()) => {
            *ledger = work;
            Ok(plan)
        },
        Err(error) => Err(TransitionError::Custody(error)),
    }
}

} // verus!
