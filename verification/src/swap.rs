//! The swap of one asset of a pair for the other.

use crate::account::{AccountData, DataView, EntangledPair, TokenAccount};
use crate::address::{
    is_escrow_address, is_pair_address, verify_escrow_address, verify_pair_address, Side,
};
use crate::custody::{
    apply_all, assert_is_destination, creation_if_absent, destination_check, execute_all,
    plan_creation_if_absent, Invocation, ProgramSigner,
};
use crate::error::{ErrorCode, TransitionError};
use crate::fees::{creator_fee_plan, fee_plan, Payment};
use crate::ledger::{Ledger, LedgerState};
use crate::metadata::{assert_metadata_valid, metadata_check};
use crate::programs::{is_native, native_mint_bytes};
use crate::pubkey::Pubkey;
use vstd::prelude::*;

verus! {

/// The accounts of a swap.
#[derive(Clone, Copy, Debug, PartialEq, Eq)]
pub struct Swap {
    pub treasury_mint: Pubkey,
    pub payer: Pubkey,
    pub payment_account: Pubkey,
    pub payment_transfer_authority: Pubkey,
    pub token: Pubkey,
    pub token_mint: Pubkey,
    pub replacement_token_metadata: Pubkey,
    pub replacement_token_mint: Pubkey,
    pub replacement_token: Pubkey,
    pub transfer_authority: Pubkey,
    pub token_a_escrow: Pubkey,
    pub token_b_escrow: Pubkey,
    pub entangled_pair: Pubkey,
}

/// What a swap that may go ahead has established: the record, which of its
/// assets is presented, and the supplies of the presented asset and of its
/// replacement.
#[derive(Clone, Copy, Debug, PartialEq, Eq)]
pub struct SwapTerms {
    pub record: EntangledPair,
    pub presented: Side,
    pub supply: u64,
    pub replacement_supply: u64,
}

/// The side of a pair that a mint is, the first where it is both.
pub open spec fn side_of(record: EntangledPair, mint: Pubkey) -> Option<Side> {
    if mint == record.mint_a {
        Some(Side::A)
    } else if mint == record.mint_b {
        Some(Side::B)
    } else {
        None
    }
}

/// The mint of one side of a pair.
pub open spec fn mint_of(record: EntangledPair, side: Side) -> Pubkey {
    match side {
        Side::A => record.mint_a,
        Side::B => record.mint_b,
    }
}

/// The escrow that a swap names for one side.
pub open spec fn escrow_of(accounts: Swap, side: Side) -> Pubkey {
    match side {
        Side::A => accounts.token_a_escrow,
        Side::B => accounts.token_b_escrow,
    }
}

/// Whether a swap on this record collects the price.
pub open spec fn charges(record: EntangledPair) -> bool {
    !record.paid || record.pays_every_time
}

/// What the accounts of a swap hold, once they are found to be what they are
/// presented as.
#[derive(Clone, Copy, Debug, PartialEq, Eq)]
pub struct SwapAccounts {
    pub record: EntangledPair,
    pub token: TokenAccount,
    pub supply: u64,
    pub replacement_supply: u64,
}

/// The first account of a swap that is not what it is presented as, in the
/// order in which they are tested: the mints, the presented token account and
/// the record are read, the payer and the transfer authority must be among the
/// signers of the transaction, the escrows and the record are re-derived from
/// the record's own mints and bumps, and the record must name the treasury
/// mint.
pub open spec fn swap_accounts(state: LedgerState, accounts: Swap, signers: Seq<Pubkey>) -> Result<
    SwapAccounts,
    TransitionError,
> {
    if state.mint(accounts.treasury_mint) is Err {
        Err(TransitionError::Program(state.mint(accounts.treasury_mint)->Err_0))
    } else if !signers.contains(accounts.payer) {
        Err(TransitionError::AccountNotSigner)
    } else if state.token(accounts.token) is Err {
        Err(TransitionError::Program(state.token(accounts.token)->Err_0))
    } else if state.mint(accounts.token_mint) is Err {
        Err(TransitionError::Program(state.mint(accounts.token_mint)->Err_0))
    } else if state.mint(accounts.replacement_token_mint) is Err {
        Err(TransitionError::Program(state.mint(accounts.replacement_token_mint)->Err_0))
    } else if !signers.contains(accounts.transfer_authority) {
        Err(TransitionError::AccountNotSigner)
    } else if state.pair(accounts.entangled_pair) is Err {
        Err(TransitionError::Program(state.pair(accounts.entangled_pair)->Err_0))
    } else {
        let record = state.pair(accounts.entangled_pair)->Ok_0;
        if !is_escrow_address(
            accounts.token_a_escrow,
            record.mint_a,
            record.mint_b,
            Side::A,
            record.token_a_escrow_bump,
        ) {
            Err(TransitionError::Program(ErrorCode::DerivedKeyInvalid))
        } else if !is_escrow_address(
            accounts.token_b_escrow,
            record.mint_a,
            record.mint_b,
            Side::B,
            record.token_b_escrow_bump,
        ) {
            Err(TransitionError::Program(ErrorCode::DerivedKeyInvalid))
        } else if !is_pair_address(
            accounts.entangled_pair,
            record.mint_a,
            record.mint_b,
            record.bump,
        ) {
            Err(TransitionError::Program(ErrorCode::DerivedKeyInvalid))
        } else if record.treasury_mint != accounts.treasury_mint {
            Err(TransitionError::HasOneConstraintViolation)
        } else {
            Ok(
                SwapAccounts {
                    record,
                    token: state.token(accounts.token)->Ok_0,
                    supply: state.mint(accounts.token_mint)->Ok_0.supply,
                    replacement_supply: state.mint(accounts.replacement_token_mint)->Ok_0.supply,
                },
            )
        }
    }
}

/// The first precondition of a swap that does not hold, in the order in which
/// they are tested; the terms of the swap where all hold.
pub open spec fn swap_check(state: LedgerState, accounts: Swap, signers: Seq<Pubkey>) -> Result<
    SwapTerms,
    TransitionError,
> {
    match swap_accounts(state, accounts, signers) {
        Err(error) => Err(error),
        Ok(found) => if found.token.mint != accounts.token_mint {
            Err(TransitionError::Program(ErrorCode::InvalidMint))
        } else if found.token.amount != found.supply {
            Err(TransitionError::Program(ErrorCode::InvalidTokenAmount))
        } else if side_of(found.record, found.token.mint) is None {
            Err(TransitionError::Program(ErrorCode::InvalidMint))
        } else if accounts.replacement_token_mint != mint_of(
            found.record,
            side_of(found.record, found.token.mint)->0.other(),
        ) {
            Err(TransitionError::Program(ErrorCode::InvalidMint))
        } else if destination_check(
            state,
            accounts.replacement_token,
            accounts.payer,
            accounts.replacement_token_mint,
        ) is Err {
            Err(
                TransitionError::Program(
                    destination_check(
                        state,
                        accounts.replacement_token,
                        accounts.payer,
                        accounts.replacement_token_mint,
                    )->Err_0,
                ),
            )
        } else if metadata_check(
            state,
            accounts.replacement_token_metadata,
            None,
            accounts.replacement_token_mint,
        ) is Err {
            Err(
                TransitionError::Program(
                    metadata_check(
                        state,
                        accounts.replacement_token_metadata,
                        None,
                        accounts.replacement_token_mint,
                    )->Err_0,
                ),
            )
        } else {
            Ok(
                SwapTerms {
                    record: found.record,
                    presented: side_of(found.record, found.token.mint)->0,
                    supply: found.supply,
                    replacement_supply: found.replacement_supply,
                },
            )
        }
    }
}

/// The transfer that takes the presented asset into its escrow.
pub open spec fn deposit(accounts: Swap, terms: SwapTerms) -> Invocation {
    Invocation::TokenTransfer {
        source: accounts.token,
        destination: escrow_of(accounts, terms.presented),
        authority: accounts.transfer_authority,
        amount: terms.supply,
        signer: ProgramSigner::Unsigned,
    }
}

/// The transfer that releases the replacement from the opposite escrow to the
/// caller, signed by the program with the record's own seeds.
pub open spec fn release(accounts: Swap, terms: SwapTerms) -> Invocation {
    Invocation::TokenTransfer {
        source: escrow_of(accounts, terms.presented.other()),
        destination: accounts.replacement_token,
        authority: accounts.entangled_pair,
        amount: terms.replacement_supply,
        signer: ProgramSigner::Pair {
            mint_a: terms.record.mint_a,
            mint_b: terms.record.mint_b,
            bump: terms.record.bump,
        },
    }
}

/// The terms on which a swap pays the price.
pub open spec fn payment_terms(accounts: Swap, record: EntangledPair) -> Payment {
    Payment {
        account: accounts.payment_account,
        authority: accounts.payment_transfer_authority,
        treasury_mint: accounts.treasury_mint,
        price: record.price,
        native: accounts.treasury_mint@ == native_mint_bytes(),
    }
}

/// The exchange of custody of a swap: the caller's destination account where
/// it holds no data yet, the deposit, then the release.
pub open spec fn exchange_plan(state: LedgerState, accounts: Swap, terms: SwapTerms) -> Seq<Invocation> {
    creation_if_absent(
        state,
        accounts.replacement_token,
        accounts.replacement_token_mint,
        accounts.payer,
        accounts.payer,
        ProgramSigner::Unsigned,
    ) + seq![deposit(accounts, terms), release(accounts, terms)]
}

/// The payments of a swap: the price, split among the creators of the
/// replacement, where the record charges; nothing where it does not.
pub open spec fn swap_fees(state: LedgerState, accounts: Swap, remaining: Seq<Pubkey>, record: EntangledPair) -> Result<
    Seq<Invocation>,
    TransitionError,
> {
    if charges(record) {
        match state.creators(accounts.replacement_token_metadata) {
            None => Err(TransitionError::Program(ErrorCode::MetadataDoesntExist)),
            Some(creators) => fee_plan(creators, remaining, payment_terms(accounts, record)),
        }
    } else {
        Ok(Seq::empty())
    }
}

/// What a swap asks of the custody layer, in order: the exchange of custody,
/// then the payments; or why it may not go ahead.
pub open spec fn swap_plan(
    state: LedgerState,
    accounts: Swap,
    remaining: Seq<Pubkey>,
    signers: Seq<Pubkey>,
) -> Result<Seq<Invocation>, TransitionError> {
    match swap_check(state, accounts, signers) {
        Err(error) => Err(error),
        Ok(terms) => match swap_fees(state, accounts, remaining, terms.record) {
            Err(error) => Err(error),
            Ok(fees) => Ok(exchange_plan(state, accounts, terms) + fees),
        },
    }
}

/// What a swap does: the invocations made and the ledger after them, on which
/// the record is marked as paid; or why it is aborted.
pub open spec fn swap_outcome(
    state: LedgerState,
    accounts: Swap,
    remaining: Seq<Pubkey>,
    signers: Seq<Pubkey>,
) -> Result<(Seq<Invocation>, LedgerState), TransitionError> {
    match swap_plan(state, accounts, remaining, signers) {
        Err(error) => Err(error),
        Ok(plan) => match apply_all(state, plan) {
            Err(error) => Err(TransitionError::Custody(error)),
            Ok(after) => Ok(
                (
                    plan,
                    after.with_data(
                        accounts.entangled_pair,
                        DataView::Pair(
                            EntangledPair {
                                paid: true,
                                ..swap_check(state, accounts, signers)->Ok_0.record
                            },
                        ),
                    ),
                ),
            ),
        },
    }
}

/// The ledger after a swap: as the swap leaves it, or as it was where the
/// swap is aborted.
pub open spec fn after_swap(
    state: LedgerState,
    accounts: Swap,
    remaining: Seq<Pubkey>,
    signers: Seq<Pubkey>,
) -> LedgerState {
    match swap_outcome(state, accounts, remaining, signers) {
        Ok((_, after)) => after,
        Err(_) => state,
    }
}

fn presented_side(record: &EntangledPair, mint: &Pubkey) -> (side: Option<Side>)
    ensures
        side == side_of(*record, *mint),
{
    if *mint == record.mint_a {
        Some(Side::A)
    } else if *mint == record.mint_b {
        Some(Side::B)
    } else {
        None
    }
}

fn check_swap(ledger: &Ledger, accounts: &Swap, signers: &Vec<Pubkey>) -> (checked: Result<
    SwapTerms,
    TransitionError,
>)
    requires
        ledger.wf(),
    ensures
        checked == swap_check(ledger@, *accounts, signers@),
{
    match ledger.mint(&accounts.treasury_mint) {
        Ok(_) => {},
        Err(error) => {
            return Err(TransitionError::Program(error));
        },
    }
    if !accounts.payer.is_among(signers) {
        return Err(TransitionError::AccountNotSigner);
    }
    let token = match ledger.token(&accounts.token) {
        Ok(token) => token,
        Err(error) => {
            return Err(TransitionError::Program(error));
        },
    };
    let supply = match ledger.mint(&accounts.token_mint) {
        Ok(mint) => mint.supply,
        Err(error) => {
            return Err(TransitionError::Program(error));
        },
    };
    let replacement_supply = match ledger.mint(&accounts.replacement_token_mint) {
        Ok(mint) => mint.supply,
        Err(error) => {
            return Err(TransitionError::Program(error));
        },
    };
    if !accounts.transfer_authority.is_among(signers) {
        return Err(TransitionError::AccountNotSigner);
    }
    let record = match ledger.pair(&accounts.entangled_pair) {
        Ok(record) => record,
        Err(error) => {
            return Err(TransitionError::Program(error));
        },
    };
    if !verify_escrow_address(
        &accounts.token_a_escrow,
        &record.mint_a,
        &record.mint_b,
        Side::A,
        record.token_a_escrow_bump,
    ) {
        return Err(TransitionError::Program(ErrorCode::DerivedKeyInvalid));
    }
    if !verify_escrow_address(
        &accounts.token_b_escrow,
        &record.mint_a,
        &record.mint_b,
        Side::B,
        record.token_b_escrow_bump,
    ) {
        return Err(TransitionError::Program(ErrorCode::DerivedKeyInvalid));
    }
    if !verify_pair_address(
        &accounts.entangled_pair,
        &record.mint_a,
        &record.mint_b,
        record.bump,
    ) {
        return Err(TransitionError::Program(ErrorCode::DerivedKeyInvalid));
    }
    if record.treasury_mint != accounts.treasury_mint {
        return Err(TransitionError::HasOneConstraintViolation);
    }
    if token.mint != accounts.token_mint {
        return Err(TransitionError::Program(ErrorCode::InvalidMint));
    }
    if token.amount != supply {
        return Err(TransitionError::Program(ErrorCode::InvalidTokenAmount));
    }
    let presented = match presented_side(&record, &token.mint) {
        Some(side) => side,
        None => {
            return Err(TransitionError::Program(ErrorCode::InvalidMint));
        },
    };
    let replacement_mint = match presented {
        Side::A => record.mint_b,
        Side::B => record.mint_a,
    };
    if accounts.replacement_token_mint != replacement_mint {
        return Err(TransitionError::Program(ErrorCode::InvalidMint));
    }
    match assert_is_destination(
        ledger,
        &accounts.replacement_token,
        &accounts.payer,
        &accounts.replacement_token_mint,
    ) {
        Ok(()) => {},
        Err(error) => {
            return Err(TransitionError::Program(error));
        },
    }
    match assert_metadata_valid(
        ledger,
        &accounts.replacement_token_metadata,
        None,
        &replacement_mint,
    ) {
        Ok(()) => {},
        Err(error) => {
            return Err(TransitionError::Program(error));
        },
    }
    Ok(SwapTerms { record, presented, supply, replacement_supply })
}

fn plan_fees(ledger: &Ledger, accounts: &Swap, remaining_accounts: &Vec<Pubkey>, record: &EntangledPair) -> (planned:
    Result<Vec<Invocation>, TransitionError>)
    requires
        ledger.wf(),
    ensures
        match planned {
            Ok(fees) => swap_fees(ledger@, *accounts, remaining_accounts@, *record) == Ok::<
                Seq<Invocation>,
                TransitionError,
            >(fees@),
            Err(error) => swap_fees(ledger@, *accounts, remaining_accounts@, *record) == Err::<
                Seq<Invocation>,
                TransitionError,
            >(error),
        },
{
    if !record.paid || record.pays_every_time {
        let terms = Payment {
            account: accounts.payment_account,
            authority: accounts.payment_transfer_authority,
            treasury_mint: accounts.treasury_mint,
            price: record.price,
            native: is_native(&accounts.treasury_mint),
        };
        match ledger.creators(&accounts.replacement_token_metadata) {
            Some(creators) => creator_fee_plan(creators, remaining_accounts, &terms),
            None => Err(TransitionError::Program(ErrorCode::MetadataDoesntExist)),
        }
    } else {
        Ok(Vec::new())
    }
}

fn plan_checked(
    ledger: &Ledger,
    accounts: &Swap,
    remaining_accounts: &Vec<Pubkey>,
    signers: &Vec<Pubkey>,
) -> (planned: Result<(SwapTerms, Vec<Invocation>), TransitionError>)
    requires
        ledger.wf(),
    ensures
        match planned {
            Ok((terms, plan)) => swap_check(ledger@, *accounts, signers@) == Ok::<
                SwapTerms,
                TransitionError,
            >(terms) && swap_plan(ledger@, *accounts, remaining_accounts@, signers@) == Ok::<
                Seq<Invocation>,
                TransitionError,
            >(plan@),
            Err(error) => swap_plan(ledger@, *accounts, remaining_accounts@, signers@) == Err::<
                Seq<Invocation>,
                TransitionError,
            >(error),
        },
{
    let terms = match check_swap(ledger, accounts, signers) {
        Ok(terms) => terms,
        Err(error) => {
            return Err(error);
        },
    };
    let mut fees = match plan_fees(ledger, accounts, remaining_accounts, &terms.record) {
        Ok(fees) => fees,
        Err(error) => {
            return Err(error);
        },
    };
    let mut plan: Vec<Invocation> = Vec::new();
    plan_creation_if_absent(
        ledger,
        &accounts.replacement_token,
        &accounts.replacement_token_mint,
        &accounts.payer,
        &accounts.payer,
        ProgramSigner::Unsigned,
        &mut plan,
    );
    let (deposit_escrow, release_escrow) = match terms.presented {
        Side::A => (accounts.token_a_escrow, accounts.token_b_escrow),
        Side::B => (accounts.token_b_escrow, accounts.token_a_escrow),
    };
    plan.push(
        Invocation::TokenTransfer {
            source: accounts.token,
            destination: deposit_escrow,
            authority: accounts.transfer_authority,
            amount: terms.supply,
            signer: ProgramSigner::Unsigned,
        },
    );
    plan.push(
        Invocation::TokenTransfer {
            source: release_escrow,
            destination: accounts.replacement_token,
            authority: accounts.entangled_pair,
            amount: terms.replacement_supply,
            signer: ProgramSigner::Pair {
                mint_a: terms.record.mint_a,
                mint_b: terms.record.mint_b,
                bump: terms.record.bump,
            },
        },
    );
    assert(plan@ =~= exchange_plan(ledger@, *accounts, terms));
    plan.append(&mut fees);
    Ok((terms, plan))
}

/// Tests the preconditions of a swap and plans what it asks of the custody
/// layer. Nothing is changed.
pub fn plan_swap(
    ledger: &Ledger,
    accounts: &Swap,
    remaining_accounts: &Vec<Pubkey>,
    signers: &Vec<Pubkey>,
) -> (planned: Result<Vec<Invocation>, TransitionError>)
    requires
        ledger.wf(),
    ensures
        match planned {
            Ok(plan) => swap_plan(ledger@, *accounts, remaining_accounts@, signers@) == Ok::<
                Seq<Invocation>,
                TransitionError,
            >(plan@),
            Err(error) => swap_plan(ledger@, *accounts, remaining_accounts@, signers@) == Err::<
                Seq<Invocation>,
                TransitionError,
            >(error),
        },
{
    match plan_checked(ledger, accounts, remaining_accounts, signers) {
        Ok((_, plan)) => Ok(plan),
        Err(error) => Err(error),
    }
}

/// Exchanges the presented asset of a pair for the other.
///
/// The payer and the transfer authority must be among the signers of the
/// transaction. The whole supply of the presented asset moves from the caller's account
/// into the escrow of its side; the whole supply of the other asset moves from
/// the opposite escrow into the caller's destination account, on the word of
/// the record; where nothing was paid yet, or the record asks for payment every
/// time, the price is split among the creators of the replacement; and the
/// record is marked as paid. Returns what was asked of the custody layer. An
/// aborted swap changes nothing.
pub fn swap(
    ledger: &mut Ledger,
    accounts: &Swap,
    remaining_accounts: &Vec<Pubkey>,
    signers: &Vec<Pubkey>,
) -> (swapped: Result<Vec<Invocation>, TransitionError>)
    requires
        old(ledger).wf(),
    ensures
        final(ledger).wf(),
        final(ledger)@ == after_swap(old(ledger)@, *accounts, remaining_accounts@, signers@),
        match swapped {
            Ok(plan) => swap_outcome(old(ledger)@, *accounts, remaining_accounts@, signers@)
                == Ok::<(Seq<Invocation>, LedgerState), TransitionError>((plan@, final(ledger)@)),
            Err(error) => swap_outcome(old(ledger)@, *accounts, remaining_accounts@, signers@)
                == Err::<(Seq<Invocation>, LedgerState), TransitionError>(error),
        },
{
    let (terms, plan) = match plan_checked(ledger, accounts, remaining_accounts, signers) {
        Ok(planned) => planned,
        Err(error) => {
            return Err(error);
        },
    };
    match execute_all(ledger, &plan) {
        Ok(()) => {},
        Err(error) => {
            return Err(TransitionError::Custody(error));
        },
    }
    let record = terms.record;
    ledger.set_data(
        accounts.entangled_pair,
        AccountData::Pair(
            EntangledPair {
                treasury_mint: record.treasury_mint,
                mint_a: record.mint_a,
                mint_b: record.mint_b,
                token_a_escrow: record.token_a_escrow,
                token_b_escrow: record.token_b_escrow,
                authority: record.authority,
                bump: record.bump,
                token_a_escrow_bump: record.token_a_escrow_bump,
                token_b_escrow_bump: record.token_b_escrow_bump,
                price: record.price,
                paid: true,
                pays_every_time: record.pays_every_time,
            },
        ),
    );
    Ok(plan)
}

} // verus!
