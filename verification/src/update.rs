//! The update of the terms of a pair.

use crate::account::{AccountData, DataView, EntangledPair};
use crate::address::{is_pair_address, verify_pair_address};
use crate::error::{ErrorCode, TransitionError};
use crate::ledger::{Ledger, LedgerState};
use crate::pubkey::Pubkey;
use vstd::prelude::*;

verus! {

/// The accounts of an update of a pair's terms.
#[derive(Clone, Copy, Debug, PartialEq, Eq)]
pub struct UpdateEntangledPair {
    pub authority: Pubkey,
    pub new_authority: Pubkey,
    pub entangled_pair: Pubkey,
}

/// The first precondition of an update that does not hold, in the order in
/// which they are tested; the record where all hold.
pub open spec fn update_check(
    state: LedgerState,
    accounts: UpdateEntangledPair,
    signers: Seq<Pubkey>,
) -> Result<EntangledPair, TransitionError> {
    if !signers.contains(accounts.authority) {
        Err(TransitionError::AccountNotSigner)
    } else {
        match state.pair(accounts.entangled_pair) {
            Err(error) => Err(TransitionError::Program(error)),
            Ok(record) => if !is_pair_address(
                accounts.entangled_pair,
                record.mint_a,
                record.mint_b,
                record.bump,
            ) {
                Err(TransitionError::Program(ErrorCode::DerivedKeyInvalid))
            } else if record.authority != accounts.authority {
                Err(TransitionError::HasOneConstraintViolation)
            } else {
                Ok(record)
            },
        }
    }
}

/// The record after an update: a new authority, price and payment cadence,
/// the rest as it was.
pub open spec fn updated_record(
    record: EntangledPair,
    new_authority: Pubkey,
    price: u64,
    pays_every_time: bool,
) -> EntangledPair {
    EntangledPair { authority: new_authority, price, pays_every_time, ..record }
}

/// What an update does: the ledger after it, or why it is aborted.
pub open spec fn update_outcome(
    state: LedgerState,
    accounts: UpdateEntangledPair,
    signers: Seq<Pubkey>,
    price: u64,
    pays_every_time: bool,
) -> Result<LedgerState, TransitionError> {
    match update_check(state, accounts, signers) {
        Err(error) => Err(error),
        Ok(record) => Ok(
            state.with_data(
                accounts.entangled_pair,
                DataView::Pair(
                    updated_record(record, accounts.new_authority, price, pays_every_time),
                ),
            ),
        ),
    }
}

/// The ledger after an update: as the update leaves it, or as it was where the
/// update is aborted.
pub open spec fn after_update(
    state: LedgerState,
    accounts: UpdateEntangledPair,
    signers: Seq<Pubkey>,
    price: u64,
    pays_every_time: bool,
) -> LedgerState {
    match update_outcome(state, accounts, signers, price, pays_every_time) {
        Ok(after) => after,
        Err(_) => state,
    }
}

/// Replaces the authority, the price and the payment cadence of a pair, on the
/// word of its present authority, which must be among the signers of the
/// transaction. No token moves. An aborted update changes
/// nothing.
pub fn update_entangled_pair(
    ledger: &mut Ledger,
    accounts: &UpdateEntangledPair,
    signers: &Vec<Pubkey>,
    price: u64,
    pays_every_time: bool,
) -> (updated: Result<(), TransitionError>)
    requires
        old(ledger).wf(),
    ensures
        final(ledger).wf(),
        final(ledger)@ == after_update(old(ledger)@, *accounts, signers@, price, pays_every_time),
        match updated {
            Ok(()) => update_outcome(old(ledger)@, *accounts, signers@, price, pays_every_time) is Ok,
            Err(error) => update_outcome(old(ledger)@, *accounts, signers@, price, pays_every_time)
                == Err::<LedgerState, TransitionError>(error),
        },
{
    if !accounts.authority.is_among(signers) {
        return Err(TransitionError::AccountNotSigner);
    }
    let record = match ledger.pair(&accounts.entangled_pair) {
        Ok(record) => record,
        Err(error) => {
            return Err(TransitionError::Program(error));
        },
    };
    if !verify_pair_address(
        &accounts.entangled_pair,
        &record.mint_a,
        &record.mint_b,
        record.bump,
    ) {
        return Err(TransitionError::Program(ErrorCode::DerivedKeyInvalid));
    }
    if record.authority != accounts.authority {
        return Err(TransitionError::HasOneConstraintViolation);
    }
    ledger.set_data(
        accounts.entangled_pair,
        AccountData::Pair(
            EntangledPair {
                treasury_mint: record.treasury_mint,
                mint_a: record.mint_a,
                mint_b: record.mint_b,
                token_a_escrow: record.token_a_escrow,
                token_b_escrow: record.token_b_escrow,
                authority: accounts.new_authority,
                bump: record.bump,
                token_a_escrow_bump: record.token_a_escrow_bump,
                token_b_escrow_bump: record.token_b_escrow_bump,
                price,
                paid: record.paid,
                pays_every_time,
            },
        ),
    );
    Ok(())
}

} // verus!
