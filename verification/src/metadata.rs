//! The link between an asset and its metadata and edition records.

use crate::address::{
    is_edition_address, is_metadata_address, verify_edition_address, verify_metadata_address,
};
use crate::error::ErrorCode;
use crate::ledger::{Ledger, LedgerState};
use crate::pubkey::Pubkey;
use vstd::prelude::*;

verus! {

/// Whether the account at `metadata` is the metadata record of the asset: it
/// lies at the address that the asset's identity derives, and holds a record.
pub open spec fn is_metadata_of(state: LedgerState, metadata: Pubkey, mint: Pubkey) -> bool {
    is_metadata_address(metadata, mint) && state.data(metadata) is Metadata
}

/// Whether the account at `edition` is the edition record of the asset.
pub open spec fn is_edition_of(state: LedgerState, edition: Pubkey, mint: Pubkey) -> bool {
    is_edition_address(edition, mint) && state.data(edition) is Edition
}

/// The edition record that a caller supplies with an account: the account,
/// where it holds any data, else none.
pub open spec fn supplied_edition(state: LedgerState, edition: Pubkey) -> Option<Pubkey> {
    if state.data(edition) is Empty {
        None
    } else {
        Some(edition)
    }
}

/// What `assert_metadata_valid` answers.
pub open spec fn metadata_check(
    state: LedgerState,
    metadata: Pubkey,
    edition: Option<Pubkey>,
    mint: Pubkey,
) -> Result<(), ErrorCode> {
    if !is_metadata_of(state, metadata, mint) {
        Err(ErrorCode::MetadataDoesntExist)
    } else if edition is Some && !is_edition_of(state, edition->0, mint) {
        Err(ErrorCode::EditionDoesntExist)
    } else {
        Ok(())
    }
}

/// Confirms that a metadata record, and an edition record where one is
/// supplied, belong to the asset.
pub fn assert_metadata_valid(
    ledger: &Ledger,
    metadata: &Pubkey,
    edition: Option<Pubkey>,
    mint: &Pubkey,
) -> (checked: Result<(), ErrorCode>)
    requires
        ledger.wf(),
    ensures
        checked == metadata_check(ledger@, *metadata, edition, *mint),
{
    if ledger.creators(metadata).is_none() || !verify_metadata_address(metadata, mint) {
        return Err(ErrorCode::MetadataDoesntExist);
    }
    match edition {
        Some(edition) => {
            if !ledger.is_edition(&edition) || !verify_edition_address(&edition, mint) {
                return Err(ErrorCode::EditionDoesntExist);
            }
        },
        None => {},
    }
    Ok(())
}

/// The edition record that a caller supplies with an account.
pub fn edition_if_supplied(ledger: &Ledger, edition: &Pubkey) -> (supplied: Option<Pubkey>)
    requires
        ledger.wf(),
    ensures
        supplied == supplied_edition(ledger@, *edition),
{
    if ledger.data_is_empty(edition) {
        None
    } else {
        Some(*edition)
    }
}

} // verus!
