//! A verified model of the token entangler: a protocol that links two unique
//! assets so that whoever presents one of them receives the other from escrow.
//!
//! The ledger is a store of accounts by address. Three transitions act on it:
//! the creation of a pair, the update of its terms, and the swap. Each tests
//! its preconditions in a fixed order, plans what it asks of the custody layer,
//! and makes those invocations all or none. What each does is stated over a
//! mathematical view of the ledger, and the laws of the protocol are proved
//! from those statements.

pub mod account;
pub mod address;
pub mod create;
pub mod custody;
pub mod error;
pub mod fees;
pub mod laws;
pub mod ledger;
pub mod metadata;
pub mod mint;
pub mod programs;
pub mod pubkey;
pub mod swap;
pub mod update;

pub use crate::account::{Account, AccountData, Creator, EntangledPair, Metadata, Mint, TokenAccount};
pub use crate::create::{create_entangled_pair, CreateEntangledPair};
pub use crate::custody::{Invocation, ProgramSigner};
pub use crate::error::{CustodyError, ErrorCode, TransitionError};
pub use crate::ledger::Ledger;
pub use crate::pubkey::Pubkey;
pub use crate::swap::{swap, Swap};
pub use crate::update::{update_entangled_pair, UpdateEntangledPair};
