//! Why a transition is aborted.

use vstd::prelude::*;

verus! {

/// The program's own error codes.
#[derive(Clone, Copy, Debug, PartialEq, Eq, Structural)]
pub enum ErrorCode {
    PublicKeyMismatch,
    InvalidMintAuthority,
    UninitializedAccount,
    IncorrectOwner,
    PublicKeysShouldBeUnique,
    StatementFalse,
    NotRentExempt,
    NumericalOverflow,
    DerivedKeyInvalid,
    MetadataDoesntExist,
    EditionDoesntExist,
    InvalidTokenAmount,
    InvalidMint,
    EntangledPairExists,
    MustHaveSupplyOne,
}

impl ErrorCode {
    /// The place of the code in the list of codes, from 0.
    pub open spec fn position(self) -> nat {
        match self {
            ErrorCode::PublicKeyMismatch => 0,
            ErrorCode::InvalidMintAuthority => 1,
            ErrorCode::UninitializedAccount => 2,
            ErrorCode::IncorrectOwner => 3,
            ErrorCode::PublicKeysShouldBeUnique => 4,
            ErrorCode::StatementFalse => 5,
            ErrorCode::NotRentExempt => 6,
            ErrorCode::NumericalOverflow => 7,
            ErrorCode::DerivedKeyInvalid => 8,
            ErrorCode::MetadataDoesntExist => 9,
            ErrorCode::EditionDoesntExist => 10,
            ErrorCode::InvalidTokenAmount => 11,
            ErrorCode::InvalidMint => 12,
            ErrorCode::EntangledPairExists => 13,
            ErrorCode::MustHaveSupplyOne => 14,
        }
    }

    /// What the code says to a reader.
    pub open spec fn message_text(self) -> Seq<char> {
        match self {
            ErrorCode::PublicKeyMismatch => "PublicKeyMismatch"@,
            ErrorCode::InvalidMintAuthority => "InvalidMintAuthority"@,
            ErrorCode::UninitializedAccount => "UninitializedAccount"@,
            ErrorCode::IncorrectOwner => "IncorrectOwner"@,
            ErrorCode::PublicKeysShouldBeUnique => "PublicKeysShouldBeUnique"@,
            ErrorCode::StatementFalse => "StatementFalse"@,
            ErrorCode::NotRentExempt => "NotRentExempt"@,
            ErrorCode::NumericalOverflow => "NumericalOverflow"@,
            ErrorCode::DerivedKeyInvalid => "Derived key invalid"@,
            ErrorCode::MetadataDoesntExist => "Metadata doesn't exist"@,
            ErrorCode::EditionDoesntExist => "Edition doesn't exist"@,
            ErrorCode::InvalidTokenAmount => "Invalid token amount"@,
            ErrorCode::InvalidMint => "This token is not a valid mint for this entangled pair"@,
            ErrorCode::EntangledPairExists => "This pair already exists as it's reverse"@,
            ErrorCode::MustHaveSupplyOne => "Must have supply one!"@,
        }
    }

    /// The number under which the code is reported: the program's codes are
    /// counted from 6000.
    pub fn code(&self) -> (code: u32)
        ensures
            code == 6000 + self.position(),
    {
        match self {
            ErrorCode::PublicKeyMismatch => 6000,
            ErrorCode::InvalidMintAuthority => 6001,
            ErrorCode::UninitializedAccount => 6002,
            ErrorCode::IncorrectOwner => 6003,
            ErrorCode::PublicKeysShouldBeUnique => 6004,
            ErrorCode::StatementFalse => 6005,
            ErrorCode::NotRentExempt => 6006,
            ErrorCode::NumericalOverflow => 6007,
            ErrorCode::DerivedKeyInvalid => 6008,
            ErrorCode::MetadataDoesntExist => 6009,
            ErrorCode::EditionDoesntExist => 6010,
            ErrorCode::InvalidTokenAmount => 6011,
            ErrorCode::InvalidMint => 6012,
            ErrorCode::EntangledPairExists => 6013,
            ErrorCode::MustHaveSupplyOne => 6014,
        }
    }

    /// What the code says to a reader.
    pub fn message(&self) -> (text: String)
        ensures
            text@ == self.message_text(),
    {
        match self {
            ErrorCode::PublicKeyMismatch => "PublicKeyMismatch".to_owned(),
            ErrorCode::InvalidMintAuthority => "InvalidMintAuthority".to_owned(),
            ErrorCode::UninitializedAccount => "UninitializedAccount".to_owned(),
            ErrorCode::IncorrectOwner => "IncorrectOwner".to_owned(),
            ErrorCode::PublicKeysShouldBeUnique => "PublicKeysShouldBeUnique".to_owned(),
            ErrorCode::StatementFalse => "StatementFalse".to_owned(),
            ErrorCode::NotRentExempt => "NotRentExempt".to_owned(),
            ErrorCode::NumericalOverflow => "NumericalOverflow".to_owned(),
            ErrorCode::DerivedKeyInvalid => "Derived key invalid".to_owned(),
            ErrorCode::MetadataDoesntExist => "Metadata doesn't exist".to_owned(),
            ErrorCode::EditionDoesntExist => "Edition doesn't exist".to_owned(),
            ErrorCode::InvalidTokenAmount => "Invalid token amount".to_owned(),
            ErrorCode::InvalidMint => "This token is not a valid mint for this entangled pair".to_owned(),
            ErrorCode::EntangledPairExists => "This pair already exists as it's reverse".to_owned(),
            ErrorCode::MustHaveSupplyOne => "Must have supply one!".to_owned(),
        }
    }
}

/// Why the custody layer refused a token or currency movement.
#[derive(Clone, Copy, Debug, PartialEq, Eq, Structural)]
pub enum CustodyError {
    /// The account to create already holds data.
    AccountInUse,
    /// An account that must hold a mint or a token balance holds something else.
    InvalidAccountData,
    /// The source holds fewer tokens than are to be moved, or less is
    /// delegated to the authority than it is to move.
    InsufficientFunds,
    /// The payer holds less native currency than is to be moved.
    InsufficientLamports,
    /// Source and destination hold tokens of different mints.
    MintMismatch,
    /// The authority named is neither the delegate nor the owner of the source.
    OwnerMismatch,
    /// The destination's balance would not fit its field.
    Overflow,
}

/// Why a transition was aborted. No transition that fails changes the ledger.
#[derive(Clone, Copy, Debug, PartialEq, Eq, Structural)]
pub enum TransitionError {
    /// One of the program's own codes.
    Program(ErrorCode),
    /// An account that must have signed the transaction has not.
    AccountNotSigner,
    /// The record does not name the account that was presented for one of its fields.
    HasOneConstraintViolation,
    /// Fewer accounts follow the named ones than there are creators to pay.
    NotEnoughAccountKeys,
    /// A failure of the custody layer, handed on unchanged.
    Custody(CustodyError),
}

} // verus!
