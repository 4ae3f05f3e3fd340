//! What the accounts of the ledger hold.

use crate::pubkey::Pubkey;
use vstd::prelude::*;

verus! {

/// The issuance of one asset: how many raw units exist, and how many decimal
/// places a displayed amount has.
#[derive(Clone, Copy, Debug, PartialEq, Eq)]
pub struct Mint {
    pub supply: u64,
    pub decimals: u8,
}

/// A holding of one asset: which asset, who owns it, how much, and whom the
/// owner has allowed to move how much of it.
#[derive(Clone, Copy, Debug, PartialEq, Eq)]
pub struct TokenAccount {
    pub mint: Pubkey,
    pub owner: Pubkey,
    pub amount: u64,
    pub delegate: Option<Pubkey>,
    pub delegated_amount: u64,
}

impl TokenAccount {
    /// A holding without a delegate.
    pub fn new(mint: Pubkey, owner: Pubkey, amount: u64) -> (token: TokenAccount)
        ensures
            token == (TokenAccount { mint, owner, amount, delegate: None, delegated_amount: 0 }),
    {
        TokenAccount { mint, owner, amount, delegate: None, delegated_amount: 0 }
    }
}

/// A royalty recipient named by an asset's metadata, with its share in percent.
#[derive(Clone, Copy, Debug, PartialEq, Eq)]
pub struct Creator {
    pub address: Pubkey,
    pub share: u8,
}

/// The metadata record of an asset, as far as the protocol reads it.
#[derive(Debug, PartialEq, Eq)]
pub struct Metadata {
    pub creators: Vec<Creator>,
}

/// The record that binds two assets to each other.
#[derive(Clone, Copy, Debug, PartialEq, Eq)]
pub struct EntangledPair {
    pub treasury_mint: Pubkey,
    pub mint_a: Pubkey,
    pub mint_b: Pubkey,
    pub token_a_escrow: Pubkey,
    pub token_b_escrow: Pubkey,
    pub authority: Pubkey,
    pub bump: u8,
    pub token_a_escrow_bump: u8,
    pub token_b_escrow_bump: u8,
    pub price: u64,
    pub paid: bool,
    pub pays_every_time: bool,
}

/// The bytes that the record of a pair takes on the ledger: a tag of eight
/// bytes, six addresses, three bumps, the price and the flag of payment, and
/// room kept for what may be added.
pub const ENTANGLED_PAIR_SIZE: usize = 8 + 32 + 32 + 32 + 32 + 32 + 32 + 1 + 1 + 1 + 8 + 1 + 200;

/// What an account holds.
#[derive(Debug, PartialEq, Eq)]
pub enum AccountData {
    Empty,
    Mint(Mint),
    Token(TokenAccount),
    Metadata(Metadata),
    Edition,
    Pair(EntangledPair),
    /// Data that the protocol does not read.
    Other,
}

/// An account of the ledger: its balance of native currency and its data.
#[derive(Debug, PartialEq, Eq)]
pub struct Account {
    pub lamports: u64,
    pub data: AccountData,
}

/// What an account holds, as a mathematical value.
pub enum DataView {
    Empty,
    Mint(Mint),
    Token(TokenAccount),
    Metadata(Seq<Creator>),
    Edition,
    Pair(EntangledPair),
    Other,
}

/// An account as a mathematical value.
pub struct AccountView {
    pub lamports: u64,
    pub data: DataView,
}

impl View for AccountData {
    type V = DataView;

    open spec fn view(&self) -> DataView {
        match *self {
            AccountData::Empty => DataView::Empty,
            AccountData::Mint(mint) => DataView::Mint(mint),
            AccountData::Token(token) => DataView::Token(token),
            AccountData::Metadata(metadata) => DataView::Metadata(metadata.creators@),
            AccountData::Edition => DataView::Edition,
            AccountData::Pair(pair) => DataView::Pair(pair),
            AccountData::Other => DataView::Other,
        }
    }
}

impl View for Account {
    type V = AccountView;

    open spec fn view(&self) -> AccountView {
        AccountView { lamports: self.lamports, data: self.data@ }
    }
}

impl AccountView {
    /// The account of an address that nothing was ever written to.
    pub open spec fn empty() -> AccountView {
        AccountView { lamports: 0, data: DataView::Empty }
    }
}

impl Clone for Metadata {
    fn clone(&self) -> (copy: Metadata)
        ensures
            copy.creators@ == self.creators@,
    {
        let mut creators: Vec<Creator> = Vec::new();
        let mut i: usize = 0;
        while i < self.creators.len()
            invariant
                i <= self.creators.len(),
                creators@ == self.creators@.subrange(0, i as int),
            decreases self.creators.len() - i,
        {
            creators.push(self.creators[i]);
            i = i + 1;
            assert(creators@ =~= self.creators@.subrange(0, i as int));
        }
        assert(creators@ =~= self.creators@);
        Metadata { creators }
    }
}

impl Clone for AccountData {
    fn clone(&self) -> (copy: AccountData)
        ensures
            copy@ == self@,
    {
        match self {
            AccountData::Empty => AccountData::Empty,
            AccountData::Mint(mint) => AccountData::Mint(*mint),
            AccountData::Token(token) => AccountData::Token(*token),
            AccountData::Metadata(metadata) => AccountData::Metadata(metadata.clone()),
            AccountData::Edition => AccountData::Edition,
            AccountData::Pair(pair) => AccountData::Pair(*pair),
            AccountData::Other => AccountData::Other,
        }
    }
}

impl Clone for Account {
    fn clone(&self) -> (copy: Account)
        ensures
            copy@ == self@,
    {
        Account { lamports: self.lamports, data: self.data.clone() }
    }
}

impl Account {
    /// An account without balance or data.
    pub fn empty() -> (account: Account)
        ensures
            account@ == AccountView::empty(),
    {
        Account { lamports: 0, data: AccountData::Empty }
    }
}

} // verus!
