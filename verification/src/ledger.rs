//! The ledger: a store of accounts by address.

use crate::account::{
    Account, AccountData, AccountView, Creator, DataView, EntangledPair, Mint, TokenAccount,
};
use crate::error::ErrorCode;
use crate::pubkey::Pubkey;
use vstd::prelude::*;

verus! {

/// The ledger as a mathematical value: what every address holds, and what it
/// costs to keep a token account.
pub struct LedgerState {
    pub accounts: Map<Pubkey, AccountView>,
    pub token_account_rent: u64,
}

impl LedgerState {
    /// The account at an address. An address that was never written to holds
    /// the empty account.
    pub open spec fn account(self, key: Pubkey) -> AccountView {
        if self.accounts.contains_key(key) {
            self.accounts[key]
        } else {
            AccountView::empty()
        }
    }

    /// The data at an address.
    pub open spec fn data(self, key: Pubkey) -> DataView {
        self.account(key).data
    }

    /// The native balance of an address.
    pub open spec fn lamports(self, key: Pubkey) -> u64 {
        self.account(key).lamports
    }

    /// The ledger with one account replaced.
    pub open spec fn with_account(self, key: Pubkey, account: AccountView) -> LedgerState {
        LedgerState { accounts: self.accounts.insert(key, account), ..self }
    }

    /// The ledger with the data of one account replaced.
    pub open spec fn with_data(self, key: Pubkey, data: DataView) -> LedgerState {
        self.with_account(key, AccountView { lamports: self.lamports(key), data })
    }

    /// The ledger with the native balance of one account replaced.
    pub open spec fn with_lamports(self, key: Pubkey, lamports: u64) -> LedgerState {
        self.with_account(key, AccountView { lamports, data: self.data(key) })
    }

    /// The mint at an address. An address without data gives
    /// `UninitializedAccount`, one with other data `IncorrectOwner`.
    pub open spec fn mint(self, key: Pubkey) -> Result<Mint, ErrorCode> {
        match self.data(key) {
            DataView::Mint(mint) => Ok(mint),
            DataView::Empty => Err(ErrorCode::UninitializedAccount),
            _ => Err(ErrorCode::IncorrectOwner),
        }
    }

    /// The token account at an address. An address without data gives
    /// `UninitializedAccount`, one with other data `IncorrectOwner`.
    pub open spec fn token(self, key: Pubkey) -> Result<TokenAccount, ErrorCode> {
        match self.data(key) {
            DataView::Token(token) => Ok(token),
            DataView::Empty => Err(ErrorCode::UninitializedAccount),
            _ => Err(ErrorCode::IncorrectOwner),
        }
    }

    /// The record of a pair at an address. An address without data gives
    /// `UninitializedAccount`, one with other data `IncorrectOwner`.
    pub open spec fn pair(self, key: Pubkey) -> Result<EntangledPair, ErrorCode> {
        match self.data(key) {
            DataView::Pair(pair) => Ok(pair),
            DataView::Empty => Err(ErrorCode::UninitializedAccount),
            _ => Err(ErrorCode::IncorrectOwner),
        }
    }

    /// The creators that the metadata record at an address names, if one is
    /// there.
    pub open spec fn creators(self, key: Pubkey) -> Option<Seq<Creator>> {
        match self.data(key) {
            DataView::Metadata(creators) => Some(creators),
            _ => None,
        }
    }

    /// The number of tokens that the account at an address holds: none where it
    /// is no token account.
    pub open spec fn token_amount(self, key: Pubkey) -> u64 {
        match self.data(key) {
            DataView::Token(token) => token.amount,
            _ => 0,
        }
    }
}

struct Entry {
    key: Pubkey,
    account: Account,
}

/// The ledger: a store of accounts by address.
pub struct Ledger {
    entries: Vec<Entry>,
    token_account_rent: u64,
}

impl View for Ledger {
    type V = LedgerState;

    closed spec fn view(&self) -> LedgerState {
        LedgerState {
            accounts: Map::new(
                |key: Pubkey| self.holds(key),
                |key: Pubkey| self.entries[self.index_of(key)].account@,
            ),
            token_account_rent: self.token_account_rent,
        }
    }
}

impl Ledger {
    spec fn holds(&self, key: Pubkey) -> bool {
        exists|i: int| 0 <= i < self.entries.len() && #[trigger] self.entries[i].key == key
    }

    spec fn index_of(&self, key: Pubkey) -> int {
        choose|i: int| 0 <= i < self.entries.len() && #[trigger] self.entries[i].key == key
    }

    /// No address is stored twice.
    pub closed spec fn wf(&self) -> bool {
        forall|i: int, j: int|
            0 <= i < self.entries.len() && 0 <= j < self.entries.len() && i != j ==> (
            #[trigger] self.entries[i]).key != (#[trigger] self.entries[j]).key
    }

    /// A ledger without accounts, on which a token account costs the given
    /// amount of native currency to keep.
    pub fn new(token_account_rent: u64) -> (ledger: Ledger)
        ensures
            ledger.wf(),
            ledger@ == (LedgerState { accounts: Map::empty(), token_account_rent }),
    {
        let ledger = Ledger { entries: Vec::new(), token_account_rent };
        assert(ledger@.accounts =~= Map::empty());
        ledger
    }

    /// What it costs to keep a token account.
    pub fn token_account_rent(&self) -> (rent: u64)
        ensures
            rent == self@.token_account_rent,
    {
        self.token_account_rent
    }

    fn position(&self, key: &Pubkey) -> (found: Option<usize>)
        requires
            self.wf(),
        ensures
            match found {
                Some(i) => i < self.entries.len() && self.entries[i as int].key == *key
                    && self.holds(*key) && self.index_of(*key) == i,
                None => !self.holds(*key),
            },
    {
        let mut i: usize = 0;
        while i < self.entries.len()
            invariant
                self.wf(),
                i <= self.entries.len(),
                forall|j: int| 0 <= j < i ==> (#[trigger] self.entries[j]).key != *key,
            decreases self.entries.len() - i,
        {
            if self.entries[i].key == *key {
                assert(self.entries[i as int].key == *key);
                return Some(i);
            }
            i = i + 1;
        }
        None
    }

    /// The account stored at an address, if one is.
    pub fn account(&self, key: &Pubkey) -> (found: Option<&Account>)
        requires
            self.wf(),
        ensures
            match found {
                Some(account) => self@.accounts.contains_key(*key) && self@.accounts[*key]
                    == account@,
                None => !self@.accounts.contains_key(*key),
            },
    {
        match self.position(key) {
            Some(i) => Some(&self.entries[i].account),
            None => None,
        }
    }

    /// Stores an account at an address, in place of what was there.
    pub fn set_account(&mut self, key: Pubkey, account: Account)
        requires
            old(self).wf(),
        ensures
            final(self).wf(),
            final(self)@ == old(self)@.with_account(key, account@),
    {
        let ghost before = *self;
        let ghost value = account@;
        match self.position(&key) {
            Some(i) => {
                self.entries.set(i, Entry { key, account });
                assert forall|other: Pubkey| self.holds(other) == before.holds(other) by {
                    if self.holds(other) {
                        let j = self.index_of(other);
                        assert(before.entries[j].key == other);
                    }
                    if before.holds(other) {
                        let j = before.index_of(other);
                        assert(self.entries[j].key == other);
                    }
                }
                assert forall|other: Pubkey| self.holds(other) implies #[trigger] self@.accounts[other]
                    == before@.with_account(key, value).accounts[other] by {
                    let j = self.index_of(other);
                    assert(before.entries[j].key == other);
                    if other != key {
                        assert(before.index_of(other) == j);
                    }
                }
            },
            None => {
                self.entries.push(Entry { key, account });
                let ghost n = before.entries.len() as int;
                assert(self.entries[n].key == key);
                assert forall|other: Pubkey| self.holds(other) == (before.holds(other) || other
                    == key) by {
                    if before.holds(other) {
                        let j = before.index_of(other);
                        assert(self.entries[j].key == other);
                    }
                }
                assert forall|other: Pubkey| self.holds(other) implies #[trigger] self@.accounts[other]
                    == before@.with_account(key, value).accounts[other] by {
                    let j = self.index_of(other);
                    if other != key {
                        assert(before.entries[j].key == other);
                        assert(before.index_of(other) == j);
                    }
                }
            },
        }
        assert(self@.accounts =~= before@.with_account(key, value).accounts);
    }

    /// The native balance of an address.
    pub fn lamports(&self, key: &Pubkey) -> (lamports: u64)
        requires
            self.wf(),
        ensures
            lamports == self@.lamports(*key),
    {
        match self.account(key) {
            Some(account) => account.lamports,
            None => 0,
        }
    }

    /// Whether an address holds no data.
    pub fn data_is_empty(&self, key: &Pubkey) -> (empty: bool)
        requires
            self.wf(),
        ensures
            empty == (self@.data(*key) is Empty),
    {
        match self.account(key) {
            Some(account) => match &account.data {
                AccountData::Empty => true,
                _ => false,
            },
            None => true,
        }
    }

    /// Whether an address holds an edition record.
    pub fn is_edition(&self, key: &Pubkey) -> (edition: bool)
        requires
            self.wf(),
        ensures
            edition == (self@.data(*key) is Edition),
    {
        match self.account(key) {
            Some(account) => match &account.data {
                AccountData::Edition => true,
                _ => false,
            },
            None => false,
        }
    }

    /// The mint at an address.
    pub fn mint(&self, key: &Pubkey) -> (mint: Result<Mint, ErrorCode>)
        requires
            self.wf(),
        ensures
            mint == self@.mint(*key),
    {
        match self.account(key) {
            Some(account) => match &account.data {
                AccountData::Mint(mint) => Ok(*mint),
                AccountData::Empty => Err(ErrorCode::UninitializedAccount),
                _ => Err(ErrorCode::IncorrectOwner),
            },
            None => Err(ErrorCode::UninitializedAccount),
        }
    }

    /// The token account at an address.
    pub fn token(&self, key: &Pubkey) -> (token: Result<TokenAccount, ErrorCode>)
        requires
            self.wf(),
        ensures
            token == self@.token(*key),
    {
        match self.account(key) {
            Some(account) => match &account.data {
                AccountData::Token(token) => Ok(*token),
                AccountData::Empty => Err(ErrorCode::UninitializedAccount),
                _ => Err(ErrorCode::IncorrectOwner),
            },
            None => Err(ErrorCode::UninitializedAccount),
        }
    }

    /// The record of a pair at an address.
    pub fn pair(&self, key: &Pubkey) -> (pair: Result<EntangledPair, ErrorCode>)
        requires
            self.wf(),
        ensures
            pair == self@.pair(*key),
    {
        match self.account(key) {
            Some(account) => match &account.data {
                AccountData::Pair(pair) => Ok(*pair),
                AccountData::Empty => Err(ErrorCode::UninitializedAccount),
                _ => Err(ErrorCode::IncorrectOwner),
            },
            None => Err(ErrorCode::UninitializedAccount),
        }
    }

    /// The creators that the metadata record at an address names, if one is
    /// there.
    pub fn creators(&self, key: &Pubkey) -> (creators: Option<&Vec<Creator>>)
        requires
            self.wf(),
        ensures
            match creators {
                Some(list) => self@.creators(*key) == Some(list@),
                None => self@.creators(*key) is None,
            },
    {
        match self.account(key) {
            Some(account) => match &account.data {
                AccountData::Metadata(metadata) => Some(&metadata.creators),
                _ => None,
            },
            None => None,
        }
    }

    /// The number of tokens that the account at an address holds.
    pub fn token_amount(&self, key: &Pubkey) -> (amount: u64)
        requires
            self.wf(),
        ensures
            amount == self@.token_amount(*key),
    {
        match self.token(key) {
            Ok(token) => token.amount,
            Err(_) => 0,
        }
    }

    /// Replaces the native balance of an address and keeps its data.
    pub fn set_lamports(&mut self, key: Pubkey, lamports: u64)
        requires
            old(self).wf(),
        ensures
            final(self).wf(),
            final(self)@ == old(self)@.with_lamports(key, lamports),
    {
        let account = match self.account(&key) {
            Some(account) => {
                let mut copy = account.clone();
                copy.lamports = lamports;
                copy
            },
            None => Account { lamports, data: AccountData::Empty },
        };
        self.set_account(key, account);
    }

    /// Replaces the data of an address and keeps its native balance.
    pub fn set_data(&mut self, key: Pubkey, data: AccountData)
        requires
            old(self).wf(),
        ensures
            final(self).wf(),
            final(self)@ == old(self)@.with_data(key, data@),
    {
        let lamports = self.lamports(&key);
        self.set_account(key, Account { lamports, data });
    }

    /// A copy of the ledger.
    pub fn duplicate(&self) -> (copy: Ledger)
        requires
            self.wf(),
        ensures
            copy.wf(),
            copy@ == self@,
    {
        let mut entries: Vec<Entry> = Vec::new();
        let mut i: usize = 0;
        while i < self.entries.len()
            invariant
                i <= self.entries.len(),
                entries.len() == i,
                forall|j: int|
                    0 <= j < i ==> (#[trigger] entries[j]).key == self.entries[j].key
                        && entries[j].account@ == self.entries[j].account@,
            decreases self.entries.len() - i,
        {
            let entry = &self.entries[i];
            entries.push(Entry { key: entry.key, account: entry.account.clone() });
            i = i + 1;
        }
        let copy = Ledger { entries, token_account_rent: self.token_account_rent };
        assert forall|key: Pubkey| copy.holds(key) == self.holds(key) by {
            if copy.holds(key) {
                let j = copy.index_of(key);
                assert(self.entries[j].key == key);
            }
            if self.holds(key) {
                let j = self.index_of(key);
                assert(copy.entries[j].key == key);
            }
        }
        assert forall|key: Pubkey| copy.holds(key) implies #[trigger] copy@.accounts[key]
            == self@.accounts[key] by {
            let j = copy.index_of(key);
            assert(self.entries[j].key == key);
            assert(self.index_of(key) == j);
        }
        assert(copy@.accounts =~= self@.accounts);
        copy
    }
}

} // verus!
