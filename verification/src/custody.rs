//! The custody layer: what the token program and the system program are asked
//! to do, and what that does to the ledger.
//!
//! An invocation is taken to be signed by the authority and the payer that it
//! names: whether they have signed is for the transition that makes it to
//! test, and for the programs that carry it out. Frozen accounts, accounts of
//! wrapped native currency and owners that are groups of signers are left out.

use crate::account::{AccountData, AccountView, DataView, TokenAccount};
use crate::address::{
    escrow_seed_list, escrow_seeds, is_associated_token_address, is_escrow_address,
    is_pair_address, pair_seed_list, pair_seeds, seeds_view, seeds_with_bump,
    verify_associated_token_address, with_bump, Side,
};
use crate::error::{CustodyError, ErrorCode};
use crate::ledger::{Ledger, LedgerState};
use crate::pubkey::Pubkey;
use vstd::prelude::*;

verus! {

/// Which address of this program signs an invocation. Only the program holds
/// the seeds of its derived addresses, so only it can sign for them.
#[derive(Clone, Copy, Debug, PartialEq, Eq)]
pub enum ProgramSigner {
    /// No address of this program: the caller's own signers authorise it.
    Unsigned,
    /// The record of a pair.
    Pair { mint_a: Pubkey, mint_b: Pubkey, bump: u8 },
    /// The escrow of one side of a pair.
    Escrow { mint_a: Pubkey, mint_b: Pubkey, side: Side, bump: u8 },
}

impl ProgramSigner {
    /// The seeds that sign, the bump last; none where the program does not sign.
    pub open spec fn seeds(self) -> Seq<Seq<u8>> {
        match self {
            ProgramSigner::Unsigned => Seq::empty(),
            ProgramSigner::Pair { mint_a, mint_b, bump } => with_bump(
                pair_seeds(mint_a, mint_b),
                bump,
            ),
            ProgramSigner::Escrow { mint_a, mint_b, side, bump } => with_bump(
                escrow_seeds(mint_a, mint_b, side),
                bump,
            ),
        }
    }

    /// Whether the seeds sign for the given address.
    pub open spec fn signs_for(self, address: Pubkey) -> bool {
        match self {
            ProgramSigner::Unsigned => false,
            ProgramSigner::Pair { mint_a, mint_b, bump } => is_pair_address(
                address,
                mint_a,
                mint_b,
                bump,
            ),
            ProgramSigner::Escrow { mint_a, mint_b, side, bump } => is_escrow_address(
                address,
                mint_a,
                mint_b,
                side,
                bump,
            ),
        }
    }

    /// The seeds that sign, the bump last; none where the program does not sign.
    pub fn seed_list(&self) -> (seeds: Vec<Vec<u8>>)
        ensures
            seeds_view(seeds@) == self.seeds(),
    {
        match self {
            ProgramSigner::Unsigned => {
                let seeds: Vec<Vec<u8>> = Vec::new();
                assert(seeds_view(seeds@) =~= Seq::<Seq<u8>>::empty());
                seeds
            },
            ProgramSigner::Pair { mint_a, mint_b, bump } => seeds_with_bump(
                &pair_seed_list(mint_a, mint_b),
                *bump,
            ),
            ProgramSigner::Escrow { mint_a, mint_b, side, bump } => seeds_with_bump(
                &escrow_seed_list(mint_a, mint_b, *side),
                *bump,
            ),
        }
    }
}

/// One request to the custody layer: what a transition asks the token program
/// or the system program to do.
#[derive(Clone, Copy, Debug, PartialEq, Eq)]
pub enum Invocation {
    /// Create at `account` a token account for `mint` that `owner` controls;
    /// `payer` pays for its storage.
    CreateTokenAccount { account: Pubkey, mint: Pubkey, owner: Pubkey, payer: Pubkey, signer: ProgramSigner },
    /// Move `amount` tokens from `source` to `destination` on the word of
    /// `authority`.
    TokenTransfer {
        source: Pubkey,
        destination: Pubkey,
        authority: Pubkey,
        amount: u64,
        signer: ProgramSigner,
    },
    /// Move `amount` of native currency from `from` to `to`.
    NativeTransfer { from: Pubkey, to: Pubkey, amount: u64 },
}

/// What creating a token account does to the ledger.
pub open spec fn apply_create(
    state: LedgerState,
    account: Pubkey,
    mint: Pubkey,
    owner: Pubkey,
    payer: Pubkey,
) -> Result<LedgerState, CustodyError> {
    let rent = state.token_account_rent;
    if !(state.data(account) is Empty) {
        Err(CustodyError::AccountInUse)
    } else if !(state.data(mint) is Mint) {
        Err(CustodyError::InvalidAccountData)
    } else if state.lamports(payer) < rent {
        Err(CustodyError::InsufficientLamports)
    } else {
        let paid = state.with_lamports(payer, (state.lamports(payer) - rent) as u64);
        if paid.lamports(account) + rent > u64::MAX {
            Err(CustodyError::Overflow)
        } else {
            Ok(
                paid.with_account(
                    account,
                    AccountView {
                        lamports: (paid.lamports(account) + rent) as u64,
                        data: DataView::Token(
                            TokenAccount {
                                mint,
                                owner,
                                amount: 0,
                                delegate: None,
                                delegated_amount: 0,
                            },
                        ),
                    },
                ),
            )
        }
    }
}

/// Whether the authority moves tokens out of the account as its delegate: a
/// delegate acts as one even where it is the owner too.
pub open spec fn acts_as_delegate(from: TokenAccount, authority: Pubkey) -> bool {
    from.delegate == Some(authority)
}

/// The source of a transfer after `amount` has left it on the word of the
/// authority. What a delegate moves is taken off what is delegated to it, and
/// a delegate to whom nothing is left is a delegate no more.
pub open spec fn debited(from: TokenAccount, authority: Pubkey, amount: u64) -> TokenAccount {
    if acts_as_delegate(from, authority) {
        TokenAccount {
            amount: (from.amount - amount) as u64,
            delegated_amount: (from.delegated_amount - amount) as u64,
            delegate: if from.delegated_amount == amount {
                None
            } else {
                from.delegate
            },
            ..from
        }
    } else {
        TokenAccount { amount: (from.amount - amount) as u64, ..from }
    }
}

/// What a transfer of tokens does to the ledger.
///
/// Both ends must be token accounts of one mint, the source must hold the
/// amount, and the authority must be the delegate of the source, with as much
/// delegated to it, or else its owner. A transfer from an account to itself
/// changes nothing.
pub open spec fn apply_token_transfer(
    state: LedgerState,
    source: Pubkey,
    destination: Pubkey,
    authority: Pubkey,
    amount: u64,
) -> Result<LedgerState, CustodyError> {
    match (state.data(source), state.data(destination)) {
        (DataView::Token(from), DataView::Token(to)) => {
            if from.amount < amount {
                Err(CustodyError::InsufficientFunds)
            } else if from.mint != to.mint {
                Err(CustodyError::MintMismatch)
            } else if acts_as_delegate(from, authority) && from.delegated_amount < amount {
                Err(CustodyError::InsufficientFunds)
            } else if !acts_as_delegate(from, authority) && from.owner != authority {
                Err(CustodyError::OwnerMismatch)
            } else if source == destination {
                Ok(state)
            } else if to.amount + amount > u64::MAX {
                Err(CustodyError::Overflow)
            } else {
                Ok(
                    state.with_data(
                        source,
                        DataView::Token(debited(from, authority, amount)),
                    ).with_data(
                        destination,
                        DataView::Token(TokenAccount { amount: (to.amount + amount) as u64, ..to }),
                    ),
                )
            }
        },
        _ => Err(CustodyError::InvalidAccountData),
    }
}

/// What a transfer of native currency does to the ledger.
pub open spec fn apply_native_transfer(state: LedgerState, from: Pubkey, to: Pubkey, amount: u64) -> Result<
    LedgerState,
    CustodyError,
> {
    if state.lamports(from) < amount {
        Err(CustodyError::InsufficientLamports)
    } else {
        let debited = state.with_lamports(from, (state.lamports(from) - amount) as u64);
        if debited.lamports(to) + amount > u64::MAX {
            Err(CustodyError::Overflow)
        } else {
            Ok(debited.with_lamports(to, (debited.lamports(to) + amount) as u64))
        }
    }
}

/// What one invocation does to the ledger, or why the custody layer refuses it.
pub open spec fn apply(state: LedgerState, invocation: Invocation) -> Result<LedgerState, CustodyError> {
    match invocation {
        Invocation::CreateTokenAccount { account, mint, owner, payer, signer } => apply_create(
            state,
            account,
            mint,
            owner,
            payer,
        ),
        Invocation::TokenTransfer {
            source,
            destination,
            authority,
            amount,
            signer,
        } => apply_token_transfer(state, source, destination, authority, amount),
        Invocation::NativeTransfer { from, to, amount } => apply_native_transfer(
            state,
            from,
            to,
            amount,
        ),
    }
}

/// What a list of invocations does to the ledger when they are made in order:
/// the first refusal ends it.
pub open spec fn apply_all(state: LedgerState, plan: Seq<Invocation>) -> Result<
    LedgerState,
    CustodyError,
>
    decreases plan.len(),
{
    if plan.len() == 0 {
        Ok(state)
    } else {
        match apply_all(state, plan.drop_last()) {
            Ok(reached) => apply(reached, plan.last()),
            Err(error) => Err(error),
        }
    }
}

fn create_token_account(
    ledger: &mut Ledger,
    account: &Pubkey,
    mint: &Pubkey,
    owner: &Pubkey,
    payer: &Pubkey,
) -> (done: Result<(), CustodyError>)
    requires
        old(ledger).wf(),
    ensures
        final(ledger).wf(),
        match done {
            Ok(()) => apply_create(old(ledger)@, *account, *mint, *owner, *payer) == Ok::<
                LedgerState,
                CustodyError,
            >(final(ledger)@),
            Err(error) => apply_create(old(ledger)@, *account, *mint, *owner, *payer) == Err::<
                LedgerState,
                CustodyError,
            >(error) && final(ledger)@ == old(ledger)@,
        },
{
    let rent = ledger.token_account_rent();
    if !ledger.data_is_empty(account) {
        return Err(CustodyError::AccountInUse);
    }
    if ledger.mint(mint).is_err() {
        return Err(CustodyError::InvalidAccountData);
    }
    let balance = ledger.lamports(payer);
    if balance < rent {
        return Err(CustodyError::InsufficientLamports);
    }
    let held = if *account == *payer {
        balance - rent
    } else {
        ledger.lamports(account)
    };
    if held > u64::MAX - rent {
        return Err(CustodyError::Overflow);
    }
    ledger.set_lamports(*payer, balance - rent);
    ledger.set_account(
        *account,
        crate::account::Account {
            lamports: held + rent,
            data: AccountData::Token(TokenAccount::new(*mint, *owner, 0)),
        },
    );
    Ok(())
}

fn token_transfer(
    ledger: &mut Ledger,
    source: &Pubkey,
    destination: &Pubkey,
    authority: &Pubkey,
    amount: u64,
) -> (done: Result<(), CustodyError>)
    requires
        old(ledger).wf(),
    ensures
        final(ledger).wf(),
        match done {
            Ok(()) => apply_token_transfer(old(ledger)@, *source, *destination, *authority, amount)
                == Ok::<LedgerState, CustodyError>(final(ledger)@),
            Err(error) => apply_token_transfer(
                old(ledger)@,
                *source,
                *destination,
                *authority,
                amount,
            ) == Err::<LedgerState, CustodyError>(error) && final(ledger)@ == old(ledger)@,
        },
{
    let from = match ledger.token(source) {
        Ok(token) => token,
        Err(_) => {
            return Err(CustodyError::InvalidAccountData);
        },
    };
    let to = match ledger.token(destination) {
        Ok(token) => token,
        Err(_) => {
            return Err(CustodyError::InvalidAccountData);
        },
    };
    if from.amount < amount {
        return Err(CustodyError::InsufficientFunds);
    }
    if from.mint != to.mint {
        return Err(CustodyError::MintMismatch);
    }
    let as_delegate = match from.delegate {
        Some(delegate) => delegate == *authority,
        None => false,
    };
    if as_delegate {
        if from.delegated_amount < amount {
            return Err(CustodyError::InsufficientFunds);
        }
    } else if from.owner != *authority {
        return Err(CustodyError::OwnerMismatch);
    }
    if *source == *destination {
        return Ok(());
    }
    if to.amount > u64::MAX - amount {
        return Err(CustodyError::Overflow);
    }
    let left = if as_delegate {
        TokenAccount {
            mint: from.mint,
            owner: from.owner,
            amount: from.amount - amount,
            delegate: if from.delegated_amount == amount {
                None
            } else {
                from.delegate
            },
            delegated_amount: from.delegated_amount - amount,
        }
    } else {
        TokenAccount {
            mint: from.mint,
            owner: from.owner,
            amount: from.amount - amount,
            delegate: from.delegate,
            delegated_amount: from.delegated_amount,
        }
    };
    ledger.set_data(*source, AccountData::Token(left));
    ledger.set_data(
        *destination,
        AccountData::Token(
            TokenAccount {
                mint: to.mint,
                owner: to.owner,
                amount: to.amount + amount,
                delegate: to.delegate,
                delegated_amount: to.delegated_amount,
            },
        ),
    );
    Ok(())
}

fn native_transfer(ledger: &mut Ledger, from: &Pubkey, to: &Pubkey, amount: u64) -> (done: Result<
    (),
    CustodyError,
>)
    requires
        old(ledger).wf(),
    ensures
        final(ledger).wf(),
        match done {
            Ok(()) => apply_native_transfer(old(ledger)@, *from, *to, amount) == Ok::<
                LedgerState,
                CustodyError,
            >(final(ledger)@),
            Err(error) => apply_native_transfer(old(ledger)@, *from, *to, amount) == Err::<
                LedgerState,
                CustodyError,
            >(error) && final(ledger)@ == old(ledger)@,
        },
{
    let balance = ledger.lamports(from);
    if balance < amount {
        return Err(CustodyError::InsufficientLamports);
    }
    let held = if *from == *to {
        balance - amount
    } else {
        ledger.lamports(to)
    };
    if held > u64::MAX - amount {
        return Err(CustodyError::Overflow);
    }
    ledger.set_lamports(*from, balance - amount);
    ledger.set_lamports(*to, held + amount);
    Ok(())
}

/// The creation of a token account at `account` where it holds no data yet,
/// and nothing where it does.
pub open spec fn creation_if_absent(
    state: LedgerState,
    account: Pubkey,
    mint: Pubkey,
    owner: Pubkey,
    payer: Pubkey,
    signer: ProgramSigner,
) -> Seq<Invocation> {
    if state.data(account) is Empty {
        seq![Invocation::CreateTokenAccount { account, mint, owner, payer, signer }]
    } else {
        Seq::empty()
    }
}

/// What `assert_is_ata` answers: the token account at `account`, where it is
/// the associated token account of the wallet for the asset.
pub open spec fn associated_token_check(
    state: LedgerState,
    account: Pubkey,
    wallet: Pubkey,
    mint: Pubkey,
) -> Result<TokenAccount, ErrorCode> {
    match state.token(account) {
        Err(error) => Err(error),
        Ok(token) => if token.owner != wallet {
            Err(ErrorCode::PublicKeyMismatch)
        } else if !is_associated_token_address(account, wallet, mint) {
            Err(ErrorCode::PublicKeyMismatch)
        } else {
            Ok(token)
        },
    }
}

/// Confirms that the account is a token account that the wallet owns, at the
/// address associated with the wallet and the asset.
pub fn assert_is_ata(ledger: &Ledger, account: &Pubkey, wallet: &Pubkey, mint: &Pubkey) -> (checked:
    Result<TokenAccount, ErrorCode>)
    requires
        ledger.wf(),
    ensures
        checked == associated_token_check(ledger@, *account, *wallet, *mint),
{
    let token = match ledger.token(account) {
        Ok(token) => token,
        Err(error) => {
            return Err(error);
        },
    };
    if token.owner != *wallet {
        return Err(ErrorCode::PublicKeyMismatch);
    }
    if !verify_associated_token_address(account, wallet, mint) {
        return Err(ErrorCode::PublicKeyMismatch);
    }
    Ok(token)
}

/// Whether `account` can receive an asset for the wallet: where it holds no
/// data yet it lies at the address associated with the wallet and the asset, so
/// that it can be created there; where it holds data it is the wallet's
/// associated token account.
pub open spec fn destination_check(state: LedgerState, account: Pubkey, wallet: Pubkey, mint: Pubkey) -> Result<
    (),
    ErrorCode,
> {
    if state.data(account) is Empty {
        if is_associated_token_address(account, wallet, mint) {
            Ok(())
        } else {
            Err(ErrorCode::PublicKeyMismatch)
        }
    } else {
        match associated_token_check(state, account, wallet, mint) {
            Ok(_) => Ok(()),
            Err(error) => Err(error),
        }
    }
}

/// Confirms that `account` can receive an asset for the wallet.
pub fn assert_is_destination(ledger: &Ledger, account: &Pubkey, wallet: &Pubkey, mint: &Pubkey) -> (checked:
    Result<(), ErrorCode>)
    requires
        ledger.wf(),
    ensures
        checked == destination_check(ledger@, *account, *wallet, *mint),
{
    if ledger.data_is_empty(account) {
        if verify_associated_token_address(account, wallet, mint) {
            Ok(())
        } else {
            Err(ErrorCode::PublicKeyMismatch)
        }
    } else {
        match assert_is_ata(ledger, account, wallet, mint) {
            Ok(_) => Ok(()),
            Err(error) => Err(error),
        }
    }
}

/// Plans the creation of a token account at `account` where it holds no data
/// yet, and nothing where it does.
pub(crate) fn plan_creation_if_absent(
    ledger: &Ledger,
    account: &Pubkey,
    mint: &Pubkey,
    owner: &Pubkey,
    payer: &Pubkey,
    signer: ProgramSigner,
    plan: &mut Vec<Invocation>,
)
    requires
        ledger.wf(),
    ensures
        final(plan)@ == old(plan)@ + creation_if_absent(
            ledger@,
            *account,
            *mint,
            *owner,
            *payer,
            signer,
        ),
{
    if ledger.data_is_empty(account) {
        plan.push(
            Invocation::CreateTokenAccount {
                account: *account,
                mint: *mint,
                owner: *owner,
                payer: *payer,
                signer,
            },
        );
        assert(plan@ =~= old(plan)@ + creation_if_absent(
            ledger@,
            *account,
            *mint,
            *owner,
            *payer,
            signer,
        ));
    } else {
        assert(plan@ =~= old(plan)@ + Seq::<Invocation>::empty());
    }
}

/// Creates a token account at `account` for the asset, which `owner` controls
/// and whose storage `payer` pays, where the account holds no data yet. Where it
/// holds data nothing changes and nothing is returned. A refusal leaves the
/// ledger as it was.
pub fn create_program_token_account_if_not_present(
    ledger: &mut Ledger,
    account: &Pubkey,
    mint: &Pubkey,
    owner: &Pubkey,
    payer: &Pubkey,
    signer: ProgramSigner,
) -> (done: Result<Vec<Invocation>, CustodyError>)
    requires
        old(ledger).wf(),
    ensures
        final(ledger).wf(),
        match done {
            Ok(plan) => plan@ == creation_if_absent(
                old(ledger)@,
                *account,
                *mint,
                *owner,
                *payer,
                signer,
            ) && apply_all(old(ledger)@, plan@) == Ok::<LedgerState, CustodyError>(final(ledger)@),
            Err(error) => apply_all(
                old(ledger)@,
                creation_if_absent(old(ledger)@, *account, *mint, *owner, *payer, signer),
            ) == Err::<LedgerState, CustodyError>(error) && final(ledger)@ == old(ledger)@,
        },
{
    let mut plan: Vec<Invocation> = Vec::new();
    plan_creation_if_absent(ledger, account, mint, owner, payer, signer, &mut plan);
    assert(plan@ =~= creation_if_absent(ledger@, *account, *mint, *owner, *payer, signer));
    match execute_all(ledger, &plan) {
        Ok(()) => Ok(plan),
        Err(error) => Err(error),
    }
}

/// Makes one invocation on the ledger. A refusal leaves the ledger as it was.
pub fn execute(ledger: &mut Ledger, invocation: &Invocation) -> (done: Result<(), CustodyError>)
    requires
        old(ledger).wf(),
    ensures
        final(ledger).wf(),
        match done {
            Ok(()) => apply(old(ledger)@, *invocation) == Ok::<LedgerState, CustodyError>(
                final(ledger)@,
            ),
            Err(error) => apply(old(ledger)@, *invocation) == Err::<LedgerState, CustodyError>(
                error,
            ) && final(ledger)@ == old(ledger)@,
        },
{
    match invocation {
        Invocation::CreateTokenAccount { account, mint, owner, payer, signer } => {
            create_token_account(ledger, account, mint, owner, payer)
        },
        Invocation::TokenTransfer { source, destination, authority, amount, signer } => {
            token_transfer(ledger, source, destination, authority, *amount)
        },
        Invocation::NativeTransfer { from, to, amount } => native_transfer(
            ledger,
            from,
            to,
            *amount,
        ),
    }
}

/// Makes a list of invocations on the ledger, in order and all or none: the
/// first refusal ends it and leaves the ledger as it was.
pub fn execute_all(ledger: &mut Ledger, plan: &Vec<Invocation>) -> (done: Result<(), CustodyError>)
    requires
        old(ledger).wf(),
    ensures
        final(ledger).wf(),
        match done {
            Ok(()) => apply_all(old(ledger)@, plan@) == Ok::<LedgerState, CustodyError>(
                final(ledger)@,
            ),
            Err(error) => apply_all(old(ledger)@, plan@) == Err::<LedgerState, CustodyError>(error)
                && final(ledger)@ == old(ledger)@,
        },
{
    let mut work = ledger.duplicate();
    let mut i: usize = 0;
    while i < plan.len()
        invariant
            work.wf(),
            *ledger == *old(ledger),
            ledger.wf(),
            i <= plan.len(),
            apply_all(ledger@, plan@.take(i as int)) == Ok::<LedgerState, CustodyError>(work@),
        decreases plan.len() - i,
    {
        proof {
            assert(plan@.take(i + 1).drop_last() =~= plan@.take(i as int));
            lemma_apply_all_stops(ledger@, plan@, i + 1);
        }
        match execute(&mut work, &plan[i]) {
            Ok(()) => {},
            Err(error) => {
                return Err(error);
            },
        }
        i = i + 1;
    }
    assert(plan@.take(i as int) =~= plan@);
    *ledger = work;
    Ok(())
}

/// Making two plans one after the other is making the first and then, on the
/// ledger it leaves, the second.
pub proof fn lemma_apply_all_concat(state: LedgerState, first: Seq<Invocation>, second: Seq<Invocation>)
    ensures
        apply_all(state, first + second) == match apply_all(state, first) {
            Ok(reached) => apply_all(reached, second),
            Err(error) => Err::<LedgerState, CustodyError>(error),
        },
    decreases second.len(),
{
    if second.len() == 0 {
        assert(first + second =~= first);
    } else {
        assert((first + second).drop_last() =~= first + second.drop_last());
        assert((first + second).last() == second.last());
        lemma_apply_all_concat(state, first, second.drop_last());
    }
}

/// A plan of one invocation does what that invocation does.
pub proof fn lemma_apply_all_single(state: LedgerState, invocation: Invocation)
    ensures
        apply_all(state, seq![invocation]) == apply(state, invocation),
{
    let plan = seq![invocation];
    assert(plan.drop_last() =~= Seq::<Invocation>::empty());
    assert(apply_all(state, plan.drop_last()) == Ok::<LedgerState, CustodyError>(state));
    assert(plan.last() == invocation);
}

/// A plan of two invocations does what the first does and then, where it is
/// not refused, the second.
pub proof fn lemma_apply_all_pair(state: LedgerState, first: Invocation, second: Invocation)
    ensures
        apply_all(state, seq![first, second]) == match apply(state, first) {
            Ok(reached) => apply(reached, second),
            Err(error) => Err::<LedgerState, CustodyError>(error),
        },
{
    assert(seq![first, second] =~= seq![first] + seq![second]);
    lemma_apply_all_concat(state, seq![first], seq![second]);
    lemma_apply_all_single(state, first);
    if apply(state, first) is Ok {
        lemma_apply_all_single(apply(state, first)->Ok_0, second);
    }
}

/// Whether an invocation writes the data of an address: the account it
/// creates, or the two ends of a transfer of tokens. A transfer of native
/// currency writes no data.
pub open spec fn writes_data(invocation: Invocation, key: Pubkey) -> bool {
    match invocation {
        Invocation::CreateTokenAccount { account, mint, owner, payer, signer } => key == account,
        Invocation::TokenTransfer { source, destination, authority, amount, signer } => key
            == source || key == destination,
        Invocation::NativeTransfer { from, to, amount } => false,
    }
}

/// An invocation leaves the data of every address that it does not write.
pub proof fn lemma_apply_leaves_other_data(state: LedgerState, invocation: Invocation, key: Pubkey)
    requires
        apply(state, invocation) is Ok,
        !writes_data(invocation, key),
    ensures
        apply(state, invocation)->Ok_0.data(key) == state.data(key),
{
}

/// A plan leaves the data of every address that none of its invocations
/// writes.
pub proof fn lemma_apply_all_leaves_other_data(state: LedgerState, plan: Seq<Invocation>, key: Pubkey)
    requires
        apply_all(state, plan) is Ok,
        forall|i: int| 0 <= i < plan.len() ==> !writes_data(#[trigger] plan[i], key),
    ensures
        apply_all(state, plan)->Ok_0.data(key) == state.data(key),
    decreases plan.len(),
{
    if plan.len() > 0 {
        let rest = plan.drop_last();
        assert forall|i: int| 0 <= i < rest.len() implies !writes_data(#[trigger] rest[i], key) by {
            assert(rest[i] == plan[i]);
        }
        lemma_apply_all_leaves_other_data(state, rest, key);
        lemma_apply_leaves_other_data(apply_all(state, rest)->Ok_0, plan.last(), key);
    }
}

/// How the custody layer can change what an address holds: it creates token
/// accounts where nothing is and moves the balances of token accounts, and
/// that is all. A mint, a metadata record, an edition record and the record of
/// a pair stay as they are; a token account stays one of the same asset and
/// owner; an address without data stays so or becomes a token account.
pub open spec fn keeps(before: DataView, after: DataView) -> bool {
    match before {
        DataView::Empty => after is Empty || after is Token,
        DataView::Token(token) => after matches DataView::Token(kept) && kept.mint == token.mint
            && kept.owner == token.owner,
        _ => after == before,
    }
}

/// No invocation deletes, retypes or forges what an address holds.
pub proof fn lemma_apply_keeps(state: LedgerState, invocation: Invocation, key: Pubkey)
    requires
        apply(state, invocation) is Ok,
    ensures
        keeps(state.data(key), apply(state, invocation)->Ok_0.data(key)),
        apply(state, invocation)->Ok_0.token_account_rent == state.token_account_rent,
{
}

/// No plan deletes, retypes or forges what an address holds.
pub proof fn lemma_apply_all_keeps(state: LedgerState, plan: Seq<Invocation>, key: Pubkey)
    requires
        apply_all(state, plan) is Ok,
    ensures
        keeps(state.data(key), apply_all(state, plan)->Ok_0.data(key)),
        apply_all(state, plan)->Ok_0.token_account_rent == state.token_account_rent,
    decreases plan.len(),
{
    if plan.len() > 0 {
        lemma_apply_all_keeps(state, plan.drop_last(), key);
        lemma_apply_keeps(apply_all(state, plan.drop_last())->Ok_0, plan.last(), key);
    }
}

/// Creating a token account where none was found, on the ledger as it is
/// when the account is created, changes the number of tokens at no address and
/// the data at no address but that of the account.
pub proof fn lemma_creation_if_absent(
    found: LedgerState,
    state: LedgerState,
    account: Pubkey,
    mint: Pubkey,
    owner: Pubkey,
    payer: Pubkey,
    signer: ProgramSigner,
)
    requires
        apply_all(state, creation_if_absent(found, account, mint, owner, payer, signer)) is Ok,
    ensures
        ({
            let after = apply_all(
                state,
                creation_if_absent(found, account, mint, owner, payer, signer),
            )->Ok_0;
            &&& forall|key: Pubkey| key != account ==> #[trigger] after.data(key) == state.data(key)
            &&& forall|key: Pubkey| #[trigger] after.token_amount(key) == state.token_amount(key)
        }),
{
    let plan = creation_if_absent(found, account, mint, owner, payer, signer);
    if found.data(account) is Empty {
        lemma_apply_all_single(state, plan[0]);
        assert(plan =~= seq![plan[0]]);
    }
}

/// A plan fails as soon as one of its beginnings fails, and with that error.
pub proof fn lemma_apply_all_stops(state: LedgerState, plan: Seq<Invocation>, n: int)
    requires
        0 <= n <= plan.len(),
    ensures
        apply_all(state, plan.take(n)) matches Err(error) ==> apply_all(state, plan) == Err::<
            LedgerState,
            CustodyError,
        >(error),
    decreases plan.len() - n,
{
    if n == plan.len() {
        assert(plan.take(n) =~= plan);
    } else {
        assert(plan.take(n + 1).drop_last() =~= plan.take(n));
        lemma_apply_all_stops(state, plan, n + 1);
    }
}

} // verus!
