//! The payment of the price to the creators of an asset.

use crate::account::Creator;
use crate::address::{is_associated_token_address, verify_associated_token_address};
use crate::custody::{apply_all, execute_all, Invocation, ProgramSigner};
use crate::error::{ErrorCode, TransitionError};
use crate::ledger::{Ledger, LedgerState};
use crate::pubkey::Pubkey;
use vstd::prelude::*;

verus! {

/// The terms of one payment of the price: from which account and on whose
/// word it is paid, and in which currency.
#[derive(Clone, Copy, Debug, PartialEq, Eq)]
pub struct Payment {
    pub account: Pubkey,
    pub authority: Pubkey,
    pub treasury_mint: Pubkey,
    pub price: u64,
    pub native: bool,
}

/// A creator's cut of the price: its share, in percent, rounded down.
pub open spec fn creator_cut(price: u64, share: u8) -> nat {
    (price as nat * share as nat) / 100
}

/// Whether `candidate` is the account into which a creator is paid: the
/// creator's own address for the native currency, the creator's associated
/// token account for a token.
pub open spec fn is_recipient(candidate: Pubkey, creator: Pubkey, treasury_mint: Pubkey, native: bool) -> bool {
    if native {
        candidate == creator
    } else {
        is_associated_token_address(candidate, creator, treasury_mint)
    }
}

/// The transfer that pays one creator into the account that the caller names
/// for it, or why there is none.
pub open spec fn creator_payment(creator: Creator, recipient: Option<Pubkey>, terms: Payment) -> Result<
    Invocation,
    TransitionError,
> {
    if creator_cut(terms.price, creator.share) > u64::MAX {
        Err(TransitionError::Program(ErrorCode::NumericalOverflow))
    } else if recipient is None {
        Err(TransitionError::NotEnoughAccountKeys)
    } else if !is_recipient(recipient->0, creator.address, terms.treasury_mint, terms.native) {
        Err(TransitionError::Program(ErrorCode::PublicKeyMismatch))
    } else if terms.native {
        Ok(
            Invocation::NativeTransfer {
                from: terms.account,
                to: recipient->0,
                amount: creator_cut(terms.price, creator.share) as u64,
            },
        )
    } else {
        Ok(
            Invocation::TokenTransfer {
                source: terms.account,
                destination: recipient->0,
                authority: terms.authority,
                amount: creator_cut(terms.price, creator.share) as u64,
                signer: ProgramSigner::Unsigned,
            },
        )
    }
}

/// The account that the caller names for the creator at a position.
pub open spec fn recipient_at(remaining: Seq<Pubkey>, i: int) -> Option<Pubkey> {
    if 0 <= i < remaining.len() {
        Some(remaining[i])
    } else {
        None
    }
}

/// The transfers that pay the creators, one for each and in their order, or
/// the first reason why one of them cannot be made.
pub open spec fn fee_plan(creators: Seq<Creator>, remaining: Seq<Pubkey>, terms: Payment) -> Result<
    Seq<Invocation>,
    TransitionError,
>
    decreases creators.len(),
{
    if creators.len() == 0 {
        Ok(Seq::empty())
    } else {
        match fee_plan(creators.drop_last(), remaining, terms) {
            Err(error) => Err(error),
            Ok(plan) => match creator_payment(
                creators.last(),
                recipient_at(remaining, creators.len() - 1),
                terms,
            ) {
                Err(error) => Err(error),
                Ok(transfer) => Ok(plan.push(transfer)),
            },
        }
    }
}

/// What paying the creators of the metadata record at `metadata` does: the
/// transfers made and the ledger after them.
pub open spec fn payment_outcome(
    state: LedgerState,
    remaining: Seq<Pubkey>,
    metadata: Pubkey,
    terms: Payment,
) -> Result<(Seq<Invocation>, LedgerState), TransitionError> {
    match state.creators(metadata) {
        None => Err(TransitionError::Program(ErrorCode::MetadataDoesntExist)),
        Some(creators) => match fee_plan(creators, remaining, terms) {
            Err(error) => Err(error),
            Ok(plan) => match apply_all(state, plan) {
                Err(error) => Err(TransitionError::Custody(error)),
                Ok(after) => Ok((plan, after)),
            },
        },
    }
}

/// What one invocation moves: the amount of a transfer, nothing for the
/// creation of an account.
pub open spec fn amount_of(invocation: Invocation) -> nat {
    match invocation {
        Invocation::CreateTokenAccount { account, mint, owner, payer, signer } => 0,
        Invocation::TokenTransfer { source, destination, authority, amount, signer } => amount as nat,
        Invocation::NativeTransfer { from, to, amount } => amount as nat,
    }
}

/// What a plan moves in all.
pub open spec fn total_amount(plan: Seq<Invocation>) -> nat
    decreases plan.len(),
{
    if plan.len() == 0 {
        0
    } else {
        total_amount(plan.drop_last()) + amount_of(plan.last())
    }
}

/// The sum of the creators' cuts of the price.
pub open spec fn total_cut(creators: Seq<Creator>, price: u64) -> nat
    decreases creators.len(),
{
    if creators.len() == 0 {
        0
    } else {
        total_cut(creators.drop_last(), price) + creator_cut(price, creators.last().share)
    }
}

/// The sum of the creators' shares.
pub open spec fn total_share(creators: Seq<Creator>) -> nat
    decreases creators.len(),
{
    if creators.len() == 0 {
        0
    } else {
        total_share(creators.drop_last()) + creators.last().share as nat
    }
}

/// Whether an invocation pays `amount` from the payment account into
/// `recipient` on the terms given: in native currency or in tokens.
pub open spec fn pays(invocation: Invocation, recipient: Pubkey, amount: nat, terms: Payment) -> bool {
    if terms.native {
        invocation matches Invocation::NativeTransfer { from, to, amount: moved } && from
            == terms.account && to == recipient && moved == amount
    } else {
        invocation matches Invocation::TokenTransfer {
            source,
            destination,
            authority,
            amount: moved,
            signer,
        } && source == terms.account && destination == recipient && authority == terms.authority
            && moved == amount && signer == ProgramSigner::Unsigned
    }
}

/// Where the creators can be paid, the plan holds one transfer for each, in
/// their order: it pays the creator's cut from the payment account into the
/// account named for the creator, which is the creator's own. In all the plan
/// moves the sum of the cuts.
pub proof fn lemma_fee_plan_pays_each_cut(creators: Seq<Creator>, remaining: Seq<Pubkey>, terms: Payment)
    requires
        fee_plan(creators, remaining, terms) is Ok,
    ensures
        fee_plan(creators, remaining, terms)->Ok_0.len() == creators.len(),
        creators.len() <= remaining.len(),
        forall|i: int|
            0 <= i < creators.len() ==> pays(
                #[trigger] fee_plan(creators, remaining, terms)->Ok_0[i],
                remaining[i],
                creator_cut(terms.price, creators[i].share),
                terms,
            ) && is_recipient(remaining[i], creators[i].address, terms.treasury_mint, terms.native),
        total_amount(fee_plan(creators, remaining, terms)->Ok_0) == total_cut(creators, terms.price),
    decreases creators.len(),
{
    if creators.len() > 0 {
        let rest = creators.drop_last();
        lemma_fee_plan_pays_each_cut(rest, remaining, terms);
        let plan = fee_plan(creators, remaining, terms)->Ok_0;
        let before = fee_plan(rest, remaining, terms)->Ok_0;
        assert(plan.drop_last() =~= before);
        assert forall|i: int| 0 <= i < creators.len() implies pays(
            #[trigger] plan[i],
            remaining[i],
            creator_cut(terms.price, creators[i].share),
            terms,
        ) && is_recipient(remaining[i], creators[i].address, terms.treasury_mint, terms.native) by {
            if i < rest.len() {
                assert(plan[i] == before[i]);
                assert(rest[i] == creators[i]);
            }
        }
    }
}

/// The cuts never add up to more than the creators' shares of the price, and
/// to less than that by under one unit for each creator.
pub proof fn lemma_total_cut_bounds(creators: Seq<Creator>, price: u64)
    ensures
        100 * total_cut(creators, price) <= price * total_share(creators),
        price * total_share(creators) < 100 * total_cut(creators, price) + 100 * creators.len()
            || creators.len() == 0,
    decreases creators.len(),
{
    if creators.len() > 0 {
        let rest = creators.drop_last();
        let share = creators.last().share as nat;
        lemma_total_cut_bounds(rest, price);
        let product = price as nat * share;
        assert(100 * (product / 100) <= product < 100 * (product / 100) + 100) by {
            vstd::arithmetic::div_mod::lemma_fundamental_div_mod(product as int, 100);
            vstd::arithmetic::div_mod::lemma_mod_bound(product as int, 100);
        }
        assert(price * total_share(creators) == price * total_share(rest) + product)
            by (nonlinear_arith)
            requires
                total_share(creators) == total_share(rest) + share,
                product == price as nat * share,
        ;
    }
}

/// A creator's cut of the price, or `NumericalOverflow` where it does not fit.
pub fn creator_fee(price: u64, share: u8) -> (fee: Result<u64, ErrorCode>)
    ensures
        match fee {
            Ok(amount) => amount == creator_cut(price, share),
            Err(error) => error == ErrorCode::NumericalOverflow && creator_cut(price, share)
                > u64::MAX,
        },
{
    assert(price as nat * share as nat <= 0xffff_ffff_ffff_ffff * 0xff) by (nonlinear_arith)
        requires
            price <= 0xffff_ffff_ffff_ffff,
            share <= 0xff,
    ;
    let product: u128 = (price as u128) * (share as u128);
    let cut: u128 = product / 100;
    if cut > u64::MAX as u128 {
        Err(ErrorCode::NumericalOverflow)
    } else {
        Ok(cut as u64)
    }
}

fn pay_creator(creator: &Creator, recipient: Option<Pubkey>, terms: &Payment) -> (transfer: Result<
    Invocation,
    TransitionError,
>)
    ensures
        transfer == creator_payment(*creator, recipient, *terms),
{
    let amount = match creator_fee(terms.price, creator.share) {
        Ok(amount) => amount,
        Err(error) => {
            return Err(TransitionError::Program(error));
        },
    };
    let recipient = match recipient {
        Some(recipient) => recipient,
        None => {
            return Err(TransitionError::NotEnoughAccountKeys);
        },
    };
    if terms.native {
        if recipient != creator.address {
            return Err(TransitionError::Program(ErrorCode::PublicKeyMismatch));
        }
        Ok(Invocation::NativeTransfer { from: terms.account, to: recipient, amount })
    } else {
        if !verify_associated_token_address(&recipient, &creator.address, &terms.treasury_mint) {
            return Err(TransitionError::Program(ErrorCode::PublicKeyMismatch));
        }
        Ok(
            Invocation::TokenTransfer {
                source: terms.account,
                destination: recipient,
                authority: terms.authority,
                amount,
                signer: ProgramSigner::Unsigned,
            },
        )
    }
}

/// A list of creators cannot be paid as soon as one of its beginnings cannot,
/// and for that reason.
pub proof fn lemma_fee_plan_stops(creators: Seq<Creator>, remaining: Seq<Pubkey>, terms: Payment, n: int)
    requires
        0 <= n <= creators.len(),
    ensures
        fee_plan(creators.take(n), remaining, terms) matches Err(error) ==> fee_plan(
            creators,
            remaining,
            terms,
        ) == Err::<Seq<Invocation>, TransitionError>(error),
    decreases creators.len() - n,
{
    if n == creators.len() {
        assert(creators.take(n) =~= creators);
    } else {
        assert(creators.take(n + 1).drop_last() =~= creators.take(n));
        lemma_fee_plan_stops(creators, remaining, terms, n + 1);
    }
}

/// Plans the transfers that pay the creators their cuts of the price. The
/// accounts in `remaining_accounts` name, in the creators' order, where each is
/// paid.
pub fn creator_fee_plan(creators: &Vec<Creator>, remaining_accounts: &Vec<Pubkey>, terms: &Payment) -> (planned:
    Result<Vec<Invocation>, TransitionError>)
    ensures
        match planned {
            Ok(plan) => fee_plan(creators@, remaining_accounts@, *terms) == Ok::<
                Seq<Invocation>,
                TransitionError,
            >(plan@),
            Err(error) => fee_plan(creators@, remaining_accounts@, *terms) == Err::<
                Seq<Invocation>,
                TransitionError,
            >(error),
        },
{
    let mut plan: Vec<Invocation> = Vec::new();
    let mut i: usize = 0;
    while i < creators.len()
        invariant
            i <= creators.len(),
            fee_plan(creators@.take(i as int), remaining_accounts@, *terms) == Ok::<
                Seq<Invocation>,
                TransitionError,
            >(plan@),
        decreases creators.len() - i,
    {
        let recipient = if i < remaining_accounts.len() {
            Some(remaining_accounts[i])
        } else {
            None
        };
        proof {
            assert(creators@.take(i + 1).drop_last() =~= creators@.take(i as int));
            lemma_fee_plan_stops(creators@, remaining_accounts@, *terms, i + 1);
        }
        match pay_creator(&creators[i], recipient, terms) {
            Ok(transfer) => plan.push(transfer),
            Err(error) => {
                return Err(error);
            },
        }
        i = i + 1;
    }
    assert(creators@.take(i as int) =~= creators@);
    Ok(plan)
}

/// Pays the price to the creators that the metadata record at `metadata`
/// names, each its cut, from the payment account: in native currency or in the
/// treasury mint's token. Returns the transfers made. All are made or none.
pub fn pay_creator_fees(
    ledger: &mut Ledger,
    remaining_accounts: &Vec<Pubkey>,
    metadata: &Pubkey,
    payment_account: &Pubkey,
    payment_authority: &Pubkey,
    treasury_mint: &Pubkey,
    price: u64,
    is_native: bool,
) -> (paid: Result<Vec<Invocation>, TransitionError>)
    requires
        old(ledger).wf(),
    ensures
        final(ledger).wf(),
        ({
            let terms = Payment {
                account: *payment_account,
                authority: *payment_authority,
                treasury_mint: *treasury_mint,
                price,
                native: is_native,
            };
            match paid {
                Ok(plan) => payment_outcome(old(ledger)@, remaining_accounts@, *metadata, terms)
                    == Ok::<(Seq<Invocation>, LedgerState), TransitionError>(
                    (plan@, final(ledger)@),
                ),
                Err(error) => payment_outcome(old(ledger)@, remaining_accounts@, *metadata, terms)
                    == Err::<(Seq<Invocation>, LedgerState), TransitionError>(error)
                    && final(ledger)@ == old(ledger)@,
            }
        }),
{
    let terms = Payment {
        account: *payment_account,
        authority: *payment_authority,
        treasury_mint: *treasury_mint,
        price,
        native: is_native,
    };
    let planned = match ledger.creators(metadata) {
        Some(creators) => creator_fee_plan(creators, remaining_accounts, &terms),
        None => Err(TransitionError::Program(ErrorCode::MetadataDoesntExist)),
    };
    let plan = match planned {
        Ok(plan) => plan,
        Err(error) => {
            return Err(error);
        },
    };
    match execute_all(ledger, &plan) {
        Ok(()) => Ok(plan),
        Err(error) => Err(TransitionError::Custody(error)),
    }
}

} // verus!
