//! What holds of the transitions, proved from what each is stated to do.

use crate::account::{DataView, EntangledPair};
use crate::address::{
    is_escrow_address, is_pair_address, is_pair_slot, lemma_search_finds_the_highest_bump,
    pair_seeds, Side,
};
use crate::create::{
    after_create, create_check, create_outcome, create_plan, created_record, escrow_signer,
    initial_deposit, CreateArgs, CreateEntangledPair,
};
use crate::custody::{
    apply, apply_all, creation_if_absent, lemma_apply_all_concat, lemma_apply_all_keeps,
    lemma_apply_all_leaves_other_data, lemma_apply_all_pair, lemma_apply_all_single,
    lemma_creation_if_absent, writes_data, Invocation, ProgramSigner,
};
use crate::error::{ErrorCode, TransitionError};
use crate::account::Creator;
use crate::fees::{
    creator_cut, fee_plan, is_recipient, lemma_fee_plan_pays_each_cut, lemma_total_cut_bounds,
    pays, total_amount, total_cut, total_share,
};
use crate::ledger::LedgerState;
use crate::mint::lemma_unique_supply_is_positive;
use crate::pubkey::Pubkey;
use crate::swap::{
    after_swap, charges, deposit, escrow_of, exchange_plan, payment_terms, release, side_of,
    swap_accounts, swap_check, swap_fees, swap_outcome, swap_plan, Swap, SwapTerms,
};
use crate::update::{after_update, update_outcome, updated_record, UpdateEntangledPair};
use vstd::prelude::*;

verus! {

/// After a creation the escrow of the second asset holds that asset's whole
/// supply and the escrow of the first holds nothing; the record stands at its
/// address with nothing paid; and every other address but the payer's account
/// of the second asset holds what it held.
///
/// This is stated of creations that find no tokens in either escrow and that
/// name two different escrows.
pub proof fn law_creation_escrows_the_second_asset(
    state: LedgerState,
    accounts: CreateEntangledPair,
    signers: Seq<Pubkey>,
    args: CreateArgs,
)
    requires
        create_outcome(state, accounts, signers, args) is Ok,
        state.token_amount(accounts.token_a_escrow) == 0,
        state.token_amount(accounts.token_b_escrow) == 0,
        accounts.token_a_escrow != accounts.token_b_escrow,
    ensures
        ({
            let after = after_create(state, accounts, signers, args);
            &&& after.mint(accounts.mint_b) == state.mint(accounts.mint_b)
            &&& after.mint(accounts.mint_b) is Ok
            &&& after.token_amount(accounts.token_b_escrow) == after.mint(
                accounts.mint_b,
            )->Ok_0.supply
            &&& after.token_amount(accounts.token_a_escrow) == 0
            &&& after.pair(accounts.entangled_pair) == Ok::<EntangledPair, ErrorCode>(
                created_record(accounts, args),
            )
            &&& forall|key: Pubkey|
                key != accounts.token_b && key != accounts.token_a_escrow && key
                    != accounts.token_b_escrow && key != accounts.entangled_pair
                    ==> #[trigger] after.data(key) == state.data(key)
        }),
{
    let mint_b = create_check(state, accounts, signers, args)->Ok_0;
    let supply = mint_b.supply;
    lemma_unique_supply_is_positive(mint_b);
    let written = state.with_data(
        accounts.entangled_pair,
        DataView::Pair(created_record(accounts, args)),
    );
    let first = creation_if_absent(
        state,
        accounts.token_a_escrow,
        accounts.mint_a,
        accounts.entangled_pair,
        accounts.payer,
        escrow_signer(accounts, args, Side::A),
    );
    let second = creation_if_absent(
        state,
        accounts.token_b_escrow,
        accounts.mint_b,
        accounts.entangled_pair,
        accounts.payer,
        escrow_signer(accounts, args, Side::B),
    );
    let deposit = initial_deposit(accounts, supply);
    let plan = create_plan(state, accounts, args, supply);
    assert(plan == (first + second) + seq![deposit]);
    lemma_apply_all_concat(written, first + second, seq![deposit]);
    lemma_apply_all_concat(written, first, second);
    let with_first = apply_all(written, first)->Ok_0;
    let with_both = apply_all(with_first, second)->Ok_0;
    lemma_apply_all_single(with_both, deposit);
    lemma_creation_if_absent(
        state,
        written,
        accounts.token_a_escrow,
        accounts.mint_a,
        accounts.entangled_pair,
        accounts.payer,
        escrow_signer(accounts, args, Side::A),
    );
    lemma_creation_if_absent(
        state,
        with_first,
        accounts.token_b_escrow,
        accounts.mint_b,
        accounts.entangled_pair,
        accounts.payer,
        escrow_signer(accounts, args, Side::B),
    );
    assert(with_both.token_amount(accounts.token_a_escrow) == 0);
    assert(with_both.token_amount(accounts.token_b_escrow) == 0);
    lemma_apply_all_keeps(written, plan, accounts.mint_b);
    lemma_apply_all_keeps(written, plan, accounts.entangled_pair);
    assert forall|key: Pubkey|
        key != accounts.token_b && key != accounts.token_a_escrow && key
            != accounts.token_b_escrow && key != accounts.entangled_pair implies #[trigger] after_create(
        state,
        accounts,
        signers,
        args,
    ).data(key) == state.data(key) by {
        assert(with_both.data(key) == with_first.data(key));
        assert(with_first.data(key) == written.data(key));
    }
}

/// Whether a record at an address is what the swap and the update re-derive:
/// the record's own mints and bumps derive the address and the two escrows that
/// the record names.
pub open spec fn record_is_derived(key: Pubkey, record: EntangledPair) -> bool {
    &&& is_pair_address(key, record.mint_a, record.mint_b, record.bump)
    &&& is_escrow_address(
        record.token_a_escrow,
        record.mint_a,
        record.mint_b,
        Side::A,
        record.token_a_escrow_bump,
    )
    &&& is_escrow_address(
        record.token_b_escrow,
        record.mint_a,
        record.mint_b,
        Side::B,
        record.token_b_escrow_bump,
    )
}

/// The record that a creation writes can be re-derived from what it stores,
/// without a search: it lies in the one slot of its two mints, with the bump
/// that it stores, and its escrows are those of its two mints and its escrow
/// bumps.
pub proof fn law_created_record_is_derived(
    state: LedgerState,
    accounts: CreateEntangledPair,
    signers: Seq<Pubkey>,
    args: CreateArgs,
)
    requires
        create_outcome(state, accounts, signers, args) is Ok,
    ensures
        is_pair_slot(accounts.entangled_pair, accounts.mint_a, accounts.mint_b, args.bump),
        record_is_derived(accounts.entangled_pair, created_record(accounts, args)),
{
    lemma_search_finds_the_highest_bump(
        pair_seeds(accounts.mint_a, accounts.mint_b),
        crate::programs::ID@,
        255,
    );
}

/// Whether a creation names the two slots of its pair: the record's address
/// and bump are the canonical ones of its two mints in their order, and the
/// reverse slot's are those of the two mints in the other order.
pub open spec fn names_its_slots(accounts: CreateEntangledPair, args: CreateArgs) -> bool {
    is_pair_slot(accounts.entangled_pair, accounts.mint_a, accounts.mint_b, args.bump)
        && is_pair_slot(
        accounts.reverse_entangled_pair,
        accounts.mint_b,
        accounts.mint_a,
        args.reverse_bump,
    )
}

/// A creation leaves the record of its pair at the record's address.
pub proof fn lemma_creation_writes_the_record(
    state: LedgerState,
    accounts: CreateEntangledPair,
    signers: Seq<Pubkey>,
    args: CreateArgs,
)
    requires
        create_outcome(state, accounts, signers, args) is Ok,
    ensures
        after_create(state, accounts, signers, args).pair(accounts.entangled_pair) == Ok::<
            EntangledPair,
            ErrorCode,
        >(created_record(accounts, args)),
        names_its_slots(accounts, args),
{
    let supply = create_check(state, accounts, signers, args)->Ok_0.supply;
    let written = state.with_data(
        accounts.entangled_pair,
        DataView::Pair(created_record(accounts, args)),
    );
    lemma_apply_all_keeps(
        written,
        create_plan(state, accounts, args, supply),
        accounts.entangled_pair,
    );
}

/// Once a pair is created, a second creation for the same two assets, named
/// in either order, is aborted: with `EntangledPairExists` where it names the
/// two slots of its pair, with `DerivedKeyInvalid` where it names other
/// addresses for them.
pub proof fn law_second_creation_is_refused(
    state: LedgerState,
    first: CreateEntangledPair,
    first_signers: Seq<Pubkey>,
    first_args: CreateArgs,
    second: CreateEntangledPair,
    second_signers: Seq<Pubkey>,
    second_args: CreateArgs,
)
    requires
        create_outcome(state, first, first_signers, first_args) is Ok,
        (second.mint_a == first.mint_a && second.mint_b == first.mint_b) || (second.mint_a
            == first.mint_b && second.mint_b == first.mint_a),
    ensures
        names_its_slots(second, second_args) ==> create_outcome(
            after_create(state, first, first_signers, first_args),
            second,
            second_signers,
            second_args,
        ) == Err::<(Seq<Invocation>, LedgerState), TransitionError>(
            TransitionError::Program(ErrorCode::EntangledPairExists),
        ),
        !names_its_slots(second, second_args) ==> create_outcome(
            after_create(state, first, first_signers, first_args),
            second,
            second_signers,
            second_args,
        ) == Err::<(Seq<Invocation>, LedgerState), TransitionError>(
            TransitionError::Program(ErrorCode::DerivedKeyInvalid),
        ),
        after_create(
            after_create(state, first, first_signers, first_args),
            second,
            second_signers,
            second_args,
        ) == after_create(state, first, first_signers, first_args),
{
    lemma_creation_writes_the_record(state, first, first_signers, first_args);
    if names_its_slots(second, second_args) {
        Pubkey::lemma_view_injective(second.entangled_pair, first.entangled_pair);
        Pubkey::lemma_view_injective(second.reverse_entangled_pair, first.entangled_pair);
    }
}

/// A creation leaves no record in the reverse slot of its pair: the pair has
/// the one record, under its two mints in the order of the creation.
pub proof fn law_creation_leaves_the_reverse_slot_free(
    state: LedgerState,
    accounts: CreateEntangledPair,
    signers: Seq<Pubkey>,
    args: CreateArgs,
)
    requires
        create_outcome(state, accounts, signers, args) is Ok,
    ensures
        accounts.reverse_entangled_pair != accounts.entangled_pair,
        state.pair(accounts.reverse_entangled_pair) is Err,
        after_create(state, accounts, signers, args).pair(accounts.reverse_entangled_pair) is Err,
{
    let supply = create_check(state, accounts, signers, args)->Ok_0.supply;
    let written = state.with_data(
        accounts.entangled_pair,
        DataView::Pair(created_record(accounts, args)),
    );
    lemma_apply_all_keeps(
        written,
        create_plan(state, accounts, args, supply),
        accounts.reverse_entangled_pair,
    );
}

/// The escrow into which a swap takes the presented asset.
pub open spec fn taking_escrow(accounts: Swap, terms: SwapTerms) -> Pubkey {
    escrow_of(accounts, terms.presented)
}

/// The escrow from which a swap releases the replacement.
pub open spec fn giving_escrow(accounts: Swap, terms: SwapTerms) -> Pubkey {
    escrow_of(accounts, terms.presented.other())
}

/// The payments of a swap that may go ahead.
pub open spec fn swap_payments(
    state: LedgerState,
    accounts: Swap,
    remaining: Seq<Pubkey>,
    terms: SwapTerms,
) -> Seq<Invocation> {
    swap_fees(state, accounts, remaining, terms.record)->Ok_0
}

/// Whether the swap keeps the caller's side and the escrows apart: the two
/// escrows are two accounts, neither is the account presented nor the one that
/// receives the replacement, and no payment is drawn on or made into either.
pub open spec fn escrows_stand_apart(
    state: LedgerState,
    accounts: Swap,
    remaining: Seq<Pubkey>,
    terms: SwapTerms,
) -> bool {
    let taking = taking_escrow(accounts, terms);
    let giving = giving_escrow(accounts, terms);
    &&& taking != giving
    &&& accounts.token != taking
    &&& accounts.token != giving
    &&& accounts.replacement_token != taking
    &&& accounts.replacement_token != giving
    &&& forall|i: int|
        0 <= i < swap_payments(state, accounts, remaining, terms).len() ==> !writes_data(
            #[trigger] swap_payments(state, accounts, remaining, terms)[i],
            taking,
        ) && !writes_data(swap_payments(state, accounts, remaining, terms)[i], giving)
}

/// Whether the ledger holds no more of either asset than exists of it: the
/// presented account and the escrow of its side together hold no more than the
/// presented asset's supply, and the opposite escrow holds no more than the
/// replacement's.
pub open spec fn within_supply(state: LedgerState, accounts: Swap, terms: SwapTerms) -> bool {
    &&& state.token_amount(accounts.token) + state.token_amount(taking_escrow(accounts, terms))
        <= terms.supply
    &&& state.token_amount(giving_escrow(accounts, terms)) <= terms.replacement_supply
}

/// A swap exchanges which asset is in custody and which circulates, and
/// changes neither supply.
///
/// Before a swap that succeeds the presented asset is wholly outside escrow,
/// and its replacement wholly inside: the escrow of the presented side holds
/// nothing and the opposite escrow the replacement's whole supply. After it the
/// presented asset is wholly inside and the replacement wholly outside. So one
/// of the two assets circulates before the swap, and one after it.
///
/// This is stated of ledgers that hold no more of an asset than exists of it,
/// and of swaps that keep the caller's accounts and the escrows apart.
pub proof fn law_swap_exchanges_custody(
    state: LedgerState,
    accounts: Swap,
    remaining: Seq<Pubkey>,
    signers: Seq<Pubkey>,
)
    requires
        swap_outcome(state, accounts, remaining, signers) is Ok,
        escrows_stand_apart(
            state,
            accounts,
            remaining,
            swap_check(state, accounts, signers)->Ok_0,
        ),
        within_supply(state, accounts, swap_check(state, accounts, signers)->Ok_0),
    ensures
        ({
            let terms = swap_check(state, accounts, signers)->Ok_0;
            let taking = taking_escrow(accounts, terms);
            let giving = giving_escrow(accounts, terms);
            let after = after_swap(state, accounts, remaining, signers);
            &&& state.token_amount(taking) == 0
            &&& state.token_amount(giving) == terms.replacement_supply
            &&& after.token_amount(taking) == terms.supply
            &&& after.token_amount(giving) == 0
            &&& after.mint(accounts.token_mint) == state.mint(accounts.token_mint)
            &&& after.mint(accounts.replacement_token_mint) == state.mint(
                accounts.replacement_token_mint,
            )
            &&& state.mint(accounts.token_mint)->Ok_0.supply == terms.supply
            &&& state.mint(accounts.replacement_token_mint)->Ok_0.supply
                == terms.replacement_supply
        }),
{
    let terms = swap_check(state, accounts, signers)->Ok_0;
    let taking = taking_escrow(accounts, terms);
    let giving = giving_escrow(accounts, terms);
    let fees = swap_payments(state, accounts, remaining, terms);
    let creation = creation_if_absent(
        state,
        accounts.replacement_token,
        accounts.replacement_token_mint,
        accounts.payer,
        accounts.payer,
        ProgramSigner::Unsigned,
    );
    let moves = seq![deposit(accounts, terms), release(accounts, terms)];
    let exchange = exchange_plan(state, accounts, terms);
    let plan = swap_plan(state, accounts, remaining, signers)->Ok_0;
    assert(plan == exchange + fees);
    assert(exchange == creation + moves);
    lemma_apply_all_concat(state, exchange, fees);
    lemma_apply_all_concat(state, creation, moves);
    let created = apply_all(state, creation)->Ok_0;
    lemma_apply_all_pair(created, deposit(accounts, terms), release(accounts, terms));
    let deposited = apply(created, deposit(accounts, terms))->Ok_0;
    let released = apply(deposited, release(accounts, terms))->Ok_0;
    let charged = apply_all(released, fees)->Ok_0;
    lemma_creation_if_absent(
        state,
        state,
        accounts.replacement_token,
        accounts.replacement_token_mint,
        accounts.payer,
        accounts.payer,
        ProgramSigner::Unsigned,
    );
    assert(created.data(giving) == state.data(giving));
    assert(deposited.token_amount(taking) == terms.supply);
    assert(deposited.data(giving) == state.data(giving));
    assert(released.token_amount(taking) == terms.supply);
    assert(released.token_amount(giving) == 0);
    lemma_apply_all_leaves_other_data(released, fees, taking);
    lemma_apply_all_leaves_other_data(released, fees, giving);
    lemma_apply_all_keeps(state, plan, accounts.token_mint);
    lemma_apply_all_keeps(state, plan, accounts.replacement_token_mint);
    lemma_apply_all_keeps(state, plan, accounts.entangled_pair);
}

/// What a swap that may go ahead charges: the sum of its payments.
pub open spec fn price_charged(
    state: LedgerState,
    accounts: Swap,
    remaining: Seq<Pubkey>,
    terms: SwapTerms,
) -> nat {
    total_amount(swap_payments(state, accounts, remaining, terms))
}

/// A swap that may go ahead makes the exchange of custody and then its
/// payments, and nothing else. Where the price is owed, because nothing was
/// paid yet or because the record asks for it every time, there is one payment
/// for each creator of the replacement, in their order: the creator's cut of
/// the record's price, from the payment account into the creator's own account.
/// Where it is not owed there is no payment.
pub proof fn law_swap_charges_what_is_owed(
    state: LedgerState,
    accounts: Swap,
    remaining: Seq<Pubkey>,
    signers: Seq<Pubkey>,
)
    requires
        swap_plan(state, accounts, remaining, signers) is Ok,
    ensures
        ({
            let terms = swap_check(state, accounts, signers)->Ok_0;
            let payments = swap_payments(state, accounts, remaining, terms);
            let terms_of_payment = payment_terms(accounts, terms.record);
            &&& swap_plan(state, accounts, remaining, signers)->Ok_0 == exchange_plan(
                state,
                accounts,
                terms,
            ) + payments
            &&& !charges(terms.record) ==> payments.len() == 0 && price_charged(
                state,
                accounts,
                remaining,
                terms,
            ) == 0
            &&& charges(terms.record) ==> {
                &&& state.creators(accounts.replacement_token_metadata) matches Some(creators)
                &&& payments.len() == creators.len()
                &&& creators.len() <= remaining.len()
                &&& price_charged(state, accounts, remaining, terms) == total_cut(
                    creators,
                    terms.record.price,
                )
                &&& forall|i: int|
                    0 <= i < creators.len() ==> pays(
                        #[trigger] payments[i],
                        remaining[i],
                        creator_cut(terms.record.price, creators[i].share),
                        terms_of_payment,
                    ) && is_recipient(
                        remaining[i],
                        creators[i].address,
                        accounts.treasury_mint,
                        terms_of_payment.native,
                    )
            }
        }),
{
    let terms = swap_check(state, accounts, signers)->Ok_0;
    let payments = swap_payments(state, accounts, remaining, terms);
    if charges(terms.record) {
        let creators = state.creators(accounts.replacement_token_metadata)->0;
        let terms_of_payment = payment_terms(accounts, terms.record);
        lemma_fee_plan_pays_each_cut(creators, remaining, terms_of_payment);
        assert(payments == fee_plan(creators, remaining, terms_of_payment)->Ok_0);
        assert(terms_of_payment.treasury_mint == accounts.treasury_mint);
        assert(terms_of_payment.price == terms.record.price);
    } else {
        assert(payments =~= Seq::<Invocation>::empty());
    }
}

/// Where the record does not ask for payment every time, a swap on which
/// nothing was paid yet charges the price, and a swap on which it was paid
/// charges nothing. Either way the record is marked as paid afterwards.
pub proof fn law_price_is_paid_once(
    state: LedgerState,
    accounts: Swap,
    remaining: Seq<Pubkey>,
    signers: Seq<Pubkey>,
)
    requires
        swap_outcome(state, accounts, remaining, signers) is Ok,
        !swap_check(state, accounts, signers)->Ok_0.record.pays_every_time,
    ensures
        ({
            let terms = swap_check(state, accounts, signers)->Ok_0;
            let after = after_swap(state, accounts, remaining, signers);
            &&& after.pair(accounts.entangled_pair) == Ok::<EntangledPair, ErrorCode>(
                EntangledPair { paid: true, ..terms.record },
            )
            &&& terms.record.paid ==> price_charged(state, accounts, remaining, terms) == 0
                && swap_payments(state, accounts, remaining, terms).len() == 0
            &&& !terms.record.paid ==> state.creators(accounts.replacement_token_metadata) is Some
                && price_charged(state, accounts, remaining, terms) == total_cut(
                state.creators(accounts.replacement_token_metadata)->0,
                terms.record.price,
            )
        }),
{
    law_swap_charges_what_is_owed(state, accounts, remaining, signers);
}

/// The swap that follows a swap of the same pair charges nothing, where the
/// record does not ask for payment every time.
pub proof fn law_second_swap_is_free(
    state: LedgerState,
    first: Swap,
    first_remaining: Seq<Pubkey>,
    first_signers: Seq<Pubkey>,
    second: Swap,
    second_remaining: Seq<Pubkey>,
    second_signers: Seq<Pubkey>,
)
    requires
        swap_outcome(state, first, first_remaining, first_signers) is Ok,
        !swap_check(state, first, first_signers)->Ok_0.record.pays_every_time,
        second.entangled_pair == first.entangled_pair,
        swap_plan(
            after_swap(state, first, first_remaining, first_signers),
            second,
            second_remaining,
            second_signers,
        ) is Ok,
    ensures
        ({
            let between = after_swap(state, first, first_remaining, first_signers);
            let terms = swap_check(between, second, second_signers)->Ok_0;
            &&& swap_payments(between, second, second_remaining, terms).len() == 0
            &&& price_charged(between, second, second_remaining, terms) == 0
            &&& swap_plan(between, second, second_remaining, second_signers)->Ok_0
                == exchange_plan(between, second, terms)
        }),
{
    let between = after_swap(state, first, first_remaining, first_signers);
    law_swap_charges_what_is_owed(between, second, second_remaining, second_signers);
    let terms = swap_check(between, second, second_signers)->Ok_0;
    assert(swap_plan(between, second, second_remaining, second_signers)->Ok_0 =~= exchange_plan(
        between,
        second,
        terms,
    ));
}

/// Where the record asks for payment every time, every swap charges the
/// price, whether it was paid before or not.
pub proof fn law_price_is_paid_every_time(
    state: LedgerState,
    accounts: Swap,
    remaining: Seq<Pubkey>,
    signers: Seq<Pubkey>,
)
    requires
        swap_outcome(state, accounts, remaining, signers) is Ok,
        swap_check(state, accounts, signers)->Ok_0.record.pays_every_time,
    ensures
        ({
            let terms = swap_check(state, accounts, signers)->Ok_0;
            let after = after_swap(state, accounts, remaining, signers);
            &&& after.pair(accounts.entangled_pair) == Ok::<EntangledPair, ErrorCode>(
                EntangledPair { paid: true, ..terms.record },
            )
            &&& state.creators(accounts.replacement_token_metadata) is Some
            &&& price_charged(state, accounts, remaining, terms) == total_cut(
                state.creators(accounts.replacement_token_metadata)->0,
                terms.record.price,
            )
        }),
{
    law_swap_charges_what_is_owed(state, accounts, remaining, signers);
}

/// Creators whose shares add up to the whole are paid the price between them,
/// short of it by less than one unit for each creator.
pub proof fn law_whole_shares_pay_the_price(creators: Seq<Creator>, price: u64)
    requires
        total_share(creators) == 100,
    ensures
        total_cut(creators, price) <= price,
        price < total_cut(creators, price) + creators.len(),
{
    lemma_total_cut_bounds(creators, price);
    if creators.len() == 0 {
        assert(total_share(creators) == 0);
    }
}

/// Presenting a token of a mint that is neither asset of the pair is refused
/// with `InvalidMint`, and the ledger stays as it was: no escrow balance
/// changes.
///
/// This is stated of swaps whose accounts are what they are presented as, and
/// whose presented account holds the whole supply of the mint presented with
/// it or is of another mint than that.
pub proof fn law_foreign_mint_is_refused(
    state: LedgerState,
    accounts: Swap,
    remaining: Seq<Pubkey>,
    signers: Seq<Pubkey>,
)
    requires
        swap_accounts(state, accounts, signers) is Ok,
        ({
            let found = swap_accounts(state, accounts, signers)->Ok_0;
            &&& side_of(found.record, found.token.mint) is None
            &&& found.token.mint != accounts.token_mint || found.token.amount == found.supply
        }),
    ensures
        swap_outcome(state, accounts, remaining, signers) == Err::<
            (Seq<Invocation>, LedgerState),
            TransitionError,
        >(TransitionError::Program(ErrorCode::InvalidMint)),
        after_swap(state, accounts, remaining, signers) == state,
{
}

/// Presenting a token account that holds less than the supply of its mint is
/// refused with `InvalidTokenAmount`, and the ledger stays as it was.
///
/// This is stated of swaps whose accounts are what they are presented as, and
/// whose presented account is of the mint presented with it.
pub proof fn law_short_balance_is_refused(
    state: LedgerState,
    accounts: Swap,
    remaining: Seq<Pubkey>,
    signers: Seq<Pubkey>,
)
    requires
        swap_accounts(state, accounts, signers) is Ok,
        ({
            let found = swap_accounts(state, accounts, signers)->Ok_0;
            &&& found.token.mint == accounts.token_mint
            &&& found.token.amount < found.supply
        }),
    ensures
        swap_outcome(state, accounts, remaining, signers) == Err::<
            (Seq<Invocation>, LedgerState),
            TransitionError,
        >(TransitionError::Program(ErrorCode::InvalidTokenAmount)),
        after_swap(state, accounts, remaining, signers) == state,
{
}

/// The release of a swap is made on the word of the record, and the seeds
/// that sign it are the record's own: they derive the record's address.
pub proof fn law_release_is_signed_by_the_record(
    state: LedgerState,
    accounts: Swap,
    signers: Seq<Pubkey>,
)
    requires
        swap_check(state, accounts, signers) is Ok,
    ensures
        release(accounts, swap_check(state, accounts, signers)->Ok_0)
            matches Invocation::TokenTransfer { source, destination, authority, amount, signer }
            && authority == accounts.entangled_pair && signer.signs_for(authority) && source
            == giving_escrow(accounts, swap_check(state, accounts, signers)->Ok_0) && destination
            == accounts.replacement_token,
{
}

/// No transition goes ahead without the signatures that it asks for: a
/// creation and a swap are signed by their payer and their transfer authority,
/// an update by the authority of its record.
pub proof fn law_transitions_are_signed(
    state: LedgerState,
    creation: CreateEntangledPair,
    args: CreateArgs,
    swap: Swap,
    remaining: Seq<Pubkey>,
    update: UpdateEntangledPair,
    price: u64,
    pays_every_time: bool,
    signers: Seq<Pubkey>,
)
    ensures
        create_outcome(state, creation, signers, args) is Ok ==> signers.contains(creation.payer)
            && signers.contains(creation.transfer_authority),
        swap_outcome(state, swap, remaining, signers) is Ok ==> signers.contains(swap.payer)
            && signers.contains(swap.transfer_authority),
        update_outcome(state, update, signers, price, pays_every_time) is Ok ==> signers.contains(
            update.authority,
        ) && state.pair(update.entangled_pair) is Ok && state.pair(
            update.entangled_pair,
        )->Ok_0.authority == update.authority,
{
}

/// An update replaces the authority, the price and the payment cadence of
/// its record and nothing else: every record stands, no balance of native
/// currency changes, and every other address holds what it held.
pub proof fn law_update_changes_the_terms_only(
    state: LedgerState,
    accounts: UpdateEntangledPair,
    signers: Seq<Pubkey>,
    price: u64,
    pays_every_time: bool,
    key: Pubkey,
)
    ensures
        ({
            let after = after_update(state, accounts, signers, price, pays_every_time);
            &&& record_stands(state, after, key)
            &&& after.lamports(key) == state.lamports(key)
            &&& key != accounts.entangled_pair ==> after.data(key) == state.data(key)
        }),
        update_outcome(state, accounts, signers, price, pays_every_time) is Ok ==> after_update(
            state,
            accounts,
            signers,
            price,
            pays_every_time,
        ).pair(accounts.entangled_pair) == Ok::<EntangledPair, ErrorCode>(
            updated_record(
                state.pair(accounts.entangled_pair)->Ok_0,
                accounts.new_authority,
                price,
                pays_every_time,
            ),
        ),
{
}

/// No transition deletes a record, moves it to other assets or unsets that it
/// was paid: what the record of a pair says of its mints and escrows stays, and
/// a record that is paid stays paid.
pub open spec fn record_stands(before: LedgerState, after: LedgerState, key: Pubkey) -> bool {
    before.pair(key) matches Ok(record) ==> after.pair(key) matches Ok(kept) && kept.mint_a
        == record.mint_a && kept.mint_b == record.mint_b && kept.token_a_escrow
        == record.token_a_escrow && kept.token_b_escrow == record.token_b_escrow && kept.bump
        == record.bump && kept.token_a_escrow_bump == record.token_a_escrow_bump
        && kept.token_b_escrow_bump == record.token_b_escrow_bump && kept.treasury_mint
        == record.treasury_mint && (record.paid ==> kept.paid)
}

/// Every record stands through a creation.
pub proof fn law_records_stand_through_creation(
    state: LedgerState,
    accounts: CreateEntangledPair,
    signers: Seq<Pubkey>,
    args: CreateArgs,
    key: Pubkey,
)
    ensures
        record_stands(state, after_create(state, accounts, signers, args), key),
{
    if create_outcome(state, accounts, signers, args) is Ok {
        let supply = create_check(state, accounts, signers, args)->Ok_0.supply;
        let written = state.with_data(
            accounts.entangled_pair,
            DataView::Pair(created_record(accounts, args)),
        );
        lemma_apply_all_keeps(written, create_plan(state, accounts, args, supply), key);
    }
}

/// Every record stands through a swap.
pub proof fn law_records_stand_through_swap(
    state: LedgerState,
    accounts: Swap,
    remaining: Seq<Pubkey>,
    signers: Seq<Pubkey>,
    key: Pubkey,
)
    ensures
        record_stands(state, after_swap(state, accounts, remaining, signers), key),
{
    if swap_outcome(state, accounts, remaining, signers) is Ok {
        lemma_apply_all_keeps(state, swap_plan(state, accounts, remaining, signers)->Ok_0, key);
    }
}

/// Records come from creations alone: a record that stands after a swap or an
/// update stood before it, and one that stands after a creation stood before
/// it or is the one that the creation wrote.
pub proof fn law_only_creation_writes_records(
    state: LedgerState,
    creation: CreateEntangledPair,
    args: CreateArgs,
    swap: Swap,
    remaining: Seq<Pubkey>,
    update: UpdateEntangledPair,
    price: u64,
    pays_every_time: bool,
    signers: Seq<Pubkey>,
    key: Pubkey,
)
    ensures
        after_swap(state, swap, remaining, signers).pair(key) is Ok ==> state.pair(key) is Ok,
        after_update(state, update, signers, price, pays_every_time).pair(key) is Ok
            ==> state.pair(key) is Ok,
        after_create(state, creation, signers, args).pair(key) is Ok ==> state.pair(key) is Ok
            || key == creation.entangled_pair,
{
    if swap_outcome(state, swap, remaining, signers) is Ok {
        lemma_apply_all_keeps(state, swap_plan(state, swap, remaining, signers)->Ok_0, key);
    }
    if create_outcome(state, creation, signers, args) is Ok {
        let supply = create_check(state, creation, signers, args)->Ok_0.supply;
        let written = state.with_data(
            creation.entangled_pair,
            DataView::Pair(created_record(creation, args)),
        );
        lemma_apply_all_keeps(written, create_plan(state, creation, args, supply), key);
    }
}

} // verus!
