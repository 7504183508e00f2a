//! What holds of every provisioning run.

use crate::address::{address_from_text, text_of_address};
use crate::error::{AddressField, ProvisionErrorView};
use crate::instruction::{
    associated_address_exists, associated_program_address, associated_token_address,
    create_with_seed_data, names_account, system_program_address, token_account_len,
    token_program_address,
};
use crate::machine::{
    begin, next, started, well_formed, ActionView, EventView, Phase, ProvisionerView,
};
use crate::plan::{
    address_error, derived_account, instruction_build_error, instruction_set, seed_bytes,
    transaction_plan, RequestView,
};
use vstd::prelude::*;

verus! {

/// The actions that a run takes, one for each event, from a state on.
pub open spec fn run(state: ProvisionerView, events: Seq<EventView>) -> Seq<ActionView>
    decreases events.len(),
{
    if events.len() == 0 {
        Seq::empty()
    } else {
        seq![next(state, events[0]).1] + run(next(state, events[0]).0, events.skip(1))
    }
}

/// The state of a run after the events, from a state on.
pub open spec fn state_after(state: ProvisionerView, events: Seq<EventView>) -> ProvisionerView
    decreases events.len(),
{
    if events.len() == 0 {
        state
    } else {
        state_after(next(state, events[0]).0, events.skip(1))
    }
}

/// How far a run has come.
pub open spec fn progress(phase: Phase) -> nat {
    match phase {
        Phase::AwaitingRent => 0,
        Phase::AwaitingBlockhash => 1,
        Phase::AwaitingConfirmation => 2,
        Phase::AwaitingBalances => 3,
        Phase::Finished => 4,
    }
}

/// Whether the transaction is the whole of what a run for this request asks
/// of the ledger: all four instructions for some rent, the funding identity as
/// fee payer, and both identities as signers.
pub open spec fn is_whole_transaction(action: ActionView, request: RequestView) -> bool {
    action matches ActionView::SubmitAndConfirm(plan) && exists|rent: u64|
        plan == #[trigger] transaction_plan(request, rent, plan.recent_blockhash)
}

/// A text that is no address for the token type ends the start with the
/// error of that text: no run exists, and so nothing is asked of the network
/// and no instruction is built.
pub proof fn lemma_malformed_token_type_starts_nothing(
    funding: Seq<u8>,
    new_account: Seq<u8>,
    token_type_id: Seq<char>,
    source_account_id: Seq<char>,
)
    requires
        address_from_text(token_type_id) is Err,
    ensures
        started(funding, new_account, token_type_id, source_account_id) == Err::<
            (ProvisionerView, ActionView),
            ProvisionErrorView,
        >(address_error(AddressField::TokenType, address_from_text(token_type_id)->Err_0)),
{
}

/// A text that is no address for the source account ends the start with an
/// error as well.
pub proof fn lemma_malformed_source_starts_nothing(
    funding: Seq<u8>,
    new_account: Seq<u8>,
    token_type_id: Seq<char>,
    source_account_id: Seq<char>,
)
    requires
        address_from_text(source_account_id) is Err,
    ensures
        started(funding, new_account, token_type_id, source_account_id) is Err,
{
}

/// Two runs with the same funding identity ask the system program to derive
/// from the same base, the same seed and the same owner, whatever else they
/// differ in: their create-with-seed instructions name the same base account
/// and encode the same base, seed and owner. Where each run's new account is
/// the address derived from them, both ask for an account at one address, and
/// for the same rent they send the same instruction: the second cannot be
/// created where the first was.
pub proof fn lemma_shared_funding_collides(
    first: RequestView,
    first_rent: u64,
    second: RequestView,
    second_rent: u64,
)
    requires
        first.funding == second.funding,
    ensures
        instruction_set(first, first_rent)[0].accounts[2] == instruction_set(
            second,
            second_rent,
        )[0].accounts[2],
        instruction_set(first, first_rent)[0].data == create_with_seed_data(
            first.funding,
            seed_bytes(),
            first_rent,
            token_account_len() as u64,
            token_program_address(),
        ),
        instruction_set(second, second_rent)[0].data == create_with_seed_data(
            first.funding,
            seed_bytes(),
            second_rent,
            token_account_len() as u64,
            token_program_address(),
        ),
        (first.new_account == derived_account(first.funding) && second.new_account
            == derived_account(second.funding)) ==> instruction_set(
            first,
            first_rent,
        )[0].accounts[1] == instruction_set(second, second_rent)[0].accounts[1],
        (first.new_account == derived_account(first.funding) && second.new_account
            == derived_account(second.funding) && first_rent == second_rent) ==> instruction_set(
            first,
            first_rent,
        )[0] == instruction_set(second, second_rent)[0],
{
}

/// Whatever the events, a run that ends well returns the text of its new
/// account's address.
pub proof fn lemma_run_returns_the_new_account(
    state: ProvisionerView,
    events: Seq<EventView>,
    i: int,
)
    requires
        0 <= i < events.len(),
        run(state, events)[i] matches ActionView::Finish(Ok(_)),
    ensures
        run(state, events)[i] == ActionView::Finish(
            Ok(text_of_address(state.request.new_account)),
        ),
    decreases events.len(),
{
    let after = next(state, events[0]).0;
    let rest = events.skip(1);
    lemma_run_len(after, rest);
    lemma_step_goes_forward(state, events[0]);
    if i > 0 {
        lemma_run_returns_the_new_account(after, rest, i - 1);
    }
}

/// A run started for the derived account returns, when it ends well, the text
/// of the address derived from the funding identity, the fixed seed and the
/// token program: it depends on the funding identity alone, whatever the
/// token type, the source account and the events, and can be computed without
/// the run.
pub proof fn lemma_derived_run_returns_the_derived_address(
    funding: Seq<u8>,
    token_type_id: Seq<char>,
    source_account_id: Seq<char>,
    events: Seq<EventView>,
    i: int,
)
    requires
        started(funding, derived_account(funding), token_type_id, source_account_id) is Ok,
        0 <= i < events.len(),
        run(
            started(funding, derived_account(funding), token_type_id, source_account_id)->Ok_0.0,
            events,
        )[i] matches ActionView::Finish(Ok(_)),
    ensures
        run(
            started(funding, derived_account(funding), token_type_id, source_account_id)->Ok_0.0,
            events,
        )[i] == ActionView::Finish(Ok(text_of_address(derived_account(funding)))),
{
    let state = started(
        funding,
        derived_account(funding),
        token_type_id,
        source_account_id,
    )->Ok_0.0;
    lemma_run_returns_the_new_account(state, events, i);
}

/// Two runs of one funding identity, each started for the derived account,
/// return the same text when they end well, whatever their token types,
/// source accounts and events.
pub proof fn lemma_shared_funding_returns_one_address(
    funding: Seq<u8>,
    first_token_type_id: Seq<char>,
    first_source_account_id: Seq<char>,
    first_events: Seq<EventView>,
    i: int,
    second_token_type_id: Seq<char>,
    second_source_account_id: Seq<char>,
    second_events: Seq<EventView>,
    j: int,
)
    requires
        started(
            funding,
            derived_account(funding),
            first_token_type_id,
            first_source_account_id,
        ) is Ok,
        started(
            funding,
            derived_account(funding),
            second_token_type_id,
            second_source_account_id,
        ) is Ok,
        0 <= i < first_events.len(),
        0 <= j < second_events.len(),
        run(
            started(
                funding,
                derived_account(funding),
                first_token_type_id,
                first_source_account_id,
            )->Ok_0.0,
            first_events,
        )[i] matches ActionView::Finish(Ok(_)),
        run(
            started(
                funding,
                derived_account(funding),
                second_token_type_id,
                second_source_account_id,
            )->Ok_0.0,
            second_events,
        )[j] matches ActionView::Finish(Ok(_)),
    ensures
        run(
            started(
                funding,
                derived_account(funding),
                first_token_type_id,
                first_source_account_id,
            )->Ok_0.0,
            first_events,
        )[i] == run(
            started(
                funding,
                derived_account(funding),
                second_token_type_id,
                second_source_account_id,
            )->Ok_0.0,
            second_events,
        )[j],
{
    lemma_derived_run_returns_the_derived_address(
        funding,
        first_token_type_id,
        first_source_account_id,
        first_events,
        i,
    );
    lemma_derived_run_returns_the_derived_address(
        funding,
        second_token_type_id,
        second_source_account_id,
        second_events,
        j,
    );
}

/// The instruction set has four instructions: one for the system program, one
/// for the token program, one for the associated-token-account program and
/// one more for the token program. The first, the second and the fourth name
/// the new account; the third names the funding identity, the token type and
/// their associated address.
pub proof fn lemma_instruction_set_shape(request: RequestView, rent: u64)
    ensures
        instruction_set(request, rent).len() == 4,
        instruction_set(request, rent)[0].program_id == system_program_address(),
        instruction_set(request, rent)[1].program_id == token_program_address(),
        instruction_set(request, rent)[2].program_id == associated_program_address(),
        instruction_set(request, rent)[3].program_id == token_program_address(),
        names_account(instruction_set(request, rent)[0], request.new_account),
        names_account(instruction_set(request, rent)[1], request.new_account),
        names_account(instruction_set(request, rent)[3], request.new_account),
        names_account(instruction_set(request, rent)[2], request.funding),
        names_account(instruction_set(request, rent)[2], request.token_type),
        names_account(
            instruction_set(request, rent)[2],
            associated_token_address(request.funding, request.token_type),
        ),
{
    let set = instruction_set(request, rent);
    assert(set[0].accounts[1].address == request.new_account);
    assert(set[1].accounts[0].address == request.new_account);
    assert(set[3].accounts[1].address == request.new_account);
    assert(set[2].accounts[0].address == request.funding);
    assert(set[2].accounts[3].address == request.token_type);
    assert(set[2].accounts[1].address == associated_token_address(
        request.funding,
        request.token_type,
    ));
}

/// The first instruction's data have 96 bytes; the quoted rent stands in
/// bytes 48 to 55 and the length of a token account's record in bytes 56 to
/// 63, each with its lowest byte first.
pub proof fn lemma_creation_carries_rent_and_space(request: RequestView, rent: u64)
    requires
        request.funding.len() == 32,
    ensures
        instruction_set(request, rent)[0].data.len() == 96,
        instruction_set(request, rent)[0].data.subrange(4, 36) == request.funding,
        instruction_set(request, rent)[0].data.subrange(44, 48) == seed_bytes(),
        instruction_set(request, rent)[0].data.subrange(48, 56)
            == vstd::bytes::spec_u64_to_le_bytes(rent),
        instruction_set(request, rent)[0].data.subrange(56, 64)
            == vstd::bytes::spec_u64_to_le_bytes(165),
        instruction_set(request, rent)[0].data.subrange(64, 96) == token_program_address(),
{
    vstd::bytes::lemma_auto_spec_u64_to_from_le_bytes();
    let data = instruction_set(request, rent)[0].data;
    assert(data == create_with_seed_data(
        request.funding,
        seed_bytes(),
        rent,
        token_account_len() as u64,
        token_program_address(),
    ));
    assert(data.subrange(4, 36) =~= request.funding);
    assert(data.subrange(44, 48) =~= seed_bytes());
    assert(data.subrange(48, 56) =~= vstd::bytes::spec_u64_to_le_bytes(rent));
    assert(data.subrange(56, 64) =~= vstd::bytes::spec_u64_to_le_bytes(165));
    assert(data.subrange(64, 96) =~= token_program_address());
}

/// The closing transfer moves nothing: its data are the byte 3 and eight zero
/// bytes.
pub proof fn lemma_probe_moves_nothing(request: RequestView, rent: u64)
    ensures
        instruction_set(request, rent)[3].data == seq![
            3u8,
            0u8,
            0u8,
            0u8,
            0u8,
            0u8,
            0u8,
            0u8,
            0u8,
        ],
{
    vstd::bytes::spec_u64_to_le_bytes_to_open(0u64);
    assert(0u64 & 0xff == 0) by (bit_vector);
    assert((0u64 >> 8) & 0xff == 0) by (bit_vector);
    assert((0u64 >> 16) & 0xff == 0) by (bit_vector);
    assert((0u64 >> 24) & 0xff == 0) by (bit_vector);
    assert((0u64 >> 32) & 0xff == 0) by (bit_vector);
    assert((0u64 >> 40) & 0xff == 0) by (bit_vector);
    assert((0u64 >> 48) & 0xff == 0) by (bit_vector);
    assert((0u64 >> 56) & 0xff == 0) by (bit_vector);
    assert(instruction_set(request, rent)[3].data =~= seq![
        3u8,
        0u8,
        0u8,
        0u8,
        0u8,
        0u8,
        0u8,
        0u8,
        0u8,
    ]);
}

/// No event takes a run back, and none changes its request.
pub proof fn lemma_step_goes_forward(state: ProvisionerView, event: EventView)
    ensures
        progress(next(state, event).0.phase) >= progress(state.phase),
        next(state, event).0.request == state.request,
{
}

/// A run starts well formed, and no event ends that.
pub proof fn lemma_well_formed_is_kept(request: RequestView, state: ProvisionerView, event: EventView)
    ensures
        well_formed(begin(request).0),
        well_formed(state) ==> well_formed(next(state, event).0),
{
}

/// A run submits only when it waited for a recent block, and then waits for
/// the confirmation.
pub proof fn lemma_submission_follows_the_block(state: ProvisionerView, event: EventView)
    requires
        next(state, event).1 is SubmitAndConfirm,
    ensures
        state.phase == Phase::AwaitingBlockhash,
        event is BlockhashFetched,
        next(state, event).0.phase == Phase::AwaitingConfirmation,
{
}

/// A run submits only whole transactions: whenever an event makes it submit,
/// it submits all four instructions for its request and the quoted rent in one
/// transaction.
pub proof fn lemma_submission_is_whole(state: ProvisionerView, event: EventView)
    requires
        well_formed(state),
        next(state, event).1 is SubmitAndConfirm,
    ensures
        is_whole_transaction(next(state, event).1, state.request),
        next(state, event).1 == ActionView::SubmitAndConfirm(
            transaction_plan(state.request, state.rent, event->blockhash),
        ),
        next(state, event).1->SubmitAndConfirm_0.instructions.len() == 4,
{
    let plan = next(state, event).1->SubmitAndConfirm_0;
    assert(plan == transaction_plan(state.request, state.rent, plan.recent_blockhash));
}

/// Where no associated address is found for the funding identity and the
/// token type, the run ends as soon as the rent is quoted, with the error of
/// instruction building: it asks for no recent block and submits nothing.
pub proof fn lemma_unbuildable_run_ends_at_the_rent(request: RequestView, lamports: u64)
    requires
        !associated_address_exists(request.funding, request.token_type),
    ensures
        next(begin(request).0, EventView::RentQuoted { lamports }).1 == ActionView::Finish(
            Err(instruction_build_error()),
        ),
        next(begin(request).0, EventView::RentQuoted { lamports }).0.phase == Phase::Finished,
{
}

/// A run submits at most once, whatever the events: all four instructions go
/// to the ledger in one transaction or not at all.
pub proof fn lemma_at_most_one_submission(
    state: ProvisionerView,
    events: Seq<EventView>,
    i: int,
    j: int,
)
    requires
        0 <= i < j < events.len(),
        run(state, events)[i] is SubmitAndConfirm,
    ensures
        !(run(state, events)[j] is SubmitAndConfirm),
    decreases events.len(),
{
    lemma_run_len(state, events);
    let after = next(state, events[0]).0;
    let rest = events.skip(1);
    lemma_run_len(after, rest);
    if i == 0 {
        lemma_submission_follows_the_block(state, events[0]);
        lemma_no_submission_after_block(after, rest, j - 1);
    } else {
        lemma_at_most_one_submission(after, rest, i - 1, j - 1);
    }
}

/// A run takes one action for each event.
pub proof fn lemma_run_len(state: ProvisionerView, events: Seq<EventView>)
    ensures
        run(state, events).len() == events.len(),
    decreases events.len(),
{
    if events.len() > 0 {
        lemma_run_len(next(state, events[0]).0, events.skip(1));
    }
}

/// Once a run has its recent block, no event makes it submit.
pub proof fn lemma_no_submission_after_block(
    state: ProvisionerView,
    events: Seq<EventView>,
    i: int,
)
    requires
        0 <= i < events.len(),
        progress(state.phase) >= 2,
    ensures
        !(run(state, events)[i] is SubmitAndConfirm),
    decreases events.len(),
{
    let after = next(state, events[0]).0;
    let rest = events.skip(1);
    lemma_run_len(after, rest);
    lemma_step_goes_forward(state, events[0]);
    if i > 0 {
        lemma_no_submission_after_block(after, rest, i - 1);
    }
}

/// A run succeeds only on an answer to the balance queries, which it makes
/// only after the confirmation; and what it then returns is the text of the
/// new account's address, the account whose token balance it asked for.
pub proof fn lemma_success_is_the_new_account(state: ProvisionerView, event: EventView)
    requires
        next(state, event).1 matches ActionView::Finish(Ok(_)),
    ensures
        state.phase == Phase::AwaitingBalances,
        next(state, event).1 == ActionView::Finish(
            Ok(text_of_address(state.request.new_account)),
        ),
        next(state, event).0.phase == Phase::Finished,
{
}

/// The balances that a run asks for are those of its funding account and of
/// its new account, and it asks for them only on the confirmation.
pub proof fn lemma_balances_follow_confirmation(state: ProvisionerView, event: EventView)
    requires
        next(state, event).1 is QueryBalances,
    ensures
        state.phase == Phase::AwaitingConfirmation,
        event == EventView::Confirmed,
        next(state, event).1 == (ActionView::QueryBalances {
            funding: state.request.funding,
            token_account: state.request.new_account,
        }),
{
}

/// A failed exchange before the confirmation ends the run with an error: the
/// caller gets no address.
pub proof fn lemma_failure_before_confirmation_is_an_error(
    state: ProvisionerView,
    failure: crate::error::FailureView,
)
    requires
        progress(state.phase) <= 2,
    ensures
        next(state, EventView::Failed(failure)).1 matches ActionView::Finish(Err(_)),
        next(state, EventView::Failed(failure)).0.phase == Phase::Finished,
{
}

/// A finished run does nothing more.
pub proof fn lemma_finished_stays_finished(
    state: ProvisionerView,
    events: Seq<EventView>,
    i: int,
)
    requires
        state.phase == Phase::Finished,
        0 <= i < events.len(),
    ensures
        run(state, events)[i] == ActionView::Idle,
        state_after(state, events) == state,
    decreases events.len(),
{
    let rest = events.skip(1);
    lemma_run_len(state, rest);
    if i > 0 {
        lemma_finished_stays_finished(state, rest, i - 1);
    } else if rest.len() > 0 {
        lemma_finished_stays_finished(state, rest, 0);
    }
}

/// The run that the network answers at every step, and whose instructions can
/// be built, ends with the new account's address.
pub proof fn lemma_answered_run_succeeds(request: RequestView, rent: u64, blockhash: Seq<u8>)
    requires
        associated_address_exists(request.funding, request.token_type),
    ensures
        run(
            begin(request).0,
            seq![
                EventView::RentQuoted { lamports: rent },
                EventView::BlockhashFetched { blockhash },
                EventView::Confirmed,
                EventView::BalancesQueried,
            ],
        ) == seq![
            ActionView::FetchBlockhash,
            ActionView::SubmitAndConfirm(transaction_plan(request, rent, blockhash)),
            ActionView::QueryBalances {
                funding: request.funding,
                token_account: request.new_account,
            },
            ActionView::Finish(Ok(text_of_address(request.new_account))),
        ],
{
    let events = seq![
        EventView::RentQuoted { lamports: rent },
        EventView::BlockhashFetched { blockhash },
        EventView::Confirmed,
        EventView::BalancesQueried,
    ];
    let s0 = begin(request).0;
    let s1 = next(s0, events[0]).0;
    let s2 = next(s1, events[1]).0;
    let s3 = next(s2, events[2]).0;
    let s4 = next(s3, events[3]).0;
    let e1 = events.skip(1);
    let e2 = e1.skip(1);
    let e3 = e2.skip(1);
    let e4 = e3.skip(1);
    assert(e4.len() == 0);
    assert(run(s4, e4) =~= Seq::<ActionView>::empty());
    assert(e3[0] == events[3]);
    assert(run(s3, e3) =~= seq![next(s3, events[3]).1]);
    assert(e2[0] == events[2]);
    assert(run(s2, e2) =~= seq![next(s2, events[2]).1, next(s3, events[3]).1]);
    assert(e1[0] == events[1]);
    assert(run(s1, e1) =~= seq![
        next(s1, events[1]).1,
        next(s2, events[2]).1,
        next(s3, events[3]).1,
    ]);
    assert(run(s0, events) =~= seq![
        next(s0, events[0]).1,
        next(s1, events[1]).1,
        next(s2, events[2]).1,
        next(s3, events[3]).1,
    ]);
}

} // verus!
