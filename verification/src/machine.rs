//! The order of a provisioning run. The run itself talks to the network; this
//! module decides, after each exchange, what the run does next.

use crate::address::{
    encode_address, max_text_len, text_of_address, Address, AddressParseError,
};
use crate::error::{
    query_error, submission_error, AddressField, Failure, FailureView, ProvisionError,
    ProvisionErrorView,
};
use crate::instruction::{
    associated_address_exists, token_account_len, token_account_size, Instruction,
    InstructionView,
};
use crate::plan::{
    address_error, bind_transaction, bound_transaction, build_instructions,
    derived_account, derived_account_address, instruction_build_error, instruction_set,
    parse_request, parsed_request, views_of, Request, RequestView, TransactionPlan,
    TransactionPlanView,
};
use vstd::prelude::*;

verus! {

/// Where a run stands: which answer of the network it waits for.
#[derive(Clone, Copy, Debug, PartialEq, Eq, Structural)]
pub enum Phase {
    /// The rent-exempt minimum for a token account was asked for.
    AwaitingRent,
    /// A recent block was asked for.
    AwaitingBlockhash,
    /// The transaction was submitted.
    AwaitingConfirmation,
    /// The transaction is confirmed; the balances were asked for.
    AwaitingBalances,
    /// The run is over.
    Finished,
}

/// How settled the ledger's state must be for a read to report it.
#[derive(Clone, Copy, Debug, PartialEq, Eq, Structural)]
pub enum Consistency {
    /// The node's latest state, which the network may still drop.
    Processed,
    /// State that the network has confirmed.
    Confirmed,
    /// State that can no longer change.
    Finalized,
}

/// The consistency that every read of a run asks for: confirmed state, so
/// that no read reports what the network may still drop.
pub fn read_consistency() -> (level: Consistency)
    ensures
        level == Consistency::Confirmed,
{
    Consistency::Confirmed
}

/// What came back from the network.
#[derive(Clone, Debug, PartialEq, Eq)]
pub enum Event {
    /// The rent-exempt minimum, in lamports.
    RentQuoted { lamports: u64 },
    /// A recent block.
    BlockhashFetched { blockhash: [u8; 32] },
    /// The network confirmed the transaction.
    Confirmed,
    /// The two balances were queried and reported.
    BalancesQueried,
    /// The exchange failed.
    Failed(Failure),
}

/// An `Event` as a mathematical value.
pub enum EventView {
    RentQuoted { lamports: u64 },
    BlockhashFetched { blockhash: Seq<u8> },
    Confirmed,
    BalancesQueried,
    Failed(FailureView),
}

impl View for Event {
    type V = EventView;

    open spec fn view(&self) -> EventView {
        match self {
            Event::RentQuoted { lamports } => EventView::RentQuoted { lamports: *lamports },
            Event::BlockhashFetched { blockhash } => EventView::BlockhashFetched {
                blockhash: blockhash@,
            },
            Event::Confirmed => EventView::Confirmed,
            Event::BalancesQueried => EventView::BalancesQueried,
            Event::Failed(failure) => EventView::Failed(failure@),
        }
    }
}

/// What the run is to do next.
#[derive(Debug, PartialEq, Eq)]
pub enum Action {
    /// Ask the network for the rent-exempt minimum of an account of `space`
    /// bytes.
    QueryRentExemption { space: usize },
    /// Ask the network for a recent block.
    FetchBlockhash,
    /// Sign the transaction, submit it, and wait until the network confirms
    /// it.
    SubmitAndConfirm(TransactionPlan),
    /// Ask for the balance of the funding account and for the token balance
    /// of the new account, and report both.
    QueryBalances { funding: Address, token_account: Address },
    /// Return to the caller: the new account's address as text, or the error.
    Finish(Result<String, ProvisionError>),
    /// Nothing: the event was not the answer that the run waits for.
    Idle,
}

/// An `Action` as a mathematical value.
pub enum ActionView {
    QueryRentExemption { space: nat },
    FetchBlockhash,
    SubmitAndConfirm(TransactionPlanView),
    QueryBalances { funding: Seq<u8>, token_account: Seq<u8> },
    Finish(Result<Seq<char>, ProvisionErrorView>),
    Idle,
}

impl View for Action {
    type V = ActionView;

    open spec fn view(&self) -> ActionView {
        match self {
            Action::QueryRentExemption { space } => ActionView::QueryRentExemption {
                space: *space as nat,
            },
            Action::FetchBlockhash => ActionView::FetchBlockhash,
            Action::SubmitAndConfirm(plan) => ActionView::SubmitAndConfirm(plan@),
            Action::QueryBalances { funding, token_account } => ActionView::QueryBalances {
                funding: funding@,
                token_account: token_account@,
            },
            Action::Finish(Ok(text)) => ActionView::Finish(Ok(text@)),
            Action::Finish(Err(error)) => ActionView::Finish(Err(error@)),
            Action::Idle => ActionView::Idle,
        }
    }
}

/// A run between two exchanges with the network.
#[derive(Clone, Debug, PartialEq, Eq)]
pub struct Provisioner {
    request: Request,
    phase: Phase,
    rent: u64,
    instructions: Vec<Instruction>,
}

/// A `Provisioner` as a mathematical value.
pub struct ProvisionerView {
    pub request: RequestView,
    pub phase: Phase,
    /// The rent that the network quoted, once it has.
    pub rent: u64,
    /// The instructions built and not yet submitted.
    pub instructions: Seq<InstructionView>,
}

impl View for Provisioner {
    type V = ProvisionerView;

    closed spec fn view(&self) -> ProvisionerView {
        ProvisionerView {
            request: self.request@,
            phase: self.phase,
            rent: self.rent,
            instructions: views_of(self.instructions@),
        }
    }
}

/// What holds of every state of a run: while it waits for the recent block it
/// holds the four instructions for its request and the quoted rent, and an
/// associated address was found for them.
pub open spec fn well_formed(state: ProvisionerView) -> bool {
    state.phase == Phase::AwaitingBlockhash ==> (state.instructions == instruction_set(
        state.request,
        state.rent,
    ) && associated_address_exists(state.request.funding, state.request.token_type))
}

/// The state in which a run ends, from any state.
pub open spec fn finished(state: ProvisionerView) -> ProvisionerView {
    ProvisionerView { phase: Phase::Finished, ..state }
}

/// The way a run ends in an error.
pub open spec fn fail(state: ProvisionerView, error: ProvisionErrorView) -> (
    ProvisionerView,
    ActionView,
) {
    (finished(state), ActionView::Finish(Err(error)))
}

/// The first state of a run and its first action: to ask for the rent of a
/// token account.
pub open spec fn begin(request: RequestView) -> (ProvisionerView, ActionView) {
    (
        ProvisionerView {
            request,
            phase: Phase::AwaitingRent,
            rent: 0,
            instructions: Seq::empty(),
        },
        ActionView::QueryRentExemption { space: token_account_len() },
    )
}

/// How a run starts from the caller's values: with an error where one of the
/// two texts is no address, with `begin` otherwise.
pub open spec fn started(
    funding: Seq<u8>,
    new_account: Seq<u8>,
    token_type_id: Seq<char>,
    source_account_id: Seq<char>,
) -> Result<(ProvisionerView, ActionView), ProvisionErrorView> {
    match parsed_request(funding, new_account, token_type_id, source_account_id) {
        Err(error) => Err(error),
        Ok(request) => Ok(begin(request)),
    }
}

/// The state after an event, and the action that the event calls for.
///
/// The run is linear: rent, instructions, recent block, submission, balances,
/// end. The instructions are built as soon as the rent is quoted; where they
/// cannot be built the run ends there, before it asks for a recent block. A
/// failed exchange before the confirmation ends the run with an error. Once
/// the transaction is confirmed the run succeeds, whatever becomes of the
/// balance queries. An event that is not the answer awaited changes nothing.
pub open spec fn next(state: ProvisionerView, event: EventView) -> (ProvisionerView, ActionView) {
    match (state.phase, event) {
        (Phase::AwaitingRent, EventView::RentQuoted { lamports }) => if associated_address_exists(
            state.request.funding,
            state.request.token_type,
        ) {
            (
                ProvisionerView {
                    phase: Phase::AwaitingBlockhash,
                    rent: lamports,
                    instructions: instruction_set(state.request, lamports),
                    ..state
                },
                ActionView::FetchBlockhash,
            )
        } else {
            fail(state, instruction_build_error())
        },
        (Phase::AwaitingRent, EventView::Failed(failure)) => fail(state, query_error(failure)),
        (Phase::AwaitingBlockhash, EventView::BlockhashFetched { blockhash }) => (
            ProvisionerView {
                phase: Phase::AwaitingConfirmation,
                instructions: Seq::empty(),
                ..state
            },
            ActionView::SubmitAndConfirm(
                bound_transaction(state.request, state.instructions, blockhash),
            ),
        ),
        (Phase::AwaitingBlockhash, EventView::Failed(failure)) => fail(
            state,
            query_error(failure),
        ),
        (Phase::AwaitingConfirmation, EventView::Confirmed) => (
            ProvisionerView { phase: Phase::AwaitingBalances, ..state },
            ActionView::QueryBalances {
                funding: state.request.funding,
                token_account: state.request.new_account,
            },
        ),
        (Phase::AwaitingConfirmation, EventView::Failed(failure)) => fail(
            state,
            submission_error(failure),
        ),
        (Phase::AwaitingBalances, EventView::BalancesQueried) => succeed(state),
        (Phase::AwaitingBalances, EventView::Failed(_)) => succeed(state),
        _ => (state, ActionView::Idle),
    }
}

/// The way a run ends well: with the new account's address as text.
pub open spec fn succeed(state: ProvisionerView) -> (ProvisionerView, ActionView) {
    (finished(state), ActionView::Finish(Ok(text_of_address(state.request.new_account))))
}

/// A started run or an error as a mathematical value.
pub open spec fn start_outcome(r: Result<(Provisioner, Action), ProvisionError>) -> Result<
    (ProvisionerView, ActionView),
    ProvisionErrorView,
> {
    match r {
        Ok((state, action)) => Ok((state@, action@)),
        Err(error) => Err(error@),
    }
}

impl Provisioner {
    /// Starts a run for the funding identity's address, the address of the
    /// identity made for the new account, and the caller's two texts. Nothing
    /// is asked of the network unless both texts are addresses.
    pub fn start(
        funding: Address,
        new_account: Address,
        token_type_id: &str,
        source_account_id: &str,
    ) -> (r: Result<(Provisioner, Action), ProvisionError>)
        ensures
            start_outcome(r) == started(
                funding@,
                new_account@,
                token_type_id@,
                source_account_id@,
            ),
            token_type_id@.len() > max_text_len() ==> (r is Err && r->Err_0@ == address_error(
                AddressField::TokenType,
                AddressParseError::WrongSize,
            )),
            source_account_id@.len() > max_text_len() ==> (r is Err),
    {
        let request = match parse_request(funding, new_account, token_type_id, source_account_id) {
            Ok(request) => request,
            Err(error) => {
                return Err(error);
            },
        };
        let state = Provisioner {
            request,
            phase: Phase::AwaitingRent,
            rent: 0,
            instructions: Vec::new(),
        };
        let action = Action::QueryRentExemption { space: token_account_size() };
        assert(state@.instructions =~= Seq::<InstructionView>::empty());
        Ok((state, action))
    }

    /// Starts a run for the account that the ledger derives from the funding
    /// identity: the new account is the derived address, so that the address
    /// which the run returns on success depends on the funding identity alone.
    pub fn start_derived(funding: Address, token_type_id: &str, source_account_id: &str) -> (r:
        Result<(Provisioner, Action), ProvisionError>)
        ensures
            start_outcome(r) == started(
                funding@,
                derived_account(funding@),
                token_type_id@,
                source_account_id@,
            ),
    {
        let new_account = derived_account_address(&funding);
        Provisioner::start(funding, new_account, token_type_id, source_account_id)
    }

    /// Takes what came back from the network and says what to do next.
    pub fn step(self, event: Event) -> (r: (Provisioner, Action))
        ensures
            (r.0@, r.1@) == next(self@, event@),
    {
        let Provisioner { request, phase, rent, instructions } = self;
        match (phase, event) {
            (Phase::AwaitingRent, Event::RentQuoted { lamports }) => {
                match build_instructions(&request, lamports) {
                    Ok(built) => (
                        Provisioner {
                            request,
                            phase: Phase::AwaitingBlockhash,
                            rent: lamports,
                            instructions: built,
                        },
                        Action::FetchBlockhash,
                    ),
                    Err(error) => (
                        Provisioner { request, phase: Phase::Finished, rent, instructions },
                        Action::Finish(Err(error)),
                    ),
                }
            },
            (Phase::AwaitingRent, Event::Failed(failure)) => (
                Provisioner { request, phase: Phase::Finished, rent, instructions },
                Action::Finish(Err(ProvisionError::from_query(failure))),
            ),
            (Phase::AwaitingBlockhash, Event::BlockhashFetched { blockhash }) => {
                let plan = bind_transaction(&request, instructions, blockhash);
                let state = Provisioner {
                    request,
                    phase: Phase::AwaitingConfirmation,
                    rent,
                    instructions: Vec::new(),
                };
                assert(state@.instructions =~= Seq::<InstructionView>::empty());
                (state, Action::SubmitAndConfirm(plan))
            },
            (Phase::AwaitingBlockhash, Event::Failed(failure)) => (
                Provisioner { request, phase: Phase::Finished, rent, instructions },
                Action::Finish(Err(ProvisionError::from_query(failure))),
            ),
            (Phase::AwaitingConfirmation, Event::Confirmed) => (
                Provisioner { request, phase: Phase::AwaitingBalances, rent, instructions },
                Action::QueryBalances {
                    funding: request.funding,
                    token_account: request.new_account,
                },
            ),
            (Phase::AwaitingConfirmation, Event::Failed(failure)) => (
                Provisioner { request, phase: Phase::Finished, rent, instructions },
                Action::Finish(Err(ProvisionError::from_submission(failure))),
            ),
            (Phase::AwaitingBalances, Event::BalancesQueried) => (
                Provisioner { request, phase: Phase::Finished, rent, instructions },
                Action::Finish(Ok(encode_address(&request.new_account))),
            ),
            (Phase::AwaitingBalances, Event::Failed(_)) => (
                Provisioner { request, phase: Phase::Finished, rent, instructions },
                Action::Finish(Ok(encode_address(&request.new_account))),
            ),
            (phase, _) => (Provisioner { request, phase, rent, instructions }, Action::Idle),
        }
    }

    /// Where the run stands.
    pub fn phase(&self) -> (phase: Phase)
        ensures
            phase == self@.phase,
    {
        self.phase
    }

    /// The addresses that the run works with.
    pub fn request(&self) -> (request: Request)
        ensures
            request@ == self@.request,
    {
        self.request
    }

    /// The rent that the network quoted; 0 before it has.
    pub fn rent(&self) -> (rent: u64)
        ensures
            rent == self@.rent,
    {
        self.rent
    }
}

} // verus!
