//! What a provisioning run asks of the ledger: the request, the four
//! instructions in their order, and the transaction that carries them.

use crate::address::{
    address_from_text, decode_address, derivable, derive_seeded_address, derived_marker,
    encode_address, max_text_len, may_own_seeded, seeded_address, text_of_address, Address,
    AddressParseError,
};
use crate::error::{AddressField, ProvisionError, ProvisionErrorView};
use crate::instruction::{
    associated_address_exists, associated_create_account, associated_token_address,
    create_associated_instruction, create_with_seed_data, create_with_seed_instruction,
    find_associated_address, initialize_account_instruction, system_create_account_with_seed,
    token_account_len, token_account_size, token_initialize_account, token_program,
    token_program_address, token_transfer, transfer_instruction, Instruction, InstructionView,
};
use solana_program::program_error::ProgramError;
use vstd::prelude::*;
use vstd::string::StringSliceAdditionalSpecFns;

verus! {

/// The addresses that one provisioning run works with.
#[derive(Clone, Copy, Debug, PartialEq, Eq)]
pub struct Request {
    /// Address of the funding identity: it pays, and it is the authority of
    /// the new token account.
    pub funding: Address,
    /// Address of the identity made for this run: the account to create.
    pub new_account: Address,
    /// The token type that the new account is to hold.
    pub token_type: Address,
    /// The account that the zero-amount transfer names as its source.
    pub source: Address,
}

/// A `Request` with its addresses as sequences of bytes.
pub struct RequestView {
    pub funding: Seq<u8>,
    pub new_account: Seq<u8>,
    pub token_type: Seq<u8>,
    pub source: Seq<u8>,
}

impl View for Request {
    type V = RequestView;

    open spec fn view(&self) -> RequestView {
        RequestView {
            funding: self.funding@,
            new_account: self.new_account@,
            token_type: self.token_type@,
            source: self.source@,
        }
    }
}

/// The seed from which every run derives the new account's address.
pub open spec fn seed_text() -> Seq<char> {
    "test"@
}

/// The bytes of the seed.
pub open spec fn seed_bytes() -> Seq<u8> {
    seq![116u8, 101u8, 115u8, 116u8]
}

/// The amount that the closing transfer moves: it probes, it moves no value.
pub open spec fn probe_amount() -> u64 {
    0
}

/// The error for a text that is no address.
pub open spec fn address_error(field: AddressField, reason: AddressParseError) -> ProvisionErrorView {
    ProvisionErrorView::AddressParse { field, reason }
}

/// The error for an instruction that could not be built.
pub open spec fn instruction_build_error() -> ProvisionErrorView {
    ProvisionErrorView::InstructionBuild
}

/// A request or an error as a mathematical value.
pub open spec fn request_outcome(r: Result<Request, ProvisionError>) -> Result<
    RequestView,
    ProvisionErrorView,
> {
    match r {
        Ok(request) => Ok(request@),
        Err(error) => Err(error@),
    }
}

/// Four instructions as a sequence, in the order given.
pub open spec fn in_order(
    first: InstructionView,
    second: InstructionView,
    third: InstructionView,
    fourth: InstructionView,
) -> Seq<InstructionView> {
    seq![first, second, third, fourth]
}

/// A parsed address or the reason why there is none, as a mathematical value.
pub open spec fn address_outcome(r: Result<Address, AddressParseError>) -> Result<
    Seq<u8>,
    AddressParseError,
> {
    match r {
        Ok(address) => Ok(address@),
        Err(reason) => Err(reason),
    }
}

/// The request that the two addresses of the caller make with what became of
/// the caller's two texts, or the error of the first text that was no address,
/// the token type's before the source account's.
pub open spec fn requested(
    funding: Seq<u8>,
    new_account: Seq<u8>,
    token_type: Result<Seq<u8>, AddressParseError>,
    source: Result<Seq<u8>, AddressParseError>,
) -> Result<RequestView, ProvisionErrorView> {
    match token_type {
        Err(reason) => Err(address_error(AddressField::TokenType, reason)),
        Ok(token_type) => match source {
            Err(reason) => Err(address_error(AddressField::SourceAccount, reason)),
            Ok(source) => Ok(RequestView { funding, new_account, token_type, source }),
        },
    }
}

/// The request that the caller's two texts make with the two addresses, or the
/// error of the first text that is no address, the token type's before the
/// source account's.
pub open spec fn parsed_request(
    funding: Seq<u8>,
    new_account: Seq<u8>,
    token_type_id: Seq<char>,
    source_account_id: Seq<char>,
) -> Result<RequestView, ProvisionErrorView> {
    requested(
        funding,
        new_account,
        address_from_text(token_type_id),
        address_from_text(source_account_id),
    )
}

/// The four instructions of a run, in the order in which the ledger must
/// execute them: create the account, make it a token account, create the
/// associated account of the funding identity for the token type, probe with
/// a transfer of nothing. The third acts on another address than the others:
/// the associated address, not the new account's.
pub open spec fn instruction_set(request: RequestView, rent: u64) -> Seq<InstructionView> {
    in_order(
        create_with_seed_instruction(
            request.funding,
            request.new_account,
            request.funding,
            create_with_seed_data(
                request.funding,
                seed_bytes(),
                rent,
                token_account_len() as u64,
                token_program_address(),
            ),
        ),
        initialize_account_instruction(
            token_program_address(),
            request.new_account,
            request.token_type,
            request.funding,
        ),
        create_associated_instruction(
            request.funding,
            associated_token_address(request.funding, request.token_type),
            request.funding,
            request.token_type,
        ),
        transfer_instruction(
            token_program_address(),
            request.source,
            request.new_account,
            request.funding,
            request.funding,
            probe_amount(),
        ),
    )
}

/// The instructions of a sequence as mathematical values.
pub open spec fn views_of(instructions: Seq<Instruction>) -> Seq<InstructionView> {
    Seq::new(instructions.len(), |i: int| instructions[i]@)
}

/// The address that the ledger derives for an account created from this
/// funding address with the fixed seed and the token program as owner.
pub open spec fn derived_account(funding: Seq<u8>) -> Seq<u8> {
    seeded_address(funding, seed_text(), token_program_address())
}

/// The transaction of a run before it is signed.
#[derive(Clone, Debug, PartialEq, Eq)]
pub struct TransactionPlan {
    /// The instructions, all of which the ledger executes, or none.
    pub instructions: Vec<Instruction>,
    /// The account that pays the fee.
    pub fee_payer: Address,
    /// The accounts whose identities sign, in this order.
    pub signers: Vec<Address>,
    /// The recent block that the transaction refers to; the network refuses a
    /// transaction whose block is no longer recent.
    pub recent_blockhash: [u8; 32],
}

/// A `TransactionPlan` as a mathematical value.
pub struct TransactionPlanView {
    pub instructions: Seq<InstructionView>,
    pub fee_payer: Seq<u8>,
    pub signers: Seq<Seq<u8>>,
    pub recent_blockhash: Seq<u8>,
}

impl View for TransactionPlan {
    type V = TransactionPlanView;

    open spec fn view(&self) -> TransactionPlanView {
        TransactionPlanView {
            instructions: views_of(self.instructions@),
            fee_payer: self.fee_payer@,
            signers: Seq::new(self.signers@.len(), |i: int| self.signers@[i]@),
            recent_blockhash: self.recent_blockhash@,
        }
    }
}

/// Instructions as one transaction of a request: paid for by the funding
/// identity, signed by the funding identity and by the new account's own
/// identity, and anchored at the given recent block.
pub open spec fn bound_transaction(
    request: RequestView,
    instructions: Seq<InstructionView>,
    recent_blockhash: Seq<u8>,
) -> TransactionPlanView {
    TransactionPlanView {
        instructions,
        fee_payer: request.funding,
        signers: seq![request.funding, request.new_account],
        recent_blockhash,
    }
}

/// The one transaction of a run: the four instructions for the quoted rent,
/// bound to payer, signers and recent block.
pub open spec fn transaction_plan(
    request: RequestView,
    rent: u64,
    recent_blockhash: Seq<u8>,
) -> TransactionPlanView {
    bound_transaction(request, instruction_set(request, rent), recent_blockhash)
}

/// The fixed seed.
pub fn account_seed() -> (seed: &'static str)
    ensures
        seed@ == seed_text(),
        seed.spec_bytes() == seed_bytes(),
        seed@.len() == 4,
        seed.is_ascii(),
{
    proof {
        reveal_strlit("test");
        vstd::string::is_ascii_spec_bytes("test");
        assert("test".spec_bytes() =~= seed_bytes());
    }
    "test"
}

/// Turns the caller's two texts into addresses, the token type first.
pub fn parse_request(
    funding: Address,
    new_account: Address,
    token_type_id: &str,
    source_account_id: &str,
) -> (r: Result<Request, ProvisionError>)
    ensures
        request_outcome(r) == parsed_request(
            funding@,
            new_account@,
            token_type_id@,
            source_account_id@,
        ),
        token_type_id@.len() > max_text_len() ==> (r is Err && r->Err_0@ == address_error(
            AddressField::TokenType,
            AddressParseError::WrongSize,
        )),
        source_account_id@.len() > max_text_len() ==> (r is Err),
{
    let token_type = decode_address(token_type_id);
    let source = decode_address(source_account_id);
    request_from(funding, new_account, token_type, source)
}

/// Makes the request from the two addresses of the caller and from what
/// became of the caller's two texts. The first text that was no address
/// decides the error, the token type's before the source account's.
pub fn request_from(
    funding: Address,
    new_account: Address,
    token_type: Result<Address, AddressParseError>,
    source: Result<Address, AddressParseError>,
) -> (r: Result<Request, ProvisionError>)
    ensures
        request_outcome(r) == requested(
            funding@,
            new_account@,
            address_outcome(token_type),
            address_outcome(source),
        ),
{
    let token_type = match token_type {
        Ok(address) => address,
        Err(reason) => {
            return Err(ProvisionError::AddressParse { field: AddressField::TokenType, reason });
        },
    };
    let source = match source {
        Ok(address) => address,
        Err(reason) => {
            return Err(
                ProvisionError::AddressParse { field: AddressField::SourceAccount, reason },
            );
        },
    };
    Ok(Request { funding, new_account, token_type, source })
}

/// Puts the four instructions in their order. Two of them come from the token
/// program's library, which may refuse to build one: then there is no
/// sequence, and the failure is one of instruction building.
pub fn assemble_instructions(
    create: Instruction,
    initialize: Result<Instruction, ProgramError>,
    associated: Instruction,
    transfer: Result<Instruction, ProgramError>,
) -> (r: Result<Vec<Instruction>, ProvisionError>)
    ensures
        (initialize is Ok && transfer is Ok) ==> (r is Ok && r->Ok_0@.len() == 4 && views_of(
            r->Ok_0@,
        ) == in_order(
            create@,
            initialize->Ok_0@,
            associated@,
            transfer->Ok_0@,
        )),
        (initialize is Err || transfer is Err) ==> (r is Err && r->Err_0@
            == instruction_build_error()),
{
    let initialize = match initialize {
        Ok(instruction) => instruction,
        Err(_) => {
            return Err(ProvisionError::InstructionBuild);
        },
    };
    let transfer = match transfer {
        Ok(instruction) => instruction,
        Err(_) => {
            return Err(ProvisionError::InstructionBuild);
        },
    };
    let ghost expected = in_order(create@, initialize@, associated@, transfer@);
    let mut instructions: Vec<Instruction> = Vec::new();
    instructions.push(create);
    instructions.push(initialize);
    instructions.push(associated);
    instructions.push(transfer);
    assert(views_of(instructions@) =~= expected);
    Ok(instructions)
}

/// Builds the four instructions of a run for the rent that the network
/// quoted. The token program's library builds for its own program, and a run
/// names no other; so building fails only where no associated address is
/// found for the funding identity and the token type.
pub fn build_instructions(request: &Request, rent: u64) -> (r: Result<
    Vec<Instruction>,
    ProvisionError,
>)
    ensures
        associated_address_exists(request@.funding, request@.token_type) ==> (r is Ok
            && r->Ok_0@.len() == 4 && views_of(r->Ok_0@) == instruction_set(request@, rent)),
        !associated_address_exists(request@.funding, request@.token_type) ==> (r is Err
            && r->Err_0@ == instruction_build_error()),
{
    if find_associated_address(&request.funding, &request.token_type).is_none() {
        return Err(ProvisionError::InstructionBuild);
    }
    let program = token_program();
    let space = token_account_size();
    let create = system_create_account_with_seed(
        &request.funding,
        &request.new_account,
        &request.funding,
        account_seed(),
        rent,
        space as u64,
        &program,
    );
    let initialize = token_initialize_account(
        &program,
        &request.new_account,
        &request.token_type,
        &request.funding,
    );
    let associated = associated_create_account(
        &request.funding,
        &request.funding,
        &request.token_type,
    );
    let transfer = token_transfer(
        &program,
        &request.source,
        &request.new_account,
        &request.funding,
        &request.funding,
        0,
    );
    assemble_instructions(create, initialize, associated, transfer)
}

/// Binds instructions to the fee payer, the two signers and the recent block.
pub fn bind_transaction(
    request: &Request,
    instructions: Vec<Instruction>,
    recent_blockhash: [u8; 32],
) -> (plan: TransactionPlan)
    ensures
        plan@ == bound_transaction(request@, views_of(instructions@), recent_blockhash@),
{
    let mut signers: Vec<Address> = Vec::new();
    signers.push(request.funding);
    signers.push(request.new_account);
    let plan = TransactionPlan {
        instructions,
        fee_payer: request.funding,
        signers,
        recent_blockhash,
    };
    assert(plan@.signers =~= seq![request@.funding, request@.new_account]);
    plan
}

/// Builds the four instructions of a run and binds them to the fee payer, the
/// two signers and the recent block. It fails where building fails.
pub fn plan_transaction(request: &Request, rent: u64, recent_blockhash: [u8; 32]) -> (r: Result<
    TransactionPlan,
    ProvisionError,
>)
    ensures
        associated_address_exists(request@.funding, request@.token_type) ==> (r is Ok
            && r->Ok_0@ == transaction_plan(request@, rent, recent_blockhash@)),
        !associated_address_exists(request@.funding, request@.token_type) ==> (r is Err
            && r->Err_0@ == instruction_build_error()),
{
    match build_instructions(request, rent) {
        Ok(instructions) => Ok(bind_transaction(request, instructions, recent_blockhash)),
        Err(error) => Err(error),
    }
}

/// The address at which the ledger creates an account for this funding
/// address: it depends on the funding address, the fixed seed and the token
/// program, and on nothing else of a run.
pub fn derived_account_address(funding: &Address) -> (address: Address)
    ensures
        address@ == derived_account(funding@),
{
    let program = token_program();
    let seed = account_seed();
    proof {
        lemma_token_program_may_own_seeded();
        assert(derivable(seed@, program@));
    }
    let derived = derive_seeded_address(funding, seed, &program);
    derived.unwrap()
}

/// The text of the address at which the ledger creates an account for this
/// funding address: what a run for that address returns when it succeeds.
pub fn derived_account_text(funding: &Address) -> (text: String)
    ensures
        text@ == text_of_address(derived_account(funding@)),
{
    let address = derived_account_address(funding);
    encode_address(&address)
}

/// The token program's address does not end in the marker of derived program
/// addresses, so the token program may own a seeded account.
pub proof fn lemma_token_program_may_own_seeded()
    ensures
        may_own_seeded(token_program_address()),
{
    let tail = token_program_address().subrange(11, 32);
    assert(tail[0] == 70u8);
    assert(derived_marker()[0] == 80u8);
}

} // verus!
