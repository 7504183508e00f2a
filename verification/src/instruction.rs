//! Ledger instructions as plain values, and the four kinds of instruction that
//! provisioning a token account takes.

use crate::address::Address;
use solana_program::program_error::ProgramError;
use solana_program::program_pack::Pack;
use solana_program::pubkey::Pubkey;
use vstd::prelude::*;
use vstd::string::StringSliceAdditionalSpecFns;

verus! {

/// The error with which the token program's library refuses to build an
/// instruction.
#[verifier::external_type_specification]
#[verifier::external_body]
pub struct ExProgramError(ProgramError);

/// An account that an instruction names, and how the instruction uses it.
#[derive(Clone, Copy, Debug, PartialEq, Eq)]
pub struct AccountMeta {
    pub address: Address,
    /// The transaction must carry a signature of this account.
    pub is_signer: bool,
    /// The instruction may change the account.
    pub is_writable: bool,
}

/// An `AccountMeta` with its address as a sequence of bytes.
pub struct AccountMetaView {
    pub address: Seq<u8>,
    pub is_signer: bool,
    pub is_writable: bool,
}

impl View for AccountMeta {
    type V = AccountMetaView;

    open spec fn view(&self) -> AccountMetaView {
        AccountMetaView {
            address: self.address@,
            is_signer: self.is_signer,
            is_writable: self.is_writable,
        }
    }
}

impl AccountMeta {
    /// The entry for `address` with the two marks as given.
    pub fn new(bytes: [u8; 32], is_signer: bool, is_writable: bool) -> (meta: AccountMeta)
        ensures
            meta@ == account(bytes@, is_signer, is_writable),
    {
        AccountMeta { address: Address::new(bytes), is_signer, is_writable }
    }
}

/// One operation for a program on the ledger: the program, the accounts it is
/// handed, in order, and the bytes that the program interprets.
#[derive(Clone, Debug, PartialEq, Eq)]
pub struct Instruction {
    pub program_id: Address,
    pub accounts: Vec<AccountMeta>,
    pub data: Vec<u8>,
}

/// An `Instruction` as a mathematical value.
pub struct InstructionView {
    pub program_id: Seq<u8>,
    pub accounts: Seq<AccountMetaView>,
    pub data: Seq<u8>,
}

impl View for Instruction {
    type V = InstructionView;

    open spec fn view(&self) -> InstructionView {
        InstructionView {
            program_id: self.program_id@,
            accounts: Seq::new(self.accounts@.len(), |i: int| self.accounts@[i]@),
            data: self.data@,
        }
    }
}

/// The entry of an account in an instruction's list.
pub open spec fn account(address: Seq<u8>, is_signer: bool, is_writable: bool) -> AccountMetaView {
    AccountMetaView { address, is_signer, is_writable }
}

/// Whether the instruction hands this account to its program.
pub open spec fn names_account(instruction: InstructionView, address: Seq<u8>) -> bool {
    exists|i: int|
        0 <= i < instruction.accounts.len() && (#[trigger] instruction.accounts[i]).address
            == address
}

/// Address of the system program, `11111111111111111111111111111111` in
/// base 58: 32 zero bytes.
pub open spec fn system_program_address() -> Seq<u8> {
    seq![
        0u8, 0u8, 0u8, 0u8, 0u8, 0u8, 0u8, 0u8, 0u8, 0u8, 0u8, 0u8, 0u8, 0u8, 0u8, 0u8, 0u8, 0u8,
        0u8, 0u8, 0u8, 0u8, 0u8, 0u8, 0u8, 0u8, 0u8, 0u8, 0u8, 0u8, 0u8, 0u8,
    ]
}

/// Address of the token program, `TokenkegQfeZyiNwAJbNbGKPFXCWuBvf9Ss623VQ5DA`
/// in base 58.
pub open spec fn token_program_address() -> Seq<u8> {
    seq![
        6u8, 221u8, 246u8, 225u8, 215u8, 101u8, 161u8, 147u8, 217u8, 203u8, 225u8, 70u8, 206u8,
        235u8, 121u8, 172u8, 28u8, 180u8, 133u8, 237u8, 95u8, 91u8, 55u8, 145u8, 58u8, 140u8,
        245u8, 133u8, 126u8, 255u8, 0u8, 169u8,
    ]
}

/// Address of the associated-token-account program,
/// `ATokenGPvbdGVxr1b2hvZbsiqW5xWH25efTNsLJA8knL` in base 58.
pub open spec fn associated_program_address() -> Seq<u8> {
    seq![
        140u8, 151u8, 37u8, 143u8, 78u8, 36u8, 137u8, 241u8, 187u8, 61u8, 16u8, 41u8, 20u8, 142u8,
        13u8, 131u8, 11u8, 90u8, 19u8, 153u8, 218u8, 255u8, 16u8, 132u8, 4u8, 142u8, 123u8, 216u8,
        219u8, 233u8, 248u8, 89u8,
    ]
}

/// Address of the rent sysvar, `SysvarRent111111111111111111111111111111111`
/// in base 58.
pub open spec fn rent_sysvar_address() -> Seq<u8> {
    seq![
        6u8, 167u8, 213u8, 23u8, 25u8, 44u8, 92u8, 81u8, 33u8, 140u8, 201u8, 76u8, 61u8, 74u8,
        241u8, 127u8, 88u8, 218u8, 238u8, 8u8, 155u8, 161u8, 253u8, 68u8, 227u8, 219u8, 217u8,
        138u8, 0u8, 0u8, 0u8, 0u8,
    ]
}

/// Number of bytes in the record of a token account.
pub open spec fn token_account_len() -> nat {
    165
}

/// The bytes of a request to the system program for an account with a seed:
/// the number 3 in four bytes, the base address, the number of the seed's
/// bytes in eight bytes, the seed's bytes, the lamports and the space in eight
/// bytes each, and the owner's address; every number with its lowest byte
/// first.
pub open spec fn create_with_seed_data(
    base: Seq<u8>,
    seed: Seq<u8>,
    lamports: u64,
    space: u64,
    owner: Seq<u8>,
) -> Seq<u8> {
    seq![3u8, 0u8, 0u8, 0u8] + base + vstd::bytes::spec_u64_to_le_bytes(seed.len() as u64) + seed
        + vstd::bytes::spec_u64_to_le_bytes(lamports) + vstd::bytes::spec_u64_to_le_bytes(space)
        + owner
}

/// Whether `Pubkey::try_find_program_address` finds an associated address for
/// a wallet and a token type: whether one of its candidates is no point of
/// the curve.
pub uninterp spec fn associated_address_exists(wallet: Seq<u8>, token_type: Seq<u8>) -> bool;

/// The address that `create_associated_token_account` derives for a wallet and
/// a token type: the canonical account of that wallet for that token type.
pub uninterp spec fn associated_token_address(wallet: Seq<u8>, token_type: Seq<u8>) -> Seq<u8>;

/// The instruction that asks the system program for a new account at `to`,
/// paid for by `from` and derived from `base`, with the request encoded in
/// `data`.
pub open spec fn create_with_seed_instruction(
    from: Seq<u8>,
    to: Seq<u8>,
    base: Seq<u8>,
    data: Seq<u8>,
) -> InstructionView {
    InstructionView {
        program_id: system_program_address(),
        accounts: seq![account(from, true, true), account(to, false, true), account(base, true, false)],
        data,
    }
}

/// The instruction that makes `token_account` an account of `token_type`
/// under the authority of `owner`.
pub open spec fn initialize_account_instruction(
    program: Seq<u8>,
    token_account: Seq<u8>,
    token_type: Seq<u8>,
    owner: Seq<u8>,
) -> InstructionView {
    InstructionView {
        program_id: program,
        accounts: seq![
            account(token_account, false, true),
            account(token_type, false, false),
            account(owner, false, false),
            account(rent_sysvar_address(), false, false),
        ],
        data: seq![1u8],
    }
}

/// The instruction that creates, at `associated`, the associated account of
/// `wallet` for `token_type`, paid for by `funding`.
pub open spec fn create_associated_instruction(
    funding: Seq<u8>,
    associated: Seq<u8>,
    wallet: Seq<u8>,
    token_type: Seq<u8>,
) -> InstructionView {
    InstructionView {
        program_id: associated_program_address(),
        accounts: seq![
            account(funding, true, true),
            account(associated, false, true),
            account(wallet, false, false),
            account(token_type, false, false),
            account(system_program_address(), false, false),
            account(token_program_address(), false, false),
            account(rent_sysvar_address(), false, false),
        ],
        data: Seq::<u8>::empty(),
    }
}

/// The instruction that moves `amount` units from `source` to `destination`
/// on the word of `authority`, with `signer` signing for it.
pub open spec fn transfer_instruction(
    program: Seq<u8>,
    source: Seq<u8>,
    destination: Seq<u8>,
    authority: Seq<u8>,
    signer: Seq<u8>,
    amount: u64,
) -> InstructionView {
    InstructionView {
        program_id: program,
        accounts: seq![
            account(source, false, true),
            account(destination, false, true),
            account(authority, false, false),
            account(signer, true, false),
        ],
        data: seq![3u8] + vstd::bytes::spec_u64_to_le_bytes(amount),
    }
}

/// Reads `spl_token::ID`, the address that the token program's library
/// declares for it.
#[verifier::external_body]
pub(crate) fn token_program() -> (program: Address)
    ensures
        program@ == token_program_address(),
{
    Address::new(spl_token::ID.to_bytes())
}

/// Calls `get_packed_len` of `spl_token::state::Account`, the length that the
/// token program's library declares for a token account's record: 165.
#[verifier::external_body]
pub(crate) fn token_account_size() -> (size: usize)
    ensures
        size == token_account_len(),
{
    spl_token::state::Account::get_packed_len()
}

/// Calls `system_instruction::create_account_with_seed`. The instruction is for
/// the system program; it names `from` as a writable signer, `to` as writable
/// and `base` as a signer. Its data are the request
/// `SystemInstruction::CreateAccountWithSeed` as `bincode::serialize` writes
/// it, with numbers of fixed width and the lowest byte first: the variant's
/// index 3 in four bytes, the base, the seed as its length in eight bytes and
/// its bytes, the lamports, the space, the owner.
#[verifier::external_body]
pub(crate) fn system_create_account_with_seed(
    from: &Address,
    to: &Address,
    base: &Address,
    seed: &str,
    lamports: u64,
    space: u64,
    owner: &Address,
) -> (instruction: Instruction)
    ensures
        instruction@ == create_with_seed_instruction(
            from@,
            to@,
            base@,
            create_with_seed_data(base@, seed.spec_bytes(), lamports, space, owner@),
        ),
{
    let made = solana_program::system_instruction::create_account_with_seed(
        &Pubkey::new_from_array(from.bytes),
        &Pubkey::new_from_array(to.bytes),
        &Pubkey::new_from_array(base.bytes),
        seed,
        lamports,
        space,
        &Pubkey::new_from_array(owner.bytes),
    );
    Instruction {
        program_id: Address::new(made.program_id.to_bytes()),
        accounts: made.accounts.iter().map(|m| AccountMeta::new(m.pubkey.to_bytes(), m.is_signer, m.is_writable)).collect(),
        data: made.data,
    }
}

/// Calls `spl_token::instruction::initialize_account`. It builds the
/// instruction if and only if `program` is the token program's address. The
/// instruction is for that program; it names the account as writable, then the
/// token type, the owner and the rent sysvar; its data are the one byte 1.
#[verifier::external_body]
pub(crate) fn token_initialize_account(
    program: &Address,
    token_account: &Address,
    token_type: &Address,
    owner: &Address,
) -> (r: Result<Instruction, ProgramError>)
    ensures
        (r is Ok) == (program@ == token_program_address()),
        r matches Ok(instruction) ==> instruction@ == initialize_account_instruction(program@, token_account@, token_type@, owner@),
{
    let made = spl_token::instruction::initialize_account(
        &Pubkey::new_from_array(program.bytes),
        &Pubkey::new_from_array(token_account.bytes),
        &Pubkey::new_from_array(token_type.bytes),
        &Pubkey::new_from_array(owner.bytes),
    )?;
    Ok(Instruction {
        program_id: Address::new(made.program_id.to_bytes()),
        accounts: made.accounts.iter().map(|m| AccountMeta::new(m.pubkey.to_bytes(), m.is_signer, m.is_writable)).collect(),
        data: made.data,
    })
}

/// Calls `spl_associated_token_account::create_associated_token_account`. The
/// instruction is for the associated-token-account program; it names the
/// funding account as a writable signer, the associated address of the wallet
/// and the token type as writable, then the wallet, the token type, the system
/// program, the token program and the rent sysvar; it has no data. The call
/// panics where no associated address is found for the wallet and the token
/// type, so those are left out.
#[verifier::external_body]
#[allow(deprecated)]
pub(crate) fn associated_create_account(
    funding: &Address,
    wallet: &Address,
    token_type: &Address,
) -> (instruction: Instruction)
    requires
        associated_address_exists(wallet@, token_type@),
    ensures
        instruction@ == create_associated_instruction(
            funding@,
            associated_token_address(wallet@, token_type@),
            wallet@,
            token_type@,
        ),
{
    let made = spl_associated_token_account::create_associated_token_account(
        &Pubkey::new_from_array(funding.bytes),
        &Pubkey::new_from_array(wallet.bytes),
        &Pubkey::new_from_array(token_type.bytes),
    );
    Instruction {
        program_id: Address::new(made.program_id.to_bytes()),
        accounts: made.accounts.iter().map(|m| AccountMeta::new(m.pubkey.to_bytes(), m.is_signer, m.is_writable)).collect(),
        data: made.data,
    }
}

/// Calls `Pubkey::try_find_program_address` with the seeds from which the
/// associated-token-account library derives an associated address: the wallet,
/// the token program's address and the token type, for the
/// associated-token-account program. It finds an address or none; which of
/// the two is `associated_address_exists` of the wallet and the token type.
#[verifier::external_body]
pub(crate) fn find_associated_address(wallet: &Address, token_type: &Address) -> (r: Option<Address>)
    ensures
        (r is Some) == associated_address_exists(wallet@, token_type@),
{
    let found = Pubkey::try_find_program_address(
        &[&wallet.bytes, &spl_token::ID.to_bytes(), &token_type.bytes],
        &spl_associated_token_account::ID,
    );
    found.map(|pair| Address::new(pair.0.to_bytes()))
}

/// Calls `spl_token::instruction::transfer` with one signer. It builds the
/// instruction if and only if `program` is the token program's address. The
/// instruction is for that program; it names source and destination as
/// writable, the authority without a mark, and the signer as a signer; its
/// data are the byte 3 and the amount in eight bytes, lowest first.
#[verifier::external_body]
pub(crate) fn token_transfer(
    program: &Address,
    source: &Address,
    destination: &Address,
    authority: &Address,
    signer: &Address,
    amount: u64,
) -> (r: Result<Instruction, ProgramError>)
    ensures
        (r is Ok) == (program@ == token_program_address()),
        r matches Ok(instruction) ==> instruction@ == transfer_instruction(program@, source@, destination@, authority@, signer@, amount),
{
    let made = spl_token::instruction::transfer(
        &Pubkey::new_from_array(program.bytes),
        &Pubkey::new_from_array(source.bytes),
        &Pubkey::new_from_array(destination.bytes),
        &Pubkey::new_from_array(authority.bytes),
        &[&Pubkey::new_from_array(signer.bytes)],
        amount,
    )?;
    Ok(Instruction {
        program_id: Address::new(made.program_id.to_bytes()),
        accounts: made.accounts.iter().map(|m| AccountMeta::new(m.pubkey.to_bytes(), m.is_signer, m.is_writable)).collect(),
        data: made.data,
    })
}

} // verus!
