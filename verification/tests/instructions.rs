use create_spl_token_account::address::Address;
use create_spl_token_account::error::ProvisionError;
use create_spl_token_account::instruction::{AccountMeta, Instruction};
use create_spl_token_account::plan::{
    account_seed, assemble_instructions, bind_transaction, build_instructions,
    derived_account_address, derived_account_text, plan_transaction, Request,
};
use solana_program::program_error::ProgramError;
use solana_program::pubkey::Pubkey;
use std::str::FromStr;

const TOKEN_PROGRAM: [u8; 32] = [
    6, 221, 246, 225, 215, 101, 161, 147, 217, 203, 225, 70, 206, 235, 121, 172, 28, 180, 133,
    237, 95, 91, 55, 145, 58, 140, 245, 133, 126, 255, 0, 169,
];

const ASSOCIATED_PROGRAM: [u8; 32] = [
    140, 151, 37, 143, 78, 36, 137, 241, 187, 61, 16, 41, 20, 142, 13, 131, 11, 90, 19, 153, 218,
    255, 16, 132, 4, 142, 123, 216, 219, 233, 248, 89,
];

const RENT_SYSVAR: [u8; 32] = [
    6, 167, 213, 23, 25, 44, 92, 81, 33, 140, 201, 76, 61, 74, 241, 127, 88, 218, 238, 8, 155,
    161, 253, 68, 227, 219, 217, 138, 0, 0, 0, 0,
];

fn request() -> Request {
    Request {
        funding: Address::new([1u8; 32]),
        new_account: Address::new([2u8; 32]),
        token_type: Address::new([3u8; 32]),
        source: Address::new([4u8; 32]),
    }
}

fn meta(bytes: [u8; 32], is_signer: bool, is_writable: bool) -> AccountMeta {
    AccountMeta { address: Address { bytes }, is_signer, is_writable }
}

#[test]
fn program_addresses_are_the_declared_ones() {
    let token = Pubkey::from_str("TokenkegQfeZyiNwAJbNbGKPFXCWuBvf9Ss623VQ5DA").unwrap();
    let associated = Pubkey::from_str("ATokenGPvbdGVxr1b2hvZbsiqW5xWH25efTNsLJA8knL").unwrap();
    let rent = Pubkey::from_str("SysvarRent111111111111111111111111111111111").unwrap();
    let system = Pubkey::from_str("11111111111111111111111111111111").unwrap();
    assert_eq!(token.to_bytes(), TOKEN_PROGRAM);
    assert_eq!(associated.to_bytes(), ASSOCIATED_PROGRAM);
    assert_eq!(rent.to_bytes(), RENT_SYSVAR);
    assert_eq!(system.to_bytes(), [0u8; 32]);
}

#[test]
fn seed_is_fixed() {
    assert_eq!(account_seed(), "test");
}

#[test]
fn instruction_set_has_four_in_order() {
    let set = build_instructions(&request(), 2_039_280).unwrap();
    assert_eq!(set.len(), 4);
    assert_eq!(set[0].program_id.bytes, [0u8; 32]);
    assert_eq!(set[1].program_id.bytes, TOKEN_PROGRAM);
    assert_eq!(set[2].program_id.bytes, ASSOCIATED_PROGRAM);
    assert_eq!(set[3].program_id.bytes, TOKEN_PROGRAM);
}

#[test]
fn create_with_seed_instruction_is_exact() {
    let set = build_instructions(&request(), 2_039_280).unwrap();
    let create = &set[0];
    assert_eq!(
        create.accounts,
        vec![meta([1u8; 32], true, true), meta([2u8; 32], false, true), meta([1u8; 32], true, false)]
    );
    let mut data: Vec<u8> = vec![3, 0, 0, 0];
    data.extend_from_slice(&[1u8; 32]);
    data.extend_from_slice(&[4, 0, 0, 0, 0, 0, 0, 0]);
    data.extend_from_slice(&[116, 101, 115, 116]);
    data.extend_from_slice(&[240, 29, 31, 0, 0, 0, 0, 0]);
    data.extend_from_slice(&[165, 0, 0, 0, 0, 0, 0, 0]);
    data.extend_from_slice(&TOKEN_PROGRAM);
    assert_eq!(create.data, data);
}

#[test]
fn create_with_seed_carries_the_quoted_rent() {
    let low = build_instructions(&request(), 1).unwrap();
    let high = build_instructions(&request(), u64::MAX).unwrap();
    assert_eq!(&low[0].data[48..56], &[1u8, 0, 0, 0, 0, 0, 0, 0]);
    assert_eq!(&high[0].data[48..56], &[255u8; 8]);
    assert_eq!(low[1], high[1]);
    assert_eq!(low[2], high[2]);
    assert_eq!(low[3], high[3]);
}

#[test]
fn initialize_instruction_is_exact() {
    let set = build_instructions(&request(), 10).unwrap();
    assert_eq!(
        set[1],
        Instruction {
            program_id: Address { bytes: TOKEN_PROGRAM },
            accounts: vec![
                meta([2u8; 32], false, true),
                meta([3u8; 32], false, false),
                meta([1u8; 32], false, false),
                meta(RENT_SYSVAR, false, false),
            ],
            data: vec![1],
        }
    );
}

#[test]
fn associated_instruction_is_exact() {
    let set = build_instructions(&request(), 10).unwrap();
    let (associated, _) = Pubkey::find_program_address(
        &[&[1u8; 32], &TOKEN_PROGRAM, &[3u8; 32]],
        &Pubkey::new_from_array(ASSOCIATED_PROGRAM),
    );
    assert_eq!(
        set[2],
        Instruction {
            program_id: Address { bytes: ASSOCIATED_PROGRAM },
            accounts: vec![
                meta([1u8; 32], true, true),
                meta(associated.to_bytes(), false, true),
                meta([1u8; 32], false, false),
                meta([3u8; 32], false, false),
                meta([0u8; 32], false, false),
                meta(TOKEN_PROGRAM, false, false),
                meta(RENT_SYSVAR, false, false),
            ],
            data: vec![],
        }
    );
    assert_ne!(associated.to_bytes(), [2u8; 32]);
    assert_ne!(associated.to_bytes(), [1u8; 32]);
}

#[test]
fn associated_account_is_that_of_the_funding_identity_and_the_token_type() {
    let first = build_instructions(&request(), 10).unwrap();
    let other_new_account = Request { new_account: Address::new([9u8; 32]), ..request() };
    let other_token_type = Request { token_type: Address::new([9u8; 32]), ..request() };
    let other_funding = Request { funding: Address::new([9u8; 32]), ..request() };
    assert_eq!(build_instructions(&other_new_account, 10).unwrap()[2], first[2]);
    assert_ne!(build_instructions(&other_token_type, 10).unwrap()[2].accounts[1], first[2].accounts[1]);
    assert_ne!(build_instructions(&other_funding, 10).unwrap()[2].accounts[1], first[2].accounts[1]);
}

#[test]
fn transfer_instruction_moves_nothing() {
    let set = build_instructions(&request(), 10).unwrap();
    assert_eq!(
        set[3],
        Instruction {
            program_id: Address { bytes: TOKEN_PROGRAM },
            accounts: vec![
                meta([4u8; 32], false, true),
                meta([2u8; 32], false, true),
                meta([1u8; 32], false, false),
                meta([1u8; 32], true, false),
            ],
            data: vec![3, 0, 0, 0, 0, 0, 0, 0, 0],
        }
    );
}

#[test]
fn all_but_the_associated_instruction_name_the_new_account() {
    let set = build_instructions(&request(), 10).unwrap();
    for index in [0usize, 1, 3] {
        assert!(set[index].accounts.iter().any(|m| m.address.bytes == [2u8; 32]));
    }
    assert!(!set[2].accounts.iter().any(|m| m.address.bytes == [2u8; 32]));
    assert!(set[2].accounts.iter().any(|m| m.address.bytes == [1u8; 32]));
    assert!(set[2].accounts.iter().any(|m| m.address.bytes == [3u8; 32]));
}

#[test]
fn assemble_keeps_the_order() {
    let set = build_instructions(&request(), 10).unwrap();
    let again = assemble_instructions(
        set[0].clone(),
        Ok(set[1].clone()),
        set[2].clone(),
        Ok(set[3].clone()),
    );
    assert_eq!(again, Ok(set));
}

#[test]
fn binding_keeps_the_instructions_as_given() {
    let set = build_instructions(&request(), 10).unwrap();
    let two = vec![set[3].clone(), set[0].clone()];
    let plan = bind_transaction(&request(), two.clone(), [7u8; 32]);
    assert_eq!(plan.instructions, two);
    assert_eq!(plan.fee_payer, Address::new([1u8; 32]));
    assert_eq!(plan.signers, vec![Address::new([1u8; 32]), Address::new([2u8; 32])]);
    assert_eq!(plan.recent_blockhash, [7u8; 32]);
}

#[test]
fn derived_address_text_is_its_base_58() {
    assert_eq!(
        derived_account_text(&Address::new([1u8; 32])),
        "BEpBGANdfYrX3WkdQRh1hSva443F1YJ2SEASdULTcjJj"
    );
    let other: [u8; 32] = [
        0, 1, 2, 3, 4, 5, 6, 7, 8, 9, 10, 11, 12, 13, 14, 15, 16, 17, 18, 19, 20, 21, 22, 23, 24,
        25, 26, 27, 28, 29, 30, 31,
    ];
    assert_eq!(
        derived_account_text(&Address::new(other)),
        "GW5xm9oKneuSW88nvUENxacrkN1QXqfY61nusojdVNTV"
    );
}

#[test]
fn assemble_reports_a_refused_initialize() {
    let set = build_instructions(&request(), 10).unwrap();
    let r = assemble_instructions(
        set[0].clone(),
        Err(ProgramError::IncorrectProgramId),
        set[2].clone(),
        Ok(set[3].clone()),
    );
    assert_eq!(r, Err(ProvisionError::InstructionBuild));
}

#[test]
fn assemble_reports_a_refused_transfer() {
    let set = build_instructions(&request(), 10).unwrap();
    let r = assemble_instructions(
        set[0].clone(),
        Ok(set[1].clone()),
        set[2].clone(),
        Err(ProgramError::InvalidArgument),
    );
    assert_eq!(r, Err(ProvisionError::InstructionBuild));
}

#[test]
fn transaction_plan_binds_payer_signers_and_block() {
    let plan = plan_transaction(&request(), 77, [9u8; 32]).unwrap();
    assert_eq!(plan.instructions, build_instructions(&request(), 77).unwrap());
    assert_eq!(plan.fee_payer, Address::new([1u8; 32]));
    assert_eq!(plan.signers, vec![Address::new([1u8; 32]), Address::new([2u8; 32])]);
    assert_eq!(plan.recent_blockhash, [9u8; 32]);
}

#[test]
fn derived_address_is_the_hash_of_base_seed_and_owner() {
    // SHA-256 of the 32 bytes of 1, the four bytes of "test" and the token
    // program's address.
    let expected: [u8; 32] = [
        152, 30, 195, 77, 37, 158, 243, 46, 49, 103, 49, 133, 38, 98, 78, 7, 182, 116, 78, 20, 230,
        122, 231, 131, 184, 10, 223, 255, 101, 57, 159, 164,
    ];
    let derived = derived_account_address(&Address::new([1u8; 32]));
    assert_eq!(derived.to_bytes(), expected);
    let other: [u8; 32] = [
        0, 1, 2, 3, 4, 5, 6, 7, 8, 9, 10, 11, 12, 13, 14, 15, 16, 17, 18, 19, 20, 21, 22, 23, 24,
        25, 26, 27, 28, 29, 30, 31,
    ];
    let expected_other: [u8; 32] = [
        230, 82, 193, 217, 245, 96, 42, 156, 15, 119, 234, 96, 185, 97, 143, 161, 58, 1, 36, 50,
        115, 239, 195, 199, 101, 23, 195, 160, 240, 88, 99, 84,
    ];
    assert_eq!(derived_account_address(&Address::new(other)).to_bytes(), expected_other);
}

#[test]
fn derived_address_matches_the_ledger_library() {
    let funding = Pubkey::new_from_array([1u8; 32]);
    let token = Pubkey::new_from_array(TOKEN_PROGRAM);
    let expected = Pubkey::create_with_seed(&funding, "test", &token).unwrap();
    assert_eq!(derived_account_address(&Address::new([1u8; 32])).to_bytes(), expected.to_bytes());
}

#[test]
fn shared_funding_identity_collides() {
    let first = request();
    let second = Request {
        funding: first.funding,
        new_account: Address::new([5u8; 32]),
        token_type: Address::new([6u8; 32]),
        source: Address::new([7u8; 32]),
    };
    assert_eq!(
        derived_account_address(&first.funding),
        derived_account_address(&second.funding)
    );
    let a = build_instructions(&first, 10).unwrap();
    let b = build_instructions(&second, 10).unwrap();
    assert_eq!(a[0].program_id, b[0].program_id);
    assert_eq!(a[0].accounts[2], b[0].accounts[2]);
    assert_eq!(a[0].data, b[0].data);
    assert_ne!(a[0].accounts[1], b[0].accounts[1]);
}

#[test]
fn runs_for_the_derived_address_send_the_same_creation() {
    let derived = derived_account_address(&Address::new([1u8; 32]));
    let first = Request { new_account: derived, ..request() };
    let second = Request {
        funding: first.funding,
        new_account: derived,
        token_type: Address::new([6u8; 32]),
        source: Address::new([7u8; 32]),
    };
    assert_eq!(build_instructions(&first, 10).unwrap()[0], build_instructions(&second, 10).unwrap()[0]);
}

#[test]
fn different_funding_identities_derive_different_addresses() {
    assert_ne!(
        derived_account_address(&Address::new([1u8; 32])),
        derived_account_address(&Address::new([8u8; 32]))
    );
}
