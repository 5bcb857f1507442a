use cb_backend::audit::{is_confidential_transfer_extension, token_2022_program_id, transfer_instruction_data_decodes};
use cb_backend::deposit::confidential_deposit_instruction;
use cb_backend::keys::Address;
use cb_backend::proofs::{close_context_instruction, create_account_instruction, zk_proof_program_id, equality_context_state_size, range_context_state_size, validity_context_state_size, range_data_context_state_size};
use cb_backend::transfer::{compute_unit_limit_instruction, compute_unit_price_instruction, confidential_transfer_instructions, setup_instructions, parse_priority_fee, priority_fee_price};
use cb_backend::wire::{AccountMeta, Instruction};
use solana_sdk::pubkey::Pubkey;
use solana_sdk::compute_budget::ComputeBudgetInstruction;

fn addr(k: &Pubkey) -> Address {
    Address { bytes: k.to_bytes() }
}

fn from_sdk(ix: solana_sdk::instruction::Instruction) -> Instruction {
    Instruction {
        program_id: addr(&ix.program_id),
        accounts: ix.accounts.iter().map(|m| AccountMeta { pubkey: addr(&m.pubkey), is_signer: m.is_signer, is_writable: m.is_writable }).collect(),
        data: ix.data,
    }
}

#[test]
fn program_ids_match_the_sdk() {
    assert_eq!(token_2022_program_id().bytes, spl_token_2022::id().to_bytes());
    assert_eq!(zk_proof_program_id().bytes, solana_zk_sdk::zk_elgamal_proof_program::id().to_bytes());
}

#[test]
fn confidential_transfer_prefix() {
    assert!(is_confidential_transfer_extension(&[27]));
    assert!(is_confidential_transfer_extension(&[27, 7, 1, 2]));
    assert!(!is_confidential_transfer_extension(&[]));
    assert!(!is_confidential_transfer_extension(&[26]));
    assert!(!is_confidential_transfer_extension(&[3]));
}

#[test]
fn transfer_data_length() {
    assert!(transfer_instruction_data_decodes(&[0u8; 168]));
    assert!(!transfer_instruction_data_decodes(&[0u8; 167]));
    assert!(!transfer_instruction_data_decodes(&[0u8; 169]));
}

#[test]
fn deposit_instruction_layout() {
    let (account, mint, owner) = (Pubkey::new_unique(), Pubkey::new_unique(), Pubkey::new_unique());
    let ix = confidential_deposit_instruction(&token_2022_program_id(), &addr(&account), &addr(&mint), 1000, 6,
        &addr(&owner), &vec![addr(&owner)]).unwrap();
    let expected = spl_token_2022::extension::confidential_transfer::instruction::deposit(
        &spl_token_2022::id(), &account, &mint, 1000, 6, &owner, &[&owner]).unwrap();
    assert_eq!(ix, from_sdk(expected));
    let mut data = vec![27u8, 5];
    data.extend_from_slice(&1000u64.to_le_bytes());
    data.push(6);
    assert_eq!(ix.data, data);
    assert_eq!(ix.accounts.len(), 4);
    assert!(!ix.accounts[2].is_signer);
    assert!(ix.accounts[3].is_signer);
    let other_program = Address { bytes: [5u8; 32] };
    assert!(confidential_deposit_instruction(&other_program, &addr(&account), &addr(&mint), 1, 0, &addr(&owner), &vec![]).is_none());
}

#[test]
fn compute_budget_instructions() {
    assert_eq!(compute_unit_limit_instruction(200_000), from_sdk(ComputeBudgetInstruction::set_compute_unit_limit(200_000)));
    assert_eq!(compute_unit_price_instruction(50), from_sdk(ComputeBudgetInstruction::set_compute_unit_price(50)));
    assert_eq!(compute_unit_price_instruction(50).data, vec![3, 50, 0, 0, 0, 0, 0, 0, 0]);
}

#[test]
fn priority_fee_reading_and_price() {
    assert_eq!(parse_priority_fee("10"), 10);
    assert_eq!(parse_priority_fee("ten"), 0);
    assert_eq!(parse_priority_fee(""), 0);
    assert_eq!(priority_fee_price(10_000_000), 50_000_000);
    assert_eq!(priority_fee_price(1), 5);
}

#[test]
fn setup_instructions_with_and_without_fee() {
    let create = |n: u8| Instruction { program_id: Address { bytes: [n; 32] }, accounts: vec![], data: vec![n] };
    let without = setup_instructions(0, create(1), create(2), create(3));
    assert_eq!(without, vec![create(1), create(2), create(3)]);
    let with = setup_instructions(10, create(1), create(2), create(3));
    assert_eq!(with.len(), 5);
    assert_eq!(with[0], compute_unit_limit_instruction(200_000));
    assert_eq!(with[1], compute_unit_price_instruction(50));
    assert_eq!(with[2..].to_vec(), vec![create(1), create(2), create(3)]);
}

#[test]
fn create_account_layout() {
    let (from, to, owner) = (Pubkey::new_unique(), Pubkey::new_unique(), Pubkey::new_unique());
    let ix = create_account_instruction(&addr(&from), &addr(&to), 500, 161, &addr(&owner));
    assert_eq!(ix, from_sdk(solana_sdk::system_instruction::create_account(&from, &to, 500, 161, &owner)));
    let mut data = vec![0u8, 0, 0, 0];
    data.extend_from_slice(&500u64.to_le_bytes());
    data.extend_from_slice(&161u64.to_le_bytes());
    data.extend_from_slice(&owner.to_bytes());
    assert_eq!(ix.data, data);
}

#[test]
fn close_context_layout() {
    let (ctx, auth) = (Pubkey::new_unique(), Pubkey::new_unique());
    let ix = close_context_instruction(&addr(&ctx), &addr(&auth), &addr(&auth));
    assert_eq!(ix.data, vec![0]);
    assert_eq!(ix.accounts.len(), 3);
    assert_eq!(ix.accounts[0], AccountMeta { pubkey: addr(&ctx), is_signer: false, is_writable: true });
    assert_eq!(ix.accounts[2], AccountMeta { pubkey: addr(&auth), is_signer: true, is_writable: false });
}

#[test]
fn transfer_instruction_layout() {
    let keys: Vec<Address> = (0..7).map(|_| addr(&Pubkey::new_unique())).collect();
    let ixs = confidential_transfer_instructions(&token_2022_program_id(), &[keys[0], keys[1], keys[2], keys[3]],
        &[1u8; 36], &[2u8; 64], &[3u8; 64], &[keys[4], keys[5], keys[6]]).unwrap();
    assert_eq!(ixs.len(), 1);
    let data = &ixs[0].data;
    assert_eq!(data.len(), 169);
    assert_eq!(&data[..2], &[27, 7]);
    assert_eq!(&data[2..38], &[1u8; 36][..]);
    assert_eq!(&data[38..102], &[2u8; 64][..]);
    assert_eq!(&data[102..166], &[3u8; 64][..]);
    assert_eq!(&data[166..], &[0, 0, 0]);
    let order: Vec<Address> = ixs[0].accounts.iter().map(|m| m.pubkey).collect();
    assert_eq!(order, vec![keys[0], keys[1], keys[2], keys[4], keys[5], keys[6], keys[3]]);
}

#[test]
fn proof_context_sizes_are_the_stated_numbers() {
    assert_eq!(equality_context_state_size(), 161);
    assert_eq!(validity_context_state_size(), 385);
    assert_eq!(range_context_state_size(), 297);
    assert_eq!(range_data_context_state_size(), 1033);
}
