use anchor_lang::prelude::Pubkey;
use todo_app_solana_anchor::pda::{bump, derived_address};

#[test]
fn bump_matches_runtime_derivation() {
    let program_id: [u8; 32] = [3; 32];
    let owner: [u8; 32] = [7; 32];
    let seeds: Vec<Vec<u8>> = vec![b"USER_STATE".to_vec(), owner.to_vec()];

    let (expected_key, expected_bump) = Pubkey::find_program_address(
        &[b"USER_STATE", &owner],
        &Pubkey::new_from_array(program_id),
    );

    assert_eq!(bump(&seeds, &program_id), Some(expected_bump));
    assert_eq!(derived_address(&seeds, &program_id), Some(expected_key.to_bytes()));
}

#[test]
fn different_seeds_derive_different_addresses() {
    let program_id: [u8; 32] = [3; 32];
    let owner: [u8; 32] = [7; 32];
    let user_seeds: Vec<Vec<u8>> = vec![b"USER_STATE".to_vec(), owner.to_vec()];
    let todo_seeds: Vec<Vec<u8>> = vec![b"TODO_STATE".to_vec(), owner.to_vec(), vec![0u8]];

    let user_addr = derived_address(&user_seeds, &program_id).unwrap();
    let todo_addr = derived_address(&todo_seeds, &program_id).unwrap();
    assert_ne!(user_addr, todo_addr);
    assert_ne!(user_addr, owner);
}

#[test]
fn derivation_fails_with_too_many_seeds() {
    let program_id: [u8; 32] = [3; 32];
    let seeds: Vec<Vec<u8>> = (0..17u8).map(|i| vec![i]).collect();
    assert_eq!(bump(&seeds, &program_id), None);
}
