//! Capability addressing and the operation builders.

use solana_multisig::address::{
    check_program_account, get_associated_address, get_associated_address_and_bump_seed,
    verify_derived_address,
};
use solana_multisig::builder::{approve_transaction, create_associated_account, create_transaction};
use solana_multisig::error::ProgramError;
use solana_multisig::key::Pubkey;

fn key(n: u8) -> Pubkey {
    Pubkey([n; 32])
}

#[test]
fn derivation_matches_host_derivation() {
    let wallet = key(1);
    let program = key(2);
    let (pda, bump) =
        get_associated_address_and_bump_seed(&wallet, &program).expect("derivation");
    let host_program = solana_program::pubkey::Pubkey::new_from_array(program.0);
    let (host_pda, host_bump) =
        solana_program::pubkey::Pubkey::find_program_address(&[&wallet.0], &host_program);
    assert_eq!(pda.0, host_pda.to_bytes());
    assert_eq!(bump, host_bump);
}

#[test]
fn derivation_is_one_way_and_deterministic() {
    let wallet = key(1);
    let program = key(2);
    let (pda, _bump) =
        get_associated_address_and_bump_seed(&wallet, &program).expect("derivation");
    // the derived address is a new identity, not an echo of either input
    assert_ne!(pda, wallet);
    assert_ne!(pda, program);
    // the derivation is reproducible
    let again = get_associated_address_and_bump_seed(&wallet, &program).expect("derivation");
    assert_eq!(again.0, pda);
    assert_eq!(get_associated_address(&wallet, &program).expect("address"), pda);
    // a different wallet derives a different address
    let other = get_associated_address_and_bump_seed(&key(3), &program).expect("derivation");
    assert_ne!(other.0, pda);
}

#[test]
fn verification_accepts_only_the_derived_address() {
    let wallet = key(1);
    let program = key(2);
    let (pda, bump) =
        get_associated_address_and_bump_seed(&wallet, &program).expect("derivation");
    assert_eq!(verify_derived_address(&pda, &wallet, &program), Ok(bump));
    assert_eq!(
        verify_derived_address(&wallet, &wallet, &program),
        Err(ProgramError::InvalidSeeds)
    );
    assert_eq!(
        verify_derived_address(&key(9), &wallet, &program),
        Err(ProgramError::InvalidSeeds)
    );
}

#[test]
fn program_account_check() {
    assert_eq!(check_program_account(&key(5), &key(5)), Ok(()));
    assert_eq!(
        check_program_account(&key(5), &key(6)),
        Err(ProgramError::IncorrectProgramId)
    );
}

#[test]
fn create_associated_account_builder() {
    let funder = key(1);
    let wallet = key(2);
    let program = key(3);
    let system = key(0);
    let rent = key(4);
    let pda = get_associated_address(&wallet, &program).expect("derivation");
    let ix = create_associated_account(&funder, &wallet, &program, &system, &rent, vec![9, 9])
        .expect("builder");
    assert_eq!(ix.program_id, program);
    assert_eq!(ix.data, vec![9, 9]);
    assert_eq!(ix.accounts.len(), 5);
    assert_eq!(ix.accounts[0].key, funder);
    assert!(ix.accounts[0].is_signer && ix.accounts[0].is_writable);
    assert_eq!(ix.accounts[1].key, pda);
    assert!(!ix.accounts[1].is_signer && ix.accounts[1].is_writable);
    assert_eq!(ix.accounts[2].key, wallet);
    assert!(ix.accounts[2].is_signer && !ix.accounts[2].is_writable);
    assert_eq!(ix.accounts[3].key, system);
    assert_eq!(ix.accounts[4].key, rent);
}

#[test]
fn create_transaction_builder() {
    let funder = key(1);
    let wallet = key(2);
    let transaction = key(5);
    let recipient = key(6);
    let program = key(3);
    let system = key(0);
    let pda = get_associated_address(&wallet, &program).expect("derivation");
    let ix = create_transaction(
        &funder,
        &wallet,
        &transaction,
        &recipient,
        &program,
        &system,
        vec![2],
    )
    .expect("builder");
    assert_eq!(ix.program_id, program);
    assert_eq!(ix.data, vec![2]);
    assert_eq!(ix.accounts.len(), 5);
    assert_eq!(ix.accounts[0].key, funder);
    assert!(ix.accounts[0].is_signer);
    assert_eq!(ix.accounts[1].key, transaction);
    assert!(ix.accounts[1].is_signer && ix.accounts[1].is_writable);
    assert_eq!(ix.accounts[2].key, pda);
    assert!(!ix.accounts[2].is_signer && ix.accounts[2].is_writable);
    assert_eq!(ix.accounts[3].key, recipient);
    assert_eq!(ix.accounts[4].key, system);
}

#[test]
fn approve_transaction_builder() {
    let funder = key(1);
    let multisig = key(2);
    let transaction = key(5);
    let recipient = key(6);
    let program = key(3);
    let ix = approve_transaction(&funder, &multisig, &transaction, &recipient, &program, vec![3]);
    assert_eq!(ix.program_id, program);
    assert_eq!(ix.data, vec![3]);
    assert_eq!(ix.accounts.len(), 4);
    assert_eq!(ix.accounts[0].key, funder);
    assert!(ix.accounts[0].is_signer && ix.accounts[0].is_writable);
    assert_eq!(ix.accounts[1].key, multisig);
    assert_eq!(ix.accounts[2].key, transaction);
    assert_eq!(ix.accounts[3].key, recipient);
    assert!(ix.accounts[1].is_writable && ix.accounts[2].is_writable && ix.accounts[3].is_writable);
}
