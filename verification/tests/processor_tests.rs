//! State machine behavior: the three operations, their preconditions,
//! the quorum rule, idempotence, and terminal execution.

use solana_multisig::address::get_associated_address_and_bump_seed;
use solana_multisig::error::{MultisigError, ProgramError};
use solana_multisig::instruction::MultisigInstruction;
use solana_multisig::key::Pubkey;
use solana_multisig::processor::{AccountRef, ProcessEffect, Processor};
use solana_multisig::state::{Account, Transaction};

fn key(n: u8) -> Pubkey {
    Pubkey([n; 32])
}

fn program_id() -> Pubkey {
    key(0xF0)
}

fn custody_address(wallet: &Pubkey) -> Pubkey {
    get_associated_address_and_bump_seed(wallet, &program_id())
        .expect("derivation")
        .0
}

fn base_account(threshold: u32, owners: Vec<Pubkey>) -> Account {
    Account {
        is_initialized: true,
        threshold,
        owners,
        pending_transactions: vec![],
        frozen_amount: 0,
    }
}

#[test]
fn create_account_succeeds() {
    let wallet = key(10);
    let custodian = key(11);
    let multisig_key = custody_address(&wallet);
    let effect = Processor::process_create_account(
        &program_id(),
        true,
        true,
        &wallet,
        &multisig_key,
        &[],
        1,
        vec![custodian],
    )
    .expect("create");
    let record = Account::unpack_from_slice(&effect.multisig_data).expect("unpack");
    assert_eq!(record.is_initialized, true);
    assert_eq!(record.threshold, 1);
    assert_eq!(record.owners.len(), 1);
    assert_eq!(*record.owners.first().expect("custodian"), custodian);
    assert_eq!(record.pending_transactions.len(), 0);
    assert_eq!(record.frozen_amount, 0);
}

#[test]
fn create_account_owner_bounds() {
    let wallet = key(10);
    let multisig_key = custody_address(&wallet);
    let run = |owners: Vec<Pubkey>| {
        Processor::process_create_account(
            &program_id(),
            true,
            true,
            &wallet,
            &multisig_key,
            &[],
            1,
            owners,
        )
    };
    assert_eq!(
        run(vec![]).unwrap_err(),
        ProgramError::Custom(MultisigError::CustodianLimit)
    );
    assert_eq!(
        run((0..9).map(|i| key(i)).collect()).unwrap_err(),
        ProgramError::Custom(MultisigError::CustodianLimit)
    );
    assert!(run(vec![key(1)]).is_ok());
    assert!(run((0..8).map(|i| key(i)).collect()).is_ok());
}

#[test]
fn create_account_missing_signature() {
    let wallet = key(10);
    let multisig_key = custody_address(&wallet);
    for (funder, wallet_signed) in [(false, true), (true, false), (false, false)] {
        let r = Processor::process_create_account(
            &program_id(),
            funder,
            wallet_signed,
            &wallet,
            &multisig_key,
            &[],
            1,
            vec![key(1)],
        );
        assert_eq!(r.unwrap_err(), ProgramError::MissingRequiredSignature);
    }
}

#[test]
fn create_account_address_mismatch() {
    let wallet = key(10);
    // an arbitrary address instead of the derived one, with arbitrary contents
    let r = Processor::process_create_account(
        &program_id(),
        true,
        true,
        &wallet,
        &key(66),
        &[7u8; 4],
        1,
        vec![key(1)],
    );
    assert_eq!(r.unwrap_err(), ProgramError::InvalidSeeds);
}

#[test]
fn create_account_already_initialized() {
    let wallet = key(10);
    let multisig_key = custody_address(&wallet);
    let effect = Processor::process_create_account(
        &program_id(),
        true,
        true,
        &wallet,
        &multisig_key,
        &[],
        1,
        vec![key(1)],
    )
    .expect("create");
    let r = Processor::process_create_account(
        &program_id(),
        true,
        true,
        &wallet,
        &multisig_key,
        &effect.multisig_data,
        1,
        vec![key(1)],
    );
    assert_eq!(r.unwrap_err(), ProgramError::AccountAlreadyInitialized);
}

#[test]
fn create_transaction_succeeds() {
    let wallet = key(10);
    let multisig_key = custody_address(&wallet);
    let owners = vec![key(1), key(2), key(3)];
    let account_bytes = base_account(2, owners.clone()).pack();
    let transaction_key = key(20);
    let recipient = key(30);
    let effect = Processor::process_create_transaction(
        &program_id(),
        true,
        true,
        &wallet,
        &transaction_key,
        &multisig_key,
        &recipient,
        &account_bytes,
        1000,
        100,
    )
    .expect("create transfer");
    let account = Account::unpack_from_slice(&effect.multisig_data).expect("unpack account");
    assert_eq!(account.frozen_amount, 100);
    assert_eq!(account.pending_transactions, vec![transaction_key]);
    assert_eq!(account.owners, owners);
    let proposal = Transaction::unpack_from_slice(&effect.transaction_data).expect("unpack tx");
    assert_eq!(proposal.multisig, multisig_key);
    assert_eq!(proposal.recipient, recipient);
    assert_eq!(proposal.amount, 100);
    assert_eq!(proposal.is_executed, false);
    assert_eq!(
        proposal.signers,
        vec![(key(1), false), (key(2), false), (key(3), false)]
    );
}

#[test]
fn create_transaction_pending_capacity() {
    let wallet = key(10);
    let multisig_key = custody_address(&wallet);
    let mut account = base_account(1, vec![key(1)]);
    account.pending_transactions = (0..9).map(|i| key(100 + i)).collect();
    let run = |bytes: &[u8]| {
        Processor::process_create_transaction(
            &program_id(),
            true,
            true,
            &wallet,
            &key(20),
            &multisig_key,
            &key(30),
            bytes,
            1000,
            1,
        )
    };
    // the 10th pending transfer still fits
    let effect = run(&account.pack()).expect("tenth");
    let after_tenth = Account::unpack_from_slice(&effect.multisig_data).expect("unpack");
    assert_eq!(after_tenth.pending_transactions.len(), 10);
    // the 11th fails with the pending-limit error
    let r = run(&after_tenth.pack());
    assert_eq!(
        r.unwrap_err(),
        ProgramError::Custom(MultisigError::PendingTransactionLimit)
    );
}

#[test]
fn create_transaction_accounting() {
    let wallet = key(10);
    let multisig_key = custody_address(&wallet);
    let mut account = base_account(1, vec![key(1)]);
    account.frozen_amount = 900;
    account.pending_transactions = vec![key(90)];
    let bytes = account.pack();
    let run = |amount: u64| {
        Processor::process_create_transaction(
            &program_id(),
            true,
            true,
            &wallet,
            &key(20),
            &multisig_key,
            &key(30),
            &bytes,
            1000,
            amount,
        )
    };
    // one past the unfrozen remainder fails
    assert_eq!(
        run(101).unwrap_err(),
        ProgramError::Custom(MultisigError::InsufficientBalance)
    );
    // exactly the unfrozen remainder succeeds
    let effect = run(100).expect("exact remainder");
    let after = Account::unpack_from_slice(&effect.multisig_data).expect("unpack");
    assert_eq!(after.frozen_amount, 1000);
}

#[test]
fn create_transaction_uninitialized() {
    let wallet = key(10);
    let multisig_key = custody_address(&wallet);
    let mut account = base_account(1, vec![key(1)]);
    account.is_initialized = false;
    let r = Processor::process_create_transaction(
        &program_id(),
        true,
        true,
        &wallet,
        &key(20),
        &multisig_key,
        &key(30),
        &account.pack(),
        1000,
        1,
    );
    assert_eq!(r.unwrap_err(), ProgramError::UninitializedAccount);
}

#[test]
fn create_transaction_wrong_owner() {
    let wallet = key(10);
    let account_bytes = base_account(1, vec![key(1)]).pack();
    // the custody buffer's address is not the one derived from the wallet
    let r = Processor::process_create_transaction(
        &program_id(),
        true,
        true,
        &wallet,
        &key(20),
        &key(66),
        &key(30),
        &account_bytes,
        1000,
        1,
    );
    assert_eq!(r.unwrap_err(), ProgramError::IllegalOwner);
}

#[test]
fn create_transaction_missing_signature() {
    let wallet = key(10);
    let multisig_key = custody_address(&wallet);
    let account_bytes = base_account(1, vec![key(1)]).pack();
    let r = Processor::process_create_transaction(
        &program_id(),
        true,
        false,
        &wallet,
        &key(20),
        &multisig_key,
        &key(30),
        &account_bytes,
        1000,
        1,
    );
    assert_eq!(r.unwrap_err(), ProgramError::MissingRequiredSignature);
}

/// The quorum scenario: threshold 2, owners A, B, C, balance 1000. Opening a
/// transfer over 100 freezes 100. The first approval leaves the proposal
/// pending; the second reaches the threshold and releases the funds.
#[test]
fn quorum_scenario() {
    let wallet = key(10);
    let multisig_key = custody_address(&wallet);
    let (a, b, c) = (key(1), key(2), key(3));
    let transaction_key = key(20);
    let recipient = key(30);
    let account_bytes = base_account(2, vec![a, b, c]).pack();
    let created = Processor::process_create_transaction(
        &program_id(),
        true,
        true,
        &wallet,
        &transaction_key,
        &multisig_key,
        &recipient,
        &account_bytes,
        1000,
        100,
    )
    .expect("create transfer");
    let frozen = Account::unpack_from_slice(&created.multisig_data)
        .expect("unpack")
        .frozen_amount;
    assert_eq!(frozen, 100);

    // first approval: recorded, but no release
    let first = Processor::process_approve_transaction(
        true,
        &a,
        &transaction_key,
        &created.multisig_data,
        &created.transaction_data,
    )
    .expect("first approval");
    assert_eq!(first.transfer_amount, None);
    let proposal = Transaction::unpack_from_slice(&first.transaction_data).expect("unpack");
    assert_eq!(proposal.is_executed, false);
    assert_eq!(
        proposal.signers,
        vec![(a, true), (b, false), (c, false)]
    );
    let account = Account::unpack_from_slice(&first.multisig_data).expect("unpack");
    assert_eq!(account.frozen_amount, 100);
    assert_eq!(account.pending_transactions, vec![transaction_key]);

    // second approval reaches the threshold: funds released, record terminal
    let second = Processor::process_approve_transaction(
        true,
        &b,
        &transaction_key,
        &first.multisig_data,
        &first.transaction_data,
    )
    .expect("second approval");
    assert_eq!(second.transfer_amount, Some(100));
    let proposal = Transaction::unpack_from_slice(&second.transaction_data).expect("unpack");
    assert_eq!(proposal.is_executed, true);
    assert_eq!(
        proposal.signers,
        vec![(a, true), (b, true), (c, false)]
    );
    let account = Account::unpack_from_slice(&second.multisig_data).expect("unpack");
    assert_eq!(account.frozen_amount, 0);
    assert_eq!(account.pending_transactions.len(), 0);
}

/// With threshold 3, a single approval must leave the proposal pending, the
/// balance untouched and the frozen amount unchanged.
#[test]
fn single_approval_below_threshold_stays_pending() {
    let wallet = key(10);
    let multisig_key = custody_address(&wallet);
    let (a, b, c) = (key(1), key(2), key(3));
    let transaction_key = key(20);
    let account_bytes = base_account(3, vec![a, b, c]).pack();
    let created = Processor::process_create_transaction(
        &program_id(),
        true,
        true,
        &wallet,
        &transaction_key,
        &multisig_key,
        &key(30),
        &account_bytes,
        1000,
        100,
    )
    .expect("create transfer");
    let first = Processor::process_approve_transaction(
        true,
        &a,
        &transaction_key,
        &created.multisig_data,
        &created.transaction_data,
    )
    .expect("approval");
    assert_eq!(first.transfer_amount, None);
    let account = Account::unpack_from_slice(&first.multisig_data).expect("unpack");
    assert_eq!(account.frozen_amount, 100);
    let proposal = Transaction::unpack_from_slice(&first.transaction_data).expect("unpack");
    assert_eq!(proposal.is_executed, false);
}

/// Approving twice with the same owner changes no additional state and does
/// not fail the second time.
#[test]
fn approval_is_idempotent() {
    let wallet = key(10);
    let multisig_key = custody_address(&wallet);
    let (a, b, c) = (key(1), key(2), key(3));
    let transaction_key = key(20);
    let account_bytes = base_account(3, vec![a, b, c]).pack();
    let created = Processor::process_create_transaction(
        &program_id(),
        true,
        true,
        &wallet,
        &transaction_key,
        &multisig_key,
        &key(30),
        &account_bytes,
        1000,
        100,
    )
    .expect("create transfer");
    let first = Processor::process_approve_transaction(
        true,
        &a,
        &transaction_key,
        &created.multisig_data,
        &created.transaction_data,
    )
    .expect("first");
    let second = Processor::process_approve_transaction(
        true,
        &a,
        &transaction_key,
        &first.multisig_data,
        &first.transaction_data,
    )
    .expect("second");
    assert_eq!(second.transfer_amount, None);
    assert_eq!(second.multisig_data, first.multisig_data);
    assert_eq!(second.transaction_data, first.transaction_data);
}

/// Once executed, a proposal still referenced by a custody account rejects
/// any further approval with the already-executed error.
#[test]
fn executed_proposal_is_terminal() {
    let transaction_key = key(20);
    let mut account = base_account(1, vec![key(1)]);
    account.pending_transactions = vec![transaction_key];
    account.frozen_amount = 100;
    let executed = Transaction {
        multisig: key(40),
        recipient: key(30),
        amount: 100,
        is_executed: true,
        signers: vec![(key(1), true)],
    };
    let r = Processor::process_approve_transaction(
        true,
        &key(1),
        &transaction_key,
        &account.pack(),
        &executed.pack(),
    );
    assert_eq!(
        r.unwrap_err(),
        ProgramError::Custom(MultisigError::TransactionAlreadyExecuted)
    );
}

#[test]
fn approve_undefined_transaction() {
    let account = base_account(1, vec![key(1)]);
    let proposal = Transaction {
        multisig: key(40),
        recipient: key(30),
        amount: 1,
        is_executed: false,
        signers: vec![(key(1), false)],
    };
    let r = Processor::process_approve_transaction(
        true,
        &key(1),
        &key(20),
        &account.pack(),
        &proposal.pack(),
    );
    assert_eq!(
        r.unwrap_err(),
        ProgramError::Custom(MultisigError::UndefinedTransaction)
    );
}

#[test]
fn approve_rejects_non_owner() {
    let transaction_key = key(20);
    let mut account = base_account(1, vec![key(1)]);
    account.pending_transactions = vec![transaction_key];
    let proposal = Transaction {
        multisig: key(40),
        recipient: key(30),
        amount: 1,
        is_executed: false,
        signers: vec![(key(1), false)],
    };
    let r = Processor::process_approve_transaction(
        true,
        &key(99),
        &transaction_key,
        &account.pack(),
        &proposal.pack(),
    );
    assert_eq!(
        r.unwrap_err(),
        ProgramError::Custom(MultisigError::InvalidCustodian)
    );
}

#[test]
fn approve_missing_signature() {
    let r = Processor::process_approve_transaction(false, &key(1), &key(20), &[], &[]);
    assert_eq!(r.unwrap_err(), ProgramError::MissingRequiredSignature);
}

#[test]
fn process_dispatches_create_account() {
    let wallet = key(10);
    let multisig_key = custody_address(&wallet);
    let request = MultisigInstruction::CreateAccount {
        threshold: 1,
        owners: vec![key(1)],
    }
    .pack()
    .expect("pack");
    let accounts = vec![
        AccountRef { key: key(50), is_signer: true, lamports: 10_000, data: vec![] },
        AccountRef { key: multisig_key, is_signer: false, lamports: 0, data: vec![] },
        AccountRef { key: wallet, is_signer: true, lamports: 0, data: vec![] },
        AccountRef { key: key(0), is_signer: false, lamports: 0, data: vec![] },
        AccountRef { key: key(60), is_signer: false, lamports: 0, data: vec![] },
    ];
    match Processor::process(&program_id(), &accounts, &request).expect("process") {
        ProcessEffect::AccountCreated(effect) => {
            let record = Account::unpack_from_slice(&effect.multisig_data).expect("unpack");
            assert_eq!(record.threshold, 1);
            assert_eq!(record.owners, vec![key(1)]);
        }
        _ => panic!("wrong effect"),
    }
}

#[test]
fn process_dispatches_approve() {
    let wallet = key(10);
    let multisig_key = custody_address(&wallet);
    let transaction_key = key(20);
    let account_bytes = base_account(1, vec![key(1)]).pack();
    let created = Processor::process_create_transaction(
        &program_id(),
        true,
        true,
        &wallet,
        &transaction_key,
        &multisig_key,
        &key(30),
        &account_bytes,
        1000,
        100,
    )
    .expect("create transfer");
    let request = MultisigInstruction::ApproveTransaction.pack().expect("pack");
    let accounts = vec![
        AccountRef { key: key(1), is_signer: true, lamports: 0, data: vec![] },
        AccountRef {
            key: multisig_key,
            is_signer: false,
            lamports: 1000,
            data: created.multisig_data.clone(),
        },
        AccountRef {
            key: transaction_key,
            is_signer: false,
            lamports: 0,
            data: created.transaction_data.clone(),
        },
        AccountRef { key: key(30), is_signer: false, lamports: 0, data: vec![] },
    ];
    match Processor::process(&program_id(), &accounts, &request).expect("process") {
        ProcessEffect::Approved(effect) => {
            // threshold 1: the single approval releases the funds
            assert_eq!(effect.transfer_amount, Some(100));
        }
        _ => panic!("wrong effect"),
    }
}

#[test]
fn process_rejects_missing_accounts_and_bad_requests() {
    let accounts: Vec<AccountRef> = vec![];
    let approve = MultisigInstruction::ApproveTransaction.pack().expect("pack");
    assert_eq!(
        Processor::process(&program_id(), &accounts, &approve).unwrap_err(),
        ProgramError::NotEnoughAccountKeys
    );
    assert_eq!(
        Processor::process(&program_id(), &accounts, &[9, 9]).unwrap_err(),
        ProgramError::InvalidInstructionData
    );
}
