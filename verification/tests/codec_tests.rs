//! Binary codec behavior: fixed layouts, round trips, and rejection of
//! malformed buffers.

use solana_multisig::error::ProgramError;
use solana_multisig::instruction::MultisigInstruction;
use solana_multisig::key::Pubkey;
use solana_multisig::state::{Account, Transaction, ACCOUNT_LEN, TRANSACTION_LEN};

fn key(n: u8) -> Pubkey {
    Pubkey([n; 32])
}

#[test]
fn account_round_trip() {
    let account = Account {
        is_initialized: true,
        threshold: 2,
        owners: vec![key(1), key(2), key(3)],
        pending_transactions: vec![key(9)],
        frozen_amount: 555,
    };
    let bytes = account.pack();
    assert_eq!(bytes.len(), ACCOUNT_LEN);
    let decoded = Account::unpack_from_slice(&bytes).expect("unpack");
    assert_eq!(decoded.is_initialized, true);
    assert_eq!(decoded.threshold, 2);
    assert_eq!(decoded.owners, vec![key(1), key(2), key(3)]);
    assert_eq!(decoded.pending_transactions, vec![key(9)]);
    assert_eq!(decoded.frozen_amount, 555);
}

#[test]
fn account_pack_exact_layout() {
    let account = Account {
        is_initialized: true,
        threshold: 0x0102_0304,
        owners: vec![key(0xAA), key(0xBB)],
        pending_transactions: vec![key(0xCC)],
        frozen_amount: 0x1122_3344_5566_7788,
    };
    let bytes = account.pack();
    assert_eq!(bytes[0], 1);
    assert_eq!(&bytes[1..5], &[0x04, 0x03, 0x02, 0x01]);
    assert_eq!(&bytes[5..13], &[0x88, 0x77, 0x66, 0x55, 0x44, 0x33, 0x22, 0x11]);
    assert_eq!(&bytes[13..17], &[2, 0, 0, 0]);
    assert_eq!(&bytes[17..21], &[1, 0, 0, 0]);
    assert_eq!(&bytes[21..53], &[0xAA; 32]);
    assert_eq!(&bytes[53..85], &[0xBB; 32]);
    assert_eq!(&bytes[85..117], &[0xCC; 32]);
    assert!(bytes[117..].iter().all(|b| *b == 0));
}

#[test]
fn account_decode_trusts_only_declared_lengths() {
    let account = Account {
        is_initialized: false,
        threshold: 7,
        owners: vec![key(4)],
        pending_transactions: vec![],
        frozen_amount: 0,
    };
    let mut bytes = account.pack();
    // scribble over every byte past the encoded region
    for b in bytes[53..].iter_mut() {
        *b = 0xEE;
    }
    let decoded = Account::unpack_from_slice(&bytes).expect("unpack");
    assert_eq!(decoded.is_initialized, false);
    assert_eq!(decoded.threshold, 7);
    assert_eq!(decoded.owners, vec![key(4)]);
    assert_eq!(decoded.pending_transactions, Vec::<Pubkey>::new());
    assert_eq!(decoded.frozen_amount, 0);
}

#[test]
fn account_unpack_rejects_short_buffer() {
    let bytes = vec![0u8; ACCOUNT_LEN - 1];
    assert_eq!(
        Account::unpack_from_slice(&bytes).unwrap_err(),
        ProgramError::InvalidAccountData
    );
}

#[test]
fn account_unpack_rejects_bad_bool_byte() {
    let mut bytes = vec![0u8; ACCOUNT_LEN];
    bytes[0] = 2;
    assert_eq!(
        Account::unpack_from_slice(&bytes).unwrap_err(),
        ProgramError::InvalidAccountData
    );
}

#[test]
fn account_unpack_rejects_lengths_past_region() {
    let mut bytes = vec![0u8; ACCOUNT_LEN];
    // 10 owners and 9 pending would need 19 identifier slots of the 18 available
    bytes[13..17].copy_from_slice(&10u32.to_le_bytes());
    bytes[17..21].copy_from_slice(&9u32.to_le_bytes());
    assert_eq!(
        Account::unpack_from_slice(&bytes).unwrap_err(),
        ProgramError::InvalidAccountData
    );
    // 8 owners and 10 pending exactly fill the region
    bytes[13..17].copy_from_slice(&8u32.to_le_bytes());
    bytes[17..21].copy_from_slice(&10u32.to_le_bytes());
    assert!(Account::unpack_from_slice(&bytes).is_ok());
}

#[test]
fn transaction_round_trip() {
    let transaction = Transaction {
        multisig: key(1),
        recipient: key(2),
        amount: 12345,
        is_executed: false,
        signers: vec![(key(3), true), (key(4), false)],
    };
    let bytes = transaction.pack();
    assert_eq!(bytes.len(), TRANSACTION_LEN);
    let decoded = Transaction::unpack_from_slice(&bytes).expect("unpack");
    assert_eq!(decoded.multisig, key(1));
    assert_eq!(decoded.recipient, key(2));
    assert_eq!(decoded.amount, 12345);
    assert_eq!(decoded.is_executed, false);
    assert_eq!(decoded.signers, vec![(key(3), true), (key(4), false)]);
}

#[test]
fn transaction_pack_exact_layout() {
    let transaction = Transaction {
        multisig: key(0x11),
        recipient: key(0x22),
        amount: 0x0102_0304_0506_0708,
        is_executed: true,
        signers: vec![(key(0x33), true)],
    };
    let bytes = transaction.pack();
    assert_eq!(&bytes[0..32], &[0x11; 32]);
    assert_eq!(&bytes[32..64], &[0x22; 32]);
    assert_eq!(&bytes[64..72], &[0x08, 0x07, 0x06, 0x05, 0x04, 0x03, 0x02, 0x01]);
    assert_eq!(bytes[72], 1);
    assert_eq!(&bytes[73..77], &[1, 0, 0, 0]);
    assert_eq!(&bytes[77..109], &[0x33; 32]);
    assert_eq!(bytes[109], 1);
    assert!(bytes[110..].iter().all(|b| *b == 0));
}

#[test]
fn transaction_unpack_rejects_short_buffer() {
    let bytes = vec![0u8; TRANSACTION_LEN - 1];
    assert_eq!(
        Transaction::unpack_from_slice(&bytes).unwrap_err(),
        ProgramError::InvalidAccountData
    );
}

#[test]
fn transaction_unpack_rejects_bad_flag_byte() {
    let transaction = Transaction {
        multisig: key(1),
        recipient: key(2),
        amount: 1,
        is_executed: false,
        signers: vec![(key(3), false)],
    };
    let mut bytes = transaction.pack();
    // the approval byte of the first signer entry
    bytes[109] = 7;
    assert_eq!(
        Transaction::unpack_from_slice(&bytes).unwrap_err(),
        ProgramError::InvalidAccountData
    );
}

#[test]
fn transaction_unpack_rejects_signer_count_past_region() {
    let mut bytes = vec![0u8; TRANSACTION_LEN];
    bytes[73..77].copy_from_slice(&9u32.to_le_bytes());
    assert_eq!(
        Transaction::unpack_from_slice(&bytes).unwrap_err(),
        ProgramError::InvalidAccountData
    );
}

#[test]
fn instruction_round_trips() {
    let create = MultisigInstruction::CreateAccount {
        threshold: 3,
        owners: vec![key(1), key(2)],
    };
    let bytes = create.pack().expect("pack");
    match MultisigInstruction::unpack(&bytes).expect("unpack") {
        MultisigInstruction::CreateAccount { threshold, owners } => {
            assert_eq!(threshold, 3);
            assert_eq!(owners, vec![key(1), key(2)]);
        }
        _ => panic!("wrong variant"),
    }

    let transfer = MultisigInstruction::CreateTransaction { amount: 42 };
    let bytes = transfer.pack().expect("pack");
    match MultisigInstruction::unpack(&bytes).expect("unpack") {
        MultisigInstruction::CreateTransaction { amount } => assert_eq!(amount, 42),
        _ => panic!("wrong variant"),
    }

    let approve = MultisigInstruction::ApproveTransaction;
    let bytes = approve.pack().expect("pack");
    assert!(matches!(
        MultisigInstruction::unpack(&bytes).expect("unpack"),
        MultisigInstruction::ApproveTransaction
    ));
}

#[test]
fn instruction_create_account_exact_bytes() {
    let create = MultisigInstruction::CreateAccount {
        threshold: 0x0102_0304,
        owners: vec![key(0xAB)],
    };
    let bytes = create.pack().expect("pack");
    assert_eq!(bytes.len(), 1 + 4 + 4 + 32);
    assert_eq!(bytes[0], 1);
    assert_eq!(&bytes[1..5], &[0x04, 0x03, 0x02, 0x01]);
    assert_eq!(&bytes[5..9], &[1, 0, 0, 0]);
    assert_eq!(&bytes[9..41], &[0xAB; 32]);
}

#[test]
fn instruction_rejects_unknown_tag() {
    assert_eq!(
        MultisigInstruction::unpack(&[0]).unwrap_err(),
        ProgramError::InvalidInstructionData
    );
    assert_eq!(
        MultisigInstruction::unpack(&[4, 1, 2, 3]).unwrap_err(),
        ProgramError::InvalidInstructionData
    );
    assert_eq!(
        MultisigInstruction::unpack(&[]).unwrap_err(),
        ProgramError::InvalidInstructionData
    );
}

#[test]
fn instruction_rejects_truncated_payload() {
    // create-account with a header too short
    assert_eq!(
        MultisigInstruction::unpack(&[1, 2, 0, 0]).unwrap_err(),
        ProgramError::InvalidInstructionData
    );
    // create-account announcing one owner but carrying none
    let mut bytes = vec![1u8];
    bytes.extend_from_slice(&2u32.to_le_bytes());
    bytes.extend_from_slice(&1u32.to_le_bytes());
    assert_eq!(
        MultisigInstruction::unpack(&bytes).unwrap_err(),
        ProgramError::InvalidInstructionData
    );
    // create-transfer with a payload of the wrong size
    assert_eq!(
        MultisigInstruction::unpack(&[2, 1, 2, 3]).unwrap_err(),
        ProgramError::InvalidInstructionData
    );
    assert_eq!(
        MultisigInstruction::unpack(&[2, 1, 2, 3, 4, 5, 6, 7, 8, 9]).unwrap_err(),
        ProgramError::InvalidInstructionData
    );
}
