//! The tagged operation stream: one leading tag byte selects the operation,
//! followed by a tag-specific payload. Integers are little-endian; an owner
//! list is a 4-byte length prefix followed by that many 32-byte identifiers.
//! An unrecognized tag or a truncated payload is a malformed request.

use vstd::prelude::*;

use crate::codec::{keys_flat, keys_wf, lemma_keys_flat_index, lemma_keys_flat_len,
    lemma_keys_flat_push, spec_key_at};
use crate::error::ProgramError;
use crate::key::{key_from_slice, push_key, Pubkey};

verus! {

/// Tag byte selecting the create-account operation.
pub const TAG_CREATE_ACCOUNT: u8 = 1;

/// Tag byte selecting the create-transfer operation.
pub const TAG_CREATE_TRANSACTION: u8 = 2;

/// Tag byte selecting the approve-transfer operation.
pub const TAG_APPROVE_TRANSACTION: u8 = 3;

/// One operation request.
#[derive(Clone, Debug)]
pub enum MultisigInstruction {
    /// Create the Custody Account for a wallet: the approval threshold and
    /// the owner set.
    CreateAccount { threshold: u32, owners: Vec<Pubkey> },
    /// Open a Transfer Proposal over `amount` funds.
    CreateTransaction { amount: u64 },
    /// Record one owner's approval of a pending proposal.
    ApproveTransaction,
}

/// The mathematical value of an operation request.
#[verifier::ext_equal]
pub enum InstructionView {
    CreateAccount { threshold: u32, owners: Seq<Seq<u8>> },
    CreateTransaction { amount: u64 },
    ApproveTransaction,
}

impl View for MultisigInstruction {
    type V = InstructionView;

    open spec fn view(&self) -> InstructionView {
        match self {
            MultisigInstruction::CreateAccount { threshold, owners } => {
                InstructionView::CreateAccount {
                    threshold: *threshold,
                    owners: owners@.map_values(|k: Pubkey| k@),
                }
            },
            MultisigInstruction::CreateTransaction { amount } => {
                InstructionView::CreateTransaction { amount: *amount }
            },
            MultisigInstruction::ApproveTransaction => InstructionView::ApproveTransaction,
        }
    }
}

impl InstructionView {
    /// The request can be written out: an owner count that fits its 4-byte
    /// length prefix.
    pub open spec fn pack_allowed(self) -> bool {
        match self {
            InstructionView::CreateAccount { owners, .. } => owners.len() <= u32::MAX,
            _ => true,
        }
    }

    /// Every identifier in the request is 32 bytes long.
    pub open spec fn keys_sized(self) -> bool {
        match self {
            InstructionView::CreateAccount { owners, .. } => keys_wf(owners),
            _ => true,
        }
    }
}

/// The byte encoding of an operation request.
pub open spec fn spec_pack_instruction(ix: InstructionView) -> Seq<u8> {
    match ix {
        InstructionView::CreateAccount { threshold, owners } => {
            seq![TAG_CREATE_ACCOUNT] + vstd::bytes::spec_u32_to_le_bytes(threshold)
                + vstd::bytes::spec_u32_to_le_bytes(owners.len() as u32) + keys_flat(owners)
        },
        InstructionView::CreateTransaction { amount } => {
            seq![TAG_CREATE_TRANSACTION] + vstd::bytes::spec_u64_to_le_bytes(amount)
        },
        InstructionView::ApproveTransaction => seq![TAG_APPROVE_TRANSACTION],
    }
}

/// Decodes an operation request. Fails on an unrecognized tag or a payload
/// too short for what its tag and declared owner count announce.
pub open spec fn spec_unpack_instruction(s: Seq<u8>) -> Option<InstructionView> {
    if s.len() < 1 {
        None
    } else if s[0] == TAG_CREATE_ACCOUNT {
        if s.len() < 9 {
            None
        } else {
            let owners_len = vstd::bytes::spec_u32_from_le_bytes(s.subrange(5, 9)) as int;
            if s.len() < 9 + 32 * owners_len {
                None
            } else {
                Some(
                    InstructionView::CreateAccount {
                        threshold: vstd::bytes::spec_u32_from_le_bytes(s.subrange(1, 5)),
                        owners: Seq::new(owners_len as nat, |i: int| spec_key_at(s, 9 + 32 * i)),
                    },
                )
            }
        }
    } else if s[0] == TAG_CREATE_TRANSACTION {
        if s.len() == 9 {
            Some(
                InstructionView::CreateTransaction {
                    amount: vstd::bytes::spec_u64_from_le_bytes(s.subrange(1, 9)),
                },
            )
        } else {
            None
        }
    } else if s[0] == TAG_APPROVE_TRANSACTION {
        Some(InstructionView::ApproveTransaction)
    } else {
        None
    }
}

impl MultisigInstruction {
    /// Decodes an operation request from its tagged byte stream.
    pub fn unpack(input: &[u8]) -> (r: Result<MultisigInstruction, ProgramError>)
        ensures
            match r {
                Ok(ix) => spec_unpack_instruction(input@) == Some(ix@),
                Err(e) => spec_unpack_instruction(input@) is None && e
                    == ProgramError::InvalidInstructionData,
            },
    {
        let n = input.len();
        if n < 1 {
            return Err(ProgramError::InvalidInstructionData);
        }
        let tag = input[0];
        if tag == TAG_CREATE_ACCOUNT {
            if n < 9 {
                return Err(ProgramError::InvalidInstructionData);
            }
            let threshold = vstd::bytes::u32_from_le_bytes(
                vstd::slice::slice_subrange(input, 1, 5),
            );
            let owners_len = vstd::bytes::u32_from_le_bytes(
                vstd::slice::slice_subrange(input, 5, 9),
            );
            if (n as u64) < 9u64 + 32u64 * (owners_len as u64) {
                return Err(ProgramError::InvalidInstructionData);
            }
            let owners_n = owners_len as usize;
            let mut owners: Vec<Pubkey> = Vec::new();
            let mut i: usize = 0;
            while i < owners_n
                invariant
                    i <= owners_n,
                    9 + 32 * owners_n <= n,
                    n == input@.len(),
                    owners@.len() == i,
                    forall|m: int|
                        0 <= m < i ==> (#[trigger] owners@[m])@ == spec_key_at(input@, 9 + 32 * m),
                decreases owners_n - i,
            {
                owners.push(key_from_slice(input, 9 + 32 * i));
                i = i + 1;
            }
            let ix = MultisigInstruction::CreateAccount { threshold, owners };
            proof {
                let expected = spec_unpack_instruction(input@).unwrap();
                assert(ix@->CreateAccount_owners =~= expected->CreateAccount_owners);
                assert(ix@ =~= expected);
            }
            Ok(ix)
        } else if tag == TAG_CREATE_TRANSACTION {
            if n != 9 {
                return Err(ProgramError::InvalidInstructionData);
            }
            let amount = vstd::bytes::u64_from_le_bytes(vstd::slice::slice_subrange(input, 1, 9));
            Ok(MultisigInstruction::CreateTransaction { amount })
        } else if tag == TAG_APPROVE_TRANSACTION {
            Ok(MultisigInstruction::ApproveTransaction)
        } else {
            Err(ProgramError::InvalidInstructionData)
        }
    }

    /// Encodes the request into its tagged byte stream.
    pub fn pack(&self) -> (r: Result<Vec<u8>, ProgramError>)
        requires
            self@.pack_allowed(),
        ensures
            match r {
                Ok(bytes) => bytes@ == spec_pack_instruction(self@),
                Err(_) => false,
            },
    {
        let mut out: Vec<u8> = Vec::new();
        match self {
            MultisigInstruction::CreateAccount { threshold, owners } => {
                out.push(TAG_CREATE_ACCOUNT);
                let mut bytes_threshold = vstd::bytes::u32_to_le_bytes(*threshold);
                out.append(&mut bytes_threshold);
                let owners_n = owners.len();
                let mut bytes_owners_len = vstd::bytes::u32_to_le_bytes(owners_n as u32);
                out.append(&mut bytes_owners_len);
                let ghost header: Seq<u8> = out@;
                let ghost owners_view: Seq<Seq<u8>> = self@->CreateAccount_owners;
                let mut i: usize = 0;
                while i < owners_n
                    invariant
                        i <= owners_n,
                        owners_n == owners@.len(),
                        owners_view == owners@.map_values(|k: Pubkey| k@),
                        out@ == header + keys_flat(owners_view.take(i as int)),
                    decreases owners_n - i,
                {
                    push_key(&mut out, &owners[i]);
                    proof {
                        lemma_keys_flat_push(owners_view.take(i as int), owners_view[i as int]);
                        assert(owners_view.take(i + 1) =~= owners_view.take(i as int).push(
                            owners_view[i as int],
                        ));
                    }
                    i = i + 1;
                }
                proof {
                    assert(owners_view.take(owners_n as int) =~= owners_view);
                }
            },
            MultisigInstruction::CreateTransaction { amount } => {
                out.push(TAG_CREATE_TRANSACTION);
                let mut bytes_amount = vstd::bytes::u64_to_le_bytes(*amount);
                out.append(&mut bytes_amount);
            },
            MultisigInstruction::ApproveTransaction => {
                out.push(TAG_APPROVE_TRANSACTION);
            },
        }
        proof {
            assert(out@ =~= spec_pack_instruction(self@));
        }
        Ok(out)
    }
}

/// Law: decoding recovers exactly the request that was encoded.
pub proof fn lemma_instruction_round_trip(ix: InstructionView)
    requires
        ix.pack_allowed(),
        ix.keys_sized(),
    ensures
        spec_unpack_instruction(spec_pack_instruction(ix)) == Some(ix),
{
    vstd::bytes::lemma_auto_spec_u32_to_from_le_bytes();
    vstd::bytes::lemma_auto_spec_u64_to_from_le_bytes();
    let s = spec_pack_instruction(ix);
    match ix {
        InstructionView::CreateAccount { threshold, owners } => {
            lemma_keys_flat_len(owners);
            let o = owners.len() as int;
            assert(s.subrange(1, 5) =~= vstd::bytes::spec_u32_to_le_bytes(threshold));
            assert(s.subrange(5, 9) =~= vstd::bytes::spec_u32_to_le_bytes(owners.len() as u32));
            assert(s.subrange(9, 9 + 32 * o) =~= keys_flat(owners));
            assert forall|i: int| 0 <= i < o implies spec_key_at(s, 9 + 32 * i) == owners[i] by {
                lemma_keys_flat_index(owners, i);
                assert(spec_key_at(s, 9 + 32 * i) =~= keys_flat(owners).subrange(
                    32 * i,
                    32 * i + 32,
                ));
            }
            let got = spec_unpack_instruction(s);
            assert(got is Some);
            assert(got.unwrap()->CreateAccount_owners =~= owners);
            assert(got.unwrap() =~= ix);
        },
        InstructionView::CreateTransaction { amount } => {
            assert(s.subrange(1, 9) =~= vstd::bytes::spec_u64_to_le_bytes(amount));
            assert(spec_unpack_instruction(s) =~= Some(ix));
        },
        InstructionView::ApproveTransaction => {
            assert(spec_unpack_instruction(s) =~= Some(ix));
        },
    }
}

} // verus!
