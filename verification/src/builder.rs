//! Builders for the three operations: each assembles the account list an
//! operation consumes, in its required order, around an encoded request.

use vstd::prelude::*;

use crate::address::{derived_address, get_associated_address};
use crate::key::Pubkey;

verus! {

/// One account named by an operation: its address, whether it must co-sign,
/// and whether the operation may write to it.
#[derive(Clone, Debug)]
pub struct AccountMetaInfo {
    pub key: Pubkey,
    pub is_signer: bool,
    pub is_writable: bool,
}

/// The mathematical value of a named account.
#[verifier::ext_equal]
pub struct AccountMetaInfoView {
    pub key: Seq<u8>,
    pub is_signer: bool,
    pub is_writable: bool,
}

impl View for AccountMetaInfo {
    type V = AccountMetaInfoView;

    open spec fn view(&self) -> AccountMetaInfoView {
        AccountMetaInfoView {
            key: self.key@,
            is_signer: self.is_signer,
            is_writable: self.is_writable,
        }
    }
}

/// A fully assembled operation: the program to run it, the accounts it
/// consumes in order, and the encoded request.
#[derive(Clone, Debug)]
pub struct InstructionInfo {
    pub program_id: Pubkey,
    pub accounts: Vec<AccountMetaInfo>,
    pub data: Vec<u8>,
}

/// The mathematical values of a named-account list.
pub open spec fn metas_view(metas: Seq<AccountMetaInfo>) -> Seq<AccountMetaInfoView> {
    metas.map_values(|m: AccountMetaInfo| m@)
}

/// One named account, as a value.
pub open spec fn spec_meta(key: Seq<u8>, is_signer: bool, is_writable: bool) -> AccountMetaInfoView {
    AccountMetaInfoView { key, is_signer, is_writable }
}

/// Assembles a create-account operation: the funder pays and signs, the
/// custody buffer is written, the wallet signs, and the system allocator and
/// rent oracle are consulted. Fails only if no custody address can be
/// derived for the wallet.
pub fn create_associated_account(
    funding_address: &Pubkey,
    wallet_address: &Pubkey,
    program_id: &Pubkey,
    system_program_id: &Pubkey,
    rent_sysvar_id: &Pubkey,
    data: Vec<u8>,
) -> (r: Option<InstructionInfo>)
    ensures
        match r {
            Some(ix) => {
                &&& derived_address(wallet_address@, program_id@) matches Some(p)
                &&& ix.program_id@ == program_id@
                &&& ix.data@ == data@
                &&& metas_view(ix.accounts@) =~= seq![
                    spec_meta(funding_address@, true, true),
                    spec_meta(
                        derived_address(wallet_address@, program_id@).unwrap().0,
                        false,
                        true,
                    ),
                    spec_meta(wallet_address@, true, false),
                    spec_meta(system_program_id@, false, false),
                    spec_meta(rent_sysvar_id@, false, false),
                ]
            },
            None => derived_address(wallet_address@, program_id@) is None,
        },
{
    let associated = match get_associated_address(wallet_address, program_id) {
        Some(k) => k,
        None => {
            return None;
        },
    };
    let mut accounts: Vec<AccountMetaInfo> = Vec::new();
    accounts.push(AccountMetaInfo { key: *funding_address, is_signer: true, is_writable: true });
    accounts.push(AccountMetaInfo { key: associated, is_signer: false, is_writable: true });
    accounts.push(AccountMetaInfo { key: *wallet_address, is_signer: true, is_writable: false });
    accounts.push(
        AccountMetaInfo { key: *system_program_id, is_signer: false, is_writable: false },
    );
    accounts.push(AccountMetaInfo { key: *rent_sysvar_id, is_signer: false, is_writable: false });
    Some(InstructionInfo { program_id: *program_id, accounts, data })
}

/// Assembles a create-transfer operation: the wallet pays and signs, the new
/// proposal buffer signs and is written, the custody buffer is written, the
/// recipient is named, and the system allocator is consulted. Fails only if
/// no custody address can be derived for the wallet.
pub fn create_transaction(
    funding_address: &Pubkey,
    wallet_address: &Pubkey,
    transaction_address: &Pubkey,
    recipient_address: &Pubkey,
    program_id: &Pubkey,
    system_program_id: &Pubkey,
    data: Vec<u8>,
) -> (r: Option<InstructionInfo>)
    ensures
        match r {
            Some(ix) => {
                &&& derived_address(wallet_address@, program_id@) matches Some(p)
                &&& ix.program_id@ == program_id@
                &&& ix.data@ == data@
                &&& metas_view(ix.accounts@) =~= seq![
                    spec_meta(funding_address@, true, true),
                    spec_meta(transaction_address@, true, true),
                    spec_meta(
                        derived_address(wallet_address@, program_id@).unwrap().0,
                        false,
                        true,
                    ),
                    spec_meta(recipient_address@, false, false),
                    spec_meta(system_program_id@, false, false),
                ]
            },
            None => derived_address(wallet_address@, program_id@) is None,
        },
{
    let associated = match get_associated_address(wallet_address, program_id) {
        Some(k) => k,
        None => {
            return None;
        },
    };
    let mut accounts: Vec<AccountMetaInfo> = Vec::new();
    accounts.push(AccountMetaInfo { key: *funding_address, is_signer: true, is_writable: true });
    accounts.push(
        AccountMetaInfo { key: *transaction_address, is_signer: true, is_writable: true },
    );
    accounts.push(AccountMetaInfo { key: associated, is_signer: false, is_writable: true });
    accounts.push(
        AccountMetaInfo { key: *recipient_address, is_signer: false, is_writable: false },
    );
    accounts.push(
        AccountMetaInfo { key: *system_program_id, is_signer: false, is_writable: false },
    );
    Some(InstructionInfo { program_id: *program_id, accounts, data })
}

/// Assembles an approve-transfer operation: the approver signs, and the
/// custody buffer, the proposal buffer and the recipient are all written.
pub fn approve_transaction(
    funding_address: &Pubkey,
    multisig_address: &Pubkey,
    transaction_address: &Pubkey,
    recipient_address: &Pubkey,
    program_id: &Pubkey,
    data: Vec<u8>,
) -> (r: InstructionInfo)
    ensures
        r.program_id@ == program_id@,
        r.data@ == data@,
        metas_view(r.accounts@) =~= seq![
            spec_meta(funding_address@, true, true),
            spec_meta(multisig_address@, false, true),
            spec_meta(transaction_address@, false, true),
            spec_meta(recipient_address@, false, true),
        ],
{
    let mut accounts: Vec<AccountMetaInfo> = Vec::new();
    accounts.push(AccountMetaInfo { key: *funding_address, is_signer: true, is_writable: true });
    accounts.push(AccountMetaInfo { key: *multisig_address, is_signer: false, is_writable: true });
    accounts.push(
        AccountMetaInfo { key: *transaction_address, is_signer: false, is_writable: true },
    );
    accounts.push(
        AccountMetaInfo { key: *recipient_address, is_signer: false, is_writable: true },
    );
    InstructionInfo { program_id: *program_id, accounts, data }
}

} // verus!
