//! Laws of the state machine, stated over the operation transitions and
//! proved once for all inputs: bounds on the owner set, the pending-list
//! capacity, fund accounting, address integrity, the quorum release rule,
//! idempotence of approval, and the terminality of execution.

use vstd::prelude::*;

use crate::address::spec_address_matches;
use crate::error::{MultisigError, ProgramError};
use crate::processor::{
    lemma_find_signer_at, lemma_find_signer_characterizes, spec_count_approved, spec_find_key,
    spec_find_signer, spec_holds_initialized_account, spec_process_approve_transaction,
    spec_process_create_account, spec_process_create_transaction, ApproveEffectView,
};
use crate::state::{
    lemma_account_pack_round_trip, lemma_transaction_pack_round_trip, lemma_unpack_account_valid,
    lemma_unpack_transaction_valid, spec_pack_transaction, spec_unpack_account,
    spec_unpack_transaction, AccountView, TransactionView,
};
use crate::{MAX_SIGNERS, MAX_TRANSACTIONS, MIN_SIGNERS};

verus! {

/// Law: with both signatures present and the target address matching its
/// derivation, creating a custody account succeeds exactly when the owner
/// count is within bounds, and an out-of-bounds owner count fails with the
/// owner-count error.
pub proof fn lemma_create_account_owner_bounds(
    program: Seq<u8>,
    wallet: Seq<u8>,
    multisig_key: Seq<u8>,
    multisig_data: Seq<u8>,
    threshold: u32,
    owners: Seq<Seq<u8>>,
)
    requires
        spec_address_matches(multisig_key, wallet, program),
        !spec_holds_initialized_account(multisig_data),
    ensures
        spec_process_create_account(
            program,
            true,
            true,
            wallet,
            multisig_key,
            multisig_data,
            threshold,
            owners,
        ) is Ok <==> MIN_SIGNERS <= owners.len() <= MAX_SIGNERS,
        owners.len() < MIN_SIGNERS || owners.len() > MAX_SIGNERS ==> spec_process_create_account(
            program,
            true,
            true,
            wallet,
            multisig_key,
            multisig_data,
            threshold,
            owners,
        ) == Err::<crate::processor::CreateAccountEffectView, ProgramError>(
            ProgramError::Custom(MultisigError::CustodianLimit),
        ),
{
}

/// Law: an operation presenting a custody buffer address that does not match
/// the derivation from the wallet fails with the address-mismatch error,
/// regardless of the buffer's contents.
pub proof fn lemma_create_account_address_integrity(
    program: Seq<u8>,
    wallet: Seq<u8>,
    multisig_key: Seq<u8>,
    multisig_data: Seq<u8>,
    threshold: u32,
    owners: Seq<Seq<u8>>,
)
    requires
        !spec_address_matches(multisig_key, wallet, program),
    ensures
        spec_process_create_account(
            program,
            true,
            true,
            wallet,
            multisig_key,
            multisig_data,
            threshold,
            owners,
        ) == Err::<crate::processor::CreateAccountEffectView, ProgramError>(
            ProgramError::InvalidSeeds,
        ),
{
}

/// Law: opening a transfer against a custody buffer whose address does not
/// match the derivation from the signing wallet fails with the
/// owner-mismatch error, whatever the buffer holds beyond a decodable,
/// initialized, in-bounds record.
pub proof fn lemma_create_transaction_address_integrity(
    program: Seq<u8>,
    wallet: Seq<u8>,
    transaction_key: Seq<u8>,
    multisig_key: Seq<u8>,
    recipient: Seq<u8>,
    multisig_data: Seq<u8>,
    multisig_lamports: u64,
    amount: u64,
)
    requires
        !spec_address_matches(multisig_key, wallet, program),
        spec_unpack_account(multisig_data) matches Some(acc) && acc.is_initialized
            && acc.owners.len() <= MAX_SIGNERS,
    ensures
        spec_process_create_transaction(
            program,
            true,
            true,
            wallet,
            transaction_key,
            multisig_key,
            recipient,
            multisig_data,
            multisig_lamports,
            amount,
        ) == Err::<crate::processor::CreateTransactionEffectView, ProgramError>(
            ProgramError::IllegalOwner,
        ),
{
}

/// Law: with every other precondition met, opening a transfer succeeds
/// exactly while the custody account holds fewer pending proposals than the
/// capacity, and fails at the capacity with the pending-limit error.
pub proof fn lemma_create_transaction_capacity(
    program: Seq<u8>,
    wallet: Seq<u8>,
    transaction_key: Seq<u8>,
    multisig_key: Seq<u8>,
    recipient: Seq<u8>,
    multisig_data: Seq<u8>,
    multisig_lamports: u64,
    amount: u64,
)
    requires
        spec_address_matches(multisig_key, wallet, program),
        spec_unpack_account(multisig_data) matches Some(acc) && acc.is_initialized
            && acc.owners.len() <= MAX_SIGNERS && acc.frozen_amount + amount <= multisig_lamports,
    ensures
        spec_process_create_transaction(
            program,
            true,
            true,
            wallet,
            transaction_key,
            multisig_key,
            recipient,
            multisig_data,
            multisig_lamports,
            amount,
        ) is Ok <==> spec_unpack_account(multisig_data).unwrap().pending_transactions.len()
            < MAX_TRANSACTIONS,
        spec_unpack_account(multisig_data).unwrap().pending_transactions.len() >= MAX_TRANSACTIONS
            ==> spec_process_create_transaction(
            program,
            true,
            true,
            wallet,
            transaction_key,
            multisig_key,
            recipient,
            multisig_data,
            multisig_lamports,
            amount,
        ) == Err::<crate::processor::CreateTransactionEffectView, ProgramError>(
            ProgramError::Custom(MultisigError::PendingTransactionLimit),
        ),
{
}

/// Law: with every other precondition met, opening a transfer succeeds
/// exactly when the frozen balance plus the requested amount fits the
/// account's balance — so exactly the unfrozen remainder is still
/// spendable — and fails past it with the insufficient-balance error.
pub proof fn lemma_create_transaction_accounting(
    program: Seq<u8>,
    wallet: Seq<u8>,
    transaction_key: Seq<u8>,
    multisig_key: Seq<u8>,
    recipient: Seq<u8>,
    multisig_data: Seq<u8>,
    multisig_lamports: u64,
    amount: u64,
)
    requires
        spec_address_matches(multisig_key, wallet, program),
        spec_unpack_account(multisig_data) matches Some(acc) && acc.is_initialized
            && acc.owners.len() <= MAX_SIGNERS && acc.pending_transactions.len()
            < MAX_TRANSACTIONS,
    ensures
        spec_process_create_transaction(
            program,
            true,
            true,
            wallet,
            transaction_key,
            multisig_key,
            recipient,
            multisig_data,
            multisig_lamports,
            amount,
        ) is Ok <==> spec_unpack_account(multisig_data).unwrap().frozen_amount + amount
            <= multisig_lamports,
        spec_unpack_account(multisig_data).unwrap().frozen_amount + amount > multisig_lamports
            ==> spec_process_create_transaction(
            program,
            true,
            true,
            wallet,
            transaction_key,
            multisig_key,
            recipient,
            multisig_data,
            multisig_lamports,
            amount,
        ) == Err::<crate::processor::CreateTransactionEffectView, ProgramError>(
            ProgramError::Custom(MultisigError::InsufficientBalance),
        ),
{
}

/// Law: the buffer a successful create-account writes decodes to exactly
/// the record that was requested — initialized, with the given threshold and
/// owners, an empty pending list, and nothing frozen — and that record
/// satisfies the Custody Account invariant.
pub proof fn lemma_create_account_effect_decodes(
    program: Seq<u8>,
    wallet: Seq<u8>,
    multisig_key: Seq<u8>,
    multisig_data: Seq<u8>,
    threshold: u32,
    owners: Seq<Seq<u8>>,
    e: crate::processor::CreateAccountEffectView,
)
    requires
        crate::codec::keys_wf(owners),
        spec_process_create_account(
            program,
            true,
            true,
            wallet,
            multisig_key,
            multisig_data,
            threshold,
            owners,
        ) == Ok::<crate::processor::CreateAccountEffectView, ProgramError>(e),
    ensures
        spec_unpack_account(e.multisig_data) == Some(
            AccountView {
                is_initialized: true,
                threshold,
                owners,
                pending_transactions: Seq::<Seq<u8>>::empty(),
                frozen_amount: 0,
            },
        ),
        spec_unpack_account(e.multisig_data).unwrap().wf(),
{
    let record = AccountView {
        is_initialized: true,
        threshold,
        owners,
        pending_transactions: Seq::<Seq<u8>>::empty(),
        frozen_amount: 0,
    };
    lemma_account_pack_round_trip(record);
}

/// Law: the buffers a successful create-transfer writes decode to exactly
/// the next records — the custody account with the proposal's reference
/// appended and `amount` more frozen, and a fresh proposal whose signer list
/// snapshots the owner set, each unapproved.
pub proof fn lemma_create_transaction_effect_decodes(
    program: Seq<u8>,
    wallet: Seq<u8>,
    transaction_key: Seq<u8>,
    multisig_key: Seq<u8>,
    recipient: Seq<u8>,
    multisig_data: Seq<u8>,
    multisig_lamports: u64,
    amount: u64,
    e: crate::processor::CreateTransactionEffectView,
)
    requires
        transaction_key.len() == 32,
        multisig_key.len() == 32,
        recipient.len() == 32,
        spec_process_create_transaction(
            program,
            true,
            true,
            wallet,
            transaction_key,
            multisig_key,
            recipient,
            multisig_data,
            multisig_lamports,
            amount,
        ) == Ok::<crate::processor::CreateTransactionEffectView, ProgramError>(e),
    ensures
        ({
            let acc = spec_unpack_account(multisig_data).unwrap();
            &&& spec_unpack_account(e.multisig_data) == Some(
                AccountView {
                    is_initialized: acc.is_initialized,
                    threshold: acc.threshold,
                    owners: acc.owners,
                    pending_transactions: acc.pending_transactions.push(transaction_key),
                    frozen_amount: (acc.frozen_amount + amount) as u64,
                },
            )
            &&& spec_unpack_transaction(e.transaction_data) == Some(
                TransactionView {
                    multisig: multisig_key,
                    recipient,
                    amount,
                    is_executed: false,
                    signers: acc.owners.map_values(|k: Seq<u8>| (k, false)),
                },
            )
        }),
{
    let acc = spec_unpack_account(multisig_data).unwrap();
    lemma_unpack_account_valid(multisig_data);
    let new_account = AccountView {
        is_initialized: acc.is_initialized,
        threshold: acc.threshold,
        owners: acc.owners,
        pending_transactions: acc.pending_transactions.push(transaction_key),
        frozen_amount: (acc.frozen_amount + amount) as u64,
    };
    assert(crate::codec::keys_wf(new_account.pending_transactions));
    lemma_account_pack_round_trip(new_account);
    let new_transaction = TransactionView {
        multisig: multisig_key,
        recipient,
        amount,
        is_executed: false,
        signers: acc.owners.map_values(|k: Seq<u8>| (k, false)),
    };
    assert(crate::codec::signers_wf(new_transaction.signers));
    lemma_transaction_pack_round_trip(new_transaction);
}

/// Law: the buffers a successful releasing approval writes decode to the
/// terminal records — the proposal marked executed with the approver's flag
/// set, and the custody account with the proposal's reference removed and
/// its amount unfrozen.
pub proof fn lemma_approve_release_effect_decodes(
    wallet: Seq<u8>,
    transaction_key: Seq<u8>,
    multisig_data: Seq<u8>,
    transaction_data: Seq<u8>,
    e: ApproveEffectView,
)
    requires
        spec_process_approve_transaction(
            true,
            wallet,
            transaction_key,
            multisig_data,
            transaction_data,
        ) == Ok::<ApproveEffectView, ProgramError>(e),
        e.transfer_amount is Some,
    ensures
        ({
            let acc = spec_unpack_account(multisig_data).unwrap();
            let tx = spec_unpack_transaction(transaction_data).unwrap();
            let ti = spec_find_key(acc.pending_transactions, transaction_key).unwrap();
            let si = spec_find_signer(tx.signers, wallet).unwrap();
            &&& spec_unpack_account(e.multisig_data) == Some(
                AccountView {
                    is_initialized: acc.is_initialized,
                    threshold: acc.threshold,
                    owners: acc.owners,
                    pending_transactions: acc.pending_transactions.remove(ti),
                    frozen_amount: (acc.frozen_amount - tx.amount) as u64,
                },
            )
            &&& spec_unpack_transaction(e.transaction_data) == Some(
                TransactionView {
                    multisig: tx.multisig,
                    recipient: tx.recipient,
                    amount: tx.amount,
                    is_executed: true,
                    signers: tx.signers.update(si, (tx.signers[si].0, true)),
                },
            )
        }),
{
    let acc = spec_unpack_account(multisig_data).unwrap();
    let tx = spec_unpack_transaction(transaction_data).unwrap();
    let ti = spec_find_key(acc.pending_transactions, transaction_key).unwrap();
    let si = spec_find_signer(tx.signers, wallet).unwrap();
    lemma_unpack_account_valid(multisig_data);
    lemma_unpack_transaction_valid(transaction_data);
    let new_account = AccountView {
        is_initialized: acc.is_initialized,
        threshold: acc.threshold,
        owners: acc.owners,
        pending_transactions: acc.pending_transactions.remove(ti),
        frozen_amount: (acc.frozen_amount - tx.amount) as u64,
    };
    crate::processor::lemma_find_key_characterizes(acc.pending_transactions, transaction_key);
    assert forall|j: int|
        0 <= j < new_account.pending_transactions.len() implies (
    #[trigger] new_account.pending_transactions[j]).len() == 32 by {
        if j < ti {
            assert(new_account.pending_transactions[j] == acc.pending_transactions[j]);
        } else {
            assert(new_account.pending_transactions[j] == acc.pending_transactions[j + 1]);
        }
    }
    lemma_account_pack_round_trip(new_account);
    let new_signers = tx.signers.update(si, (tx.signers[si].0, true));
    crate::processor::lemma_find_signer_characterizes(tx.signers, wallet);
    assert forall|j: int| 0 <= j < new_signers.len() implies (#[trigger] new_signers[j]).0.len()
        == 32 by {
        if j == si {
            assert(new_signers[j].0 == tx.signers[si].0);
        } else {
            assert(new_signers[j] == tx.signers[j]);
        }
    }
    let new_transaction = TransactionView {
        multisig: tx.multisig,
        recipient: tx.recipient,
        amount: tx.amount,
        is_executed: true,
        signers: new_signers,
    };
    lemma_transaction_pack_round_trip(new_transaction);
}

/// Law: a successful approval releases the funds exactly when the approval
/// count, taken after this signer's flag is set, reaches the threshold; the
/// released amount is the proposal's amount.
pub proof fn lemma_quorum_release(
    wallet: Seq<u8>,
    transaction_key: Seq<u8>,
    multisig_data: Seq<u8>,
    transaction_data: Seq<u8>,
    e: ApproveEffectView,
)
    requires
        spec_process_approve_transaction(
            true,
            wallet,
            transaction_key,
            multisig_data,
            transaction_data,
        ) == Ok::<ApproveEffectView, ProgramError>(e),
    ensures
        ({
            let acc = spec_unpack_account(multisig_data).unwrap();
            let tx = spec_unpack_transaction(transaction_data).unwrap();
            let si = spec_find_signer(tx.signers, wallet).unwrap();
            let new_signers = tx.signers.update(si, (tx.signers[si].0, true));
            &&& (e.transfer_amount is Some <==> spec_count_approved(new_signers)
                >= acc.threshold)
            &&& (e.transfer_amount is Some ==> e.transfer_amount == Some(tx.amount))
        }),
{
}

/// Law: an approval that leaves the proposal pending is idempotent — the
/// same owner approving again succeeds, changes neither buffer further, and
/// still releases no funds.
pub proof fn lemma_approve_idempotent(
    wallet: Seq<u8>,
    transaction_key: Seq<u8>,
    multisig_data: Seq<u8>,
    transaction_data: Seq<u8>,
    e: ApproveEffectView,
)
    requires
        spec_process_approve_transaction(
            true,
            wallet,
            transaction_key,
            multisig_data,
            transaction_data,
        ) == Ok::<ApproveEffectView, ProgramError>(e),
        e.transfer_amount is None,
    ensures
        spec_process_approve_transaction(
            true,
            wallet,
            transaction_key,
            e.multisig_data,
            e.transaction_data,
        ) == Ok::<ApproveEffectView, ProgramError>(e),
{
    let acc = spec_unpack_account(multisig_data).unwrap();
    let tx = spec_unpack_transaction(transaction_data).unwrap();
    let ti = spec_find_key(acc.pending_transactions, transaction_key).unwrap();
    let si = spec_find_signer(tx.signers, wallet).unwrap();
    let new_signers = tx.signers.update(si, (tx.signers[si].0, true));
    let tx1 = TransactionView {
        multisig: tx.multisig,
        recipient: tx.recipient,
        amount: tx.amount,
        is_executed: false,
        signers: new_signers,
    };
    lemma_unpack_account_valid(multisig_data);
    lemma_unpack_transaction_valid(transaction_data);
    lemma_find_signer_characterizes(tx.signers, wallet);
    assert(e.multisig_data == crate::state::spec_pack_account(acc));
    assert(e.transaction_data == spec_pack_transaction(tx1));
    lemma_account_pack_round_trip(acc);
    assert forall|j: int| 0 <= j < new_signers.len() implies (#[trigger] new_signers[j]).0.len()
        == 32 by {
        if j == si {
            assert(new_signers[j].0 == tx.signers[si].0);
        } else {
            assert(new_signers[j] == tx.signers[j]);
        }
    }
    lemma_transaction_pack_round_trip(tx1);
    // the same signer is found at the same position the second time
    assert(new_signers[si].0 == wallet);
    assert forall|j: int| 0 <= j < si implies (#[trigger] new_signers[j]).0 != wallet by {
        assert(new_signers[j] == tx.signers[j]);
    }
    lemma_find_signer_at(new_signers, wallet, si);
    // setting an already-set flag changes nothing
    assert(new_signers.update(si, (new_signers[si].0, true)) =~= new_signers);
    let e2 = spec_process_approve_transaction(
        true,
        wallet,
        transaction_key,
        e.multisig_data,
        e.transaction_data,
    );
    assert(e2 is Ok);
    assert(e2.unwrap() =~= e);
}

/// Law: execution is terminal — an approval that references an executed
/// proposal still listed by the custody account fails with the
/// already-executed error, and a failed operation changes nothing.
pub proof fn lemma_executed_is_terminal(
    wallet: Seq<u8>,
    transaction_key: Seq<u8>,
    multisig_data: Seq<u8>,
    transaction_data: Seq<u8>,
)
    requires
        spec_unpack_account(multisig_data) matches Some(acc) && acc.owners.len() <= MAX_SIGNERS
            && acc.pending_transactions.len() <= MAX_TRANSACTIONS && spec_find_key(
            acc.pending_transactions,
            transaction_key,
        ) is Some,
        spec_unpack_transaction(transaction_data) matches Some(tx) && tx.is_executed,
    ensures
        spec_process_approve_transaction(
            true,
            wallet,
            transaction_key,
            multisig_data,
            transaction_data,
        ) == Err::<ApproveEffectView, ProgramError>(
            ProgramError::Custom(MultisigError::TransactionAlreadyExecuted),
        ),
{
}

} // verus!
