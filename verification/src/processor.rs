//! The state machine: given one operation request and the current buffers of
//! the accounts it names, validate every precondition, compute the next
//! state, and hand back the new buffer contents together with the fund
//! movement the host must perform. Each operation either fully succeeds or
//! fails before any mutation; a failed operation returns only its error.
//!
//! The host supplies each account as plain values — its address, whether it
//! co-signed, its balance, and its buffer bytes — and applies the returned
//! effect atomically.

use vstd::prelude::*;

use crate::address::{derived_address, get_associated_address_and_bump_seed, spec_address_matches};
use crate::error::{MultisigError, ProgramError};
use crate::instruction::{spec_unpack_instruction, InstructionView, MultisigInstruction};
use crate::key::{keys_view, Pubkey};
use crate::state::{
    signers_view, spec_pack_account, spec_pack_transaction, spec_unpack_account,
    spec_unpack_transaction, Account, AccountView, Transaction, TransactionView,
};
use crate::{MAX_SIGNERS, MAX_TRANSACTIONS, MIN_SIGNERS};

verus! {

/// First position of `needle` in `keys`, if any.
pub open spec fn spec_find_key(keys: Seq<Seq<u8>>, needle: Seq<u8>) -> Option<int>
    decreases keys.len(),
{
    if keys.len() == 0 {
        None
    } else if keys[0] == needle {
        Some(0)
    } else {
        match spec_find_key(keys.drop_first(), needle) {
            Some(i) => Some(i + 1),
            None => None,
        }
    }
}

pub proof fn lemma_find_key_characterizes(keys: Seq<Seq<u8>>, needle: Seq<u8>)
    ensures
        match spec_find_key(keys, needle) {
            Some(i) => 0 <= i < keys.len() && keys[i] == needle && (forall|j: int|
                0 <= j < i ==> keys[j] != needle),
            None => forall|j: int| 0 <= j < keys.len() ==> keys[j] != needle,
        },
    decreases keys.len(),
{
    if keys.len() > 0 {
        let rest = keys.drop_first();
        lemma_find_key_characterizes(rest, needle);
        if keys[0] != needle {
            match spec_find_key(rest, needle) {
                Some(i) => {
                    assert(keys[i + 1] == rest[i]);
                    assert forall|j: int| 0 <= j < i + 1 implies keys[j] != needle by {
                        if j > 0 {
                            assert(keys[j] == rest[j - 1]);
                        }
                    }
                },
                None => {
                    assert forall|j: int| 0 <= j < keys.len() implies keys[j] != needle by {
                        if j > 0 {
                            assert(keys[j] == rest[j - 1]);
                        }
                    }
                },
            }
        }
    }
}

pub proof fn lemma_find_key_at(keys: Seq<Seq<u8>>, needle: Seq<u8>, i: int)
    requires
        0 <= i < keys.len(),
        keys[i] == needle,
        forall|j: int| 0 <= j < i ==> keys[j] != needle,
    ensures
        spec_find_key(keys, needle) == Some(i),
    decreases i,
{
    if i > 0 {
        lemma_find_key_at(keys.drop_first(), needle, i - 1);
    }
}

/// First position of the signer entry whose identifier is `needle`, if any.
pub open spec fn spec_find_signer(signers: Seq<(Seq<u8>, bool)>, needle: Seq<u8>) -> Option<int>
    decreases signers.len(),
{
    if signers.len() == 0 {
        None
    } else if signers[0].0 == needle {
        Some(0)
    } else {
        match spec_find_signer(signers.drop_first(), needle) {
            Some(i) => Some(i + 1),
            None => None,
        }
    }
}

pub proof fn lemma_find_signer_characterizes(signers: Seq<(Seq<u8>, bool)>, needle: Seq<u8>)
    ensures
        match spec_find_signer(signers, needle) {
            Some(i) => 0 <= i < signers.len() && signers[i].0 == needle && (forall|j: int|
                0 <= j < i ==> (#[trigger] signers[j]).0 != needle),
            None => forall|j: int| 0 <= j < signers.len() ==> (#[trigger] signers[j]).0 != needle,
        },
    decreases signers.len(),
{
    if signers.len() > 0 {
        let rest = signers.drop_first();
        lemma_find_signer_characterizes(rest, needle);
        if signers[0].0 != needle {
            match spec_find_signer(rest, needle) {
                Some(i) => {
                    assert(signers[i + 1] == rest[i]);
                    assert forall|j: int| 0 <= j < i + 1 implies (#[trigger] signers[j]).0
                        != needle by {
                        if j > 0 {
                            assert(signers[j] == rest[j - 1]);
                        }
                    }
                },
                None => {
                    assert forall|j: int| 0 <= j < signers.len() implies (#[trigger] signers[j]).0
                        != needle by {
                        if j > 0 {
                            assert(signers[j] == rest[j - 1]);
                        }
                    }
                },
            }
        }
    }
}

pub proof fn lemma_find_signer_at(signers: Seq<(Seq<u8>, bool)>, needle: Seq<u8>, i: int)
    requires
        0 <= i < signers.len(),
        signers[i].0 == needle,
        forall|j: int| 0 <= j < i ==> (#[trigger] signers[j]).0 != needle,
    ensures
        spec_find_signer(signers, needle) == Some(i),
    decreases i,
{
    if i > 0 {
        lemma_find_signer_at(signers.drop_first(), needle, i - 1);
    }
}

/// How many signer entries carry an approval.
pub open spec fn spec_count_approved(signers: Seq<(Seq<u8>, bool)>) -> nat
    decreases signers.len(),
{
    if signers.len() == 0 {
        0
    } else {
        (if signers[0].1 {
            1nat
        } else {
            0nat
        }) + spec_count_approved(signers.drop_first())
    }
}

pub proof fn lemma_count_approved_push(signers: Seq<(Seq<u8>, bool)>, e: (Seq<u8>, bool))
    ensures
        spec_count_approved(signers.push(e)) == spec_count_approved(signers) + (if e.1 {
            1nat
        } else {
            0nat
        }),
    decreases signers.len(),
{
    if signers.len() == 0 {
        assert(signers.push(e).drop_first() =~= Seq::<(Seq<u8>, bool)>::empty());
        assert(spec_count_approved(Seq::<(Seq<u8>, bool)>::empty()) == 0);
        assert(spec_count_approved(signers.push(e)) == (if e.1 {
            1nat
        } else {
            0nat
        }) + spec_count_approved(signers.push(e).drop_first()));
    } else {
        assert(signers.push(e).drop_first() =~= signers.drop_first().push(e));
        lemma_count_approved_push(signers.drop_first(), e);
        assert(signers.push(e)[0] == signers[0]);
    }
}

/// Whether a buffer already holds an initialized Custody Account record.
pub open spec fn spec_holds_initialized_account(s: Seq<u8>) -> bool {
    match spec_unpack_account(s) {
        Some(a) => a.is_initialized,
        None => false,
    }
}

/// What creating a Custody Account leaves behind: the new buffer contents
/// and the bump seed proving the program's authority over the address.
#[derive(Debug)]
pub struct CreateAccountEffect {
    /// The bytes to write into the custody account buffer.
    pub multisig_data: Vec<u8>,
    /// The adjustment value of the address derivation.
    pub bump_seed: u8,
}

/// The mathematical value of a create-account effect.
#[verifier::ext_equal]
pub struct CreateAccountEffectView {
    pub multisig_data: Seq<u8>,
    pub bump_seed: u8,
}

impl View for CreateAccountEffect {
    type V = CreateAccountEffectView;

    open spec fn view(&self) -> CreateAccountEffectView {
        CreateAccountEffectView { multisig_data: self.multisig_data@, bump_seed: self.bump_seed }
    }
}

/// The create-account transition. Checks, in order: both the funding party
/// and the wallet co-signed; the target buffer's address matches the
/// derivation from the wallet; the owner count is within bounds; the buffer
/// does not already hold an initialized record. On success the buffer
/// receives a fresh initialized record with an empty pending list and no
/// frozen funds. The threshold is recorded as given: holding it to the owner
/// count is the submitting front end's concern, not re-checked here.
pub open spec fn spec_process_create_account(
    program: Seq<u8>,
    funder_is_signer: bool,
    wallet_is_signer: bool,
    wallet: Seq<u8>,
    multisig_key: Seq<u8>,
    multisig_data: Seq<u8>,
    threshold: u32,
    owners: Seq<Seq<u8>>,
) -> Result<CreateAccountEffectView, ProgramError> {
    if !(funder_is_signer && wallet_is_signer) {
        Err(ProgramError::MissingRequiredSignature)
    } else if !spec_address_matches(multisig_key, wallet, program) {
        Err(ProgramError::InvalidSeeds)
    } else if owners.len() < MIN_SIGNERS || owners.len() > MAX_SIGNERS {
        Err(ProgramError::Custom(MultisigError::CustodianLimit))
    } else if spec_holds_initialized_account(multisig_data) {
        Err(ProgramError::AccountAlreadyInitialized)
    } else {
        Ok(
            CreateAccountEffectView {
                multisig_data: spec_pack_account(
                    AccountView {
                        is_initialized: true,
                        threshold,
                        owners,
                        pending_transactions: Seq::<Seq<u8>>::empty(),
                        frozen_amount: 0,
                    },
                ),
                bump_seed: derived_address(wallet, program).unwrap().1,
            },
        )
    }
}

/// The record state machine and its three operations.
pub struct Processor;

impl Processor {
    /// Creates the Custody Account for `wallet_key` inside the buffer at
    /// `multisig_key`. The host must have checked the two signatures and
    /// supplies the buffer's current contents; on success it writes the
    /// returned bytes, funding and assigning the buffer using the returned
    /// bump seed as proof of authority.
    pub fn process_create_account(
        program_id: &Pubkey,
        funder_is_signer: bool,
        wallet_is_signer: bool,
        wallet_key: &Pubkey,
        multisig_key: &Pubkey,
        multisig_data: &[u8],
        threshold: u32,
        owners: Vec<Pubkey>,
    ) -> (r: Result<CreateAccountEffect, ProgramError>)
        ensures
            match r {
                Ok(e) => spec_process_create_account(
                    program_id@,
                    funder_is_signer,
                    wallet_is_signer,
                    wallet_key@,
                    multisig_key@,
                    multisig_data@,
                    threshold,
                    keys_view(owners@),
                ) == Ok::<CreateAccountEffectView, ProgramError>(e@),
                Err(e) => spec_process_create_account(
                    program_id@,
                    funder_is_signer,
                    wallet_is_signer,
                    wallet_key@,
                    multisig_key@,
                    multisig_data@,
                    threshold,
                    keys_view(owners@),
                ) == Err::<CreateAccountEffectView, ProgramError>(e),
            },
    {
        if !(funder_is_signer && wallet_is_signer) {
            return Err(ProgramError::MissingRequiredSignature);
        }
        let bump_seed = match get_associated_address_and_bump_seed(wallet_key, program_id) {
            Some((pda, bump)) => {
                if !(pda == *multisig_key) {
                    return Err(ProgramError::InvalidSeeds);
                }
                bump
            },
            None => {
                return Err(ProgramError::InvalidSeeds);
            },
        };
        if owners.len() < MIN_SIGNERS || owners.len() > MAX_SIGNERS {
            return Err(ProgramError::Custom(MultisigError::CustodianLimit));
        }
        match Account::unpack_from_slice(multisig_data) {
            Ok(existing) => {
                if existing.is_initialized {
                    return Err(ProgramError::AccountAlreadyInitialized);
                }
            },
            Err(_) => {},
        }
        let account = Account {
            is_initialized: true,
            threshold,
            owners,
            pending_transactions: Vec::new(),
            frozen_amount: 0,
        };
        let data = account.pack();
        proof {
            assert(account@.pending_transactions =~= Seq::<Seq<u8>>::empty());
            assert(account@ =~= AccountView {
                is_initialized: true,
                threshold,
                owners: keys_view(owners@),
                pending_transactions: Seq::<Seq<u8>>::empty(),
                frozen_amount: 0,
            });
        }
        Ok(CreateAccountEffect { multisig_data: data, bump_seed })
    }
}

/// What opening a Transfer Proposal leaves behind: the custody account's
/// new buffer contents and the new proposal buffer's contents.
#[derive(Debug)]
pub struct CreateTransactionEffect {
    /// The bytes to write back into the custody account buffer.
    pub multisig_data: Vec<u8>,
    /// The bytes to write into the freshly allocated proposal buffer.
    pub transaction_data: Vec<u8>,
}

/// The mathematical value of a create-transfer effect.
#[verifier::ext_equal]
pub struct CreateTransactionEffectView {
    pub multisig_data: Seq<u8>,
    pub transaction_data: Seq<u8>,
}

impl View for CreateTransactionEffect {
    type V = CreateTransactionEffectView;

    open spec fn view(&self) -> CreateTransactionEffectView {
        CreateTransactionEffectView {
            multisig_data: self.multisig_data@,
            transaction_data: self.transaction_data@,
        }
    }
}

/// The create-transfer transition. Checks, in order: the wallet and the new
/// proposal buffer co-signed; the custody buffer decodes; it is initialized;
/// its stored owner list is within bounds (a record that cannot be re-encoded
/// is corrupt); the custody buffer's address is the one derived from the
/// signing wallet; the pending list has room; the frozen balance plus the
/// requested amount fits the account's balance. On success the proposal
/// buffer receives a fresh unexecuted record whose signer list snapshots the
/// current owner set, each unapproved; the custody account freezes `amount`
/// more and appends the proposal's reference.
pub open spec fn spec_process_create_transaction(
    program: Seq<u8>,
    wallet_is_signer: bool,
    transaction_is_signer: bool,
    wallet: Seq<u8>,
    transaction_key: Seq<u8>,
    multisig_key: Seq<u8>,
    recipient: Seq<u8>,
    multisig_data: Seq<u8>,
    multisig_lamports: u64,
    amount: u64,
) -> Result<CreateTransactionEffectView, ProgramError> {
    if !(wallet_is_signer && transaction_is_signer) {
        Err(ProgramError::MissingRequiredSignature)
    } else {
        match spec_unpack_account(multisig_data) {
            None => Err(ProgramError::InvalidAccountData),
            Some(acc) => {
                if !acc.is_initialized {
                    Err(ProgramError::UninitializedAccount)
                } else if acc.owners.len() > MAX_SIGNERS {
                    Err(ProgramError::InvalidAccountData)
                } else if !spec_address_matches(multisig_key, wallet, program) {
                    Err(ProgramError::IllegalOwner)
                } else if acc.pending_transactions.len() >= MAX_TRANSACTIONS {
                    Err(ProgramError::Custom(MultisigError::PendingTransactionLimit))
                } else if acc.frozen_amount + amount > multisig_lamports {
                    Err(ProgramError::Custom(MultisigError::InsufficientBalance))
                } else {
                    Ok(
                        CreateTransactionEffectView {
                            multisig_data: spec_pack_account(
                                AccountView {
                                    is_initialized: acc.is_initialized,
                                    threshold: acc.threshold,
                                    owners: acc.owners,
                                    pending_transactions: acc.pending_transactions.push(
                                        transaction_key,
                                    ),
                                    frozen_amount: (acc.frozen_amount + amount) as u64,
                                },
                            ),
                            transaction_data: spec_pack_transaction(
                                TransactionView {
                                    multisig: multisig_key,
                                    recipient: recipient,
                                    amount: amount,
                                    is_executed: false,
                                    signers: acc.owners.map_values(|k: Seq<u8>| (k, false)),
                                },
                            ),
                        },
                    )
                }
            },
        }
    }
}

impl Processor {
    /// Opens a Transfer Proposal over `amount` against the custody account
    /// whose buffer bytes and balance the host supplies. On success the host
    /// allocates the proposal buffer, writes both returned byte strings, and
    /// assigns the new buffer to the program.
    pub fn process_create_transaction(
        program_id: &Pubkey,
        wallet_is_signer: bool,
        transaction_is_signer: bool,
        wallet_key: &Pubkey,
        transaction_key: &Pubkey,
        multisig_key: &Pubkey,
        recipient_key: &Pubkey,
        multisig_data: &[u8],
        multisig_lamports: u64,
        amount: u64,
    ) -> (r: Result<CreateTransactionEffect, ProgramError>)
        ensures
            match r {
                Ok(e) => spec_process_create_transaction(
                    program_id@,
                    wallet_is_signer,
                    transaction_is_signer,
                    wallet_key@,
                    transaction_key@,
                    multisig_key@,
                    recipient_key@,
                    multisig_data@,
                    multisig_lamports,
                    amount,
                ) == Ok::<CreateTransactionEffectView, ProgramError>(e@),
                Err(e) => spec_process_create_transaction(
                    program_id@,
                    wallet_is_signer,
                    transaction_is_signer,
                    wallet_key@,
                    transaction_key@,
                    multisig_key@,
                    recipient_key@,
                    multisig_data@,
                    multisig_lamports,
                    amount,
                ) == Err::<CreateTransactionEffectView, ProgramError>(e),
            },
    {
        if !(wallet_is_signer && transaction_is_signer) {
            return Err(ProgramError::MissingRequiredSignature);
        }
        let mut account = match Account::unpack_from_slice(multisig_data) {
            Ok(a) => a,
            Err(e) => {
                return Err(e);
            },
        };
        let ghost acc0: AccountView = account@;
        if !account.is_initialized {
            return Err(ProgramError::UninitializedAccount);
        }
        if account.owners.len() > MAX_SIGNERS {
            return Err(ProgramError::InvalidAccountData);
        }
        match get_associated_address_and_bump_seed(wallet_key, program_id) {
            Some((pda, _bump)) => {
                if !(pda == *multisig_key) {
                    return Err(ProgramError::IllegalOwner);
                }
            },
            None => {
                return Err(ProgramError::IllegalOwner);
            },
        }
        if account.pending_transactions.len() >= MAX_TRANSACTIONS {
            return Err(ProgramError::Custom(MultisigError::PendingTransactionLimit));
        }
        if multisig_lamports < account.frozen_amount || amount > multisig_lamports
            - account.frozen_amount {
            return Err(ProgramError::Custom(MultisigError::InsufficientBalance));
        }
        let owners_n = account.owners.len();
        let mut signers: Vec<(Pubkey, bool)> = Vec::new();
        let mut i: usize = 0;
        while i < owners_n
            invariant
                i <= owners_n,
                owners_n == account.owners@.len(),
                signers@.len() == i,
                forall|j: int|
                    0 <= j < i ==> (#[trigger] signers@[j]).0 == account.owners@[j]
                        && signers@[j].1 == false,
            decreases owners_n - i,
        {
            signers.push((account.owners[i], false));
            i = i + 1;
        }
        let transaction = Transaction {
            multisig: *multisig_key,
            recipient: *recipient_key,
            amount,
            is_executed: false,
            signers,
        };
        account.frozen_amount = account.frozen_amount + amount;
        account.pending_transactions.push(*transaction_key);
        proof {
            assert(account@.pending_transactions =~= acc0.pending_transactions.push(
                transaction_key@,
            ));
            assert(account@ =~= AccountView {
                is_initialized: acc0.is_initialized,
                threshold: acc0.threshold,
                owners: acc0.owners,
                pending_transactions: acc0.pending_transactions.push(transaction_key@),
                frozen_amount: (acc0.frozen_amount + amount) as u64,
            });
            assert(transaction@.signers =~= acc0.owners.map_values(|k: Seq<u8>| (k, false)));
            assert(transaction@ =~= TransactionView {
                multisig: multisig_key@,
                recipient: recipient_key@,
                amount: amount,
                is_executed: false,
                signers: acc0.owners.map_values(|k: Seq<u8>| (k, false)),
            });
        }
        let multisig_out = account.pack();
        let transaction_out = transaction.pack();
        Ok(CreateTransactionEffect { multisig_data: multisig_out, transaction_data: transaction_out })
    }
}

/// First position of `needle` in a list of identifiers, scanned left to
/// right.
fn find_key_index(keys: &Vec<Pubkey>, needle: &Pubkey) -> (r: Option<usize>)
    ensures
        match r {
            Some(i) => spec_find_key(keys_view(keys@), needle@) == Some(i as int),
            None => spec_find_key(keys_view(keys@), needle@) is None,
        },
{
    let n = keys.len();
    let mut i: usize = 0;
    while i < n
        invariant
            i <= n,
            n == keys@.len(),
            forall|j: int| 0 <= j < i ==> keys_view(keys@)[j] != needle@,
        decreases n - i,
    {
        if keys[i] == *needle {
            proof {
                lemma_find_key_at(keys_view(keys@), needle@, i as int);
            }
            return Some(i);
        }
        i = i + 1;
    }
    proof {
        lemma_find_key_characterizes(keys_view(keys@), needle@);
    }
    None
}

/// First position of the signer entry for `needle`, scanned left to right.
fn find_signer_index(signers: &Vec<(Pubkey, bool)>, needle: &Pubkey) -> (r: Option<usize>)
    ensures
        match r {
            Some(i) => spec_find_signer(signers_view(signers@), needle@) == Some(i as int),
            None => spec_find_signer(signers_view(signers@), needle@) is None,
        },
{
    let n = signers.len();
    let mut i: usize = 0;
    while i < n
        invariant
            i <= n,
            n == signers@.len(),
            forall|j: int| 0 <= j < i ==> (#[trigger] signers_view(signers@)[j]).0 != needle@,
        decreases n - i,
    {
        if signers[i].0 == *needle {
            proof {
                lemma_find_signer_at(signers_view(signers@), needle@, i as int);
            }
            return Some(i);
        }
        i = i + 1;
    }
    proof {
        lemma_find_signer_characterizes(signers_view(signers@), needle@);
    }
    None
}

/// How many signer entries carry an approval.
fn count_approved(signers: &Vec<(Pubkey, bool)>) -> (r: u64)
    ensures
        r == spec_count_approved(signers_view(signers@)),
{
    let n = signers.len();
    let mut count: u64 = 0;
    let mut i: usize = 0;
    while i < n
        invariant
            i <= n,
            n == signers@.len(),
            count <= i,
            count == spec_count_approved(signers_view(signers@).take(i as int)),
        decreases n - i,
    {
        proof {
            lemma_count_approved_push(
                signers_view(signers@).take(i as int),
                signers_view(signers@)[i as int],
            );
            assert(signers_view(signers@).take(i + 1) =~= signers_view(signers@).take(
                i as int,
            ).push(signers_view(signers@)[i as int]));
        }
        if signers[i].1 {
            count = count + 1;
        }
        i = i + 1;
    }
    proof {
        assert(signers_view(signers@).take(n as int) =~= signers_view(signers@));
    }
    count
}

/// What approving a Transfer Proposal leaves behind: both buffers' new
/// contents, and the amount to move from the custody account to the
/// recipient when this approval reached quorum.
#[derive(Debug)]
pub struct ApproveEffect {
    /// The bytes to write back into the custody account buffer.
    pub multisig_data: Vec<u8>,
    /// The bytes to write back into the proposal buffer.
    pub transaction_data: Vec<u8>,
    /// The funds released by this approval, if quorum was reached.
    pub transfer_amount: Option<u64>,
}

/// The mathematical value of an approve effect.
#[verifier::ext_equal]
pub struct ApproveEffectView {
    pub multisig_data: Seq<u8>,
    pub transaction_data: Seq<u8>,
    pub transfer_amount: Option<u64>,
}

impl View for ApproveEffect {
    type V = ApproveEffectView;

    open spec fn view(&self) -> ApproveEffectView {
        ApproveEffectView {
            multisig_data: self.multisig_data@,
            transaction_data: self.transaction_data@,
            transfer_amount: self.transfer_amount,
        }
    }
}

/// The approve-transfer transition. Checks, in order: the approver
/// co-signed; the custody buffer decodes and is within its stored bounds;
/// the proposal's reference is in the pending list; the proposal buffer
/// decodes; the proposal is not yet executed; the approver is one of the
/// proposal's signers. The approval flag is then set — merely set, so a
/// repeated approval changes nothing.
///
/// Quorum rule: the funds are released exactly when the number of approvals,
/// counted after this flag is set, reaches the threshold. On release the
/// proposal is marked executed, the amount leaves the frozen balance, the
/// proposal's reference leaves the pending list, and the effect carries the
/// amount the host must move to the recipient; otherwise the proposal stays
/// pending and no funds move. A proposal whose amount exceeds the account's
/// frozen balance is corrupt and rejected.
pub open spec fn spec_process_approve_transaction(
    wallet_is_signer: bool,
    wallet: Seq<u8>,
    transaction_key: Seq<u8>,
    multisig_data: Seq<u8>,
    transaction_data: Seq<u8>,
) -> Result<ApproveEffectView, ProgramError> {
    if !wallet_is_signer {
        Err(ProgramError::MissingRequiredSignature)
    } else {
        match spec_unpack_account(multisig_data) {
            None => Err(ProgramError::InvalidAccountData),
            Some(acc) => {
                if acc.owners.len() > MAX_SIGNERS || acc.pending_transactions.len()
                    > MAX_TRANSACTIONS {
                    Err(ProgramError::InvalidAccountData)
                } else {
                    match spec_find_key(acc.pending_transactions, transaction_key) {
                        None => Err(ProgramError::Custom(MultisigError::UndefinedTransaction)),
                        Some(tx_index) => match spec_unpack_transaction(transaction_data) {
                            None => Err(ProgramError::InvalidAccountData),
                            Some(tx) => {
                                if tx.is_executed {
                                    Err(
                                        ProgramError::Custom(
                                            MultisigError::TransactionAlreadyExecuted,
                                        ),
                                    )
                                } else {
                                    match spec_find_signer(tx.signers, wallet) {
                                        None => Err(
                                            ProgramError::Custom(MultisigError::InvalidCustodian),
                                        ),
                                        Some(sidx) => spec_apply_approval(
                                            acc,
                                            tx,
                                            tx_index,
                                            sidx,
                                        ),
                                    }
                                }
                            },
                        },
                    }
                }
            },
        }
    }
}

/// The effect of one recorded approval: the signer's flag is set, and the
/// funds move exactly when the approval count reaches the threshold.
pub open spec fn spec_apply_approval(
    acc: AccountView,
    tx: TransactionView,
    tx_index: int,
    sidx: int,
) -> Result<ApproveEffectView, ProgramError> {
    let new_signers = tx.signers.update(sidx, (tx.signers[sidx].0, true));
    if spec_count_approved(new_signers) >= acc.threshold {
        if tx.amount > acc.frozen_amount {
            Err(ProgramError::InvalidAccountData)
        } else {
            Ok(
                ApproveEffectView {
                    multisig_data: spec_pack_account(
                        AccountView {
                            is_initialized: acc.is_initialized,
                            threshold: acc.threshold,
                            owners: acc.owners,
                            pending_transactions: acc.pending_transactions.remove(tx_index),
                            frozen_amount: (acc.frozen_amount - tx.amount) as u64,
                        },
                    ),
                    transaction_data: spec_pack_transaction(
                        TransactionView {
                            multisig: tx.multisig,
                            recipient: tx.recipient,
                            amount: tx.amount,
                            is_executed: true,
                            signers: new_signers,
                        },
                    ),
                    transfer_amount: Some(tx.amount),
                },
            )
        }
    } else {
        Ok(
            ApproveEffectView {
                multisig_data: spec_pack_account(acc),
                transaction_data: spec_pack_transaction(
                    TransactionView {
                        multisig: tx.multisig,
                        recipient: tx.recipient,
                        amount: tx.amount,
                        is_executed: false,
                        signers: new_signers,
                    },
                ),
                transfer_amount: None,
            },
        )
    }
}

impl Processor {
    /// Records `wallet_key`'s approval of the proposal at `transaction_key`.
    /// The host supplies both buffers' bytes; on success it writes both
    /// returned byte strings back and, when the effect carries an amount,
    /// moves that amount from the custody account to the recipient in the
    /// same atomic step.
    pub fn process_approve_transaction(
        wallet_is_signer: bool,
        wallet_key: &Pubkey,
        transaction_key: &Pubkey,
        multisig_data: &[u8],
        transaction_data: &[u8],
    ) -> (r: Result<ApproveEffect, ProgramError>)
        ensures
            match r {
                Ok(e) => spec_process_approve_transaction(
                    wallet_is_signer,
                    wallet_key@,
                    transaction_key@,
                    multisig_data@,
                    transaction_data@,
                ) == Ok::<ApproveEffectView, ProgramError>(e@),
                Err(e) => spec_process_approve_transaction(
                    wallet_is_signer,
                    wallet_key@,
                    transaction_key@,
                    multisig_data@,
                    transaction_data@,
                ) == Err::<ApproveEffectView, ProgramError>(e),
            },
    {
        if !wallet_is_signer {
            return Err(ProgramError::MissingRequiredSignature);
        }
        let mut account = match Account::unpack_from_slice(multisig_data) {
            Ok(a) => a,
            Err(e) => {
                return Err(e);
            },
        };
        let ghost acc0: AccountView = account@;
        if account.owners.len() > MAX_SIGNERS || account.pending_transactions.len()
            > MAX_TRANSACTIONS {
            return Err(ProgramError::InvalidAccountData);
        }
        let tx_index = match find_key_index(&account.pending_transactions, transaction_key) {
            Some(i) => i,
            None => {
                return Err(ProgramError::Custom(MultisigError::UndefinedTransaction));
            },
        };
        let mut transaction = match Transaction::unpack_from_slice(transaction_data) {
            Ok(t) => t,
            Err(e) => {
                return Err(e);
            },
        };
        let ghost tx0: TransactionView = transaction@;
        if transaction.is_executed {
            return Err(ProgramError::Custom(MultisigError::TransactionAlreadyExecuted));
        }
        let sidx = match find_signer_index(&transaction.signers, wallet_key) {
            Some(i) => i,
            None => {
                return Err(ProgramError::Custom(MultisigError::InvalidCustodian));
            },
        };
        proof {
            lemma_find_key_characterizes(acc0.pending_transactions, transaction_key@);
            lemma_find_signer_characterizes(tx0.signers, wallet_key@);
        }
        let signers_n = transaction.signers.len();
        let mut new_signers: Vec<(Pubkey, bool)> = Vec::new();
        let mut i: usize = 0;
        while i < signers_n
            invariant
                i <= signers_n,
                signers_n == transaction.signers@.len(),
                sidx < signers_n,
                new_signers@.len() == i,
                forall|j: int|
                    0 <= j < i ==> (#[trigger] new_signers@[j]) == (
                    transaction.signers@[j].0,
                    j == sidx || transaction.signers@[j].1,
                ),
            decreases signers_n - i,
        {
            let (k, approved) = transaction.signers[i];
            new_signers.push((k, i == sidx || approved));
            i = i + 1;
        }
        proof {
            assert(signers_view(new_signers@) =~= tx0.signers.update(
                sidx as int,
                (tx0.signers[sidx as int].0, true),
            ));
        }
        transaction.signers = new_signers;
        let approvals = count_approved(&transaction.signers);
        if approvals >= account.threshold as u64 {
            if transaction.amount > account.frozen_amount {
                return Err(ProgramError::InvalidAccountData);
            }
            account.frozen_amount = account.frozen_amount - transaction.amount;
            account.pending_transactions.remove(tx_index);
            transaction.is_executed = true;
            proof {
                assert(account@.pending_transactions =~= acc0.pending_transactions.remove(
                    tx_index as int,
                ));
                assert(account@ =~= AccountView {
                    is_initialized: acc0.is_initialized,
                    threshold: acc0.threshold,
                    owners: acc0.owners,
                    pending_transactions: acc0.pending_transactions.remove(tx_index as int),
                    frozen_amount: (acc0.frozen_amount - tx0.amount) as u64,
                });
                assert(transaction@ =~= TransactionView {
                    multisig: tx0.multisig,
                    recipient: tx0.recipient,
                    amount: tx0.amount,
                    is_executed: true,
                    signers: tx0.signers.update(sidx as int, (tx0.signers[sidx as int].0, true)),
                });
            }
            let multisig_out = account.pack();
            let transaction_out = transaction.pack();
            Ok(
                ApproveEffect {
                    multisig_data: multisig_out,
                    transaction_data: transaction_out,
                    transfer_amount: Some(transaction.amount),
                },
            )
        } else {
            proof {
                assert(account@ =~= acc0);
                assert(transaction@ =~= TransactionView {
                    multisig: tx0.multisig,
                    recipient: tx0.recipient,
                    amount: tx0.amount,
                    is_executed: false,
                    signers: tx0.signers.update(sidx as int, (tx0.signers[sidx as int].0, true)),
                });
            }
            let multisig_out = account.pack();
            let transaction_out = transaction.pack();
            Ok(
                ApproveEffect {
                    multisig_data: multisig_out,
                    transaction_data: transaction_out,
                    transfer_amount: None,
                },
            )
        }
    }
}

/// One account as the host hands it to an operation: its address, whether
/// it co-signed the operation, its balance, and its buffer bytes.
pub struct AccountRef {
    pub key: Pubkey,
    pub is_signer: bool,
    pub lamports: u64,
    pub data: Vec<u8>,
}

/// The mathematical value of a supplied account.
#[verifier::ext_equal]
pub struct AccountRefView {
    pub key: Seq<u8>,
    pub is_signer: bool,
    pub lamports: u64,
    pub data: Seq<u8>,
}

impl View for AccountRef {
    type V = AccountRefView;

    open spec fn view(&self) -> AccountRefView {
        AccountRefView {
            key: self.key@,
            is_signer: self.is_signer,
            lamports: self.lamports,
            data: self.data@,
        }
    }
}

/// The mathematical values of a list of supplied accounts.
pub open spec fn accounts_view(accounts: Seq<AccountRef>) -> Seq<AccountRefView> {
    accounts.map_values(|a: AccountRef| a@)
}

/// What one dispatched operation leaves behind.
#[derive(Debug)]
pub enum ProcessEffect {
    /// A Custody Account was created.
    AccountCreated(CreateAccountEffect),
    /// A Transfer Proposal was opened.
    TransactionCreated(CreateTransactionEffect),
    /// An approval was recorded, possibly releasing the funds.
    Approved(ApproveEffect),
}

/// The mathematical value of a dispatched operation's effect.
#[verifier::ext_equal]
pub enum ProcessEffectView {
    AccountCreated(CreateAccountEffectView),
    TransactionCreated(CreateTransactionEffectView),
    Approved(ApproveEffectView),
}

impl View for ProcessEffect {
    type V = ProcessEffectView;

    open spec fn view(&self) -> ProcessEffectView {
        match self {
            ProcessEffect::AccountCreated(e) => ProcessEffectView::AccountCreated(e@),
            ProcessEffect::TransactionCreated(e) => ProcessEffectView::TransactionCreated(e@),
            ProcessEffect::Approved(e) => ProcessEffectView::Approved(e@),
        }
    }
}

/// The dispatch: decode the request's tag byte, check that the operation's
/// required accounts are all present in their required order, and run the
/// operation. Account order per operation:
/// create-account `{funder, custody buffer, wallet, system allocator, rent
/// oracle}`; create-transfer `{wallet, new proposal buffer, custody buffer,
/// recipient, system allocator}`; approve-transfer `{approver, custody
/// buffer, proposal buffer, recipient}`.
pub open spec fn spec_process(
    program: Seq<u8>,
    accounts: Seq<AccountRefView>,
    data: Seq<u8>,
) -> Result<ProcessEffectView, ProgramError> {
    match spec_unpack_instruction(data) {
        None => Err(ProgramError::InvalidInstructionData),
        Some(InstructionView::CreateAccount { threshold, owners }) => {
            if accounts.len() < 5 {
                Err(ProgramError::NotEnoughAccountKeys)
            } else {
                match spec_process_create_account(
                    program,
                    accounts[0].is_signer,
                    accounts[2].is_signer,
                    accounts[2].key,
                    accounts[1].key,
                    accounts[1].data,
                    threshold,
                    owners,
                ) {
                    Ok(e) => Ok(ProcessEffectView::AccountCreated(e)),
                    Err(e) => Err(e),
                }
            }
        },
        Some(InstructionView::CreateTransaction { amount }) => {
            if accounts.len() < 5 {
                Err(ProgramError::NotEnoughAccountKeys)
            } else {
                match spec_process_create_transaction(
                    program,
                    accounts[0].is_signer,
                    accounts[1].is_signer,
                    accounts[0].key,
                    accounts[1].key,
                    accounts[2].key,
                    accounts[3].key,
                    accounts[2].data,
                    accounts[2].lamports,
                    amount,
                ) {
                    Ok(e) => Ok(ProcessEffectView::TransactionCreated(e)),
                    Err(e) => Err(e),
                }
            }
        },
        Some(InstructionView::ApproveTransaction) => {
            if accounts.len() < 4 {
                Err(ProgramError::NotEnoughAccountKeys)
            } else {
                match spec_process_approve_transaction(
                    accounts[0].is_signer,
                    accounts[0].key,
                    accounts[2].key,
                    accounts[1].data,
                    accounts[2].data,
                ) {
                    Ok(e) => Ok(ProcessEffectView::Approved(e)),
                    Err(e) => Err(e),
                }
            }
        },
    }
}

impl Processor {
    /// Runs one operation: decodes the request, picks the accounts it
    /// consumes in their required order, validates and computes the effect.
    /// The host applies the effect atomically or, on an error, touches
    /// nothing.
    pub fn process(
        program_id: &Pubkey,
        accounts: &Vec<AccountRef>,
        instruction_data: &[u8],
    ) -> (r: Result<ProcessEffect, ProgramError>)
        ensures
            match r {
                Ok(e) => spec_process(program_id@, accounts_view(accounts@), instruction_data@)
                    == Ok::<ProcessEffectView, ProgramError>(e@),
                Err(e) => spec_process(program_id@, accounts_view(accounts@), instruction_data@)
                    == Err::<ProcessEffectView, ProgramError>(e),
            },
    {
        let instruction = match MultisigInstruction::unpack(instruction_data) {
            Ok(ix) => ix,
            Err(e) => {
                return Err(e);
            },
        };
        match instruction {
            MultisigInstruction::CreateAccount { threshold, owners } => {
                if accounts.len() < 5 {
                    return Err(ProgramError::NotEnoughAccountKeys);
                }
                match Processor::process_create_account(
                    program_id,
                    accounts[0].is_signer,
                    accounts[2].is_signer,
                    &accounts[2].key,
                    &accounts[1].key,
                    accounts[1].data.as_slice(),
                    threshold,
                    owners,
                ) {
                    Ok(e) => Ok(ProcessEffect::AccountCreated(e)),
                    Err(e) => Err(e),
                }
            },
            MultisigInstruction::CreateTransaction { amount } => {
                if accounts.len() < 5 {
                    return Err(ProgramError::NotEnoughAccountKeys);
                }
                match Processor::process_create_transaction(
                    program_id,
                    accounts[0].is_signer,
                    accounts[1].is_signer,
                    &accounts[0].key,
                    &accounts[1].key,
                    &accounts[2].key,
                    &accounts[3].key,
                    accounts[2].data.as_slice(),
                    accounts[2].lamports,
                    amount,
                ) {
                    Ok(e) => Ok(ProcessEffect::TransactionCreated(e)),
                    Err(e) => Err(e),
                }
            },
            MultisigInstruction::ApproveTransaction => {
                if accounts.len() < 4 {
                    return Err(ProgramError::NotEnoughAccountKeys);
                }
                match Processor::process_approve_transaction(
                    accounts[0].is_signer,
                    &accounts[0].key,
                    &accounts[2].key,
                    accounts[1].data.as_slice(),
                    accounts[2].data.as_slice(),
                ) {
                    Ok(e) => Ok(ProcessEffect::Approved(e)),
                    Err(e) => Err(e),
                }
            },
        }
    }
}

} // verus!
