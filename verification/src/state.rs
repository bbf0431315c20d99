//! The two persisted record types and their fixed-size binary encodings.
//!
//! A Custody Account and a Transfer Proposal each live in one fixed-length
//! byte buffer. Every field sits at a fixed offset; booleans take a single
//! byte (0 or 1), integers are little-endian, identifier lists are a 4-byte
//! length prefix followed by that many fixed-width blocks. Bytes past the
//! encoded region are ignored by the decoder, which trusts only the declared
//! length fields.

use vstd::prelude::*;

use crate::codec::{
    keys_flat, keys_wf, lemma_keys_flat_index, lemma_keys_flat_len, lemma_keys_flat_push,
    lemma_signers_flat_index, lemma_signers_flat_len, lemma_signers_flat_push, signers_flat,
    signers_wf, spec_bool_byte, spec_key_at, zero_bytes,
};
use crate::error::ProgramError;
use crate::key::{key_from_slice, push_key, Pubkey};
use crate::{MAX_SIGNERS, MAX_TRANSACTIONS};

verus! {

/// Fixed byte length of an encoded Custody Account:
/// `initialized:1, threshold:4, frozen_balance:8, owners_len:4, pending_len:4`,
/// then room for 8 owner and 10 pending-transfer identifiers of 32 bytes each.
pub const ACCOUNT_LEN: usize = 597;

/// Byte offset where the Custody Account's identifier region starts.
pub const ACCOUNT_HEADER_LEN: usize = 21;

/// Fixed byte length of an encoded Transfer Proposal:
/// `multisig:32, recipient:32, amount:8, executed:1, signers_len:4`,
/// then room for 8 signer entries of 33 bytes each.
pub const TRANSACTION_LEN: usize = 341;

/// Byte offset where the Transfer Proposal's signer region starts.
pub const TRANSACTION_HEADER_LEN: usize = 77;

/// A Custody Account: the record owning pooled funds and the
/// owner/threshold policy.
#[derive(Clone, Debug)]
pub struct Account {
    /// Whether the buffer holds a created record.
    pub is_initialized: bool,
    /// Minimum number of distinct owner approvals required to release funds.
    pub threshold: u32,
    /// Custodians of the pooled funds.
    pub owners: Vec<Pubkey>,
    /// References to the currently pending Transfer Proposals.
    pub pending_transactions: Vec<Pubkey>,
    /// Funds reserved by all pending proposals, unavailable to new ones.
    pub frozen_amount: u64,
}

/// The mathematical value of a Custody Account.
#[verifier::ext_equal]
pub struct AccountView {
    pub is_initialized: bool,
    pub threshold: u32,
    pub owners: Seq<Seq<u8>>,
    pub pending_transactions: Seq<Seq<u8>>,
    pub frozen_amount: u64,
}

impl View for Account {
    type V = AccountView;

    open spec fn view(&self) -> AccountView {
        AccountView {
            is_initialized: self.is_initialized,
            threshold: self.threshold,
            owners: self.owners@.map_values(|k: Pubkey| k@),
            pending_transactions: self.pending_transactions@.map_values(|k: Pubkey| k@),
            frozen_amount: self.frozen_amount,
        }
    }
}

impl AccountView {
    /// The record fits its fixed-size buffer: identifier lists within their
    /// capacity, every identifier 32 bytes.
    pub open spec fn encodable(self) -> bool {
        &&& self.owners.len() <= MAX_SIGNERS
        &&& self.pending_transactions.len() <= MAX_TRANSACTIONS
        &&& keys_wf(self.owners)
        &&& keys_wf(self.pending_transactions)
    }

    /// The Custody Account invariant: a non-empty, bounded owner set and a
    /// bounded pending list.
    pub open spec fn wf(self) -> bool {
        &&& self.encodable()
        &&& 1 <= self.owners.len()
    }
}

/// The bytes a Custody Account occupies, fields at fixed offsets, without
/// the unused tail of the buffer.
pub open spec fn spec_account_bytes_used(a: AccountView) -> Seq<u8> {
    seq![spec_bool_byte(a.is_initialized)] + vstd::bytes::spec_u32_to_le_bytes(a.threshold)
        + vstd::bytes::spec_u64_to_le_bytes(a.frozen_amount) + vstd::bytes::spec_u32_to_le_bytes(
        a.owners.len() as u32,
    ) + vstd::bytes::spec_u32_to_le_bytes(a.pending_transactions.len() as u32) + keys_flat(a.owners)
        + keys_flat(a.pending_transactions)
}

/// The full fixed-length encoding of a Custody Account: the used bytes,
/// then zeroes up to the fixed length.
pub open spec fn spec_pack_account(a: AccountView) -> Seq<u8> {
    spec_account_bytes_used(a) + zero_bytes((ACCOUNT_LEN - spec_account_bytes_used(a).len()) as nat)
}

/// Decodes a Custody Account buffer. Fails if the buffer is shorter than
/// the fixed length, the initialized byte is not 0 or 1, or the declared
/// list lengths would read past the fixed identifier region.
pub open spec fn spec_unpack_account(s: Seq<u8>) -> Option<AccountView> {
    if s.len() < ACCOUNT_LEN {
        None
    } else if s[0] > 1 {
        None
    } else {
        let owners_len = vstd::bytes::spec_u32_from_le_bytes(s.subrange(13, 17)) as int;
        let pending_len = vstd::bytes::spec_u32_from_le_bytes(s.subrange(17, 21)) as int;
        if 32 * owners_len + 32 * pending_len > ACCOUNT_LEN - ACCOUNT_HEADER_LEN {
            None
        } else {
            Some(
                AccountView {
                    is_initialized: s[0] == 1,
                    threshold: vstd::bytes::spec_u32_from_le_bytes(s.subrange(1, 5)),
                    frozen_amount: vstd::bytes::spec_u64_from_le_bytes(s.subrange(5, 13)),
                    owners: Seq::new(
                        owners_len as nat,
                        |i: int| spec_key_at(s, ACCOUNT_HEADER_LEN + 32 * i),
                    ),
                    pending_transactions: Seq::new(
                        pending_len as nat,
                        |i: int| spec_key_at(s, ACCOUNT_HEADER_LEN + 32 * owners_len + 32 * i),
                    ),
                },
            )
        }
    }
}

impl Account {
    /// Encodes the record into a fresh fixed-length buffer, zeroing the
    /// unused tail.
    pub fn pack(&self) -> (r: Vec<u8>)
        requires
            self@.encodable(),
        ensures
            r@ == spec_pack_account(self@),
            r@.len() == ACCOUNT_LEN,
    {
        proof {
            lemma_keys_flat_len(self@.owners);
            lemma_keys_flat_len(self@.pending_transactions);
        }
        let owners_n = self.owners.len();
        let pending_n = self.pending_transactions.len();
        let mut out: Vec<u8> = Vec::new();
        out.push(if self.is_initialized { 1 } else { 0 });
        let mut bytes_threshold = vstd::bytes::u32_to_le_bytes(self.threshold);
        out.append(&mut bytes_threshold);
        let mut bytes_frozen = vstd::bytes::u64_to_le_bytes(self.frozen_amount);
        out.append(&mut bytes_frozen);
        let mut bytes_owners_len = vstd::bytes::u32_to_le_bytes(owners_n as u32);
        out.append(&mut bytes_owners_len);
        let mut bytes_pending_len = vstd::bytes::u32_to_le_bytes(pending_n as u32);
        out.append(&mut bytes_pending_len);
        let ghost header: Seq<u8> = out@;
        let mut i: usize = 0;
        while i < owners_n
            invariant
                i <= owners_n,
                owners_n == self.owners@.len(),
                out@ == header + keys_flat(self@.owners.take(i as int)),
            decreases owners_n - i,
        {
            push_key(&mut out, &self.owners[i]);
            proof {
                lemma_keys_flat_push(self@.owners.take(i as int), self@.owners[i as int]);
                assert(self@.owners.take(i + 1) =~= self@.owners.take(i as int).push(
                    self@.owners[i as int],
                ));
            }
            i = i + 1;
        }
        proof {
            assert(self@.owners.take(owners_n as int) =~= self@.owners);
        }
        let ghost with_owners: Seq<u8> = out@;
        let mut j: usize = 0;
        while j < pending_n
            invariant
                j <= pending_n,
                pending_n == self.pending_transactions@.len(),
                out@ == with_owners + keys_flat(self@.pending_transactions.take(j as int)),
            decreases pending_n - j,
        {
            push_key(&mut out, &self.pending_transactions[j]);
            proof {
                lemma_keys_flat_push(
                    self@.pending_transactions.take(j as int),
                    self@.pending_transactions[j as int],
                );
                assert(self@.pending_transactions.take(j + 1)
                    =~= self@.pending_transactions.take(j as int).push(
                    self@.pending_transactions[j as int],
                ));
            }
            j = j + 1;
        }
        proof {
            assert(self@.pending_transactions.take(pending_n as int)
                =~= self@.pending_transactions);
        }
        let ghost used: Seq<u8> = out@;
        proof {
            assert(used =~= spec_account_bytes_used(self@));
            assert(out@ =~= used + zero_bytes((out@.len() - used.len()) as nat));
        }
        while out.len() < ACCOUNT_LEN
            invariant
                used == spec_account_bytes_used(self@),
                used.len() <= out@.len(),
                out@.len() <= ACCOUNT_LEN,
                out@ == used + zero_bytes((out@.len() - used.len()) as nat),
            decreases ACCOUNT_LEN - out@.len(),
        {
            out.push(0);
            proof {
                assert(out@ =~= used + zero_bytes((out@.len() - used.len()) as nat));
            }
        }
        out
    }

    /// Decodes a Custody Account buffer, trusting only the declared length
    /// fields.
    pub fn unpack_from_slice(src: &[u8]) -> (r: Result<Account, ProgramError>)
        ensures
            match r {
                Ok(a) => spec_unpack_account(src@) == Some(a@),
                Err(e) => spec_unpack_account(src@) is None && e
                    == ProgramError::InvalidAccountData,
            },
    {
        if src.len() < ACCOUNT_LEN {
            return Err(ProgramError::InvalidAccountData);
        }
        let init_byte = src[0];
        if init_byte > 1 {
            return Err(ProgramError::InvalidAccountData);
        }
        let threshold = vstd::bytes::u32_from_le_bytes(vstd::slice::slice_subrange(src, 1, 5));
        let frozen_amount = vstd::bytes::u64_from_le_bytes(vstd::slice::slice_subrange(src, 5, 13));
        let owners_len = vstd::bytes::u32_from_le_bytes(vstd::slice::slice_subrange(src, 13, 17));
        let pending_len = vstd::bytes::u32_from_le_bytes(vstd::slice::slice_subrange(src, 17, 21));
        if 32u64 * (owners_len as u64) + 32u64 * (pending_len as u64) > (ACCOUNT_LEN
            - ACCOUNT_HEADER_LEN) as u64 {
            return Err(ProgramError::InvalidAccountData);
        }
        let owners_n = owners_len as usize;
        let pending_n = pending_len as usize;
        let mut owners: Vec<Pubkey> = Vec::new();
        let mut i: usize = 0;
        while i < owners_n
            invariant
                i <= owners_n,
                32 * owners_n + 32 * pending_n <= ACCOUNT_LEN - ACCOUNT_HEADER_LEN,
                src@.len() >= ACCOUNT_LEN,
                owners@.len() == i,
                forall|m: int|
                    0 <= m < i ==> (#[trigger] owners@[m])@ == spec_key_at(
                        src@,
                        ACCOUNT_HEADER_LEN + 32 * m,
                    ),
            decreases owners_n - i,
        {
            owners.push(key_from_slice(src, ACCOUNT_HEADER_LEN + 32 * i));
            i = i + 1;
        }
        let mut pending_transactions: Vec<Pubkey> = Vec::new();
        let mut j: usize = 0;
        while j < pending_n
            invariant
                j <= pending_n,
                32 * owners_n + 32 * pending_n <= ACCOUNT_LEN - ACCOUNT_HEADER_LEN,
                src@.len() >= ACCOUNT_LEN,
                pending_transactions@.len() == j,
                forall|m: int|
                    0 <= m < j ==> (#[trigger] pending_transactions@[m])@ == spec_key_at(
                        src@,
                        ACCOUNT_HEADER_LEN + 32 * owners_n + 32 * m,
                    ),
            decreases pending_n - j,
        {
            pending_transactions.push(
                key_from_slice(src, ACCOUNT_HEADER_LEN + 32 * owners_n + 32 * j),
            );
            j = j + 1;
        }
        let a = Account {
            is_initialized: init_byte == 1,
            threshold,
            owners,
            pending_transactions,
            frozen_amount,
        };
        proof {
            let expected = spec_unpack_account(src@).unwrap();
            assert(a@.owners =~= expected.owners);
            assert(a@.pending_transactions =~= expected.pending_transactions);
            assert(a@ =~= expected);
        }
        Ok(a)
    }
}

/// A Transfer Proposal: a single pending or executed payment request
/// awaiting owner approvals.
#[derive(Clone, Debug)]
pub struct Transaction {
    /// The Custody Account this proposal belongs to.
    pub multisig: Pubkey,
    /// Where the funds go on execution.
    pub recipient: Pubkey,
    /// How much to send to the recipient.
    pub amount: u64,
    /// Set once the funds have moved; a terminal state.
    pub is_executed: bool,
    /// The owner set snapshotted at creation time, each with its approval flag.
    pub signers: Vec<(Pubkey, bool)>,
}

/// The mathematical value of a Transfer Proposal.
#[verifier::ext_equal]
pub struct TransactionView {
    pub multisig: Seq<u8>,
    pub recipient: Seq<u8>,
    pub amount: u64,
    pub is_executed: bool,
    pub signers: Seq<(Seq<u8>, bool)>,
}

/// The byte-level value of a signer list.
pub open spec fn signers_view(signers: Seq<(Pubkey, bool)>) -> Seq<(Seq<u8>, bool)> {
    signers.map_values(|e: (Pubkey, bool)| (e.0@, e.1))
}

impl View for Transaction {
    type V = TransactionView;

    open spec fn view(&self) -> TransactionView {
        TransactionView {
            multisig: self.multisig@,
            recipient: self.recipient@,
            amount: self.amount,
            is_executed: self.is_executed,
            signers: signers_view(self.signers@),
        }
    }
}

impl TransactionView {
    /// The record fits its fixed-size buffer: bounded signer list, every
    /// identifier 32 bytes.
    pub open spec fn encodable(self) -> bool {
        &&& self.multisig.len() == 32
        &&& self.recipient.len() == 32
        &&& self.signers.len() <= MAX_SIGNERS
        &&& signers_wf(self.signers)
    }

    /// How many signers have approved so far.
    pub open spec fn approval_count(self) -> nat {
        self.signers.filter(|e: (Seq<u8>, bool)| e.1).len()
    }
}

/// The bytes a Transfer Proposal occupies, fields at fixed offsets, without
/// the unused tail of the buffer.
pub open spec fn spec_transaction_bytes_used(t: TransactionView) -> Seq<u8> {
    t.multisig + t.recipient + vstd::bytes::spec_u64_to_le_bytes(t.amount) + seq![
        spec_bool_byte(t.is_executed),
    ] + vstd::bytes::spec_u32_to_le_bytes(t.signers.len() as u32) + signers_flat(t.signers)
}

/// The full fixed-length encoding of a Transfer Proposal: the used bytes,
/// then zeroes up to the fixed length.
pub open spec fn spec_pack_transaction(t: TransactionView) -> Seq<u8> {
    spec_transaction_bytes_used(t) + zero_bytes(
        (TRANSACTION_LEN - spec_transaction_bytes_used(t).len()) as nat,
    )
}

/// Decodes a Transfer Proposal buffer. Fails if the buffer is shorter than
/// the fixed length, a boolean byte is not 0 or 1, or the declared signer
/// count would read past the fixed signer region.
pub open spec fn spec_unpack_transaction(s: Seq<u8>) -> Option<TransactionView> {
    if s.len() < TRANSACTION_LEN {
        None
    } else if s[72] > 1 {
        None
    } else {
        let signers_len = vstd::bytes::spec_u32_from_le_bytes(s.subrange(73, 77)) as int;
        if 33 * signers_len > TRANSACTION_LEN - TRANSACTION_HEADER_LEN {
            None
        } else if exists|i: int|
            0 <= i < signers_len && #[trigger] s[TRANSACTION_HEADER_LEN + 33 * i + 32] > 1 {
            None
        } else {
            Some(
                TransactionView {
                    multisig: s.subrange(0, 32),
                    recipient: s.subrange(32, 64),
                    amount: vstd::bytes::spec_u64_from_le_bytes(s.subrange(64, 72)),
                    is_executed: s[72] == 1,
                    signers: Seq::new(
                        signers_len as nat,
                        |i: int|
                            (
                                spec_key_at(s, TRANSACTION_HEADER_LEN + 33 * i),
                                s[TRANSACTION_HEADER_LEN + 33 * i + 32] == 1,
                            ),
                    ),
                },
            )
        }
    }
}

impl Transaction {
    /// Encodes the record into a fresh fixed-length buffer, zeroing the
    /// unused tail.
    pub fn pack(&self) -> (r: Vec<u8>)
        requires
            self@.encodable(),
        ensures
            r@ == spec_pack_transaction(self@),
            r@.len() == TRANSACTION_LEN,
    {
        proof {
            lemma_signers_flat_len(self@.signers);
        }
        let signers_n = self.signers.len();
        let mut out: Vec<u8> = Vec::new();
        push_key(&mut out, &self.multisig);
        push_key(&mut out, &self.recipient);
        let mut bytes_amount = vstd::bytes::u64_to_le_bytes(self.amount);
        out.append(&mut bytes_amount);
        out.push(if self.is_executed { 1 } else { 0 });
        let mut bytes_signers_len = vstd::bytes::u32_to_le_bytes(signers_n as u32);
        out.append(&mut bytes_signers_len);
        let ghost header: Seq<u8> = out@;
        let mut i: usize = 0;
        while i < signers_n
            invariant
                i <= signers_n,
                signers_n == self.signers@.len(),
                out@ == header + signers_flat(self@.signers.take(i as int)),
            decreases signers_n - i,
        {
            let (k, approved) = self.signers[i];
            push_key(&mut out, &k);
            out.push(if approved { 1 } else { 0 });
            proof {
                lemma_signers_flat_push(
                    self@.signers.take(i as int),
                    self@.signers[i as int].0,
                    self@.signers[i as int].1,
                );
                assert(self@.signers.take(i + 1) =~= self@.signers.take(i as int).push(
                    self@.signers[i as int],
                ));
                assert(out@ =~= header + signers_flat(self@.signers.take(i + 1)));
            }
            i = i + 1;
        }
        proof {
            assert(self@.signers.take(signers_n as int) =~= self@.signers);
        }
        let ghost used: Seq<u8> = out@;
        proof {
            assert(used =~= spec_transaction_bytes_used(self@));
            assert(out@ =~= used + zero_bytes((out@.len() - used.len()) as nat));
        }
        while out.len() < TRANSACTION_LEN
            invariant
                used == spec_transaction_bytes_used(self@),
                used.len() <= out@.len(),
                out@.len() <= TRANSACTION_LEN,
                out@ == used + zero_bytes((out@.len() - used.len()) as nat),
            decreases TRANSACTION_LEN - out@.len(),
        {
            out.push(0);
            proof {
                assert(out@ =~= used + zero_bytes((out@.len() - used.len()) as nat));
            }
        }
        out
    }

    /// Decodes a Transfer Proposal buffer, trusting only the declared
    /// length field.
    pub fn unpack_from_slice(src: &[u8]) -> (r: Result<Transaction, ProgramError>)
        ensures
            match r {
                Ok(t) => spec_unpack_transaction(src@) == Some(t@),
                Err(e) => spec_unpack_transaction(src@) is None && e
                    == ProgramError::InvalidAccountData,
            },
    {
        if src.len() < TRANSACTION_LEN {
            return Err(ProgramError::InvalidAccountData);
        }
        let multisig = key_from_slice(src, 0);
        let recipient = key_from_slice(src, 32);
        let amount = vstd::bytes::u64_from_le_bytes(vstd::slice::slice_subrange(src, 64, 72));
        let executed_byte = src[72];
        if executed_byte > 1 {
            return Err(ProgramError::InvalidAccountData);
        }
        let signers_len = vstd::bytes::u32_from_le_bytes(vstd::slice::slice_subrange(src, 73, 77));
        if 33u64 * (signers_len as u64) > (TRANSACTION_LEN - TRANSACTION_HEADER_LEN) as u64 {
            return Err(ProgramError::InvalidAccountData);
        }
        let signers_n = signers_len as usize;
        let mut signers: Vec<(Pubkey, bool)> = Vec::new();
        let mut i: usize = 0;
        while i < signers_n
            invariant
                i <= signers_n,
                33 * signers_n <= TRANSACTION_LEN - TRANSACTION_HEADER_LEN,
                src@.len() >= TRANSACTION_LEN,
                signers_n as int == vstd::bytes::spec_u32_from_le_bytes(
                    src@.subrange(73, 77),
                ) as int,
                signers@.len() == i,
                forall|m: int|
                    0 <= m < i ==> #[trigger] src@[TRANSACTION_HEADER_LEN + 33 * m + 32] <= 1,
                forall|m: int|
                    0 <= m < i ==> (#[trigger] signers@[m]).0@ == spec_key_at(
                        src@,
                        TRANSACTION_HEADER_LEN + 33 * m,
                    ),
                forall|m: int|
                    0 <= m < i ==> (#[trigger] signers@[m]).1 == (src@[TRANSACTION_HEADER_LEN + 33
                        * m + 32] == 1),
            decreases signers_n - i,
        {
            let k = key_from_slice(src, TRANSACTION_HEADER_LEN + 33 * i);
            let flag_byte = src[TRANSACTION_HEADER_LEN + 33 * i + 32];
            if flag_byte > 1 {
                proof {
                    let sl = vstd::bytes::spec_u32_from_le_bytes(src@.subrange(73, 77)) as int;
                    assert((i as int) < sl && src@[TRANSACTION_HEADER_LEN + 33 * (i as int) + 32]
                        > 1);
                    assert(exists|q: int|
                        0 <= q < sl && #[trigger] src@[TRANSACTION_HEADER_LEN + 33 * q + 32] > 1);
                }
                return Err(ProgramError::InvalidAccountData);
            }
            signers.push((k, flag_byte == 1));
            i = i + 1;
        }
        let t = Transaction {
            multisig,
            recipient,
            amount,
            is_executed: executed_byte == 1,
            signers,
        };
        proof {
            let expected = spec_unpack_transaction(src@).unwrap();
            assert(t@.signers =~= expected.signers);
            assert(t@ =~= expected);
        }
        Ok(t)
    }
}

/// Law: decoding recovers exactly the proposal that was encoded, whatever
/// bytes follow the encoded region — the decoder trusts only the declared
/// length field.
pub proof fn lemma_transaction_round_trip(t: TransactionView, tail: Seq<u8>)
    requires
        t.encodable(),
        spec_transaction_bytes_used(t).len() + tail.len() >= TRANSACTION_LEN,
    ensures
        spec_unpack_transaction(spec_transaction_bytes_used(t) + tail) == Some(t),
{
    lemma_signers_flat_len(t.signers);
    vstd::bytes::lemma_auto_spec_u32_to_from_le_bytes();
    vstd::bytes::lemma_auto_spec_u64_to_from_le_bytes();
    let n = t.signers.len() as int;
    let s = spec_transaction_bytes_used(t) + tail;
    assert(s.subrange(0, 32) =~= t.multisig);
    assert(s.subrange(32, 64) =~= t.recipient);
    assert(s.subrange(64, 72) =~= vstd::bytes::spec_u64_to_le_bytes(t.amount));
    assert(s[72] == spec_bool_byte(t.is_executed));
    assert(s.subrange(73, 77) =~= vstd::bytes::spec_u32_to_le_bytes(t.signers.len() as u32));
    assert(s.subrange(77, 77 + 33 * n) =~= signers_flat(t.signers));
    assert forall|i: int| 0 <= i < n implies spec_key_at(s, 77 + 33 * i) == t.signers[i].0 && s[77
        + 33 * i + 32] == spec_bool_byte(t.signers[i].1) by {
        lemma_signers_flat_index(t.signers, i);
        assert(spec_key_at(s, 77 + 33 * i) =~= signers_flat(t.signers).subrange(
            33 * i,
            33 * i + 32,
        ));
        assert(s[77 + 33 * i + 32] == signers_flat(t.signers)[33 * i + 32]);
    }
    assert forall|q: int| 0 <= q < n implies !(#[trigger] s[TRANSACTION_HEADER_LEN + 33 * q + 32]
        > 1) by {
        lemma_signers_flat_index(t.signers, q);
        assert(s[77 + 33 * q + 32] == signers_flat(t.signers)[33 * q + 32]);
    }
    let got = spec_unpack_transaction(s);
    assert(got is Some);
    assert(got.unwrap().signers =~= t.signers);
    assert(got.unwrap() =~= t);
}

/// Law: the fixed-length encoding decodes back to the proposal it came from.
pub proof fn lemma_transaction_pack_round_trip(t: TransactionView)
    requires
        t.encodable(),
    ensures
        spec_unpack_transaction(spec_pack_transaction(t)) == Some(t),
{
    lemma_signers_flat_len(t.signers);
    lemma_transaction_round_trip(
        t,
        zero_bytes((TRANSACTION_LEN - spec_transaction_bytes_used(t).len()) as nat),
    );
}

/// Whatever a Custody Account buffer decodes to has 32-byte identifiers and
/// list lengths that fit the fixed identifier region.
pub proof fn lemma_unpack_account_valid(s: Seq<u8>)
    ensures
        spec_unpack_account(s) matches Some(a) ==> keys_wf(a.owners) && keys_wf(
            a.pending_transactions,
        ) && 32 * a.owners.len() + 32 * a.pending_transactions.len() <= ACCOUNT_LEN
            - ACCOUNT_HEADER_LEN,
{
    if spec_unpack_account(s) is Some {
        let a = spec_unpack_account(s).unwrap();
        assert forall|i: int| 0 <= i < a.owners.len() implies (#[trigger] a.owners[i]).len()
            == 32 by {
            assert(a.owners[i] == spec_key_at(s, ACCOUNT_HEADER_LEN + 32 * i));
        }
        assert forall|i: int| 0 <= i < a.pending_transactions.len() implies (
        #[trigger] a.pending_transactions[i]).len() == 32 by {
            assert(a.pending_transactions[i] == spec_key_at(
                s,
                ACCOUNT_HEADER_LEN + 32 * a.owners.len() + 32 * i,
            ));
        }
    }
}

/// Whatever a Transfer Proposal buffer decodes to has 32-byte identifiers
/// and a signer count that fits the fixed signer region.
pub proof fn lemma_unpack_transaction_valid(s: Seq<u8>)
    ensures
        spec_unpack_transaction(s) matches Some(t) ==> signers_wf(t.signers) && 33 * t.signers.len()
            <= TRANSACTION_LEN - TRANSACTION_HEADER_LEN && t.multisig.len() == 32
            && t.recipient.len() == 32,
{
    if spec_unpack_transaction(s) is Some {
        let t = spec_unpack_transaction(s).unwrap();
        assert forall|i: int| 0 <= i < t.signers.len() implies (#[trigger] t.signers[i]).0.len()
            == 32 by {
            assert(t.signers[i].0 == spec_key_at(s, TRANSACTION_HEADER_LEN + 33 * i));
        }
    }
}

/// Law: decoding recovers exactly the record that was encoded, whatever
/// bytes follow the encoded region — the decoder trusts only the declared
/// length fields.
pub proof fn lemma_account_round_trip(a: AccountView, tail: Seq<u8>)
    requires
        a.encodable(),
        spec_account_bytes_used(a).len() + tail.len() >= ACCOUNT_LEN,
    ensures
        spec_unpack_account(spec_account_bytes_used(a) + tail) == Some(a),
{
    lemma_keys_flat_len(a.owners);
    lemma_keys_flat_len(a.pending_transactions);
    vstd::bytes::lemma_auto_spec_u32_to_from_le_bytes();
    vstd::bytes::lemma_auto_spec_u64_to_from_le_bytes();
    let o = a.owners.len() as int;
    let p = a.pending_transactions.len() as int;
    let s = spec_account_bytes_used(a) + tail;
    assert(s[0] == spec_bool_byte(a.is_initialized));
    assert(s.subrange(1, 5) =~= vstd::bytes::spec_u32_to_le_bytes(a.threshold));
    assert(s.subrange(5, 13) =~= vstd::bytes::spec_u64_to_le_bytes(a.frozen_amount));
    assert(s.subrange(13, 17) =~= vstd::bytes::spec_u32_to_le_bytes(a.owners.len() as u32));
    assert(s.subrange(17, 21) =~= vstd::bytes::spec_u32_to_le_bytes(
        a.pending_transactions.len() as u32,
    ));
    assert(s.subrange(21, 21 + 32 * o) =~= keys_flat(a.owners));
    assert(s.subrange(21 + 32 * o, 21 + 32 * o + 32 * p) =~= keys_flat(a.pending_transactions));
    assert forall|i: int| 0 <= i < o implies spec_key_at(s, 21 + 32 * i) == a.owners[i] by {
        lemma_keys_flat_index(a.owners, i);
        assert(spec_key_at(s, 21 + 32 * i) =~= keys_flat(a.owners).subrange(32 * i, 32 * i + 32));
    }
    assert forall|i: int| 0 <= i < p implies spec_key_at(s, 21 + 32 * o + 32 * i)
        == a.pending_transactions[i] by {
        lemma_keys_flat_index(a.pending_transactions, i);
        assert(spec_key_at(s, 21 + 32 * o + 32 * i) =~= keys_flat(
            a.pending_transactions,
        ).subrange(32 * i, 32 * i + 32));
    }
    let got = spec_unpack_account(s);
    assert(got is Some);
    assert(got.unwrap().owners =~= a.owners);
    assert(got.unwrap().pending_transactions =~= a.pending_transactions);
    assert(got.unwrap() =~= a);
}

/// Law: the fixed-length encoding decodes back to the record it came from.
pub proof fn lemma_account_pack_round_trip(a: AccountView)
    requires
        a.encodable(),
    ensures
        spec_unpack_account(spec_pack_account(a)) == Some(a),
{
    lemma_keys_flat_len(a.owners);
    lemma_keys_flat_len(a.pending_transactions);
    lemma_account_round_trip(
        a,
        zero_bytes((ACCOUNT_LEN - spec_account_bytes_used(a).len()) as nat),
    );
}

} // verus!
