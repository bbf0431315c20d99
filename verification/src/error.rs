//! Error types: every failed precondition aborts the whole operation with a
//! terminal, caller-visible error that names what went wrong.

use vstd::prelude::*;

verus! {

/// Errors specific to the custody rules.
#[derive(Clone, Copy, Debug, PartialEq, Eq, Structural)]
pub enum MultisigError {
    /// A custody account already holds the maximum number of pending transfers.
    PendingTransactionLimit,
    /// The owner list of a new custody account is empty or too long.
    CustodianLimit,
    /// The referenced transfer proposal is not in the custody account's pending list.
    UndefinedTransaction,
    /// The referenced transfer proposal has already been executed.
    TransactionAlreadyExecuted,
    /// The approving signer is not an owner of the custody account.
    InvalidCustodian,
    /// The requested amount does not fit in the unfrozen balance.
    InsufficientBalance,
    /// An amount computation would overflow.
    AmountOverflow,
}

/// Errors an operation can abort with: host-level failures plus the custody
/// rules' own errors.
#[derive(Clone, Copy, Debug, PartialEq, Eq, Structural)]
pub enum ProgramError {
    /// A required party did not co-sign the operation.
    MissingRequiredSignature,
    /// A buffer's address does not match its claimed derivation.
    InvalidSeeds,
    /// The operation request is malformed or truncated.
    InvalidInstructionData,
    /// A record buffer is malformed or inconsistent.
    InvalidAccountData,
    /// The custody account buffer does not hold an initialized record.
    UninitializedAccount,
    /// The target buffer already holds an initialized record.
    AccountAlreadyInitialized,
    /// The signing wallet does not own the referenced custody account.
    IllegalOwner,
    /// The operation names fewer accounts than it consumes.
    NotEnoughAccountKeys,
    /// The operation was addressed to a different program.
    IncorrectProgramId,
    /// A custody-rule error.
    Custom(MultisigError),
}

impl core::convert::From<MultisigError> for ProgramError {
    fn from(e: MultisigError) -> (r: ProgramError) {
        ProgramError::Custom(e)
    }
}

impl vstd::std_specs::convert::FromSpecImpl<MultisigError> for ProgramError {
    open spec fn obeys_from_spec() -> bool {
        true
    }

    open spec fn from_spec(e: MultisigError) -> ProgramError {
        ProgramError::Custom(e)
    }
}

} // verus!
