//! Capability addressing: the custody account of a wallet lives at an
//! address derived deterministically from the wallet's identity and the
//! program's identity, together with a collision-avoidance adjustment value
//! (the bump seed). The derived address has no discoverable private key, so
//! only the program can act with its authority. Before trusting any buffer
//! claiming to be a wallet's custody account, the processor recomputes the
//! derivation and compares.

use vstd::prelude::*;

use crate::error::ProgramError;
use crate::key::Pubkey;

verus! {

/// What the host's address derivation returns for a wallet identity and a
/// program identity: the derived address and its bump seed, or nothing in
/// the statistically improbable event that no viable bump seed exists. The
/// result depends on the two identities alone.
pub uninterp spec fn derived_address(wallet: Seq<u8>, program: Seq<u8>) -> Option<(Seq<u8>, u8)>;

/// Derives the custody account address and bump seed for a wallet.
///
/// Relies on `solana_program::pubkey::Pubkey::try_find_program_address`,
/// called with the wallet's bytes as the single seed: a deterministic,
/// one-way derivation from the wallet and program identities alone, `None`
/// exactly when no bump seed makes the derivation land off the signable-key
/// curve.
#[verifier::external_body]
pub fn get_associated_address_and_bump_seed(wallet_address: &Pubkey, program_id: &Pubkey) -> (r:
    Option<(Pubkey, u8)>)
    ensures
        match r {
            Some(p) => derived_address(wallet_address@, program_id@) == Some((p.0@, p.1)),
            None => derived_address(wallet_address@, program_id@) is None,
        },
{
    let program = solana_program::pubkey::Pubkey::new_from_array(program_id.0);
    match solana_program::pubkey::Pubkey::try_find_program_address(
        &[&wallet_address.0],
        &program,
    ) {
        Some((pda, bump)) => Some((Pubkey(pda.to_bytes()), bump)),
        None => None,
    }
}

/// Derives only the custody account address for a wallet.
pub fn get_associated_address(wallet_address: &Pubkey, program_id: &Pubkey) -> (r: Option<Pubkey>)
    ensures
        match r {
            Some(k) => derived_address(wallet_address@, program_id@) matches Some(p) && p.0 == k@,
            None => derived_address(wallet_address@, program_id@) is None,
        },
{
    match get_associated_address_and_bump_seed(wallet_address, program_id) {
        Some((k, _bump)) => Some(k),
        None => None,
    }
}

/// Whether `candidate` is the derived custody address for `wallet` under
/// `program`.
pub open spec fn spec_address_matches(candidate: Seq<u8>, wallet: Seq<u8>, program: Seq<u8>) -> bool {
    match derived_address(wallet, program) {
        Some(p) => p.0 == candidate,
        None => false,
    }
}

/// Recomputes the derivation for `wallet_address` and compares it with
/// `candidate`: the sole defense against a caller supplying an arbitrary
/// buffer as if it were the genuine custody account. Returns the bump seed
/// on agreement, an address-mismatch error on disagreement.
pub fn verify_derived_address(candidate: &Pubkey, wallet_address: &Pubkey, program_id: &Pubkey) -> (r:
    Result<u8, ProgramError>)
    ensures
        match r {
            Ok(bump) => derived_address(wallet_address@, program_id@) == Some((candidate@, bump)),
            Err(e) => e == ProgramError::InvalidSeeds && !spec_address_matches(
                candidate@,
                wallet_address@,
                program_id@,
            ),
        },
        r is Ok <==> spec_address_matches(candidate@, wallet_address@, program_id@),
{
    match get_associated_address_and_bump_seed(wallet_address, program_id) {
        Some((pda, bump)) => {
            if pda == *candidate {
                Ok(bump)
            } else {
                Err(ProgramError::InvalidSeeds)
            }
        },
        None => Err(ProgramError::InvalidSeeds),
    }
}

/// Checks that the identity an operation was addressed to is this program's
/// own configured identity.
pub fn check_program_account(program_id: &Pubkey, expected_program_id: &Pubkey) -> (r: Result<
    (),
    ProgramError,
>)
    ensures
        r is Ok <==> program_id@ == expected_program_id@,
        r is Err ==> r == Err::<(), ProgramError>(ProgramError::IncorrectProgramId),
{
    if *program_id == *expected_program_id {
        Ok(())
    } else {
        Err(ProgramError::IncorrectProgramId)
    }
}

} // verus!
