//! A threshold-signature custody library.
//!
//! A set of owner keys jointly controls a pool of funds held in a
//! deterministically addressed account; a spend executes once a quorum of
//! owners has approved it. The library holds the three layered components:
//! the binary codec for the two persisted record types and the tagged
//! operation stream, the state machine that validates and applies the three
//! operations, and the capability addressing that derives and verifies the
//! custody account's address.
//!
//! Every operation is a pure function of the current buffer bytes, the
//! request and the capability proofs: state is re-derived from bytes,
//! mutated, and re-serialized. The host that owns the buffers performs the
//! resulting writes and fund movements.

use vstd::prelude::*;

pub mod address;
pub mod builder;
pub mod codec;
pub mod error;
pub mod instruction;
pub mod key;
pub mod laws;
pub mod processor;
pub mod state;

verus! {

/// Minimum number of multisignature signers.
pub const MIN_SIGNERS: usize = 1;

/// Maximum number of multisignature signers.
pub const MAX_SIGNERS: usize = 8;

/// Maximum number of simultaneous pending transactions.
pub const MAX_TRANSACTIONS: usize = 10;

} // verus!
