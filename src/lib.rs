//! An escrow engine for hashed-timelock contracts (HTLCs).
//!
//! A sender deposits tokens under a hashlock and a timelock. The receiver
//! claims them by revealing a preimage of the hashlock; after the timelock
//! the sender may take them back. Exactly one of the two ever gets paid.
use vstd::prelude::*;

pub mod bytes;
pub mod custody;
pub mod error;
pub mod laws;
pub mod model;
pub mod program;
pub mod record;

pub use bytes::Pubkey;
pub use custody::transfer_htlc_out;
pub use error::HTLCError;
pub use program::HtlcProgram;
pub use model::Stage;
pub use record::{Commit, CommitCounter, HTLC, IdStruct, Lock, TokenAccount, Transfer, Vault};

verus! {

} // verus!
