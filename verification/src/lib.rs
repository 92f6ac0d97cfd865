//! A custodial escrow ledger for one mint under one administrative owner.
//!
//! The escrow holds tokens on behalf of its depositors and lets each of them
//! withdraw what they are credited with, and no more. This crate is the
//! ledger's state machine: the records, the rules that gate every change of a
//! balance, and the requests that move tokens into and out of custody. The
//! token program that carries those requests out, and the storage of the
//! records, are the caller's.

pub mod accounts;
pub mod address;
pub mod custody;
pub mod error;
pub mod guarantees;
pub mod history;
pub mod instructions;
pub mod state;

pub use crate::accounts::{Deposit, Initialize, Withdraw};
pub use crate::address::Address;
pub use crate::custody::{Mint, Signer, TokenAccount, TokenTransfer, TransferOutcome};
pub use crate::error::EscrowError;
pub use crate::instructions::{deposit, initialize, withdraw, Pending};
pub use crate::state::{Escrow, UserState};
