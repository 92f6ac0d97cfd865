//! The ways in which an operation of the escrow fails.

use vstd::prelude::*;

verus! {

/// Why an operation was refused. Every refusal is final for its call and leaves
/// every record as it was.
#[derive(Clone, Copy, Debug, PartialEq, Eq, Structural)]
pub enum EscrowError {
    /// The requested amount exceeds what is available: the wallet's balance on a
    /// deposit, the credited balance on a withdrawal.
    InsufficientFunds,
    /// An identity or an address is not the one that the operation asks for.
    Unauthorized,
    /// A configuration already exists.
    AlreadyInitialized,
    /// The token program rejected the movement.
    TransferFailed,
    /// A mint is not the one that the escrow was configured with.
    MintMismatch,
    /// The balance, with the deposit on top, would exceed what a record holds.
    Overflow,
}

impl EscrowError {
    /// The text shown for the error.
    pub open spec fn spec_message(self) -> Seq<char> {
        match self {
            EscrowError::InsufficientFunds => "Insufficient funds in Escrow account."@,
            EscrowError::Unauthorized => "Unauthorized access."@,
            EscrowError::AlreadyInitialized => "Escrow is already initialized."@,
            EscrowError::TransferFailed => "Token transfer failed."@,
            EscrowError::MintMismatch => "Mint does not match the escrow's mint."@,
            EscrowError::Overflow => "Balance overflow."@,
        }
    }

    /// The text shown for the error.
    pub fn message(&self) -> (r: &'static str)
        ensures
            r@ == self.spec_message(),
    {
        match self {
            EscrowError::InsufficientFunds => "Insufficient funds in Escrow account.",
            EscrowError::Unauthorized => "Unauthorized access.",
            EscrowError::AlreadyInitialized => "Escrow is already initialized.",
            EscrowError::TransferFailed => "Token transfer failed.",
            EscrowError::MintMismatch => "Mint does not match the escrow's mint.",
            EscrowError::Overflow => "Balance overflow.",
        }
    }
}

} // verus!
