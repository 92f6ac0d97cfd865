//! The records that the escrow persists.

use crate::address::Address;
use vstd::prelude::*;

verus! {

/// The escrow's configuration: one per deployment, written once.
#[derive(Clone, Copy, Debug, PartialEq, Eq)]
pub struct Escrow {
    /// The administrator who initialized the escrow.
    pub owner: Address,
    /// The one mint that the escrow holds in custody.
    pub mint: Address,
    /// The bump from which the escrow's own address is recomputed.
    pub bump: u8,
}

impl Default for Escrow {
    fn default() -> (r: Escrow)
        ensures
            r.owner@ == Seq::new(32, |i: int| 0u8),
            r.mint@ == Seq::new(32, |i: int| 0u8),
            r.bump == 0,
    {
        Escrow { owner: Address::default(), mint: Address::default(), bump: 0 }
    }
}

/// What one user is credited with inside the escrow's custody.
#[derive(Clone, Copy, Debug, PartialEq, Eq, Structural)]
pub struct UserState {
    /// The credited quantity of the mint.
    pub amount: u64,
    /// The bump from which the record's address is recomputed.
    pub bump: u8,
}

impl Default for UserState {
    /// The record of a user who was never credited.
    fn default() -> (r: UserState)
        ensures
            r == (UserState { amount: 0, bump: 0 }),
    {
        UserState { amount: 0, bump: 0 }
    }
}

impl UserState {
    /// The record after `amount` more is credited; `None` where the balance
    /// would not fit.
    pub open spec fn credited(self, amount: u64) -> Option<UserState> {
        if self.amount + amount <= u64::MAX {
            Some(UserState { amount: (self.amount + amount) as u64, bump: self.bump })
        } else {
            None
        }
    }

    /// The record after `amount` is taken off; `None` where more is asked for
    /// than is credited.
    pub open spec fn debited(self, amount: u64) -> Option<UserState> {
        if amount <= self.amount {
            Some(UserState { amount: (self.amount - amount) as u64, bump: self.bump })
        } else {
            None
        }
    }
}

} // verus!
