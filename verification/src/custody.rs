//! Custody accounts and the movement of tokens between them.
//!
//! The escrow never moves tokens itself. It decides which movement to ask of the
//! token program, hands the request out, and is told how it ended. What the
//! token program does with a request, as far as the escrow relies on it, is
//! written down in `permitted` and `apply`: they foresee how a request ends on
//! given accounts, and replay it where no token program is at hand.

use crate::address::Address;
use vstd::prelude::*;

verus! {

/// A mint, as far as the escrow reads it.
#[derive(Clone, Copy, Debug, PartialEq, Eq)]
pub struct Mint {
    /// The mint's identity.
    pub key: Address,
    /// The precision that the mint declares.
    pub decimals: u8,
}

/// A custody account of the token program, as far as the escrow reads it.
#[derive(Clone, Copy, Debug, PartialEq, Eq)]
pub struct TokenAccount {
    /// The account's address.
    pub key: Address,
    /// The mint whose tokens the account holds.
    pub mint: Address,
    /// The authority that controls the account.
    pub owner: Address,
    /// The quantity held.
    pub amount: u64,
}

/// Who authorizes a movement.
#[derive(Clone, Copy, Debug, PartialEq, Eq, Structural)]
pub enum Signer {
    /// The user, by a signature of their own.
    User,
    /// The escrow, by the seeds of its own address: its label and this bump.
    Escrow { bump: u8 },
}

/// A movement to ask of the token program.
#[derive(Clone, Copy, Debug, PartialEq, Eq)]
pub struct TokenTransfer {
    /// The account to debit.
    pub from: Address,
    /// The account to credit.
    pub to: Address,
    /// The mint of both accounts.
    pub mint: Address,
    /// The controller of `from`, in whose name the movement is asked.
    pub authority: Address,
    /// The quantity to move, in the units of the ledger.
    pub amount: u64,
    /// The precision of the mint, which the token program checks.
    pub decimals: u8,
    /// Who authorizes the movement.
    pub signer: Signer,
}

/// How the token program answered a request.
#[derive(Clone, Copy, Debug, PartialEq, Eq, Structural)]
pub enum TransferOutcome {
    /// The amount was moved.
    Completed,
    /// Nothing was moved.
    Rejected,
}

/// Assembles the request to move `amount` from `from` to `to` in the name of
/// `authority`, with the precision that `mint` declares.
pub fn move_tokens(
    from: &TokenAccount,
    to: &TokenAccount,
    mint: &Mint,
    authority: Address,
    signer: Signer,
    amount: u64,
) -> (r: TokenTransfer)
    ensures
        r == (TokenTransfer {
            from: from.key,
            to: to.key,
            mint: mint.key,
            authority,
            amount,
            decimals: mint.decimals,
            signer,
        }),
{
    TokenTransfer {
        from: from.key,
        to: to.key,
        mint: mint.key,
        authority,
        amount,
        decimals: mint.decimals,
        signer,
    }
}

impl TokenTransfer {
    /// Whether the token program's rules let the request pass on these accounts:
    /// it names them, they hold the mint, the authority controls the source, the
    /// source holds the amount, the precision is the mint's, and the destination
    /// can hold what it receives.
    pub open spec fn permitted(self, source: TokenAccount, destination: TokenAccount, mint: Mint) -> bool {
        &&& self.from@ == source.key@
        &&& self.to@ == destination.key@
        &&& self.mint@ == mint.key@
        &&& source.mint@ == mint.key@
        &&& destination.mint@ == mint.key@
        &&& self.authority@ == source.owner@
        &&& self.decimals == mint.decimals
        &&& self.amount <= source.amount
        &&& destination.amount + self.amount <= u64::MAX
    }

    /// Whether the token program's rules let the request pass on these accounts.
    pub fn is_permitted(&self, source: &TokenAccount, destination: &TokenAccount, mint: &Mint) -> (r:
        bool)
        ensures
            r == self.permitted(*source, *destination, *mint),
    {
        self.from == source.key && self.to == destination.key && self.mint == mint.key
            && source.mint == mint.key && destination.mint == mint.key && self.authority
            == source.owner && self.decimals == mint.decimals && self.amount <= source.amount
            && self.amount <= u64::MAX - destination.amount
    }

    /// Carries the request out on the two accounts as the token program's rules
    /// have it: all of the amount moves, or nothing changes.
    pub fn apply(&self, source: &mut TokenAccount, destination: &mut TokenAccount, mint: &Mint) -> (r:
        TransferOutcome)
        ensures
            self.permitted(*old(source), *old(destination), *mint) ==> {
                &&& r == TransferOutcome::Completed
                &&& *final(source) == (TokenAccount {
                    amount: (old(source).amount - self.amount) as u64,
                    ..*old(source)
                })
                &&& *final(destination) == (TokenAccount {
                    amount: (old(destination).amount + self.amount) as u64,
                    ..*old(destination)
                })
            },
            !self.permitted(*old(source), *old(destination), *mint) ==> {
                &&& r == TransferOutcome::Rejected
                &&& *final(source) == *old(source)
                &&& *final(destination) == *old(destination)
            },
    {
        if self.is_permitted(source, destination, mint) {
            source.amount = source.amount - self.amount;
            destination.amount = destination.amount + self.amount;
            TransferOutcome::Completed
        } else {
            TransferOutcome::Rejected
        }
    }
}

} // verus!
