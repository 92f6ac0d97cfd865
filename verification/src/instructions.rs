//! The three operations of the escrow: `initialize`, `deposit` and `withdraw`.
//!
//! `deposit` and `withdraw` decide; they move nothing. Each hands back the
//! movement to ask of the token program together with the balance to record,
//! and `settle` records that balance only once the movement is known to have
//! completed. A refusal hands back neither, so nothing moves and nothing is
//! written.

use crate::accounts::{Deposit, Initialize, Withdraw};
use crate::address::{
    escrow_address, find_escrow_address, find_user_state_address, program_address, signer_seeds,
    user_state_address, user_state_seeds_with, view_of, view_of_found, Address,
};
use crate::custody::{move_tokens, Signer, TokenTransfer, TransferOutcome};
use crate::error::EscrowError;
use crate::state::{Escrow, UserState};
use vstd::prelude::*;

verus! {

/// What an accepted deposit or withdrawal leaves to be done.
#[derive(Clone, Copy, Debug, PartialEq, Eq)]
pub struct Pending {
    /// The movement to ask of the token program.
    pub transfer: TokenTransfer,
    /// The balance to record once the movement has completed.
    pub user_state: UserState,
}

/// What `initialize` answers on `ctx`, where `found` is the address and bump
/// found for the escrow: the configuration to write, or the refusal.
pub open spec fn initialize_outcome(ctx: Initialize, found: Option<(Seq<u8>, u8)>) -> Result<
    Escrow,
    EscrowError,
> {
    if ctx.escrow is Some {
        Err(EscrowError::AlreadyInitialized)
    } else {
        match found {
            Some((address, bump)) => if address == ctx.escrow_key@ {
                Ok(Escrow { owner: ctx.owner, mint: ctx.mint.key, bump })
            } else {
                Err(EscrowError::Unauthorized)
            },
            None => Err(EscrowError::Unauthorized),
        }
    }
}

impl Initialize {
    /// The accounts after `initialize`: with the configuration written where it
    /// is accepted, unchanged where it is refused.
    pub open spec fn after(self, found: Option<(Seq<u8>, u8)>) -> Initialize {
        match initialize_outcome(self, found) {
            Ok(escrow) => Initialize { escrow: Some(escrow), ..self },
            Err(_) => self,
        }
    }
}

/// What `deposit` answers on `ctx` and `amount`, where `escrow_address` is the
/// address derived from the configuration's bump and `user_state_found` the
/// address and bump found for the caller's balance.
pub open spec fn deposit_outcome(
    ctx: Deposit,
    escrow_address: Option<Seq<u8>>,
    user_state_found: Option<(Seq<u8>, u8)>,
    amount: u64,
) -> Result<Pending, EscrowError> {
    if !ctx.authorized(escrow_address, user_state_found) {
        Err(EscrowError::Unauthorized)
    } else if !ctx.mints_match() {
        Err(EscrowError::MintMismatch)
    } else if amount > ctx.user_ata.amount {
        Err(EscrowError::InsufficientFunds)
    } else {
        match ctx.balance().credited(amount) {
            Some(credited) => Ok(
                Pending {
                    transfer: TokenTransfer {
                        from: ctx.user_ata.key,
                        to: ctx.user_deposit.key,
                        mint: ctx.mint.key,
                        authority: ctx.user,
                        amount,
                        decimals: ctx.mint.decimals,
                        signer: Signer::User,
                    },
                    user_state: UserState { bump: user_state_found.unwrap().1, ..credited },
                },
            ),
            None => Err(EscrowError::Overflow),
        }
    }
}

/// What `withdraw` answers on `ctx` and `amount`, where `escrow_address` and
/// `user_state_address` are the addresses derived from the two stored bumps.
pub open spec fn withdraw_outcome(
    ctx: Withdraw,
    escrow_address: Option<Seq<u8>>,
    user_state_address: Option<Seq<u8>>,
    amount: u64,
) -> Result<Pending, EscrowError> {
    if !ctx.authorized(escrow_address, user_state_address) {
        Err(EscrowError::Unauthorized)
    } else if !ctx.mints_match() {
        Err(EscrowError::MintMismatch)
    } else if amount > ctx.user_state.amount {
        Err(EscrowError::InsufficientFunds)
    } else {
        Ok(
            Pending {
                transfer: TokenTransfer {
                    from: ctx.user_deposit.key,
                    to: ctx.user_ata.key,
                    mint: ctx.mint.key,
                    authority: ctx.escrow_key,
                    amount,
                    decimals: ctx.mint.decimals,
                    signer: Signer::Escrow { bump: ctx.escrow.bump },
                },
                user_state: ctx.user_state.debited(amount).unwrap(),
            },
        )
    }
}

/// Creates the escrow's configuration, once.
///
/// The configuration is written with the caller as owner, the given mint, and
/// the bump that the search for the escrow's address found. It is refused with
/// `AlreadyInitialized` where a configuration exists, and with `Unauthorized`
/// where `escrow_key` is not the address found for the escrow; a refusal leaves
/// the accounts as they were. A bump that was written derives `escrow_key`
/// again.
pub fn initialize(ctx: &mut Initialize) -> (r: Result<(), EscrowError>)
    ensures
        *final(ctx) == old(ctx).after(old(ctx).found_escrow()),
        match initialize_outcome(*old(ctx), old(ctx).found_escrow()) {
            Ok(_) => r == Ok::<(), EscrowError>(()),
            Err(e) => r == Err::<(), EscrowError>(e),
        },
        old(ctx).escrow is Some ==> r == Err::<(), EscrowError>(EscrowError::AlreadyInitialized)
            && *final(ctx) == *old(ctx),
        r is Err ==> *final(ctx) == *old(ctx),
        r is Ok ==> final(ctx).escrow is Some && program_address(
            signer_seeds(final(ctx).escrow.unwrap().bump),
            final(ctx).program_id@,
        ) == Some(final(ctx).escrow_key@),
{
    let found = find_escrow_address(&ctx.program_id);
    initialize_with(ctx, found)
}

/// `initialize`, given what the search for the escrow's address found.
pub fn initialize_with(ctx: &mut Initialize, found: Option<(Address, u8)>) -> (r: Result<
    (),
    EscrowError,
>)
    ensures
        *final(ctx) == old(ctx).after(view_of_found(found)),
        match initialize_outcome(*old(ctx), view_of_found(found)) {
            Ok(_) => r == Ok::<(), EscrowError>(()),
            Err(e) => r == Err::<(), EscrowError>(e),
        },
        old(ctx).escrow is Some ==> r == Err::<(), EscrowError>(EscrowError::AlreadyInitialized)
            && *final(ctx) == *old(ctx),
        r is Err ==> *final(ctx) == *old(ctx),
        r is Ok ==> final(ctx).escrow == Some(
            Escrow { owner: old(ctx).owner, mint: old(ctx).mint.key, bump: found.unwrap().1 },
        ),
{
    if ctx.escrow.is_some() {
        return Err(EscrowError::AlreadyInitialized);
    }
    match found {
        Some((address, bump)) => {
            if address == ctx.escrow_key {
                ctx.escrow = Some(Escrow { owner: ctx.owner, mint: ctx.mint.key, bump });
                Ok(())
            } else {
                Err(EscrowError::Unauthorized)
            }
        },
        None => Err(EscrowError::Unauthorized),
    }
}

/// Accepts or refuses a deposit of `amount` by the caller.
///
/// An accepted deposit hands back the movement from the caller's wallet to the
/// vault, signed by the caller, and the caller's balance with `amount` on top
/// and the bump found for its address. A deposit is refused with `Unauthorized`
/// where an identity or address is not the one asked for, in particular where
/// the caller is not the escrow's owner; else with `MintMismatch`; else with
/// `InsufficientFunds` where the wallet holds less than `amount`; else with
/// `Overflow` where the balance with `amount` on top would not fit its record.
pub fn deposit(ctx: &Deposit, amount: u64) -> (r: Result<Pending, EscrowError>)
    ensures
        r == deposit_outcome(*ctx, ctx.derived_escrow(), ctx.found_user_state(), amount),
        ctx.escrow.owner@ != ctx.user@ ==> r == Err::<Pending, EscrowError>(
            EscrowError::Unauthorized,
        ),
        r matches Ok(pending) ==> {
            &&& pending.user_state.amount == ctx.balance().amount + amount
            &&& pending.transfer.amount == amount
            &&& pending.transfer.decimals == ctx.mint.decimals
            &&& amount <= ctx.user_ata.amount
            &&& program_address(
                user_state_seeds_with(ctx.user@, pending.user_state.bump),
                ctx.program_id@,
            ) == Some(ctx.user_state_key@)
        },
{
    let derived = escrow_address(&ctx.program_id, ctx.escrow.bump);
    let found = find_user_state_address(&ctx.program_id, &ctx.user);
    deposit_with(ctx, derived, found, amount)
}

/// `deposit`, given the address derived from the configuration's bump and what
/// the search for the address of the caller's balance found.
pub fn deposit_with(
    ctx: &Deposit,
    escrow_address: Option<Address>,
    user_state_found: Option<(Address, u8)>,
    amount: u64,
) -> (r: Result<Pending, EscrowError>)
    ensures
        r == deposit_outcome(*ctx, view_of(escrow_address), view_of_found(user_state_found), amount),
        ctx.escrow.owner@ != ctx.user@ ==> r == Err::<Pending, EscrowError>(
            EscrowError::Unauthorized,
        ),
        r matches Ok(pending) ==> {
            &&& pending.user_state.amount == ctx.balance().amount + amount
            &&& pending.user_state.bump == user_state_found.unwrap().1
            &&& pending.transfer.amount == amount
            &&& pending.transfer.decimals == ctx.mint.decimals
            &&& amount <= ctx.user_ata.amount
            &&& pending.transfer.permitted(ctx.user_ata, ctx.user_deposit, ctx.mint)
                <==> ctx.user_deposit.amount + amount <= u64::MAX
        },
{
    let bump = match user_state_found {
        Some((_, bump)) => bump,
        None => return Err(EscrowError::Unauthorized),
    };
    if !ctx.is_authorized(&escrow_address, &user_state_found) {
        return Err(EscrowError::Unauthorized);
    }
    if !ctx.is_mint_matching() {
        return Err(EscrowError::MintMismatch);
    }
    if amount > ctx.user_ata.amount {
        return Err(EscrowError::InsufficientFunds);
    }
    let credited = match ctx.current_balance().amount.checked_add(amount) {
        Some(credited) => credited,
        None => return Err(EscrowError::Overflow),
    };
    let transfer = move_tokens(
        &ctx.user_ata,
        &ctx.user_deposit,
        &ctx.mint,
        ctx.user,
        Signer::User,
        amount,
    );
    Ok(Pending { transfer, user_state: UserState { amount: credited, bump } })
}

/// Accepts or refuses a withdrawal of `amount` by the caller.
///
/// An accepted withdrawal hands back the movement from the vault to the
/// caller's wallet, signed by the escrow with the seeds of its own address, and
/// the caller's balance with `amount` taken off. A withdrawal is refused with
/// `Unauthorized` where an identity or address is not the one asked for; else
/// with `MintMismatch`; else with `InsufficientFunds` where `amount` exceeds the
/// credited balance. No withdrawal of more than the credited balance is
/// accepted.
pub fn withdraw(ctx: &Withdraw, amount: u64) -> (r: Result<Pending, EscrowError>)
    ensures
        r == withdraw_outcome(*ctx, ctx.derived_escrow(), ctx.derived_user_state(), amount),
        amount > ctx.user_state.amount ==> r is Err,
        amount > ctx.user_state.amount && ctx.authorized(
            ctx.derived_escrow(),
            ctx.derived_user_state(),
        ) && ctx.mints_match() ==> r == Err::<Pending, EscrowError>(
            EscrowError::InsufficientFunds,
        ),
        ctx.user_ata.owner@ != ctx.user@ ==> r == Err::<Pending, EscrowError>(
            EscrowError::Unauthorized,
        ),
        ctx.derived_user_state() != Some(ctx.user_state_key@) ==> r == Err::<Pending, EscrowError>(
            EscrowError::Unauthorized,
        ),
        r matches Ok(pending) ==> {
            &&& pending.user_state.amount == ctx.user_state.amount - amount
            &&& pending.transfer.amount == amount
            &&& pending.transfer.decimals == ctx.mint.decimals
            &&& pending.transfer.signer == (Signer::Escrow { bump: ctx.escrow.bump })
            &&& program_address(signer_seeds(ctx.escrow.bump), ctx.program_id@) == Some(
                pending.transfer.authority@,
            )
        },
{
    let derived = escrow_address(&ctx.program_id, ctx.escrow.bump);
    let record = user_state_address(&ctx.program_id, &ctx.user, ctx.user_state.bump);
    withdraw_with(ctx, derived, record, amount)
}

/// `withdraw`, given the addresses derived from the two stored bumps.
pub fn withdraw_with(
    ctx: &Withdraw,
    escrow_address: Option<Address>,
    user_state_address: Option<Address>,
    amount: u64,
) -> (r: Result<Pending, EscrowError>)
    ensures
        r == withdraw_outcome(*ctx, view_of(escrow_address), view_of(user_state_address), amount),
        amount > ctx.user_state.amount ==> r is Err,
        amount > ctx.user_state.amount && ctx.authorized(
            view_of(escrow_address),
            view_of(user_state_address),
        ) && ctx.mints_match() ==> r == Err::<Pending, EscrowError>(
            EscrowError::InsufficientFunds,
        ),
        !ctx.authorized(view_of(escrow_address), view_of(user_state_address)) ==> r == Err::<
            Pending,
            EscrowError,
        >(EscrowError::Unauthorized),
        r matches Ok(pending) ==> {
            &&& pending.user_state.amount == ctx.user_state.amount - amount
            &&& pending.user_state.bump == ctx.user_state.bump
            &&& pending.transfer.amount == amount
            &&& pending.transfer.decimals == ctx.mint.decimals
            &&& pending.transfer.signer == (Signer::Escrow { bump: ctx.escrow.bump })
            &&& pending.transfer.permitted(ctx.user_deposit, ctx.user_ata, ctx.mint) <==> (amount
                <= ctx.user_deposit.amount && ctx.user_ata.amount + amount <= u64::MAX)
        },
{
    if !ctx.is_authorized(&escrow_address, &user_state_address) {
        return Err(EscrowError::Unauthorized);
    }
    if !ctx.is_mint_matching() {
        return Err(EscrowError::MintMismatch);
    }
    let debited = match ctx.user_state.amount.checked_sub(amount) {
        Some(debited) => debited,
        None => return Err(EscrowError::InsufficientFunds),
    };
    let transfer = move_tokens(
        &ctx.user_deposit,
        &ctx.user_ata,
        &ctx.mint,
        ctx.escrow_key,
        Signer::Escrow { bump: ctx.escrow.bump },
        amount,
    );
    Ok(Pending { transfer, user_state: UserState { amount: debited, bump: ctx.user_state.bump } })
}

impl Deposit {
    /// The accounts once the token program has answered: with the pending
    /// balance recorded where the movement completed, unchanged where it was
    /// rejected.
    pub open spec fn settled(self, pending: Pending, outcome: TransferOutcome) -> Deposit {
        match outcome {
            TransferOutcome::Completed => Deposit { user_state: Some(pending.user_state), ..self },
            TransferOutcome::Rejected => self,
        }
    }

    /// Ends a deposit: records the pending balance if the movement completed,
    /// and fails with `TransferFailed`, leaving the accounts as they were, if it
    /// was rejected.
    pub fn settle(&mut self, pending: &Pending, outcome: TransferOutcome) -> (r: Result<
        (),
        EscrowError,
    >)
        ensures
            *final(self) == old(self).settled(*pending, outcome),
            final(self).escrow == old(self).escrow,
            outcome == TransferOutcome::Completed ==> r == Ok::<(), EscrowError>(()),
            outcome == TransferOutcome::Rejected ==> r == Err::<(), EscrowError>(
                EscrowError::TransferFailed,
            ) && *final(self) == *old(self),
    {
        match outcome {
            TransferOutcome::Completed => {
                self.user_state = Some(pending.user_state);
                Ok(())
            },
            TransferOutcome::Rejected => Err(EscrowError::TransferFailed),
        }
    }
}

impl Withdraw {
    /// The accounts once the token program has answered: with the pending
    /// balance recorded where the movement completed, unchanged where it was
    /// rejected.
    pub open spec fn settled(self, pending: Pending, outcome: TransferOutcome) -> Withdraw {
        match outcome {
            TransferOutcome::Completed => Withdraw { user_state: pending.user_state, ..self },
            TransferOutcome::Rejected => self,
        }
    }

    /// Ends a withdrawal: records the pending balance if the movement completed,
    /// and fails with `TransferFailed`, leaving the accounts as they were, if it
    /// was rejected.
    pub fn settle(&mut self, pending: &Pending, outcome: TransferOutcome) -> (r: Result<
        (),
        EscrowError,
    >)
        ensures
            *final(self) == old(self).settled(*pending, outcome),
            final(self).escrow == old(self).escrow,
            outcome == TransferOutcome::Completed ==> r == Ok::<(), EscrowError>(()),
            outcome == TransferOutcome::Rejected ==> r == Err::<(), EscrowError>(
                EscrowError::TransferFailed,
            ) && *final(self) == *old(self),
    {
        match outcome {
            TransferOutcome::Completed => {
                self.user_state = pending.user_state;
                Ok(())
            },
            TransferOutcome::Rejected => Err(EscrowError::TransferFailed),
        }
    }
}

} // verus!
