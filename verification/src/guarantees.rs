//! What holds of every operation, whatever the accounts, the amount, the
//! derived addresses and the answer of the token program.
//!
//! An operation is a request, the movement that an accepted request asks for,
//! and the settlement of that movement. The functions here put the three
//! together; the proofs say what no operation can do.

use crate::accounts::{Deposit, Initialize, Withdraw};
use crate::custody::TransferOutcome;
use crate::error::EscrowError;
use crate::instructions::{deposit_outcome, initialize_outcome, withdraw_outcome};
use crate::state::Escrow;
use vstd::prelude::*;

verus! {

/// How a movement's outcome ends the operation that asked for it.
pub open spec fn settlement(outcome: TransferOutcome) -> Result<(), EscrowError> {
    match outcome {
        TransferOutcome::Completed => Ok(()),
        TransferOutcome::Rejected => Err(EscrowError::TransferFailed),
    }
}

/// How a whole deposit ends, where `outcome` is what the token program answers
/// if it is asked.
pub open spec fn deposit_result(
    ctx: Deposit,
    escrow_address: Option<Seq<u8>>,
    user_state_found: Option<(Seq<u8>, u8)>,
    amount: u64,
    outcome: TransferOutcome,
) -> Result<(), EscrowError> {
    match deposit_outcome(ctx, escrow_address, user_state_found, amount) {
        Ok(_) => settlement(outcome),
        Err(e) => Err(e),
    }
}

/// The accounts after a whole deposit.
pub open spec fn after_deposit(
    ctx: Deposit,
    escrow_address: Option<Seq<u8>>,
    user_state_found: Option<(Seq<u8>, u8)>,
    amount: u64,
    outcome: TransferOutcome,
) -> Deposit {
    match deposit_outcome(ctx, escrow_address, user_state_found, amount) {
        Ok(pending) => ctx.settled(pending, outcome),
        Err(_) => ctx,
    }
}

/// How a whole withdrawal ends, where `outcome` is what the token program
/// answers if it is asked.
pub open spec fn withdraw_result(
    ctx: Withdraw,
    escrow_address: Option<Seq<u8>>,
    user_state_address: Option<Seq<u8>>,
    amount: u64,
    outcome: TransferOutcome,
) -> Result<(), EscrowError> {
    match withdraw_outcome(ctx, escrow_address, user_state_address, amount) {
        Ok(_) => settlement(outcome),
        Err(e) => Err(e),
    }
}

/// The accounts after a whole withdrawal.
pub open spec fn after_withdraw(
    ctx: Withdraw,
    escrow_address: Option<Seq<u8>>,
    user_state_address: Option<Seq<u8>>,
    amount: u64,
    outcome: TransferOutcome,
) -> Withdraw {
    match withdraw_outcome(ctx, escrow_address, user_state_address, amount) {
        Ok(pending) => ctx.settled(pending, outcome),
        Err(_) => ctx,
    }
}

/// Single initialization: a second `initialize` is refused with
/// `AlreadyInitialized`, whoever calls it and whatever it asks for, and leaves
/// the configuration that the first one wrote as it is.
pub proof fn initialize_twice(
    first: Initialize,
    found: Option<(Seq<u8>, u8)>,
    second: Initialize,
    found_again: Option<(Seq<u8>, u8)>,
)
    requires
        initialize_outcome(first, found) is Ok,
        second.escrow == first.after(found).escrow,
    ensures
        initialize_outcome(second, found_again) == Err::<Escrow, EscrowError>(
            EscrowError::AlreadyInitialized,
        ),
        second.after(found_again) == second,
        second.after(found_again).escrow == Some(initialize_outcome(first, found).unwrap()),
{
}

/// No overdraft: a withdrawal of more than the credited balance fails and
/// changes nothing, whatever else holds; where the accounts are in order it
/// fails with `InsufficientFunds`, and the token program is never asked.
pub proof fn no_overdraft(
    ctx: Withdraw,
    escrow_address: Option<Seq<u8>>,
    user_state_address: Option<Seq<u8>>,
    amount: u64,
    outcome: TransferOutcome,
)
    requires
        amount > ctx.user_state.amount,
    ensures
        withdraw_outcome(ctx, escrow_address, user_state_address, amount) is Err,
        withdraw_result(ctx, escrow_address, user_state_address, amount, outcome) is Err,
        after_withdraw(ctx, escrow_address, user_state_address, amount, outcome) == ctx,
        ctx.authorized(escrow_address, user_state_address) && ctx.mints_match() ==> withdraw_result(
            ctx,
            escrow_address,
            user_state_address,
            amount,
            outcome,
        ) == Err::<(), EscrowError>(EscrowError::InsufficientFunds),
{
}

/// Authorization of deposits: a deposit by anyone but the escrow's owner fails
/// with `Unauthorized` and changes nothing.
pub proof fn deposit_by_another_is_refused(
    ctx: Deposit,
    escrow_address: Option<Seq<u8>>,
    user_state_found: Option<(Seq<u8>, u8)>,
    amount: u64,
    outcome: TransferOutcome,
)
    requires
        ctx.user@ != ctx.escrow.owner@,
    ensures
        deposit_result(ctx, escrow_address, user_state_found, amount, outcome) == Err::<
            (),
            EscrowError,
        >(EscrowError::Unauthorized),
        after_deposit(ctx, escrow_address, user_state_found, amount, outcome) == ctx,
{
}

/// Authorization of withdrawals: a withdrawal by a caller for whom the balance's
/// address is not derived, or into a wallet that the caller does not control,
/// fails with `Unauthorized` and changes nothing.
pub proof fn withdrawal_by_another_is_refused(
    ctx: Withdraw,
    escrow_address: Option<Seq<u8>>,
    user_state_address: Option<Seq<u8>>,
    amount: u64,
    outcome: TransferOutcome,
)
    requires
        user_state_address != Some(ctx.user_state_key@) || ctx.user_ata.owner@ != ctx.user@,
    ensures
        withdraw_result(ctx, escrow_address, user_state_address, amount, outcome) == Err::<
            (),
            EscrowError,
        >(EscrowError::Unauthorized),
        after_withdraw(ctx, escrow_address, user_state_address, amount, outcome) == ctx,
{
}

/// Atomicity of deposits: a deposit that fails, for whatever reason, leaves the
/// accounts as they were; one whose movement is rejected fails.
pub proof fn failed_deposit_changes_nothing(
    ctx: Deposit,
    escrow_address: Option<Seq<u8>>,
    user_state_found: Option<(Seq<u8>, u8)>,
    amount: u64,
    outcome: TransferOutcome,
)
    ensures
        deposit_result(ctx, escrow_address, user_state_found, amount, outcome) is Err
            ==> after_deposit(ctx, escrow_address, user_state_found, amount, outcome) == ctx,
        outcome == TransferOutcome::Rejected ==> deposit_result(
            ctx,
            escrow_address,
            user_state_found,
            amount,
            outcome,
        ) is Err,
        outcome == TransferOutcome::Rejected && deposit_outcome(
            ctx,
            escrow_address,
            user_state_found,
            amount,
        ) is Ok ==> deposit_result(ctx, escrow_address, user_state_found, amount, outcome) == Err::<
            (),
            EscrowError,
        >(EscrowError::TransferFailed),
{
}

/// Atomicity of withdrawals: a withdrawal that fails, for whatever reason,
/// leaves the accounts as they were; one whose movement is rejected fails.
pub proof fn failed_withdrawal_changes_nothing(
    ctx: Withdraw,
    escrow_address: Option<Seq<u8>>,
    user_state_address: Option<Seq<u8>>,
    amount: u64,
    outcome: TransferOutcome,
)
    ensures
        withdraw_result(ctx, escrow_address, user_state_address, amount, outcome) is Err
            ==> after_withdraw(ctx, escrow_address, user_state_address, amount, outcome) == ctx,
        outcome == TransferOutcome::Rejected ==> withdraw_result(
            ctx,
            escrow_address,
            user_state_address,
            amount,
            outcome,
        ) is Err,
        outcome == TransferOutcome::Rejected && withdraw_outcome(
            ctx,
            escrow_address,
            user_state_address,
            amount,
        ) is Ok ==> withdraw_result(ctx, escrow_address, user_state_address, amount, outcome)
            == Err::<(), EscrowError>(EscrowError::TransferFailed),
{
}

/// A deposit that succeeds credits exactly the amount that it asked the token
/// program to move into the vault, and changes nothing else.
pub proof fn deposit_credits_what_it_moves(
    ctx: Deposit,
    escrow_address: Option<Seq<u8>>,
    user_state_found: Option<(Seq<u8>, u8)>,
    amount: u64,
    outcome: TransferOutcome,
)
    requires
        deposit_result(ctx, escrow_address, user_state_found, amount, outcome) is Ok,
    ensures
        outcome == TransferOutcome::Completed,
        amount <= ctx.user_ata.amount,
        deposit_outcome(ctx, escrow_address, user_state_found, amount) matches Ok(pending) && {
            let after = after_deposit(ctx, escrow_address, user_state_found, amount, outcome);
            &&& pending.transfer.amount == amount
            &&& pending.transfer.from == ctx.user_ata.key
            &&& pending.transfer.to == ctx.user_deposit.key
            &&& after.balance().amount == ctx.balance().amount + amount
            &&& after == Deposit { user_state: after.user_state, ..ctx }
        },
{
}

/// A withdrawal that succeeds takes off exactly the amount that it asked the
/// token program to move out of the vault, and changes nothing else.
pub proof fn withdrawal_debits_what_it_moves(
    ctx: Withdraw,
    escrow_address: Option<Seq<u8>>,
    user_state_address: Option<Seq<u8>>,
    amount: u64,
    outcome: TransferOutcome,
)
    requires
        withdraw_result(ctx, escrow_address, user_state_address, amount, outcome) is Ok,
    ensures
        outcome == TransferOutcome::Completed,
        amount <= ctx.user_state.amount,
        withdraw_outcome(ctx, escrow_address, user_state_address, amount) matches Ok(pending) && {
            let after = after_withdraw(ctx, escrow_address, user_state_address, amount, outcome);
            &&& pending.transfer.amount == amount
            &&& pending.transfer.from == ctx.user_deposit.key
            &&& pending.transfer.to == ctx.user_ata.key
            &&& after.user_state.amount == ctx.user_state.amount - amount
            &&& after == Withdraw { user_state: after.user_state, ..ctx }
        },
{
}

/// Custody covers credit: where the vault holds at least the caller's balance
/// and can hold the deposit, the movement that an accepted deposit asks for is
/// one that the token program's rules let pass, and the vault that received it
/// holds at least the new balance.
pub proof fn deposit_keeps_the_balance_covered(
    ctx: Deposit,
    escrow_address: Option<Seq<u8>>,
    user_state_found: Option<(Seq<u8>, u8)>,
    amount: u64,
)
    requires
        ctx.balance().amount <= ctx.user_deposit.amount,
        ctx.user_deposit.amount + amount <= u64::MAX,
        deposit_outcome(ctx, escrow_address, user_state_found, amount) is Ok,
    ensures
        deposit_outcome(ctx, escrow_address, user_state_found, amount) matches Ok(pending) && {
            &&& pending.transfer.permitted(ctx.user_ata, ctx.user_deposit, ctx.mint)
            &&& pending.user_state.amount <= ctx.user_deposit.amount + pending.transfer.amount
        },
{
}

/// Custody covers credit: where the vault holds at least the caller's balance
/// and the wallet can hold the withdrawal, the movement that an accepted
/// withdrawal asks for is one that the token program's rules let pass, and the
/// vault that paid it holds at least the new balance.
pub proof fn withdrawal_keeps_the_balance_covered(
    ctx: Withdraw,
    escrow_address: Option<Seq<u8>>,
    user_state_address: Option<Seq<u8>>,
    amount: u64,
)
    requires
        ctx.user_state.amount <= ctx.user_deposit.amount,
        ctx.user_ata.amount + amount <= u64::MAX,
        withdraw_outcome(ctx, escrow_address, user_state_address, amount) is Ok,
    ensures
        withdraw_outcome(ctx, escrow_address, user_state_address, amount) matches Ok(pending) && {
            &&& pending.transfer.permitted(ctx.user_deposit, ctx.user_ata, ctx.mint)
            &&& pending.user_state.amount <= ctx.user_deposit.amount - pending.transfer.amount
        },
{
}

} // verus!
