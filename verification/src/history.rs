//! Histories of one user's balance, and the conservation of what was credited.

use crate::accounts::{Deposit, Withdraw};
use crate::custody::TransferOutcome;
use crate::instructions::{deposit_outcome, withdraw_outcome};
use crate::state::UserState;
use vstd::prelude::*;

verus! {

/// An operation of a user that was accepted and whose movement completed.
#[derive(Clone, Copy, Debug, PartialEq, Eq)]
pub enum Movement {
    /// A deposit of the amount.
    Deposit(u64),
    /// A withdrawal of the amount.
    Withdrawal(u64),
}

/// The balance that `movement` leaves of `balance`; `None` where it cannot take
/// place.
pub open spec fn step(balance: UserState, movement: Movement) -> Option<UserState> {
    match movement {
        Movement::Deposit(amount) => balance.credited(amount),
        Movement::Withdrawal(amount) => balance.debited(amount),
    }
}

/// The balance of a user who was never credited before, after the movements of
/// `history` in their order; `None` where one of them cannot take place.
pub open spec fn balance_after(history: Seq<Movement>) -> Option<UserState>
    decreases history.len(),
{
    if history.len() == 0 {
        Some(UserState { amount: 0, bump: 0 })
    } else {
        match balance_after(history.drop_last()) {
            Some(balance) => step(balance, history.last()),
            None => None,
        }
    }
}

/// The sum of the deposits of `history`.
pub open spec fn total_deposited(history: Seq<Movement>) -> nat
    decreases history.len(),
{
    if history.len() == 0 {
        0
    } else {
        total_deposited(history.drop_last()) + match history.last() {
            Movement::Deposit(amount) => amount as nat,
            Movement::Withdrawal(_) => 0,
        }
    }
}

/// The sum of the withdrawals of `history`.
pub open spec fn total_withdrawn(history: Seq<Movement>) -> nat
    decreases history.len(),
{
    if history.len() == 0 {
        0
    } else {
        total_withdrawn(history.drop_last()) + match history.last() {
            Movement::Deposit(_) => 0,
            Movement::Withdrawal(amount) => amount as nat,
        }
    }
}

/// Every history that led to some movement was itself possible up to any
/// earlier point.
pub proof fn earlier_balance_exists(history: Seq<Movement>, point: int)
    requires
        balance_after(history) is Some,
        0 <= point <= history.len(),
    ensures
        balance_after(history.take(point)) is Some,
    decreases history.len(),
{
    if point == history.len() {
        assert(history.take(point) =~= history);
    } else {
        assert(history.drop_last().take(point) =~= history.take(point));
        earlier_balance_exists(history.drop_last(), point);
    }
}

/// Conservation: after any history of completed deposits and withdrawals the
/// balance is what was deposited less what was withdrawn, so no more was ever
/// withdrawn than deposited.
pub proof fn conservation(history: Seq<Movement>)
    requires
        balance_after(history) is Some,
    ensures
        balance_after(history).unwrap().amount == total_deposited(history) - total_withdrawn(
            history,
        ),
        total_withdrawn(history) <= total_deposited(history),
    decreases history.len(),
{
    if history.len() > 0 {
        conservation(history.drop_last());
    }
}

/// Conservation holds at every point of a history, not only at its end.
pub proof fn conservation_at(history: Seq<Movement>, point: int)
    requires
        balance_after(history) is Some,
        0 <= point <= history.len(),
    ensures
        balance_after(history.take(point)) is Some,
        balance_after(history.take(point)).unwrap().amount == total_deposited(history.take(point))
            - total_withdrawn(history.take(point)),
        total_withdrawn(history.take(point)) <= total_deposited(history.take(point)),
{
    earlier_balance_exists(history, point);
    conservation(history.take(point));
}

/// A deposit that was accepted and whose movement completed adds one deposit to
/// the history of the caller's balance.
pub proof fn deposit_extends_history(
    ctx: Deposit,
    escrow_address: Option<Seq<u8>>,
    user_state_found: Option<(Seq<u8>, u8)>,
    amount: u64,
    history: Seq<Movement>,
)
    requires
        balance_after(history) is Some,
        balance_after(history).unwrap().amount == ctx.balance().amount,
        deposit_outcome(ctx, escrow_address, user_state_found, amount) is Ok,
    ensures
        balance_after(history.push(Movement::Deposit(amount))) is Some,
        balance_after(history.push(Movement::Deposit(amount))).unwrap().amount == ctx.settled(
            deposit_outcome(ctx, escrow_address, user_state_found, amount).unwrap(),
            TransferOutcome::Completed,
        ).balance().amount,
{
    let longer = history.push(Movement::Deposit(amount));
    assert(longer.drop_last() =~= history);
}

/// A withdrawal that was accepted and whose movement completed adds one
/// withdrawal to the history of the caller's balance.
pub proof fn withdrawal_extends_history(
    ctx: Withdraw,
    escrow_address: Option<Seq<u8>>,
    user_state_address: Option<Seq<u8>>,
    amount: u64,
    history: Seq<Movement>,
)
    requires
        balance_after(history) is Some,
        balance_after(history).unwrap().amount == ctx.user_state.amount,
        withdraw_outcome(ctx, escrow_address, user_state_address, amount) is Ok,
    ensures
        balance_after(history.push(Movement::Withdrawal(amount))) is Some,
        balance_after(history.push(Movement::Withdrawal(amount))).unwrap().amount == ctx.settled(
            withdraw_outcome(ctx, escrow_address, user_state_address, amount).unwrap(),
            TransferOutcome::Completed,
        ).user_state.amount,
{
    let longer = history.push(Movement::Withdrawal(amount));
    assert(longer.drop_last() =~= history);
}

} // verus!
