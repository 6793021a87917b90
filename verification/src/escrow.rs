//! The escrow record and its three operations: create, release, cancel.

use vstd::prelude::*;

verus! {

/// The identity of a party on the host ledger. The escrow logic reads an
/// identity only up to equality; the ledger adapter binds it to a real
/// account.
#[derive(Clone, Copy, PartialEq, Eq, Structural, Debug)]
pub struct Identity {
    pub id: u64,
}

/// The persisted state of one escrow instance. `initializer`, `recipient`
/// and `amount` are fixed at creation; `released` moves from `false` to
/// `true` exactly once, when the escrow settles.
#[derive(Clone, Copy, PartialEq, Eq, Structural, Debug)]
pub struct EscrowState {
    pub initializer: Identity,
    pub recipient: Identity,
    pub amount: u64,
    pub released: bool,
}

/// Why an operation was refused. Every failure is terminal for the attempt
/// and leaves the record and all balances unchanged.
#[derive(Clone, Copy, PartialEq, Eq, Structural, Debug)]
pub enum EscrowError {
    /// The caller is not the recorded initializer.
    Unauthorized,
    /// The record is already settled.
    AlreadyReleased,
    /// A balance is too low to cover the required debit.
    InsufficientFunds,
    /// The credit would overflow the destination balance.
    LamportOverflow,
}

impl EscrowError {
    /// The user-visible text of each refusal.
    pub fn message(&self) -> (m: &'static str)
        ensures
            m@ == match *self {
                EscrowError::Unauthorized => "Unauthorized action"@,
                EscrowError::AlreadyReleased => "Escrow already released"@,
                EscrowError::InsufficientFunds => "Insufficient funds in escrow"@,
                EscrowError::LamportOverflow => "Lamport arithmetic overflow"@,
            },
    {
        match *self {
            EscrowError::Unauthorized => "Unauthorized action",
            EscrowError::AlreadyReleased => "Escrow already released",
            EscrowError::InsufficientFunds => "Insufficient funds in escrow",
            EscrowError::LamportOverflow => "Lamport arithmetic overflow",
        }
    }
}

/// The record `create_escrow` builds.
pub open spec fn created_record(initializer: Identity, recipient: Identity, amount: u64) -> EscrowState {
    EscrowState { initializer, recipient, amount, released: false }
}

/// Whether creation must be refused, and with which error: the depositor
/// must be able to cover the deposit.
pub open spec fn create_check(initializer_balance: u64, amount: u64) -> Option<EscrowError> {
    if initializer_balance < amount {
        Some(EscrowError::InsufficientFunds)
    } else {
        None
    }
}

/// The accounts `create_escrow` works on.
#[derive(Clone, Copy, PartialEq, Eq, Structural, Debug)]
pub struct CreateEscrow {
    /// The depositor: the identity the ledger adapter verified as having
    /// authorized this call.
    pub initializer: Identity,
    /// The depositor's balance.
    pub initializer_balance: u64,
    /// Storage for the new record, freshly allocated by the ledger adapter.
    pub escrow: EscrowState,
    /// The balance of the freshly allocated custodial account.
    pub escrow_balance: u64,
}

/// Create an escrow record and move `amount` from the depositor into the
/// custodial account, as one all-or-nothing step.
///
/// The ledger adapter has already allocated the custodial account (it
/// rejects a duplicate creation at the same address) and verified that
/// `ctx.initializer` signed the call; storage fees are its concern too.
pub fn create_escrow(ctx: &mut CreateEscrow, recipient: Identity, amount: u64) -> (r: Result<(), EscrowError>)
    requires
        old(ctx).escrow_balance == 0,
    ensures
        ({
            let pre = *old(ctx);
            let post = *final(ctx);
            match r {
                Ok(()) => {
                    &&& create_check(pre.initializer_balance, amount) is None
                    &&& post.escrow == created_record(pre.initializer, recipient, amount)
                    &&& post.escrow_balance == amount
                    &&& post.initializer_balance == pre.initializer_balance - amount
                    &&& post.initializer == pre.initializer
                },
                Err(e) => {
                    &&& Some(e) == create_check(pre.initializer_balance, amount)
                    &&& post == pre
                },
            }
        }),
{
    let debited = match ctx.initializer_balance.checked_sub(amount) {
        Some(v) => v,
        None => {
            return Err(EscrowError::InsufficientFunds);
        },
    };
    ctx.escrow = EscrowState {
        initializer: ctx.initializer,
        recipient,
        amount,
        released: false,
    };
    ctx.initializer_balance = debited;
    ctx.escrow_balance = ctx.escrow_balance + amount;
    Ok(())
}

/// Whether a settling operation (release or cancel) must be refused, and
/// with which error. `dest_balance` is the balance the held amount would be
/// credited to: the recipient's for release, the initializer's for cancel.
/// The guards short-circuit in this order: settled record first, then the
/// caller, then the transfer itself.
pub open spec fn settle_check(escrow: EscrowState, caller: Identity, escrow_balance: u64, dest_balance: u64) -> Option<EscrowError> {
    if escrow.released {
        Some(EscrowError::AlreadyReleased)
    } else if caller != escrow.initializer {
        Some(EscrowError::Unauthorized)
    } else if escrow_balance < escrow.amount {
        Some(EscrowError::InsufficientFunds)
    } else if dest_balance + escrow.amount > u64::MAX {
        Some(EscrowError::LamportOverflow)
    } else {
        None
    }
}

/// The record after it settles: only the `released` flag moves.
pub open spec fn settled_record(escrow: EscrowState) -> EscrowState {
    EscrowState { released: true, ..escrow }
}

/// The accounts `release` works on.
#[derive(Clone, Copy, PartialEq, Eq, Structural, Debug)]
pub struct Release {
    /// The escrow record being settled.
    pub escrow: EscrowState,
    /// The custodial account's balance.
    pub escrow_balance: u64,
    /// The balance of the account of the record's recipient; the ledger
    /// adapter binds it before the call.
    pub recipient_balance: u64,
    /// The identity the ledger adapter verified as having authorized this
    /// call. Only the recorded initializer passes the guard.
    pub initializer: Identity,
}

/// The accounts `cancel` works on.
#[derive(Clone, Copy, PartialEq, Eq, Structural, Debug)]
pub struct Cancel {
    /// The escrow record being settled.
    pub escrow: EscrowState,
    /// The custodial account's balance.
    pub escrow_balance: u64,
    /// The identity the ledger adapter verified as having authorized this
    /// call; it also receives the refund.
    pub initializer: Identity,
    /// The balance of the recorded initializer's account.
    pub initializer_balance: u64,
}

/// Release the held amount to the recipient. Only the recorded initializer
/// may call, and only while the record is not yet settled.
///
/// The guards read the pre-call record; the transfer and the `released` flag
/// are one all-or-nothing step, so a refused transfer leaves the flag down.
pub fn release(ctx: &mut Release) -> (r: Result<(), EscrowError>)
    ensures
        ({
            let pre = *old(ctx);
            let post = *final(ctx);
            match r {
                Ok(()) => {
                    &&& settle_check(pre.escrow, pre.initializer, pre.escrow_balance, pre.recipient_balance) is None
                    &&& post.escrow == settled_record(pre.escrow)
                    &&& post.escrow_balance == pre.escrow_balance - pre.escrow.amount
                    &&& post.recipient_balance == pre.recipient_balance + pre.escrow.amount
                    &&& post.initializer == pre.initializer
                },
                Err(e) => {
                    &&& Some(e) == settle_check(pre.escrow, pre.initializer, pre.escrow_balance, pre.recipient_balance)
                    &&& post == pre
                },
            }
        }),
{
    if ctx.escrow.released {
        return Err(EscrowError::AlreadyReleased);
    }
    if ctx.initializer != ctx.escrow.initializer {
        return Err(EscrowError::Unauthorized);
    }
    let amount = ctx.escrow.amount;
    let debited = match ctx.escrow_balance.checked_sub(amount) {
        Some(v) => v,
        None => {
            return Err(EscrowError::InsufficientFunds);
        },
    };
    let credited = match ctx.recipient_balance.checked_add(amount) {
        Some(v) => v,
        None => {
            return Err(EscrowError::LamportOverflow);
        },
    };
    ctx.escrow_balance = debited;
    ctx.recipient_balance = credited;
    ctx.escrow.released = true;
    Ok(())
}

/// Cancel the escrow and refund the held amount to the initializer. Only the
/// recorded initializer may call, and only while the record is not yet
/// settled.
///
/// The record is handed back settled; reclaiming its storage (and sweeping
/// any residual balance to the initializer) is the ledger adapter's step,
/// taken only after this one succeeds.
pub fn cancel(ctx: &mut Cancel) -> (r: Result<(), EscrowError>)
    ensures
        ({
            let pre = *old(ctx);
            let post = *final(ctx);
            match r {
                Ok(()) => {
                    &&& settle_check(pre.escrow, pre.initializer, pre.escrow_balance, pre.initializer_balance) is None
                    &&& post.escrow == settled_record(pre.escrow)
                    &&& post.escrow_balance == pre.escrow_balance - pre.escrow.amount
                    &&& post.initializer_balance == pre.initializer_balance + pre.escrow.amount
                    &&& post.initializer == pre.initializer
                },
                Err(e) => {
                    &&& Some(e) == settle_check(pre.escrow, pre.initializer, pre.escrow_balance, pre.initializer_balance)
                    &&& post == pre
                },
            }
        }),
{
    if ctx.escrow.released {
        return Err(EscrowError::AlreadyReleased);
    }
    if ctx.initializer != ctx.escrow.initializer {
        return Err(EscrowError::Unauthorized);
    }
    let amount = ctx.escrow.amount;
    let debited = match ctx.escrow_balance.checked_sub(amount) {
        Some(v) => v,
        None => {
            return Err(EscrowError::InsufficientFunds);
        },
    };
    let credited = match ctx.initializer_balance.checked_add(amount) {
        Some(v) => v,
        None => {
            return Err(EscrowError::LamportOverflow);
        },
    };
    ctx.escrow_balance = debited;
    ctx.initializer_balance = credited;
    ctx.escrow.released = true;
    Ok(())
}

} // verus!
