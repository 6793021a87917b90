//! Laws of the escrow lifecycle, proved over the same spec functions the
//! operations' contracts use.
//!
//! A [`World`] is the slice of the ledger one escrow touches: the record, the
//! custodial account's balance, and the balances of the recorded initializer
//! and recipient. An [`Op`] is one attempt to settle the record — a release
//! or a cancel, by some caller. `op_check` and `op_step` say exactly what
//! [`crate::escrow::release`] and [`crate::escrow::cancel`] promise in their
//! `ensures`, restated over a whole world, so the lemmas below carry over to
//! the executable operations.

use vstd::prelude::*;
use crate::escrow::{Cancel, EscrowError, EscrowState, Identity, Release, cancel, create_check, created_record, release, settle_check, settled_record};

verus! {

/// The slice of the ledger one escrow touches.
#[derive(Clone, Copy, PartialEq, Eq, Structural, Debug)]
pub struct World {
    pub escrow: EscrowState,
    pub escrow_balance: u64,
    pub initializer_balance: u64,
    pub recipient_balance: u64,
}

/// One attempt to settle the record, by the identity that authorized it.
#[derive(Clone, Copy, PartialEq, Eq, Structural, Debug)]
pub enum Op {
    Release(Identity),
    Cancel(Identity),
}

/// The identity behind an attempt.
pub open spec fn op_caller(op: Op) -> Identity {
    match op {
        Op::Release(caller) => caller,
        Op::Cancel(caller) => caller,
    }
}

/// Whether the attempt is refused, and with which error; `None` means it
/// succeeds. Release credits the recorded recipient, cancel the recorded
/// initializer.
pub open spec fn op_check(w: World, op: Op) -> Option<EscrowError> {
    match op {
        Op::Release(caller) => settle_check(w.escrow, caller, w.escrow_balance, w.recipient_balance),
        Op::Cancel(caller) => settle_check(w.escrow, caller, w.escrow_balance, w.initializer_balance),
    }
}

/// The world after the attempt: the held amount moves and the record settles
/// when the attempt succeeds; nothing changes when it is refused.
pub open spec fn op_step(w: World, op: Op) -> World {
    if op_check(w, op) is None {
        match op {
            Op::Release(_) => World {
                escrow: settled_record(w.escrow),
                escrow_balance: (w.escrow_balance - w.escrow.amount) as u64,
                recipient_balance: (w.recipient_balance + w.escrow.amount) as u64,
                ..w
            },
            Op::Cancel(_) => World {
                escrow: settled_record(w.escrow),
                escrow_balance: (w.escrow_balance - w.escrow.amount) as u64,
                initializer_balance: (w.initializer_balance + w.escrow.amount) as u64,
                ..w
            },
        }
    } else {
        w
    }
}

/// The world after a whole sequence of attempts.
pub open spec fn run(w: World, ops: Seq<Op>) -> World
    decreases ops.len(),
{
    if ops.len() == 0 {
        w
    } else {
        run(op_step(w, ops[0]), ops.subrange(1, ops.len() as int))
    }
}

/// How many attempts in the sequence succeed.
pub open spec fn successes(w: World, ops: Seq<Op>) -> nat
    decreases ops.len(),
{
    if ops.len() == 0 {
        0
    } else {
        (if op_check(w, ops[0]) is None { 1nat } else { 0nat })
            + successes(op_step(w, ops[0]), ops.subrange(1, ops.len() as int))
    }
}

/// The value in sight of this escrow: custody plus both parties' balances.
pub open spec fn total(w: World) -> int {
    w.escrow_balance + w.initializer_balance + w.recipient_balance
}

/// The world as it stands when creation succeeds (meaningful when
/// `create_check(initializer_balance, amount) is None`): the record is
/// active, the custodial account holds exactly the amount, and the depositor
/// paid it.
pub open spec fn create_world(initializer: Identity, recipient: Identity, amount: u64, initializer_balance: u64, recipient_balance: u64) -> World {
    World {
        escrow: created_record(initializer, recipient, amount),
        escrow_balance: amount,
        initializer_balance: (initializer_balance - amount) as u64,
        recipient_balance,
    }
}

/// Make one attempt on a world: the executable operations carry out exactly
/// the step the laws are proved about.
pub fn apply(w: &mut World, op: Op) -> (r: Result<(), EscrowError>)
    ensures
        *final(w) == op_step(*old(w), op),
        r is Ok <==> op_check(*old(w), op) is None,
        r matches Err(e) ==> Some(e) == op_check(*old(w), op),
{
    match op {
        Op::Release(caller) => {
            let mut ctx = Release {
                escrow: w.escrow,
                escrow_balance: w.escrow_balance,
                recipient_balance: w.recipient_balance,
                initializer: caller,
            };
            let r = release(&mut ctx);
            w.escrow = ctx.escrow;
            w.escrow_balance = ctx.escrow_balance;
            w.recipient_balance = ctx.recipient_balance;
            r
        },
        Op::Cancel(caller) => {
            let mut ctx = Cancel {
                escrow: w.escrow,
                escrow_balance: w.escrow_balance,
                initializer: caller,
                initializer_balance: w.initializer_balance,
            };
            let r = cancel(&mut ctx);
            w.escrow = ctx.escrow;
            w.escrow_balance = ctx.escrow_balance;
            w.initializer_balance = ctx.initializer_balance;
            r
        },
    }
}

/// On a settled record every attempt fails with `AlreadyReleased` and
/// changes nothing, however long the sequence.
pub proof fn lemma_settled_is_terminal(w: World, ops: Seq<Op>)
    requires
        w.escrow.released,
    ensures
        successes(w, ops) == 0,
        run(w, ops) == w,
    decreases ops.len(),
{
    if ops.len() > 0 {
        assert(op_check(w, ops[0]) == Some(EscrowError::AlreadyReleased));
        lemma_settled_is_terminal(w, ops.subrange(1, ops.len() as int));
    }
}

/// Exclusivity: over any sequence of release and cancel attempts on one
/// record, at most one succeeds.
pub proof fn lemma_exclusivity(w: World, ops: Seq<Op>)
    ensures
        successes(w, ops) <= 1,
    decreases ops.len(),
{
    if ops.len() > 0 {
        let rest = ops.subrange(1, ops.len() as int);
        if op_check(w, ops[0]) is None {
            lemma_settled_is_terminal(op_step(w, ops[0]), rest);
        } else {
            lemma_exclusivity(op_step(w, ops[0]), rest);
        }
    }
}

/// Conservation, one step: no attempt — successful or refused — changes the
/// sum of the custodial, initializer and recipient balances.
pub proof fn lemma_step_conserves(w: World, op: Op)
    ensures
        total(op_step(w, op)) == total(w),
{
}

/// Conservation over a whole sequence of attempts.
pub proof fn lemma_run_conserves(w: World, ops: Seq<Op>)
    ensures
        total(run(w, ops)) == total(w),
    decreases ops.len(),
{
    if ops.len() > 0 {
        lemma_step_conserves(w, ops[0]);
        lemma_run_conserves(op_step(w, ops[0]), ops.subrange(1, ops.len() as int));
    }
}

/// Conservation across a whole lifetime: from the balances the parties held
/// before creation, through creation and any sequence of attempts, the sum
/// in sight of the escrow never changes.
pub proof fn lemma_lifetime_conserves(initializer: Identity, recipient: Identity, amount: u64, initializer_balance: u64, recipient_balance: u64, ops: Seq<Op>)
    requires
        create_check(initializer_balance, amount) is None,
    ensures
        total(run(create_world(initializer, recipient, amount, initializer_balance, recipient_balance), ops))
            == initializer_balance + recipient_balance,
{
    lemma_run_conserves(create_world(initializer, recipient, amount, initializer_balance, recipient_balance), ops);
}

/// Authorization: an attempt by anyone but the recorded initializer is
/// refused and changes nothing; on an active record the error is
/// `Unauthorized`. (On a settled record the settled guard answers first,
/// with `AlreadyReleased`.)
pub proof fn lemma_authorization(w: World, op: Op)
    requires
        op_caller(op) != w.escrow.initializer,
    ensures
        op_check(w, op) is Some,
        op_step(w, op) == w,
        !w.escrow.released ==> op_check(w, op) == Some(EscrowError::Unauthorized),
{
}

/// A second attempt after a success fails with `AlreadyReleased` and changes
/// nothing, whoever makes it and whichever operation it is.
pub proof fn lemma_second_attempt_fails(w: World, op1: Op, op2: Op)
    requires
        op_check(w, op1) is None,
    ensures
        op_check(op_step(w, op1), op2) == Some(EscrowError::AlreadyReleased),
        op_step(op_step(w, op1), op2) == op_step(w, op1),
{
}

/// Atomicity under failure: a refused attempt leaves the world — the record,
/// its flag, and every balance — exactly as it was.
pub proof fn lemma_failure_changes_nothing(w: World, op: Op)
    requires
        op_check(w, op) is Some,
    ensures
        op_step(w, op) == w,
{
}

/// Atomicity under transfer failure: when the guards pass but the custodial
/// account cannot cover the amount, the attempt fails with
/// `InsufficientFunds` and the record stays active.
pub proof fn lemma_failed_transfer_keeps_active(w: World, op: Op)
    requires
        !w.escrow.released,
        op_caller(op) == w.escrow.initializer,
        w.escrow_balance < w.escrow.amount,
    ensures
        op_check(w, op) == Some(EscrowError::InsufficientFunds),
        op_step(w, op) == w,
        !op_step(w, op).escrow.released,
{
}

/// Immutability of the record: no attempt changes who is involved or the
/// amount; only the `released` flag can move, and only from false to true.
pub proof fn lemma_record_fields_fixed(w: World, op: Op)
    ensures
        op_step(w, op).escrow.initializer == w.escrow.initializer,
        op_step(w, op).escrow.recipient == w.escrow.recipient,
        op_step(w, op).escrow.amount == w.escrow.amount,
        w.escrow.released ==> op_step(w, op).escrow.released,
{
}

/// Custody: while the record is active the custodial account holds exactly
/// the amount, and the step preserves that; the one successful attempt
/// empties it.
pub proof fn lemma_custody(w: World, op: Op)
    requires
        !w.escrow.released ==> w.escrow_balance == w.escrow.amount,
    ensures
        !op_step(w, op).escrow.released ==> op_step(w, op).escrow_balance == op_step(w, op).escrow.amount,
        op_check(w, op) is None ==> op_step(w, op).escrow_balance == 0,
{
}

} // verus!
