//! The general laws of the lifecycle, exercised on concrete ledgers.

use simple_escrow::escrow::{
    Cancel, CreateEscrow, EscrowError, EscrowState, Identity, Release, cancel, create_escrow,
    release,
};
use simple_escrow::laws::{Op, World, apply};

fn ident(id: u64) -> Identity {
    Identity { id }
}

fn blank_record() -> EscrowState {
    EscrowState {
        initializer: ident(0),
        recipient: ident(0),
        amount: 0,
        released: false,
    }
}

/// Exclusivity: across a record's lifetime at most one settling attempt
/// succeeds, whichever mix of release and cancel is tried.
#[test]
fn at_most_one_attempt_succeeds() {
    let mut ctx = CreateEscrow {
        initializer: ident(1),
        initializer_balance: 500,
        escrow: blank_record(),
        escrow_balance: 0,
    };
    assert_eq!(create_escrow(&mut ctx, ident(2), 200), Ok(()));

    let mut world = World {
        escrow: ctx.escrow,
        escrow_balance: ctx.escrow_balance,
        initializer_balance: ctx.initializer_balance,
        recipient_balance: 10,
    };

    // cancel by a stranger, release by the initializer, then cancel and
    // release again by the initializer
    let attempts = [
        Op::Cancel(ident(9)),
        Op::Release(ident(1)),
        Op::Cancel(ident(1)),
        Op::Release(ident(1)),
    ];
    let mut successes: u32 = 0;
    for op in attempts {
        if apply(&mut world, op).is_ok() {
            successes += 1;
        }
    }

    assert_eq!(successes, 1);
    assert_eq!(world.initializer_balance, 300);
    assert_eq!(world.recipient_balance, 210);
    assert_eq!(world.escrow_balance, 0);
    assert!(world.escrow.released);
}

/// Conservation: the sum of the custodial, initializer and recipient
/// balances is the same before creation, after creation, and after settling.
#[test]
fn balances_are_conserved() {
    let initializer_start: u64 = 350;
    let recipient_start: u64 = 20;
    let total = initializer_start + recipient_start;

    let mut ctx = CreateEscrow {
        initializer: ident(1),
        initializer_balance: initializer_start,
        escrow: blank_record(),
        escrow_balance: 0,
    };
    assert_eq!(create_escrow(&mut ctx, ident(2), 125), Ok(()));
    assert_eq!(
        ctx.initializer_balance + ctx.escrow_balance + recipient_start,
        total
    );

    let mut rctx = Release {
        escrow: ctx.escrow,
        escrow_balance: ctx.escrow_balance,
        recipient_balance: recipient_start,
        initializer: ident(1),
    };
    assert_eq!(release(&mut rctx), Ok(()));
    assert_eq!(
        ctx.initializer_balance + rctx.escrow_balance + rctx.recipient_balance,
        total
    );

    // and along the cancel path
    let mut ctx2 = CreateEscrow {
        initializer: ident(1),
        initializer_balance: initializer_start,
        escrow: blank_record(),
        escrow_balance: 0,
    };
    assert_eq!(create_escrow(&mut ctx2, ident(2), 125), Ok(()));
    let mut cctx = Cancel {
        escrow: ctx2.escrow,
        escrow_balance: ctx2.escrow_balance,
        initializer: ident(1),
        initializer_balance: ctx2.initializer_balance,
    };
    assert_eq!(cancel(&mut cctx), Ok(()));
    assert_eq!(
        cctx.initializer_balance + cctx.escrow_balance + recipient_start,
        total
    );
    assert_eq!(cctx.initializer_balance, initializer_start);
}

/// Authorization: every caller but the recorded initializer is turned away
/// with `Unauthorized` on an active record, and nothing moves.
#[test]
fn only_the_initializer_may_settle() {
    let active = EscrowState {
        initializer: ident(1),
        recipient: ident(2),
        amount: 60,
        released: false,
    };
    for caller in [ident(0), ident(2), ident(77)] {
        let mut rctx = Release {
            escrow: active,
            escrow_balance: 60,
            recipient_balance: 5,
            initializer: caller,
        };
        let before = rctx;
        assert_eq!(release(&mut rctx), Err(EscrowError::Unauthorized));
        assert_eq!(rctx, before);

        let mut cctx = Cancel {
            escrow: active,
            escrow_balance: 60,
            initializer: caller,
            initializer_balance: 5,
        };
        let cbefore = cctx;
        assert_eq!(cancel(&mut cctx), Err(EscrowError::Unauthorized));
        assert_eq!(cctx, cbefore);
    }
}

/// Idempotent failure: the second of two releases in sequence fails with
/// `AlreadyReleased` and moves no balance.
#[test]
fn second_release_moves_nothing() {
    let mut rctx = Release {
        escrow: EscrowState {
            initializer: ident(1),
            recipient: ident(2),
            amount: 30,
            released: false,
        },
        escrow_balance: 30,
        recipient_balance: 0,
        initializer: ident(1),
    };
    assert_eq!(release(&mut rctx), Ok(()));
    assert_eq!(rctx.recipient_balance, 30);
    let before = rctx;
    assert_eq!(release(&mut rctx), Err(EscrowError::AlreadyReleased));
    assert_eq!(rctx, before);
    assert_eq!(rctx.recipient_balance, 30);
}

/// Atomicity under failure: when the transfer half cannot go through, the
/// `released` flag stays down on both paths.
#[test]
fn failed_transfer_leaves_flag_down() {
    let active = EscrowState {
        initializer: ident(1),
        recipient: ident(2),
        amount: 80,
        released: false,
    };
    let mut rctx = Release {
        escrow: active,
        escrow_balance: 79,
        recipient_balance: 0,
        initializer: ident(1),
    };
    assert_eq!(release(&mut rctx), Err(EscrowError::InsufficientFunds));
    assert!(!rctx.escrow.released);

    let mut cctx = Cancel {
        escrow: active,
        escrow_balance: 79,
        initializer: ident(1),
        initializer_balance: 0,
    };
    assert_eq!(cancel(&mut cctx), Err(EscrowError::InsufficientFunds));
    assert!(!cctx.escrow.released);
}
