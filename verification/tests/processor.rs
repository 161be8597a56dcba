use payment_processor::{
    authorize_owner, initialize, pause, pay, set_receiver, transfer, unpause, Initialize, Pause,
    Pay, PaymentDone, PaymentProcessor, PaymentProcessorError, Pubkey, SetReceiver, TokenAccount,
    Transfer, Unpause, PAYMENT_PROCESSOR_SIZE,
};

fn key(n: u64) -> Pubkey {
    Pubkey::new(n, n ^ 0xDEAD, n.wrapping_mul(31), 7)
}

fn record(owner: Pubkey, receiver: Pubkey, mint: Pubkey, paused: bool) -> PaymentProcessor {
    PaymentProcessor { owner, receiver, mint, paused }
}

fn pay_ctx(amounts: (u64, u64), paused: bool) -> Pay {
    let payer = key(1);
    let receiver = key(2);
    let mint = key(3);
    Pay {
        payer,
        payer_token_account: TokenAccount { mint, owner: payer, amount: amounts.0 },
        receiver_token_account: TokenAccount { mint, owner: receiver, amount: amounts.1 },
        payment_processor: record(key(9), receiver, mint, paused),
        receiver,
    }
}

#[test]
fn initialize_creates_record() {
    let mut ctx = Initialize { payment_processor: None, payer: key(1) };
    let r = initialize(&mut ctx, key(2), key(3));
    assert_eq!(r, Ok(()));
    assert_eq!(
        ctx.payment_processor,
        Some(record(key(1), key(2), key(3), false))
    );
    assert_eq!(ctx.payer, key(1));
}

#[test]
fn second_initialize_fails() {
    let mut ctx = Initialize { payment_processor: None, payer: key(1) };
    assert_eq!(initialize(&mut ctx, key(2), key(3)), Ok(()));
    let first = ctx;
    let r = initialize(&mut ctx, key(4), key(5));
    assert_eq!(r, Err(PaymentProcessorError::AlreadyInitialized));
    assert_eq!(ctx, first);
}

#[test]
fn authorize_owner_admits_only_the_owner() {
    let rec = record(key(1), key(2), key(3), false);
    assert_eq!(authorize_owner(&rec, &key(1)), Ok(()));
    assert_eq!(
        authorize_owner(&rec, &key(4)),
        Err(PaymentProcessorError::Unauthorized)
    );
}

#[test]
fn set_receiver_by_owner_succeeds() {
    let mut ctx = SetReceiver {
        payment_processor: record(key(1), key(2), key(3), false),
        owner: key(1),
    };
    let r = set_receiver(&mut ctx, key(8));
    assert_eq!(r, Ok(()));
    assert_eq!(ctx.payment_processor, record(key(1), key(8), key(3), false));
}

#[test]
fn set_receiver_by_other_fails_unchanged() {
    let before = SetReceiver {
        payment_processor: record(key(1), key(2), key(3), true),
        owner: key(4),
    };
    let mut ctx = before;
    let r = set_receiver(&mut ctx, key(8));
    assert_eq!(r, Err(PaymentProcessorError::Unauthorized));
    assert_eq!(ctx, before);
}

#[test]
fn pause_and_unpause_by_other_fail_unchanged() {
    let rec = record(key(1), key(2), key(3), false);
    let mut pctx = Pause { payment_processor: rec, owner: key(4) };
    assert_eq!(pause(&mut pctx), Err(PaymentProcessorError::Unauthorized));
    assert_eq!(pctx.payment_processor, rec);

    let rec_up = record(key(1), key(2), key(3), true);
    let mut uctx = Unpause { payment_processor: rec_up, owner: key(4) };
    assert_eq!(unpause(&mut uctx), Err(PaymentProcessorError::Unauthorized));
    assert_eq!(uctx.payment_processor, rec_up);
}

#[test]
fn pause_unpause_round_trip() {
    let rec = record(key(1), key(2), key(3), false);
    let mut pctx = Pause { payment_processor: rec, owner: key(1) };
    assert_eq!(pause(&mut pctx), Ok(()));
    assert!(pctx.payment_processor.paused);

    let mut uctx = Unpause { payment_processor: pctx.payment_processor, owner: key(1) };
    assert_eq!(unpause(&mut uctx), Ok(()));
    assert_eq!(uctx.payment_processor, rec);
}

#[test]
fn pause_twice_is_a_noop_second_time() {
    let mut ctx = Pause {
        payment_processor: record(key(1), key(2), key(3), false),
        owner: key(1),
    };
    assert_eq!(pause(&mut ctx), Ok(()));
    let after_first = ctx.payment_processor;
    assert_eq!(pause(&mut ctx), Ok(()));
    assert_eq!(ctx.payment_processor, after_first);
    assert!(ctx.payment_processor.paused);
}

#[test]
fn pay_rejects_wrong_payer_mint_even_when_paused() {
    for paused in [false, true] {
        let mut ctx = pay_ctx((1_000, 0), paused);
        ctx.payer_token_account.mint = key(99);
        let before = ctx;
        let r = pay(&mut ctx, 500, 7, 1);
        assert_eq!(r, Err(PaymentProcessorError::InvalidMint));
        assert_eq!(ctx, before);
    }
}

#[test]
fn pay_rejects_wrong_receiver_mint() {
    let mut ctx = pay_ctx((1_000, 0), false);
    ctx.receiver_token_account.mint = key(99);
    let before = ctx;
    let r = pay(&mut ctx, 500, 7, 1);
    assert_eq!(r, Err(PaymentProcessorError::ReceiverTokenMintMismatch));
    assert_eq!(ctx, before);
}

#[test]
fn pay_rejects_while_paused() {
    let mut ctx = pay_ctx((1_000, 0), true);
    let before = ctx;
    let r = pay(&mut ctx, 500, 7, 1);
    assert_eq!(r, Err(PaymentProcessorError::PaymentProcessorPaused));
    assert_eq!(ctx, before);
}

#[test]
fn pay_rejects_unbound_receiver_account() {
    let mut ctx = pay_ctx((1_000, 0), false);
    ctx.receiver_token_account.owner = key(55);
    let before = ctx;
    assert_eq!(pay(&mut ctx, 500, 7, 1), Err(PaymentProcessorError::Unauthorized));
    assert_eq!(ctx, before);

    let mut ctx2 = pay_ctx((1_000, 0), false);
    ctx2.receiver = key(55);
    let before2 = ctx2;
    assert_eq!(pay(&mut ctx2, 500, 7, 1), Err(PaymentProcessorError::Unauthorized));
    assert_eq!(ctx2, before2);
}

#[test]
fn pay_rejects_insufficient_funds() {
    let mut ctx = pay_ctx((499, 10), false);
    let before = ctx;
    assert_eq!(pay(&mut ctx, 500, 7, 1), Err(PaymentProcessorError::InsufficientFunds));
    assert_eq!(ctx, before);
}

#[test]
fn pay_rejects_receiver_balance_overflow() {
    let mut ctx = pay_ctx((1_000, u64::MAX - 499), false);
    let before = ctx;
    assert_eq!(pay(&mut ctx, 500, 7, 1), Err(PaymentProcessorError::BalanceOverflow));
    assert_eq!(ctx, before);
}

#[test]
fn pay_moves_exactly_the_amount_and_emits_once() {
    let mut ctx = pay_ctx((5_000_000, 10), false);
    let r = pay(&mut ctx, 1_000_000, 42, 1_700_000_000);
    assert_eq!(
        r,
        Ok(PaymentDone {
            payer: key(1),
            amount: 1_000_000,
            payment_id: 42,
            timestamp: 1_700_000_000,
        })
    );
    assert_eq!(ctx.payer_token_account.amount, 4_000_000);
    assert_eq!(ctx.receiver_token_account.amount, 1_000_010);
    assert_eq!(ctx.payment_processor, pay_ctx((0, 0), false).payment_processor);
}

#[test]
fn pay_of_zero_is_a_permitted_noop_transfer() {
    let mut ctx = pay_ctx((100, 200), false);
    let r = pay(&mut ctx, 0, 7, 5);
    assert_eq!(
        r,
        Ok(PaymentDone { payer: key(1), amount: 0, payment_id: 7, timestamp: 5 })
    );
    assert_eq!(ctx.payer_token_account.amount, 100);
    assert_eq!(ctx.receiver_token_account.amount, 200);
}

#[test]
fn receiver_update_redirects_payments() {
    // initialize(receiver = R, mint = T), then the owner moves the receiver
    // to R2: a payment bound to R2 succeeds, one still bound to R fails.
    let owner = key(10);
    let r1 = key(11);
    let r2 = key(12);
    let t = key(13);

    let mut init = Initialize { payment_processor: None, payer: owner };
    assert_eq!(initialize(&mut init, r1, t), Ok(()));

    let mut set = SetReceiver {
        payment_processor: init.payment_processor.unwrap(),
        owner,
    };
    assert_eq!(set_receiver(&mut set, r2), Ok(()));
    assert_eq!(set.payment_processor.receiver, r2);

    let payer = key(14);
    let mut good = Pay {
        payer,
        payer_token_account: TokenAccount { mint: t, owner: payer, amount: 2_000_000 },
        receiver_token_account: TokenAccount { mint: t, owner: r2, amount: 0 },
        payment_processor: set.payment_processor,
        receiver: r2,
    };
    let done = pay(&mut good, 1_000_000, 42, 9);
    assert_eq!(
        done,
        Ok(PaymentDone { payer, amount: 1_000_000, payment_id: 42, timestamp: 9 })
    );
    assert_eq!(good.receiver_token_account.amount, 1_000_000);

    let mut stale = Pay {
        payer,
        payer_token_account: TokenAccount { mint: t, owner: payer, amount: 2_000_000 },
        receiver_token_account: TokenAccount { mint: t, owner: r1, amount: 0 },
        payment_processor: set.payment_processor,
        receiver: r1,
    };
    let before = stale;
    assert_eq!(pay(&mut stale, 1_000_000, 42, 9), Err(PaymentProcessorError::Unauthorized));
    assert_eq!(stale, before);
}

#[test]
fn pay_needs_no_administrative_rights() {
    // A caller who cannot pause the processor can still pay through it.
    let intruder = key(21);
    let rec = record(key(20), key(2), key(3), false);
    let mut pctx = Pause { payment_processor: rec, owner: intruder };
    assert_eq!(pause(&mut pctx), Err(PaymentProcessorError::Unauthorized));
    assert!(!pctx.payment_processor.paused);

    let mut ctx = Pay {
        payer: intruder,
        payer_token_account: TokenAccount { mint: key(3), owner: intruder, amount: 1_000 },
        receiver_token_account: TokenAccount { mint: key(3), owner: key(2), amount: 0 },
        payment_processor: pctx.payment_processor,
        receiver: key(2),
    };
    let r = pay(&mut ctx, 600, 8, 2);
    assert_eq!(
        r,
        Ok(PaymentDone { payer: intruder, amount: 600, payment_id: 8, timestamp: 2 })
    );
    assert_eq!(ctx.payer_token_account.amount, 400);
    assert_eq!(ctx.receiver_token_account.amount, 600);
}

#[test]
fn transfer_moves_balances_exactly() {
    let mut from = TokenAccount { mint: key(3), owner: key(1), amount: 70 };
    let mut to = TokenAccount { mint: key(3), owner: key(2), amount: 5 };
    assert_eq!(transfer(&mut from, &mut to, 70), Ok(()));
    assert_eq!(from.amount, 0);
    assert_eq!(to.amount, 75);
}

#[test]
fn transfer_ctx_names_the_payment_accounts() {
    let ctx = pay_ctx((50, 60), false);
    let t = ctx.transfer_ctx();
    assert_eq!(
        t,
        Transfer {
            from: ctx.payer_token_account,
            to: ctx.receiver_token_account,
            authority: ctx.payer,
        }
    );
}

#[test]
fn persisted_record_size_counts_every_field() {
    // 8-byte header, three 32-byte identities, one pause byte.
    assert_eq!(PAYMENT_PROCESSOR_SIZE, 105);
}
