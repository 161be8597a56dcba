//! The laws the processor obeys, stated over the same transition functions
//! that the executable operations are proved to implement.

use vstd::prelude::*;
use crate::contexts::Pay;
use crate::processor::{
    owner_authorized, pay_admitted, spec_initialize, spec_pause, spec_pay, spec_set_receiver,
    spec_unpause,
};
use crate::state::{PaymentDone, PaymentProcessor, PaymentProcessorError, Pubkey};

verus! {

/// Initialization is exactly-once: against an empty slot the first
/// `initialize` succeeds and installs the creator as owner with the pause
/// flag down, and any second `initialize` fails with `AlreadyInitialized`
/// and leaves the slot exactly as the first call left it.
pub proof fn lemma_initialize_exactly_once(
    payer1: Pubkey,
    receiver1: Pubkey,
    mint1: Pubkey,
    payer2: Pubkey,
    receiver2: Pubkey,
    mint2: Pubkey,
)
    ensures
        ({
            let (slot1, res1) = spec_initialize(None, payer1, receiver1, mint1);
            let (slot2, res2) = spec_initialize(slot1, payer2, receiver2, mint2);
            &&& res1 == Ok::<(), PaymentProcessorError>(())
            &&& slot1 == Some(
                PaymentProcessor {
                    owner: payer1,
                    receiver: receiver1,
                    mint: mint1,
                    paused: false,
                },
            )
            &&& res2 == Err::<(), PaymentProcessorError>(
                PaymentProcessorError::AlreadyInitialized,
            )
            &&& slot2 == slot1
        }),
{
}

/// The `owner` and `mint` set by `initialize` are immutable for the life of
/// the deployment: every later operation, whoever calls it and whatever it
/// returns, leaves both fields of the record as it found them.
pub proof fn lemma_owner_and_mint_immutable(
    record: PaymentProcessor,
    signer: Pubkey,
    new_receiver: Pubkey,
    ctx: Pay,
    amount: u64,
    payment_id: u64,
    now: i64,
)
    ensures
        spec_set_receiver(record, signer, new_receiver).0.owner == record.owner,
        spec_set_receiver(record, signer, new_receiver).0.mint == record.mint,
        spec_pause(record, signer).0.owner == record.owner,
        spec_pause(record, signer).0.mint == record.mint,
        spec_unpause(record, signer).0.owner == record.owner,
        spec_unpause(record, signer).0.mint == record.mint,
        spec_pay(ctx, amount, payment_id, now).0.payment_processor == ctx.payment_processor,
{
}

/// Only the stored owner can succeed at `set_receiver`, `pause` or `unpause`:
/// each succeeds exactly when the verified signer is the stored owner, and
/// any other caller gets `Unauthorized` with the record left unchanged.
pub proof fn lemma_admin_ops_owner_only(
    record: PaymentProcessor,
    signer: Pubkey,
    new_receiver: Pubkey,
)
    ensures
        spec_set_receiver(record, signer, new_receiver).1 is Ok <==> signer == record.owner,
        spec_pause(record, signer).1 is Ok <==> signer == record.owner,
        spec_unpause(record, signer).1 is Ok <==> signer == record.owner,
        signer != record.owner ==> spec_set_receiver(record, signer, new_receiver) == (
            record,
            Err::<(), PaymentProcessorError>(PaymentProcessorError::Unauthorized),
        ),
        signer != record.owner ==> spec_pause(record, signer) == (
            record,
            Err::<(), PaymentProcessorError>(PaymentProcessorError::Unauthorized),
        ),
        signer != record.owner ==> spec_unpause(record, signer) == (
            record,
            Err::<(), PaymentProcessorError>(PaymentProcessorError::Unauthorized),
        ),
{
}

/// `pause` then `unpause` by the owner returns a running record to exactly
/// its original state; both calls succeed.
pub proof fn lemma_pause_unpause_round_trip(record: PaymentProcessor, signer: Pubkey)
    requires
        owner_authorized(record, signer),
        !record.paused,
    ensures
        ({
            let (halted, res1) = spec_pause(record, signer);
            let (resumed, res2) = spec_unpause(halted, signer);
            &&& res1 == Ok::<(), PaymentProcessorError>(())
            &&& res2 == Ok::<(), PaymentProcessorError>(())
            &&& halted.paused
            &&& resumed == record
        }),
{
}

/// `pause` twice in a row by the owner: the second call succeeds and is a
/// no-op, leaving the record exactly as the first call left it, still paused.
pub proof fn lemma_pause_idempotent(record: PaymentProcessor, signer: Pubkey)
    requires
        owner_authorized(record, signer),
    ensures
        ({
            let (once, res1) = spec_pause(record, signer);
            let (twice, res2) = spec_pause(once, signer);
            &&& res1 == Ok::<(), PaymentProcessorError>(())
            &&& res2 == Ok::<(), PaymentProcessorError>(())
            &&& twice == once
            &&& once.paused
        }),
{
}

/// A payment whose payer account carries a foreign token type fails with
/// `InvalidMint`, whatever the amount and the pause state, and nothing —
/// in particular no ledger balance — changes.
pub proof fn lemma_pay_rejects_foreign_mint(ctx: Pay, amount: u64, payment_id: u64, now: i64)
    requires
        ctx.payer_token_account.mint != ctx.payment_processor.mint,
    ensures
        spec_pay(ctx, amount, payment_id, now) == (
            ctx,
            Err::<PaymentDone, PaymentProcessorError>(PaymentProcessorError::InvalidMint),
        ),
{
}

/// A payment against a paused processor fails with `PaymentProcessorPaused`
/// even when every account and token-type check would pass, and nothing
/// changes. (When a token-type check fails as well, that earlier check's
/// error is reported instead.)
pub proof fn lemma_pay_rejects_when_paused(ctx: Pay, amount: u64, payment_id: u64, now: i64)
    requires
        ctx.payment_processor.paused,
        ctx.payer_token_account.mint == ctx.payment_processor.mint,
        ctx.receiver_token_account.mint == ctx.payment_processor.mint,
    ensures
        spec_pay(ctx, amount, payment_id, now) == (
            ctx,
            Err::<PaymentDone, PaymentProcessorError>(
                PaymentProcessorError::PaymentProcessorPaused,
            ),
        ),
{
}

/// A successful payment moves exactly `amount`: when every check passes and
/// the ledger admits the movement, the payer's balance falls and the
/// receiver's rises by exactly `amount`, the record and every identity stay
/// as they were, and the one notification produced carries that amount, that
/// payment identifier, the payer, and the ledger time of the call.
pub proof fn lemma_pay_success_effects(ctx: Pay, amount: u64, payment_id: u64, now: i64)
    requires
        pay_admitted(ctx),
        ctx.payer_token_account.amount >= amount,
        ctx.receiver_token_account.amount + amount <= u64::MAX,
    ensures
        ({
            let (after, res) = spec_pay(ctx, amount, payment_id, now);
            &&& res == Ok::<PaymentDone, PaymentProcessorError>(
                PaymentDone { payer: ctx.payer, amount, payment_id, timestamp: now },
            )
            &&& after.payer_token_account.amount == ctx.payer_token_account.amount - amount
            &&& after.receiver_token_account.amount == ctx.receiver_token_account.amount + amount
            &&& after.payer_token_account.mint == ctx.payer_token_account.mint
            &&& after.payer_token_account.owner == ctx.payer_token_account.owner
            &&& after.receiver_token_account.mint == ctx.receiver_token_account.mint
            &&& after.receiver_token_account.owner == ctx.receiver_token_account.owner
            &&& after.payment_processor == ctx.payment_processor
            &&& after.payer == ctx.payer
            &&& after.receiver == ctx.receiver
        }),
{
}

} // verus!
