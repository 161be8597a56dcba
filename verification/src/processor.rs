use vstd::prelude::*;
use crate::contexts::{Initialize, Pause, Pay, SetReceiver, Unpause};
use crate::state::{PaymentDone, PaymentProcessor, PaymentProcessorError, Pubkey, TokenAccount};

verus! {

// ---------------------------------------------------------------------------
// Authorization guard
// ---------------------------------------------------------------------------

/// The caller `signer` holds administrative rights over `record`: the external
/// substrate has verified their signature, and they are the stored owner.
pub open spec fn owner_authorized(record: PaymentProcessor, signer: Pubkey) -> bool {
    signer == record.owner
}

/// Authorization guard for administrative mutations: admits the caller exactly
/// when the verified signer is the record's stored owner.
pub fn authorize_owner(record: &PaymentProcessor, signer: &Pubkey) -> (r: Result<
    (),
    PaymentProcessorError,
>)
    ensures
        r is Ok <==> owner_authorized(*record, *signer),
        r is Err ==> r == Err::<(), PaymentProcessorError>(PaymentProcessorError::Unauthorized),
{
    if *signer == record.owner {
        Ok(())
    } else {
        Err(PaymentProcessorError::Unauthorized)
    }
}

// ---------------------------------------------------------------------------
// Record lifecycle: initialize, set_receiver, pause, unpause
// ---------------------------------------------------------------------------

/// Transition of the record slot under `initialize`: creation succeeds exactly
/// when the slot is still empty, and then sets `owner` to the creator,
/// `receiver` and `mint` to the given arguments, and `paused` to false.
pub open spec fn spec_initialize(
    slot: Option<PaymentProcessor>,
    payer: Pubkey,
    receiver: Pubkey,
    mint: Pubkey,
) -> (Option<PaymentProcessor>, Result<(), PaymentProcessorError>) {
    match slot {
        Some(record) => (Some(record), Err(PaymentProcessorError::AlreadyInitialized)),
        None => (
            Some(PaymentProcessor { owner: payer, receiver, mint, paused: false }),
            Ok(()),
        ),
    }
}

/// Creates the singleton record at the fixed label.
///
/// Fails with `AlreadyInitialized`, leaving the slot untouched, when a record
/// already exists; otherwise fills the slot with a record owned by the
/// verified signer, accepting `mint`, paying to `receiver`, and not paused.
pub fn initialize(ctx: &mut Initialize, receiver: Pubkey, mint: Pubkey) -> (r: Result<
    (),
    PaymentProcessorError,
>)
    ensures
        (final(ctx).payment_processor, r) == spec_initialize(
            old(ctx).payment_processor,
            old(ctx).payer,
            receiver,
            mint,
        ),
        final(ctx).payer == old(ctx).payer,
        r is Ok <==> old(ctx).payment_processor is None,
        r is Err ==> *final(ctx) == *old(ctx),
{
    if ctx.payment_processor.is_some() {
        return Err(PaymentProcessorError::AlreadyInitialized);
    }
    ctx.payment_processor = Some(
        PaymentProcessor { owner: ctx.payer, receiver, mint, paused: false },
    );
    Ok(())
}

/// Transition of the record under `set_receiver`: only the stored owner may
/// overwrite `receiver`; every other caller is rejected with `Unauthorized`
/// and the record is left unchanged.
pub open spec fn spec_set_receiver(
    record: PaymentProcessor,
    signer: Pubkey,
    new_receiver: Pubkey,
) -> (PaymentProcessor, Result<(), PaymentProcessorError>) {
    if owner_authorized(record, signer) {
        (
            PaymentProcessor {
                owner: record.owner,
                receiver: new_receiver,
                mint: record.mint,
                paused: record.paused,
            },
            Ok(()),
        )
    } else {
        (record, Err(PaymentProcessorError::Unauthorized))
    }
}

/// Updates the receiver identity. Requires the verified signer to be the
/// stored owner; no other field of the record changes.
pub fn set_receiver(ctx: &mut SetReceiver, new_receiver: Pubkey) -> (r: Result<
    (),
    PaymentProcessorError,
>)
    ensures
        (final(ctx).payment_processor, r) == spec_set_receiver(
            old(ctx).payment_processor,
            old(ctx).owner,
            new_receiver,
        ),
        final(ctx).owner == old(ctx).owner,
        r is Ok <==> owner_authorized(old(ctx).payment_processor, old(ctx).owner),
        r is Err ==> *final(ctx) == *old(ctx),
{
    match authorize_owner(&ctx.payment_processor, &ctx.owner) {
        Ok(()) => {
            ctx.payment_processor.receiver = new_receiver;
            Ok(())
        },
        Err(e) => Err(e),
    }
}

/// Transition of the record under `pause`: only the stored owner may raise the
/// pause flag. Pausing an already paused record succeeds and changes nothing.
pub open spec fn spec_pause(record: PaymentProcessor, signer: Pubkey) -> (
    PaymentProcessor,
    Result<(), PaymentProcessorError>,
) {
    if owner_authorized(record, signer) {
        (
            PaymentProcessor {
                owner: record.owner,
                receiver: record.receiver,
                mint: record.mint,
                paused: true,
            },
            Ok(()),
        )
    } else {
        (record, Err(PaymentProcessorError::Unauthorized))
    }
}

/// Halts all payments. Requires the verified signer to be the stored owner;
/// idempotent when the record is already paused.
pub fn pause(ctx: &mut Pause) -> (r: Result<(), PaymentProcessorError>)
    ensures
        (final(ctx).payment_processor, r) == spec_pause(
            old(ctx).payment_processor,
            old(ctx).owner,
        ),
        final(ctx).owner == old(ctx).owner,
        r is Ok <==> owner_authorized(old(ctx).payment_processor, old(ctx).owner),
        r is Err ==> *final(ctx) == *old(ctx),
{
    match authorize_owner(&ctx.payment_processor, &ctx.owner) {
        Ok(()) => {
            ctx.payment_processor.paused = true;
            Ok(())
        },
        Err(e) => Err(e),
    }
}

/// Transition of the record under `unpause`: only the stored owner may clear
/// the pause flag. Unpausing a running record succeeds and changes nothing.
pub open spec fn spec_unpause(record: PaymentProcessor, signer: Pubkey) -> (
    PaymentProcessor,
    Result<(), PaymentProcessorError>,
) {
    if owner_authorized(record, signer) {
        (
            PaymentProcessor {
                owner: record.owner,
                receiver: record.receiver,
                mint: record.mint,
                paused: false,
            },
            Ok(()),
        )
    } else {
        (record, Err(PaymentProcessorError::Unauthorized))
    }
}

/// Resumes payments. Requires the verified signer to be the stored owner;
/// idempotent when the record is not paused.
pub fn unpause(ctx: &mut Unpause) -> (r: Result<(), PaymentProcessorError>)
    ensures
        (final(ctx).payment_processor, r) == spec_unpause(
            old(ctx).payment_processor,
            old(ctx).owner,
        ),
        final(ctx).owner == old(ctx).owner,
        r is Ok <==> owner_authorized(old(ctx).payment_processor, old(ctx).owner),
        r is Err ==> *final(ctx) == *old(ctx),
{
    match authorize_owner(&ctx.payment_processor, &ctx.owner) {
        Ok(()) => {
            ctx.payment_processor.paused = false;
            Ok(())
        },
        Err(e) => Err(e),
    }
}

// ---------------------------------------------------------------------------
// The ledger's transfer step
// ---------------------------------------------------------------------------

/// Whether the ledger accepts moving `amount` from `from` to `to`, and the
/// error it reports otherwise: the debited account must hold at least
/// `amount`, and the credited balance must still fit in 64 bits.
pub open spec fn spec_ledger_check(from: TokenAccount, to: TokenAccount, amount: u64) -> Result<
    (),
    PaymentProcessorError,
> {
    if from.amount < amount {
        Err(PaymentProcessorError::InsufficientFunds)
    } else if to.amount + amount > u64::MAX {
        Err(PaymentProcessorError::BalanceOverflow)
    } else {
        Ok(())
    }
}

/// The ledger's value movement: debits `from` and credits `to` by exactly
/// `amount`, or fails atomically, leaving both accounts untouched. Mint and
/// owner of both accounts never change.
pub fn transfer(from: &mut TokenAccount, to: &mut TokenAccount, amount: u64) -> (r: Result<
    (),
    PaymentProcessorError,
>)
    ensures
        r == spec_ledger_check(*old(from), *old(to), amount),
        r is Ok ==> final(from).amount == old(from).amount - amount,
        r is Ok ==> final(to).amount == old(to).amount + amount,
        final(from).mint == old(from).mint && final(from).owner == old(from).owner,
        final(to).mint == old(to).mint && final(to).owner == old(to).owner,
        r is Err ==> *final(from) == *old(from) && *final(to) == *old(to),
{
    if from.amount < amount {
        return Err(PaymentProcessorError::InsufficientFunds);
    }
    if amount > u64::MAX - to.amount {
        return Err(PaymentProcessorError::BalanceOverflow);
    }
    from.amount = from.amount - amount;
    to.amount = to.amount + amount;
    Ok(())
}

// ---------------------------------------------------------------------------
// The payment path
// ---------------------------------------------------------------------------

/// The payer's token account holds the configured token type.
pub open spec fn payer_mint_matches(ctx: Pay) -> bool {
    ctx.payer_token_account.mint == ctx.payment_processor.mint
}

/// The receiver's token account holds the configured token type.
pub open spec fn receiver_mint_matches(ctx: Pay) -> bool {
    ctx.receiver_token_account.mint == ctx.payment_processor.mint
}

/// The receiver's token account is bound to the stored configuration: its
/// owner is the stored receiver, and the stored receiver is the declared one.
pub open spec fn receiver_bound(ctx: Pay) -> bool {
    ctx.receiver_token_account.owner == ctx.payment_processor.receiver
        && ctx.payment_processor.receiver == ctx.receiver
}

/// All preconditions of a payment hold: both token accounts carry the
/// configured token type, the processor is not paused, and the receiver
/// account is bound to the stored receiver.
pub open spec fn pay_admitted(ctx: Pay) -> bool {
    payer_mint_matches(ctx) && receiver_mint_matches(ctx) && !ctx.payment_processor.paused
        && receiver_bound(ctx)
}

/// The payment gate: which check fails first, in the order the checks run.
pub open spec fn spec_pay_gate(ctx: Pay) -> Result<(), PaymentProcessorError> {
    if !payer_mint_matches(ctx) {
        Err(PaymentProcessorError::InvalidMint)
    } else if !receiver_mint_matches(ctx) {
        Err(PaymentProcessorError::ReceiverTokenMintMismatch)
    } else if ctx.payment_processor.paused {
        Err(PaymentProcessorError::PaymentProcessorPaused)
    } else if !receiver_bound(ctx) {
        Err(PaymentProcessorError::Unauthorized)
    } else {
        Ok(())
    }
}

/// Transition of the whole account set under `pay`: either every check and the
/// ledger movement succeed, balances move by exactly `amount`, and one
/// `PaymentDone` is produced, or nothing changes and the first failing check's
/// error is reported.
pub open spec fn spec_pay(ctx: Pay, amount: u64, payment_id: u64, now: i64) -> (
    Pay,
    Result<PaymentDone, PaymentProcessorError>,
) {
    match spec_pay_gate(ctx) {
        Err(e) => (ctx, Err(e)),
        Ok(()) => match spec_ledger_check(
            ctx.payer_token_account,
            ctx.receiver_token_account,
            amount,
        ) {
            Err(e) => (ctx, Err(e)),
            Ok(()) => (
                Pay {
                    payer: ctx.payer,
                    payer_token_account: TokenAccount {
                        mint: ctx.payer_token_account.mint,
                        owner: ctx.payer_token_account.owner,
                        amount: (ctx.payer_token_account.amount - amount) as u64,
                    },
                    receiver_token_account: TokenAccount {
                        mint: ctx.receiver_token_account.mint,
                        owner: ctx.receiver_token_account.owner,
                        amount: (ctx.receiver_token_account.amount + amount) as u64,
                    },
                    payment_processor: ctx.payment_processor,
                    receiver: ctx.receiver,
                },
                Ok(PaymentDone { payer: ctx.payer, amount, payment_id, timestamp: now }),
            ),
        },
    }
}

/// Moves `amount` of the configured token from the payer to the receiver.
///
/// Checks, in order: the payer's account carries the configured token type
/// (`InvalidMint` otherwise), the receiver's account does too
/// (`ReceiverTokenMintMismatch`), the processor is not paused
/// (`PaymentProcessorPaused`), and the receiver's account is bound to the
/// stored receiver (`Unauthorized`). Then the ledger movement runs, and its
/// failure aborts the call just as atomically. On success, the payer's
/// balance falls and the receiver's rises by exactly `amount`, the record is
/// unchanged, and the one `PaymentDone` notification carries the payer,
/// `amount`, `payment_id`, and the ledger time `now` supplied by the caller.
pub fn pay(ctx: &mut Pay, amount: u64, payment_id: u64, now: i64) -> (r: Result<
    PaymentDone,
    PaymentProcessorError,
>)
    ensures
        ({
            let (ctx_after, res) = spec_pay(*old(ctx), amount, payment_id, now);
            *final(ctx) == ctx_after && r == res
        }),
        final(ctx).payment_processor == old(ctx).payment_processor,
        r is Err ==> *final(ctx) == *old(ctx),
        r is Ok ==> r == Ok::<PaymentDone, PaymentProcessorError>(
            PaymentDone { payer: old(ctx).payer, amount, payment_id, timestamp: now },
        ),
{
    if ctx.payment_processor.mint != ctx.payer_token_account.mint {
        return Err(PaymentProcessorError::InvalidMint);
    }
    if ctx.payment_processor.mint != ctx.receiver_token_account.mint {
        return Err(PaymentProcessorError::ReceiverTokenMintMismatch);
    }
    if ctx.payment_processor.paused {
        return Err(PaymentProcessorError::PaymentProcessorPaused);
    }
    if ctx.receiver_token_account.owner != ctx.payment_processor.receiver {
        return Err(PaymentProcessorError::Unauthorized);
    }
    if ctx.payment_processor.receiver != ctx.receiver {
        return Err(PaymentProcessorError::Unauthorized);
    }
    match transfer(&mut ctx.payer_token_account, &mut ctx.receiver_token_account, amount) {
        Ok(()) => Ok(PaymentDone { payer: ctx.payer, amount, payment_id, timestamp: now }),
        Err(e) => Err(e),
    }
}

} // verus!
