use vstd::prelude::*;

verus! {

/// A 32-byte account identity, held as four 64-bit words.
///
/// Identities are opaque principals: the processor never inspects them beyond
/// comparing two of them for equality.
#[derive(Clone, Copy, Debug, PartialEq, Eq, Structural)]
pub struct Pubkey {
    pub w0: u64,
    pub w1: u64,
    pub w2: u64,
    pub w3: u64,
}

impl Pubkey {
    /// Builds an identity from its four 64-bit words.
    pub fn new(w0: u64, w1: u64, w2: u64, w3: u64) -> (k: Pubkey)
        ensures
            k == (Pubkey { w0, w1, w2, w3 }),
    {
        Pubkey { w0, w1, w2, w3 }
    }
}

/// The processor's view of a fungible-token account in the external ledger:
/// which token type it holds, which identity owns it, and its balance in the
/// smallest denomination of the token.
#[derive(Clone, Copy, Debug, PartialEq, Eq, Structural)]
pub struct TokenAccount {
    /// Token type held by this account.
    pub mint: Pubkey,
    /// Identity that owns this account.
    pub owner: Pubkey,
    /// Balance, in the smallest denomination of the token.
    pub amount: u64,
}

/// The singleton configuration record, one per deployment, stored at a fixed
/// well-known label.
#[derive(Clone, Copy, Debug, PartialEq, Eq, Structural)]
pub struct PaymentProcessor {
    /// The only identity permitted to perform administrative mutations.
    /// Set once at creation and never changed afterwards.
    pub owner: Pubkey,
    /// The identity entitled to receive token value. Mutable only by `owner`.
    pub receiver: Pubkey,
    /// The exact token type this processor accepts. Immutable after creation.
    pub mint: Pubkey,
    /// While true, every payment is rejected. Mutable only by `owner`.
    pub paused: bool,
}

/// Bytes of the persisted record: an 8-byte header, three 32-byte identities,
/// and one byte for the pause flag.
pub const PAYMENT_PROCESSOR_SIZE: usize = 8 + 32 + 32 + 32 + 1;

/// Notification describing one completed payment, produced exactly once per
/// successful transfer and consumed only by external observers.
#[derive(Clone, Copy, Debug, PartialEq, Eq, Structural)]
pub struct PaymentDone {
    /// Identity that paid.
    pub payer: Pubkey,
    /// Amount moved, in the smallest denomination of the token.
    pub amount: u64,
    /// Caller-supplied correlation token; not checked for uniqueness.
    pub payment_id: u64,
    /// Ledger time at which the payment was included.
    pub timestamp: i64,
}

/// The closed set of rejection reasons. Every failure is terminal and leaves
/// all state untouched.
#[derive(Clone, Copy, Debug, PartialEq, Eq, Structural)]
pub enum PaymentProcessorError {
    /// `initialize` was called while a record already exists at the label.
    AlreadyInitialized,
    /// The caller is not the stored `owner`, or the resolved accounts do not
    /// match the stored configuration.
    Unauthorized,
    /// A payment was attempted while the processor is paused.
    PaymentProcessorPaused,
    /// The payer's token account holds a different token type than configured.
    InvalidMint,
    /// The receiver's token account holds a different token type than configured.
    ReceiverTokenMintMismatch,
    /// The ledger reports that the payer's balance is below the requested amount.
    InsufficientFunds,
    /// The ledger reports that the receiver's balance cannot hold the sum.
    BalanceOverflow,
}

} // verus!
