use vstd::prelude::*;
use crate::state::{PaymentProcessor, Pubkey, TokenAccount};

verus! {

/// Account set for `initialize`: the contents of the record slot at the fixed
/// label, and the verified signer who creates (and then owns) the record.
#[derive(Clone, Copy, Debug, PartialEq, Eq, Structural)]
pub struct Initialize {
    /// Contents of the slot at the fixed label; `None` while no record exists.
    pub payment_processor: Option<PaymentProcessor>,
    /// Verified signer of the request; becomes the record's `owner`.
    pub payer: Pubkey,
}

/// Account set for `set_receiver`: the record and the verified signer who
/// claims administrative rights over it.
#[derive(Clone, Copy, Debug, PartialEq, Eq, Structural)]
pub struct SetReceiver {
    /// The configuration record to mutate.
    pub payment_processor: PaymentProcessor,
    /// Verified signer of the request, claiming to be the record's owner.
    pub owner: Pubkey,
}

/// Account set for `pause`: the record and the verified signer who claims
/// administrative rights over it.
#[derive(Clone, Copy, Debug, PartialEq, Eq, Structural)]
pub struct Pause {
    /// The configuration record to mutate.
    pub payment_processor: PaymentProcessor,
    /// Verified signer of the request, claiming to be the record's owner.
    pub owner: Pubkey,
}

/// Account set for `unpause`: the record and the verified signer who claims
/// administrative rights over it.
#[derive(Clone, Copy, Debug, PartialEq, Eq, Structural)]
pub struct Unpause {
    /// The configuration record to mutate.
    pub payment_processor: PaymentProcessor,
    /// Verified signer of the request, claiming to be the record's owner.
    pub owner: Pubkey,
}

/// Account set for `pay`: the payer, the two token accounts, the record, and
/// the declared receiver identity used to resolve the receiver's account.
#[derive(Clone, Copy, Debug, PartialEq, Eq, Structural)]
pub struct Pay {
    /// Verified signer of the request; authorizes the debit of their account.
    pub payer: Pubkey,
    /// The payer's token account, from which value is taken.
    pub payer_token_account: TokenAccount,
    /// The receiver's token account, to which value is moved.
    pub receiver_token_account: TokenAccount,
    /// The configuration record, read but never mutated by a payment.
    pub payment_processor: PaymentProcessor,
    /// The declared receiver identity; must match the stored configuration.
    pub receiver: Pubkey,
}

/// A value-movement order for the external ledger: debit `from`, credit `to`,
/// authorized by `authority` (the payer's own signature).
#[derive(Clone, Copy, Debug, PartialEq, Eq, Structural)]
pub struct Transfer {
    /// Account to debit.
    pub from: TokenAccount,
    /// Account to credit.
    pub to: TokenAccount,
    /// Identity whose signature authorizes the debit.
    pub authority: Pubkey,
}

impl Pay {
    /// Builds the value-movement order for this payment: from the payer's
    /// token account to the receiver's, authorized by the payer.
    pub fn transfer_ctx(&self) -> (t: Transfer)
        ensures
            t == (Transfer {
                from: self.payer_token_account,
                to: self.receiver_token_account,
                authority: self.payer,
            }),
    {
        Transfer {
            from: self.payer_token_account,
            to: self.receiver_token_account,
            authority: self.payer,
        }
    }
}

} // verus!
